use game_bridge::error::{BuildError, FailureReason, LoadError};
use game_bridge::entry::EntryPoint;
use game_bridge::project::ProjectInfo;

fn test_game() -> ProjectInfo {
    ProjectInfo { name: "test_game".to_string(), path: "examples/test_game".to_string() }
}

#[test]
fn artifact_path_joins_path_name_and_extension() {
    assert_eq!(test_game().artifact_path("dll"), "examples/test_game/target/debug/test_game.dll");
    assert_eq!(test_game().artifact_path("so"), "examples/test_game/target/debug/test_game.so");
    assert_eq!(
        test_game().artifact_path("dylib"),
        "examples/test_game/target/debug/test_game.dylib"
    );
}

#[test]
fn artifact_path_of_empty_parts() {
    let project = ProjectInfo { name: String::new(), path: String::new() };
    assert_eq!(project.artifact_path(""), "/target/debug/.");
}

#[test]
fn artifact_path_keeps_unicode() {
    let project = ProjectInfo { name: "jeu".to_string(), path: "projets/été".to_string() };
    assert_eq!(project.artifact_path("so"), "projets/été/target/debug/jeu.so");
}

#[test]
fn build_command_has_the_fixed_arguments() {
    let cmd = test_game().build_command();
    assert_eq!(cmd.program, "cargo");
    assert_eq!(cmd.args, vec!["build", "--lib", "--features", "editor", "--target-dir", "target"]);
    assert_eq!(cmd.current_dir, "examples/test_game");
}

#[test]
fn build_command_depends_on_the_path_only() {
    let a = ProjectInfo { name: "a".to_string(), path: "here".to_string() };
    let b = ProjectInfo { name: "b".to_string(), path: "here".to_string() };
    let c = ProjectInfo { name: "a".to_string(), path: "there".to_string() };
    assert_eq!(a.build_command(), b.build_command());
    assert_ne!(a.build_command(), c.build_command());
    assert_eq!(c.build_command().current_dir, "there");
}

#[test]
fn duplicate_copies_both_fields() {
    let project = test_game();
    assert_eq!(project.duplicate(), project);
}

#[test]
fn spawn_failure_message() {
    let e = BuildError::SpawnFailed("No such file or directory (os error 2)".to_string());
    assert_eq!(e.message(), "Failed to compile game: No such file or directory (os error 2)");
    assert_eq!(
        FailureReason::Build(e).message(),
        "Failed to compile game: No such file or directory (os error 2)"
    );
}

#[test]
fn open_failure_message() {
    let e = LoadError::OpenFailed("file too short".to_string());
    assert_eq!(e.message(), "Can not load dll library of game: file too short");
    assert_eq!(
        FailureReason::Load(e).message(),
        "Can not load dll library of game: file too short"
    );
}

#[test]
fn missing_symbol_message_names_the_symbol() {
    let e = LoadError::MissingSymbol(EntryPoint::TickInstance);
    assert_eq!(e.message(), "Can not load dll library of game: missing symbol tick_instance");
    let e = FailureReason::Load(LoadError::MissingSymbol(EntryPoint::BorrowWorldPtr));
    assert_eq!(e.message(), "Can not load dll library of game: missing symbol borrow_world_ptr");
}

#[test]
fn empty_failure_text_leaves_the_prefix() {
    assert_eq!(BuildError::SpawnFailed(String::new()).message(), "Failed to compile game: ");
    assert_eq!(
        LoadError::OpenFailed(String::new()).message(),
        "Can not load dll library of game: "
    );
}
