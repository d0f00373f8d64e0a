use game_bridge::entry::{all_entry_points, EntryPoint};
use game_bridge::error::{BuildError, FailureReason, LoadError};
use game_bridge::loader::{GameInstanceLoadTask, LoadAction, LoadEvent};
use game_bridge::project::ProjectInfo;
use libloading::Library;

fn sample_project() -> ProjectInfo {
    ProjectInfo { name: "test_game".to_string(), path: "examples/test_game".to_string() }
}

/// A library handle to carry through a task: the running program itself.
fn some_library() -> Library {
    libloading::os::unix::Library::this().into()
}

fn opened_task() -> GameInstanceLoadTask {
    GameInstanceLoadTask::new(&sample_project(), "so")
        .advance(LoadEvent::BuildSpawned(Ok(())))
        .advance(LoadEvent::LibraryOpened(Ok(some_library())))
}

/// Runs a task against a module that exports everything but `missing`.
fn run_without(missing: Option<EntryPoint>) -> GameInstanceLoadTask {
    let mut task = GameInstanceLoadTask::new(&sample_project(), "so");
    let mut actions = 0;
    while !task.is_finished() {
        let event = match task.next_action() {
            LoadAction::SpawnBuild(_) => LoadEvent::BuildSpawned(Ok(())),
            LoadAction::OpenLibrary(_) => LoadEvent::LibraryOpened(Ok(some_library())),
            LoadAction::ResolveSymbol(entry) => LoadEvent::SymbolResolved(Some(entry) != missing),
            LoadAction::Finished => unreachable!(),
        };
        task = task.advance(event);
        actions += 1;
        assert!(actions <= 8);
    }
    task
}

#[test]
fn a_new_task_asks_for_the_build() {
    let task = GameInstanceLoadTask::new(&sample_project(), "so");
    assert!(!task.is_finished());
    assert!(task.library().is_none());
    assert_eq!(task.next_action(), LoadAction::SpawnBuild(sample_project().build_command()));
}

#[test]
fn a_build_that_cannot_start_ends_the_task() {
    let task = GameInstanceLoadTask::new(&sample_project(), "so")
        .advance(LoadEvent::BuildSpawned(Err("program not found".to_string())));
    assert!(task.is_finished());
    assert_eq!(task.next_action(), LoadAction::Finished);
    match task.into_outcome() {
        Some(Err(reason)) => assert_eq!(
            reason,
            FailureReason::Build(BuildError::SpawnFailed("program not found".to_string()))
        ),
        other => panic!("unexpected outcome {:?}", other),
    }
}

#[test]
fn after_the_build_the_artifact_is_opened() {
    let task =
        GameInstanceLoadTask::new(&sample_project(), "dll").advance(LoadEvent::BuildSpawned(Ok(())));
    assert!(!task.is_finished());
    assert_eq!(
        task.next_action(),
        LoadAction::OpenLibrary("examples/test_game/target/debug/test_game.dll".to_string())
    );
}

#[test]
fn an_artifact_that_cannot_be_opened_ends_the_task() {
    let task = GameInstanceLoadTask::new(&sample_project(), "so")
        .advance(LoadEvent::BuildSpawned(Ok(())))
        .advance(LoadEvent::LibraryOpened(Err("cannot open shared object file".to_string())));
    assert!(task.is_finished());
    match task.into_outcome() {
        Some(Err(reason)) => assert_eq!(
            reason,
            FailureReason::Load(LoadError::OpenFailed("cannot open shared object file".to_string()))
        ),
        other => panic!("unexpected outcome {:?}", other),
    }
}

#[test]
fn an_opened_library_is_probed_from_the_first_entry_point() {
    let task = opened_task();
    assert!(!task.is_finished());
    assert!(task.library().is_some());
    assert_eq!(task.next_action(), LoadAction::ResolveSymbol(EntryPoint::CreateInstance));
}

#[test]
fn entry_points_are_probed_in_order() {
    let mut task = opened_task();
    for entry in all_entry_points() {
        assert_eq!(task.next_action(), LoadAction::ResolveSymbol(entry));
        task = task.advance(LoadEvent::SymbolResolved(true));
    }
    assert!(task.is_finished());
    assert_eq!(task.next_action(), LoadAction::Finished);
}

#[test]
fn a_complete_library_becomes_a_handle() {
    let task = run_without(None);
    assert!(task.library().is_none());
    match task.into_outcome() {
        Some(Ok(handle)) => {
            assert_eq!(handle.path(), "examples/test_game/target/debug/test_game.so");
            let _library: &Library = handle.library();
            let _released: Library = handle.into_library();
        }
        other => panic!("unexpected outcome {:?}", other),
    }
}

#[test]
fn each_missing_symbol_is_named() {
    for missing in all_entry_points() {
        let task = run_without(Some(missing));
        match task.into_outcome() {
            Some(Err(reason)) => {
                assert_eq!(reason, FailureReason::Load(LoadError::MissingSymbol(missing)))
            }
            other => panic!("unexpected outcome {:?}", other),
        }
    }
}

#[test]
fn a_missing_tick_is_not_probed_past() {
    let task = opened_task()
        .advance(LoadEvent::SymbolResolved(true))
        .advance(LoadEvent::SymbolResolved(true))
        .advance(LoadEvent::SymbolResolved(false));
    assert!(task.is_finished());
    assert_eq!(task.next_action(), LoadAction::Finished);
    match task.into_outcome() {
        Some(Err(reason)) => assert_eq!(
            reason,
            FailureReason::Load(LoadError::MissingSymbol(EntryPoint::TickInstance))
        ),
        other => panic!("unexpected outcome {:?}", other),
    }
}

#[test]
fn with_two_symbols_missing_the_first_is_named() {
    let mut task = opened_task();
    while !task.is_finished() {
        let found = match task.next_action() {
            LoadAction::ResolveSymbol(entry) => {
                entry != EntryPoint::InitInstance && entry != EntryPoint::BorrowAppPtr
            }
            other => panic!("unexpected action {:?}", other),
        };
        task = task.advance(LoadEvent::SymbolResolved(found));
    }
    match task.into_outcome() {
        Some(Err(reason)) => assert_eq!(
            reason,
            FailureReason::Load(LoadError::MissingSymbol(EntryPoint::InitInstance))
        ),
        other => panic!("unexpected outcome {:?}", other),
    }
}

#[test]
fn an_event_that_answers_nothing_is_ignored() {
    let task = GameInstanceLoadTask::new(&sample_project(), "so");
    let task = task.advance(LoadEvent::SymbolResolved(true));
    let task = task.advance(LoadEvent::LibraryOpened(Ok(some_library())));
    let task = task.advance(LoadEvent::LibraryOpened(Err("early".to_string())));
    assert_eq!(task.next_action(), LoadAction::SpawnBuild(sample_project().build_command()));

    let task = task.advance(LoadEvent::BuildSpawned(Ok(())));
    let task = task.advance(LoadEvent::BuildSpawned(Err("late".to_string())));
    let task = task.advance(LoadEvent::SymbolResolved(false));
    assert_eq!(
        task.next_action(),
        LoadAction::OpenLibrary("examples/test_game/target/debug/test_game.so".to_string())
    );

    let task = task.advance(LoadEvent::LibraryOpened(Ok(some_library())));
    let task = task.advance(LoadEvent::BuildSpawned(Err("late".to_string())));
    let task = task.advance(LoadEvent::LibraryOpened(Err("late".to_string())));
    assert_eq!(task.next_action(), LoadAction::ResolveSymbol(EntryPoint::CreateInstance));
}

#[test]
fn a_finished_task_stays_as_it_ended() {
    let task = run_without(Some(EntryPoint::DestroyInstance))
        .advance(LoadEvent::SymbolResolved(true))
        .advance(LoadEvent::BuildSpawned(Ok(())))
        .advance(LoadEvent::LibraryOpened(Ok(some_library())));
    match task.into_outcome() {
        Some(Err(reason)) => assert_eq!(
            reason,
            FailureReason::Load(LoadError::MissingSymbol(EntryPoint::DestroyInstance))
        ),
        other => panic!("unexpected outcome {:?}", other),
    }
    let task = run_without(None).advance(LoadEvent::SymbolResolved(false));
    assert!(matches!(task.into_outcome(), Some(Ok(_))));
}

#[test]
fn a_task_under_way_has_no_outcome() {
    assert!(GameInstanceLoadTask::new(&sample_project(), "so").into_outcome().is_none());
    assert!(GameInstanceLoadTask::new(&sample_project(), "so")
        .advance(LoadEvent::BuildSpawned(Ok(())))
        .into_outcome()
        .is_none());
    assert!(opened_task().into_outcome().is_none());
}

#[test]
fn every_task_ends_within_eight_actions() {
    for missing in all_entry_points() {
        assert!(run_without(Some(missing)).is_finished());
    }
    assert!(run_without(None).is_finished());
}
