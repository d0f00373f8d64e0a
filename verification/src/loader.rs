//! The load task: build the project, open the artifact, resolve its entry
//! points.
//!
//! The task itself never touches the operating system. It says which action
//! comes next; whoever runs it performs that action and reports what
//! happened; the task then decides how to go on. A task ends either with an
//! opened library that exports every required entry point, or with the reason
//! why there is none.

use crate::entry::{required_entry_points, EntryPoint};
use crate::error::{BuildError, Failure, FailureReason, LoadError};
use crate::project::{artifact_path_of, build_command_of, BuildCommand, BuildCommandView, ProjectInfo, ProjectInfoView};
use libloading::Library;
use vstd::prelude::*;

verus! {

/// An opened dynamic library, as `libloading` hands it out. Nothing is known
/// about what is inside; the value is only carried from where the library was
/// opened to where calls are made through it.
#[verifier::external_type_specification]
#[verifier::external_body]
pub struct ExLibrary(libloading::Library);

/// An opened library that is known to export every required entry point.
///
/// There is no way to make one except by running a load task to its
/// successful end, so a library that lacks an entry point never becomes a
/// handle.
#[derive(Debug)]
pub struct ArtifactHandle {
    library: Library,
    path: String,
}

/// What an artifact handle stands for.
pub struct ArtifactView {
    /// The opened library.
    pub library: Library,
    /// The file it was opened from.
    pub path: Seq<char>,
}

impl View for ArtifactHandle {
    type V = ArtifactView;

    closed spec fn view(&self) -> ArtifactView {
        ArtifactView { library: self.library, path: self.path@ }
    }
}

impl ArtifactHandle {
    /// The opened library, to call the module through.
    pub fn library(&self) -> (library: &Library)
        ensures
            *library == self@.library,
    {
        &self.library
    }

    /// The file the library was opened from.
    pub fn path(&self) -> (path: &str)
        ensures
            path@ == self@.path,
    {
        self.path.as_str()
    }

    /// Gives up the handle and hands out the library, to be closed.
    pub fn into_library(self) -> (library: Library)
        ensures
            library == self@.library,
    {
        self.library
    }
}

/// How far a load task has come.
pub enum LoadStage {
    /// The build has not been launched.
    Build { project: ProjectInfoView, extension: Seq<char> },
    /// The build was launched; the artifact has not been opened.
    Open { artifact: Seq<char> },
    /// The library is open; `pending` and the entry points after it have not
    /// been looked up.
    Resolve { artifact: Seq<char>, library: Library, pending: EntryPoint },
    /// The library is open and exports every required entry point.
    Loaded(ArtifactView),
    /// The task gave up.
    Failed(Failure),
}

/// What the runner of a task has to do next.
#[derive(Debug, PartialEq, Eq)]
pub enum LoadAction {
    /// Launch this build.
    SpawnBuild(BuildCommand),
    /// Open the dynamic library at this path.
    OpenLibrary(String),
    /// Look this entry point up in the opened library.
    ResolveSymbol(EntryPoint),
    /// Nothing: the task has ended.
    Finished,
}

/// An action as plain values.
pub enum LoadActionView {
    SpawnBuild(BuildCommandView),
    OpenLibrary(Seq<char>),
    ResolveSymbol(EntryPoint),
    Finished,
}

impl View for LoadAction {
    type V = LoadActionView;

    open spec fn view(&self) -> LoadActionView {
        match self {
            LoadAction::SpawnBuild(cmd) => LoadActionView::SpawnBuild(cmd@),
            LoadAction::OpenLibrary(path) => LoadActionView::OpenLibrary(path@),
            LoadAction::ResolveSymbol(entry) => LoadActionView::ResolveSymbol(*entry),
            LoadAction::Finished => LoadActionView::Finished,
        }
    }
}

/// What happened when the runner performed an action.
#[derive(Debug)]
pub enum LoadEvent {
    /// The build's process was started, or could not be, with the operating
    /// system's words.
    BuildSpawned(Result<(), String>),
    /// The library was opened, or could not be, with the loader's words.
    LibraryOpened(Result<Library, String>),
    /// The entry point was found in the library, or was not.
    SymbolResolved(bool),
}

/// An event as plain values.
pub enum LoadEventView {
    BuildSpawned(Result<(), Seq<char>>),
    LibraryOpened(Result<Library, Seq<char>>),
    SymbolResolved(bool),
}

impl View for LoadEvent {
    type V = LoadEventView;

    open spec fn view(&self) -> LoadEventView {
        match self {
            LoadEvent::BuildSpawned(Ok(_)) => LoadEventView::BuildSpawned(Ok(())),
            LoadEvent::BuildSpawned(Err(text)) => LoadEventView::BuildSpawned(Err(text@)),
            LoadEvent::LibraryOpened(Ok(library)) => LoadEventView::LibraryOpened(Ok(*library)),
            LoadEvent::LibraryOpened(Err(text)) => LoadEventView::LibraryOpened(Err(text@)),
            LoadEvent::SymbolResolved(found) => LoadEventView::SymbolResolved(*found),
        }
    }
}

impl LoadStage {
    /// Whether the task has ended.
    pub open spec fn finished(self) -> bool {
        self is Loaded || self is Failed
    }

    /// The action that is due at this stage.
    pub open spec fn action(self) -> LoadActionView {
        match self {
            LoadStage::Build { project, extension } => LoadActionView::SpawnBuild(
                build_command_of(project.path),
            ),
            LoadStage::Open { artifact } => LoadActionView::OpenLibrary(artifact),
            LoadStage::Resolve { artifact, library, pending } => LoadActionView::ResolveSymbol(
                pending,
            ),
            LoadStage::Loaded(_) => LoadActionView::Finished,
            LoadStage::Failed(_) => LoadActionView::Finished,
        }
    }

    /// The stage that follows when `event` is reported.
    ///
    /// An event that does not answer the action that is due changes nothing.
    pub open spec fn step(self, event: LoadEventView) -> LoadStage {
        match (self, event) {
            (LoadStage::Build { project, extension }, LoadEventView::BuildSpawned(Ok(_))) => {
                LoadStage::Open { artifact: artifact_path_of(project.path, project.name, extension) }
            },
            (LoadStage::Build { project, extension }, LoadEventView::BuildSpawned(Err(text))) => {
                LoadStage::Failed(Failure::SpawnFailed(text))
            },
            (LoadStage::Open { artifact }, LoadEventView::LibraryOpened(Ok(library))) => {
                LoadStage::Resolve { artifact, library, pending: EntryPoint::CreateInstance }
            },
            (LoadStage::Open { artifact }, LoadEventView::LibraryOpened(Err(text))) => {
                LoadStage::Failed(Failure::OpenFailed(text))
            },
            (
                LoadStage::Resolve { artifact, library, pending },
                LoadEventView::SymbolResolved(found),
            ) => {
                if !found {
                    LoadStage::Failed(Failure::MissingSymbol(pending))
                } else {
                    match pending.spec_next() {
                        Some(next) => LoadStage::Resolve { artifact, library, pending: next },
                        None => LoadStage::Loaded(ArtifactView { library, path: artifact }),
                    }
                }
            },
            (stage, _) => stage,
        }
    }
}

#[derive(Debug)]
enum Stage {
    Build { project: ProjectInfo, extension: String },
    Open { artifact: String },
    Resolve { artifact: String, library: Library, pending: EntryPoint },
    Loaded(ArtifactHandle),
    Failed(FailureReason),
}

/// One load of a game instance: the build of the project, followed by the
/// opening of its artifact and the lookup of the required entry points.
#[derive(Debug)]
pub struct GameInstanceLoadTask {
    stage: Stage,
}

impl View for GameInstanceLoadTask {
    type V = LoadStage;

    closed spec fn view(&self) -> LoadStage {
        match self.stage {
            Stage::Build { project, extension } => LoadStage::Build {
                project: project@,
                extension: extension@,
            },
            Stage::Open { artifact } => LoadStage::Open { artifact: artifact@ },
            Stage::Resolve { artifact, library, pending } => LoadStage::Resolve {
                artifact: artifact@,
                library,
                pending,
            },
            Stage::Loaded(handle) => LoadStage::Loaded(handle@),
            Stage::Failed(reason) => LoadStage::Failed(reason@),
        }
    }
}

/// How a finished load task ended.
pub open spec fn outcome_view(outcome: Result<ArtifactHandle, FailureReason>) -> LoadStage {
    match outcome {
        Ok(handle) => LoadStage::Loaded(handle@),
        Err(reason) => LoadStage::Failed(reason@),
    }
}

impl GameInstanceLoadTask {
    /// A task that has yet to launch the build of `project`, for a platform
    /// whose dynamic libraries carry the file extension `extension`.
    pub fn new(project: &ProjectInfo, extension: &str) -> (task: GameInstanceLoadTask)
        ensures
            task@ == (LoadStage::Build { project: project@, extension: extension@ }),
    {
        GameInstanceLoadTask {
            stage: Stage::Build { project: project.duplicate(), extension: extension.to_owned() },
        }
    }

    /// Whether the task has ended.
    pub fn is_finished(&self) -> (done: bool)
        ensures
            done == self@.finished(),
    {
        match &self.stage {
            Stage::Loaded(_) => true,
            Stage::Failed(_) => true,
            _ => false,
        }
    }

    /// The action the runner has to perform now.
    pub fn next_action(&self) -> (action: LoadAction)
        ensures
            action@ == self@.action(),
    {
        match &self.stage {
            Stage::Build { project, extension } => LoadAction::SpawnBuild(project.build_command()),
            Stage::Open { artifact } => LoadAction::OpenLibrary(artifact.clone()),
            Stage::Resolve { artifact, library, pending } => LoadAction::ResolveSymbol(*pending),
            Stage::Loaded(_) => LoadAction::Finished,
            Stage::Failed(_) => LoadAction::Finished,
        }
    }

    /// The opened library, while its entry points are being looked up.
    pub fn library(&self) -> (library: Option<&Library>)
        ensures
            match self@ {
                LoadStage::Resolve { artifact, library: opened, pending } => library == Some(
                    &opened,
                ),
                _ => library is None,
            },
    {
        match &self.stage {
            Stage::Resolve { artifact, library, pending } => Some(library),
            _ => None,
        }
    }

    /// Takes note of what happened when the pending action was performed.
    ///
    /// An event that does not answer the pending action changes nothing; a
    /// library that is reported out of turn is released.
    pub fn advance(self, event: LoadEvent) -> (next: GameInstanceLoadTask)
        ensures
            next@ == self@.step(event@),
    {
        match (self.stage, event) {
            (Stage::Build { project, extension }, LoadEvent::BuildSpawned(Ok(_))) => {
                GameInstanceLoadTask {
                    stage: Stage::Open { artifact: project.artifact_path(extension.as_str()) },
                }
            },
            (Stage::Build { project, extension }, LoadEvent::BuildSpawned(Err(text))) => {
                GameInstanceLoadTask {
                    stage: Stage::Failed(FailureReason::Build(BuildError::SpawnFailed(text))),
                }
            },
            (Stage::Open { artifact }, LoadEvent::LibraryOpened(Ok(library))) => {
                GameInstanceLoadTask {
                    stage: Stage::Resolve { artifact, library, pending: EntryPoint::first() },
                }
            },
            (Stage::Open { artifact }, LoadEvent::LibraryOpened(Err(text))) => {
                GameInstanceLoadTask {
                    stage: Stage::Failed(FailureReason::Load(LoadError::OpenFailed(text))),
                }
            },
            (Stage::Resolve { artifact, library, pending }, LoadEvent::SymbolResolved(found)) => {
                if !found {
                    GameInstanceLoadTask {
                        stage: Stage::Failed(FailureReason::Load(LoadError::MissingSymbol(pending))),
                    }
                } else {
                    match pending.next() {
                        Some(next) => GameInstanceLoadTask {
                            stage: Stage::Resolve { artifact, library, pending: next },
                        },
                        None => GameInstanceLoadTask {
                            stage: Stage::Loaded(ArtifactHandle { library, path: artifact }),
                        },
                    }
                }
            },
            (stage, _) => GameInstanceLoadTask { stage },
        }
    }

    /// What a finished task ended with; `None` while it is under way.
    pub fn into_outcome(self) -> (outcome: Option<Result<ArtifactHandle, FailureReason>>)
        ensures
            self@.finished() <==> outcome is Some,
            outcome matches Some(ended) ==> outcome_view(ended) == self@,
    {
        match self.stage {
            Stage::Loaded(handle) => Some(Ok(handle)),
            Stage::Failed(reason) => Some(Err(reason)),
            _ => None,
        }
    }
}

/// What a load task meets when it is run: whether the build's process can be
/// started, whether the artifact can be opened, and which entry points the
/// opened library exports.
pub struct Surroundings {
    pub spawn: Result<(), Seq<char>>,
    pub open: Result<Library, Seq<char>>,
    pub exports: Set<EntryPoint>,
}

impl Surroundings {
    /// What is reported when `action` is performed; nothing when no action is
    /// due.
    pub open spec fn answer(self, action: LoadActionView) -> Option<LoadEventView> {
        match action {
            LoadActionView::SpawnBuild(_) => Some(LoadEventView::BuildSpawned(self.spawn)),
            LoadActionView::OpenLibrary(_) => Some(LoadEventView::LibraryOpened(self.open)),
            LoadActionView::ResolveSymbol(entry) => Some(
                LoadEventView::SymbolResolved(self.exports.contains(entry)),
            ),
            LoadActionView::Finished => None,
        }
    }

    /// Whether the library exports every required entry point.
    pub open spec fn exports_all(self) -> bool {
        forall|entry: EntryPoint| self.exports.contains(entry)
    }

    /// The first required entry point, in probing order, that the library
    /// does not export.
    pub open spec fn first_missing(self) -> Option<EntryPoint> {
        if !self.exports.contains(EntryPoint::CreateInstance) {
            Some(EntryPoint::CreateInstance)
        } else if !self.exports.contains(EntryPoint::InitInstance) {
            Some(EntryPoint::InitInstance)
        } else if !self.exports.contains(EntryPoint::TickInstance) {
            Some(EntryPoint::TickInstance)
        } else if !self.exports.contains(EntryPoint::DestroyInstance) {
            Some(EntryPoint::DestroyInstance)
        } else if !self.exports.contains(EntryPoint::BorrowAppPtr) {
            Some(EntryPoint::BorrowAppPtr)
        } else if !self.exports.contains(EntryPoint::BorrowWorldPtr) {
            Some(EntryPoint::BorrowWorldPtr)
        } else {
            None
        }
    }

    /// How a load of `project` ends in these surroundings.
    pub open spec fn outcome(self, project: ProjectInfoView, extension: Seq<char>) -> LoadStage {
        match (self.spawn, self.open, self.first_missing()) {
            (Err(text), _, _) => LoadStage::Failed(Failure::SpawnFailed(text)),
            (Ok(_), Err(text), _) => LoadStage::Failed(Failure::OpenFailed(text)),
            (Ok(_), Ok(library), Some(entry)) => LoadStage::Failed(Failure::MissingSymbol(entry)),
            (Ok(_), Ok(library), None) => LoadStage::Loaded(
                ArtifactView {
                    library,
                    path: artifact_path_of(project.path, project.name, extension),
                },
            ),
        }
    }
}

impl LoadStage {
    /// The stage reached when the due action is performed and reported, up to
    /// `steps` times over or until the task has ended.
    pub open spec fn run(self, surroundings: Surroundings, steps: nat) -> LoadStage
        decreases steps,
    {
        if steps == 0 {
            self
        } else {
            match surroundings.answer(self.action()) {
                Some(event) => self.step(event).run(surroundings, (steps - 1) as nat),
                None => self,
            }
        }
    }
}

/// The number of actions after which every load task has ended: the build,
/// the opening and one lookup for each required entry point.
pub open spec fn most_actions() -> nat {
    2 + required_entry_points().len()
}

/// A task that has ended stays as it is, whatever is reported to it.
pub proof fn lemma_finished_is_final(stage: LoadStage, event: LoadEventView)
    requires
        stage.finished(),
    ensures
        stage.step(event) == stage,
        stage.action() == LoadActionView::Finished,
{
}

/// The first missing entry point is not exported, everything probed before it
/// is, and there is none exactly if everything is exported.
pub proof fn lemma_first_missing(surroundings: Surroundings)
    ensures
        surroundings.first_missing() is None <==> surroundings.exports_all(),
        surroundings.first_missing() matches Some(missing) ==> {
            &&& !surroundings.exports.contains(missing)
            &&& forall|earlier: EntryPoint|
                earlier.position() < missing.position() ==> surroundings.exports.contains(earlier)
        },
{
    if surroundings.first_missing() is None {
        assert forall|entry: EntryPoint| surroundings.exports.contains(entry) by {
            match entry {
                EntryPoint::CreateInstance => {},
                EntryPoint::InitInstance => {},
                EntryPoint::TickInstance => {},
                EntryPoint::DestroyInstance => {},
                EntryPoint::BorrowAppPtr => {},
                EntryPoint::BorrowWorldPtr => {},
            }
        }
    }
}

/// Every load task ends within `most_actions()` actions, and it ends as the
/// surroundings dictate: with the failure to start the build; else with the
/// failure to open the artifact; else with the first entry point that the
/// library lacks; else with the library, opened from the project's artifact
/// path.
pub proof fn lemma_load_outcome(
    project: ProjectInfoView,
    extension: Seq<char>,
    surroundings: Surroundings,
)
    ensures
        (LoadStage::Build { project, extension }).run(surroundings, most_actions())
            == surroundings.outcome(project, extension),
        surroundings.outcome(project, extension).finished(),
{
    reveal_with_fuel(LoadStage::run, 9);
}

/// A library that lacks exactly one required entry point fails to load with
/// that very entry point named, and no handle comes into being.
pub proof fn lemma_single_missing_symbol(
    project: ProjectInfoView,
    extension: Seq<char>,
    surroundings: Surroundings,
    missing: EntryPoint,
)
    requires
        surroundings.spawn is Ok,
        surroundings.open is Ok,
        forall|entry: EntryPoint| surroundings.exports.contains(entry) <==> entry != missing,
    ensures
        (LoadStage::Build { project, extension }).run(surroundings, most_actions())
            == LoadStage::Failed(Failure::MissingSymbol(missing)),
{
    lemma_load_outcome(project, extension, surroundings);
    lemma_first_missing(surroundings);
    assert(!surroundings.exports.contains(missing));
    match surroundings.first_missing() {
        Some(first) => {
            assert(first == missing);
        },
        None => {},
    }
}

/// A handle comes into being only when the build was started, the artifact
/// was opened and every required entry point was found.
pub proof fn lemma_loaded_means_complete(
    project: ProjectInfoView,
    extension: Seq<char>,
    surroundings: Surroundings,
)
    ensures
        (LoadStage::Build { project, extension }).run(surroundings, most_actions()) is Loaded <==> {
            &&& surroundings.spawn is Ok
            &&& surroundings.open is Ok
            &&& surroundings.exports_all()
        },
{
    lemma_load_outcome(project, extension, surroundings);
    lemma_first_missing(surroundings);
}

} // verus!
