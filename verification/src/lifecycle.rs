//! A load from the request to the frames that follow it: how the load task
//! and the bridge work together.

use crate::bridge::{
    lemma_after_concat, lemma_after_one, lemma_waiting_changes_nothing, BridgeEvent, BridgeView,
    PollView, StateView,
};
use crate::entry::EntryPoint;
use crate::error::Failure;
use crate::loader::{
    lemma_first_missing, lemma_load_outcome, most_actions, ArtifactView, LoadStage, Surroundings,
};
use crate::project::{artifact_path_of, ProjectInfoView};
use vstd::prelude::*;

verus! {

/// What the host finds when it polls a load task that has ended at `stage`.
pub open spec fn ready_poll(stage: LoadStage) -> PollView {
    match stage {
        LoadStage::Loaded(artifact) => PollView::Ready(Ok(artifact)),
        LoadStage::Failed(reason) => PollView::Ready(Err(reason)),
        _ => PollView::NotReady,
    }
}

/// The bridge after a whole load in the given surroundings: a load request
/// reaches the idle bridge, the host polls `waits` times while the task is
/// under way and once when it has ended, and `frames` frames follow.
pub open spec fn after_load(
    project: ProjectInfoView,
    extension: Seq<char>,
    surroundings: Surroundings,
    waits: nat,
    frames: nat,
) -> BridgeView {
    let task = LoadStage::Build { project, extension };
    let ended = task.run(surroundings, most_actions());
    BridgeView::initial().after(
        seq![BridgeEvent::LoadRequest] + Seq::new(
            waits,
            |i: int| BridgeEvent::Poll(PollView::NotReady),
        ) + seq![BridgeEvent::Poll(ready_poll(ended))] + Seq::new(
            frames,
            |i: int| BridgeEvent::Frame,
        ),
    )
}

/// A whole load ends as the surroundings dictate, however long the task took
/// and however many frames have passed since: running, with the library
/// opened from the project's artifact path, if the build was started, the
/// artifact was opened and every required entry point was found; failed
/// otherwise, for the reason the task ended with.
pub proof fn lemma_end_state(
    project: ProjectInfoView,
    extension: Seq<char>,
    surroundings: Surroundings,
    waits: nat,
    frames: nat,
)
    ensures
        after_load(project, extension, surroundings, waits, frames) == match surroundings.outcome(
            project,
            extension,
        ) {
            LoadStage::Loaded(artifact) => BridgeView {
                state: StateView::Running,
                instance: Some(artifact),
            },
            LoadStage::Failed(reason) => BridgeView {
                state: StateView::Failed(reason),
                instance: None,
            },
            _ => BridgeView::initial(),
        },
        surroundings.outcome(project, extension).finished(),
{
    lemma_load_outcome(project, extension, surroundings);
    let start = BridgeView::initial();
    let ended = surroundings.outcome(project, extension);
    let request = seq![BridgeEvent::LoadRequest];
    let waiting = Seq::new(waits, |i: int| BridgeEvent::Poll(PollView::NotReady));
    let ready = seq![BridgeEvent::Poll(ready_poll(ended))];
    let idling = Seq::new(frames, |i: int| BridgeEvent::Frame);
    lemma_after_concat(start, request + waiting + ready, idling);
    lemma_after_concat(start, request + waiting, ready);
    lemma_after_concat(start, request, waiting);
    lemma_after_one(start, BridgeEvent::LoadRequest);
    let building = start.after(request);
    lemma_waiting_changes_nothing(building, waiting);
    lemma_after_one(building, BridgeEvent::Poll(ready_poll(ended)));
    let settled = building.after(ready);
    lemma_waiting_changes_nothing(settled, idling);
}

/// When the build starts, the artifact opens and the library exports every
/// required entry point, the bridge ends up running and stays so: in each of
/// any number of frames one tick of the module is due.
pub proof fn lemma_good_project_runs(
    project: ProjectInfoView,
    extension: Seq<char>,
    surroundings: Surroundings,
    waits: nat,
    frames: nat,
)
    requires
        surroundings.spawn is Ok,
        surroundings.open is Ok,
        surroundings.exports_all(),
    ensures
        after_load(project, extension, surroundings, waits, frames).state is Running,
        after_load(project, extension, surroundings, waits, frames).instance == Some(
            ArtifactView {
                library: surroundings.open->Ok_0,
                path: artifact_path_of(project.path, project.name, extension),
            },
        ),
        after_load(project, extension, surroundings, waits, frames).tick_call() == Some(
            EntryPoint::TickInstance,
        ),
{
    lemma_end_state(project, extension, surroundings, waits, frames);
    lemma_first_missing(surroundings);
}

/// When the build cannot be started or the artifact cannot be opened, as it
/// is with a project path that does not exist, the bridge ends up failed for
/// that very reason and never runs: no tick is due in any frame.
pub proof fn lemma_unusable_project_fails(
    project: ProjectInfoView,
    extension: Seq<char>,
    surroundings: Surroundings,
    waits: nat,
    frames: nat,
)
    requires
        surroundings.spawn is Err || surroundings.open is Err,
    ensures
        after_load(project, extension, surroundings, waits, frames).state == (
        match surroundings.spawn {
            Err(text) => StateView::Failed(Failure::SpawnFailed(text)),
            Ok(_) => StateView::Failed(Failure::OpenFailed(surroundings.open->Err_0)),
        }),
        after_load(project, extension, surroundings, waits, frames).instance is None,
        after_load(project, extension, surroundings, waits, frames).tick_call() is None,
{
    lemma_end_state(project, extension, surroundings, waits, frames);
}

/// When the library lacks exactly one required entry point, the bridge ends
/// up failed with that entry point named, and holds no library.
pub proof fn lemma_missing_symbol_fails(
    project: ProjectInfoView,
    extension: Seq<char>,
    surroundings: Surroundings,
    missing: EntryPoint,
    waits: nat,
    frames: nat,
)
    requires
        surroundings.spawn is Ok,
        surroundings.open is Ok,
        forall|entry: EntryPoint| surroundings.exports.contains(entry) <==> entry != missing,
    ensures
        after_load(project, extension, surroundings, waits, frames) == (BridgeView {
            state: StateView::Failed(Failure::MissingSymbol(missing)),
            instance: None,
        }),
{
    lemma_end_state(project, extension, surroundings, waits, frames);
    lemma_first_missing(surroundings);
    assert(!surroundings.exports.contains(missing));
}

} // verus!
