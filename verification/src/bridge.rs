//! The bridge between a host and its game module: one state, driven by load
//! requests and by the host's frames.
//!
//! ```text
//! Idle --load request--> Building --task ended with a library--> Running
//!                            \------task ended with a failure--> Failed
//! ```
//!
//! No other edge exists. A load request that arrives in any state but `Idle`
//! is dropped, so no second load task is ever started while one is under way.

use crate::entry::EntryPoint;
use crate::error::{Failure, FailureReason};
use crate::instance::GameInstance;
use crate::loader::{ArtifactHandle, ArtifactView, GameInstanceLoadTask, LoadStage};
use crate::project::ProjectInfo;
use libloading::Library;
use vstd::prelude::*;

verus! {

/// The request to build and load the current project.
#[derive(Clone, Copy, Debug, Default, PartialEq, Eq, Hash, Structural)]
pub struct LoadGameInstance;

/// Where the bridge stands.
#[derive(Clone, Debug, PartialEq, Eq)]
pub enum InstanceState {
    /// Nothing was asked for yet.
    Idle,
    /// A load task is under way.
    Building,
    /// A module is loaded and is driven once per frame.
    Running,
    /// The load task ended without a module.
    Failed(FailureReason),
}

impl Default for InstanceState {
    /// A bridge starts out idle.
    fn default() -> (state: InstanceState)
        ensures
            state == InstanceState::Idle,
    {
        InstanceState::Idle
    }
}

/// A state as plain values.
pub enum StateView {
    Idle,
    Building,
    Running,
    Failed(Failure),
}

impl View for InstanceState {
    type V = StateView;

    open spec fn view(&self) -> StateView {
        match self {
            InstanceState::Idle => StateView::Idle,
            InstanceState::Building => StateView::Building,
            InstanceState::Running => StateView::Running,
            InstanceState::Failed(reason) => StateView::Failed(reason@),
        }
    }
}

/// What the host found when it looked at its load task in a frame.
#[derive(Debug)]
pub enum TaskPoll {
    /// The task is still under way.
    NotReady,
    /// The task has ended, with a library or with a failure.
    Ready(Result<ArtifactHandle, FailureReason>),
}

/// A poll as plain values.
pub enum PollView {
    NotReady,
    Ready(Result<ArtifactView, Failure>),
}

impl View for TaskPoll {
    type V = PollView;

    open spec fn view(&self) -> PollView {
        match self {
            TaskPoll::NotReady => PollView::NotReady,
            TaskPoll::Ready(Ok(artifact)) => PollView::Ready(Ok(artifact@)),
            TaskPoll::Ready(Err(reason)) => PollView::Ready(Err(reason@)),
        }
    }
}

/// A bridge as plain values: its state and the library of its module, if it
/// has one.
pub struct BridgeView {
    pub state: StateView,
    pub instance: Option<ArtifactView>,
}

impl BridgeView {
    /// A bridge holds a module exactly while it is running.
    pub open spec fn wf(self) -> bool {
        self.state is Running <==> self.instance is Some
    }

    /// The bridge before anything was asked of it.
    pub open spec fn initial() -> BridgeView {
        BridgeView { state: StateView::Idle, instance: None }
    }

    /// Whether a load request starts a load task.
    pub open spec fn starts_task(self) -> bool {
        self.state is Idle
    }

    /// The bridge after a load request.
    pub open spec fn on_load_request(self) -> BridgeView {
        if self.state is Idle {
            BridgeView { state: StateView::Building, instance: None }
        } else {
            self
        }
    }

    /// The bridge after the host polled its load task.
    pub open spec fn on_poll(self, poll: PollView) -> BridgeView {
        match (self.state, poll) {
            (StateView::Building, PollView::Ready(Ok(artifact))) => BridgeView {
                state: StateView::Running,
                instance: Some(artifact),
            },
            (StateView::Building, PollView::Ready(Err(reason))) => BridgeView {
                state: StateView::Failed(reason),
                instance: None,
            },
            _ => self,
        }
    }

    /// The raw call that is due after the host polled its load task: the
    /// module's start, in the frame in which the bridge begins to run.
    pub open spec fn poll_call(self, poll: PollView) -> Option<EntryPoint> {
        match (self.state, poll) {
            (StateView::Building, PollView::Ready(Ok(artifact))) => Some(
                EntryPoint::CreateInstance,
            ),
            _ => None,
        }
    }

    /// The raw call that is due in a frame: one tick while running.
    pub open spec fn tick_call(self) -> Option<EntryPoint> {
        if self.state is Running {
            Some(EntryPoint::TickInstance)
        } else {
            None
        }
    }
}

/// The bridge: the state and, while running, the loaded module.
#[derive(Debug)]
pub struct Bridge {
    state: InstanceState,
    instance: Option<GameInstance>,
}

impl View for Bridge {
    type V = BridgeView;

    closed spec fn view(&self) -> BridgeView {
        BridgeView {
            state: self.state@,
            instance: match self.instance {
                Some(instance) => instance@,
                None => None,
            },
        }
    }
}

impl Default for Bridge {
    /// A bridge in its initial state.
    fn default() -> (bridge: Bridge)
        ensures
            bridge@ == BridgeView::initial(),
    {
        Bridge::new()
    }
}

impl Bridge {
    #[verifier::type_invariant]
    spec fn holds_module_while_running(self) -> bool {
        &&& self.state is Running <==> self.instance is Some
        &&& self.instance matches Some(instance) ==> instance.is_loaded()
    }

    /// A bridge in its initial state.
    pub fn new() -> (bridge: Bridge)
        ensures
            bridge@ == BridgeView::initial(),
    {
        Bridge { state: InstanceState::Idle, instance: None }
    }

    /// The state the bridge is in.
    pub fn state(&self) -> (state: &InstanceState)
        ensures
            state@ == self@.state,
            self@.wf(),
    {
        proof {
            use_type_invariant(self);
        }
        &self.state
    }

    /// The loaded module; `Some` exactly while the bridge is running.
    pub fn instance(&self) -> (instance: Option<&GameInstance>)
        ensures
            instance is Some <==> self@.state is Running,
            instance matches Some(module) ==> module@ == self@.instance && module.is_loaded(),
    {
        proof {
            use_type_invariant(self);
        }
        self.instance.as_ref()
    }

    /// Handles a load request for `project`, on a platform whose dynamic
    /// libraries carry the file extension `extension`.
    ///
    /// An idle bridge begins to build and hands out the load task, which the
    /// host has to run without blocking its frames. In every other state the
    /// request is dropped.
    pub fn load_game_instance(
        &mut self,
        request: LoadGameInstance,
        project: &ProjectInfo,
        extension: &str,
    ) -> (task: Option<GameInstanceLoadTask>)
        ensures
            final(self)@ == old(self)@.on_load_request(),
            task is Some <==> old(self)@.starts_task(),
            task matches Some(started) ==> started@ == (LoadStage::Build {
                project: project@,
                extension: extension@,
            }),
    {
        proof {
            use_type_invariant(&*self);
        }
        match &self.state {
            InstanceState::Idle => {
                *self = Bridge { state: InstanceState::Building, instance: None };
                Some(GameInstanceLoadTask::new(project, extension))
            },
            _ => None,
        }
    }

    /// Takes note of what the host found when it polled the load task in this
    /// frame.
    ///
    /// While building, a task that ended with a library makes the bridge run:
    /// the bridge takes the library over and names the module's start as the
    /// call to make. A task that ended with a failure makes the bridge fail
    /// for that reason. In every other case nothing changes; a library that
    /// arrives while the bridge is not building is released unused.
    pub fn check_loading(&mut self, poll: TaskPoll) -> (call: Option<EntryPoint>)
        ensures
            final(self)@ == old(self)@.on_poll(poll@),
            call == old(self)@.poll_call(poll@),
    {
        proof {
            use_type_invariant(&*self);
        }
        match (&self.state, poll) {
            (InstanceState::Building, TaskPoll::Ready(Ok(artifact))) => {
                let instance = GameInstance::new(artifact);
                let call = instance.create_game_app();
                *self = Bridge { state: InstanceState::Running, instance: Some(instance) };
                match call {
                    Ok(entry) => Some(entry),
                    Err(_) => None,
                }
            },
            (InstanceState::Building, TaskPoll::Ready(Err(reason))) => {
                *self = Bridge { state: InstanceState::Failed(reason), instance: None };
                None
            },
            _ => None,
        }
    }

    /// The call the host has to make in this frame: one tick of the module
    /// while the bridge is running, nothing otherwise.
    pub fn tick(&self) -> (call: Option<EntryPoint>)
        ensures
            call == self@.tick_call(),
    {
        proof {
            use_type_invariant(self);
        }
        match &self.instance {
            Some(instance) => match instance.update_app() {
                Ok(entry) => Some(entry),
                Err(_) => None,
            },
            None => None,
        }
    }

    /// The library to make the due call through; `Some` exactly while the
    /// bridge is running.
    pub fn library(&self) -> (library: Option<&Library>)
        ensures
            match self@.instance {
                Some(artifact) => library == Some(&artifact.library),
                None => library is None,
            },
            library is Some <==> self@.state is Running,
    {
        proof {
            use_type_invariant(self);
        }
        match &self.instance {
            Some(instance) => instance.library(),
            None => None,
        }
    }

    /// Gives the bridge up and hands out its module, if it has one, to be
    /// shut down.
    pub fn into_instance(self) -> (instance: Option<GameInstance>)
        ensures
            instance is Some <==> self@.state is Running,
            instance matches Some(module) ==> module@ == self@.instance && module.is_loaded(),
    {
        proof {
            use_type_invariant(&self);
        }
        self.instance
    }
}

/// Something that happens to a bridge.
pub enum BridgeEvent {
    /// A load request arrived.
    LoadRequest,
    /// The host polled its load task.
    Poll(PollView),
    /// The host asked for the call that is due in a frame.
    Frame,
}

impl BridgeView {
    /// The bridge after `event`.
    pub open spec fn on_event(self, event: BridgeEvent) -> BridgeView {
        match event {
            BridgeEvent::LoadRequest => self.on_load_request(),
            BridgeEvent::Poll(poll) => self.on_poll(poll),
            BridgeEvent::Frame => self,
        }
    }

    /// Whether `event` starts a load task.
    pub open spec fn starts_task_on(self, event: BridgeEvent) -> bool {
        event is LoadRequest && self.starts_task()
    }

    /// Whether `event` ends the load task that is under way: the host found
    /// it ready and took what it ended with.
    pub open spec fn ends_task_on(self, event: BridgeEvent) -> bool {
        self.state is Building && event matches BridgeEvent::Poll(PollView::Ready(_))
    }

    /// The bridge after `events`, one after the other.
    pub open spec fn after(self, events: Seq<BridgeEvent>) -> BridgeView
        decreases events.len(),
    {
        if events.len() == 0 {
            self
        } else {
            self.after(events.drop_last()).on_event(events.last())
        }
    }

    /// The number of load tasks that were started and have not ended after
    /// `events`, one after the other.
    pub open spec fn tasks_in_flight(self, events: Seq<BridgeEvent>) -> int
        decreases events.len(),
    {
        if events.len() == 0 {
            if self.state is Building {
                1
            } else {
                0
            }
        } else {
            let before = self.after(events.drop_last());
            let started: int = if before.starts_task_on(events.last()) {
                1
            } else {
                0
            };
            let ended: int = if before.ends_task_on(events.last()) {
                1
            } else {
                0
            };
            self.tasks_in_flight(events.drop_last()) + started - ended
        }
    }

    /// Whether the step from this bridge to `next` is one of the three edges
    /// of the state machine.
    pub open spec fn edge_to(self, next: BridgeView) -> bool {
        ||| self.state is Idle && next.state is Building
        ||| self.state is Building && next.state is Running
        ||| self.state is Building && next.state is Failed
    }
}

/// Whatever happens to a bridge, it either stays as it is or follows one of
/// the three edges, each for its own cause: from idle to building on a load
/// request; from building to running on a task that ended with a library,
/// which the bridge then holds; from building to failed on a task that ended
/// with a failure, which is then the reason.
pub proof fn lemma_only_the_edges(bridge: BridgeView, event: BridgeEvent)
    ensures
        bridge.on_event(event) == bridge || bridge.edge_to(bridge.on_event(event)),
        bridge.state is Idle && bridge.on_event(event).state is Building ==> event is LoadRequest,
        bridge.on_event(event).state is Running && !(bridge.state is Running) ==> {
            &&& bridge.state is Building
            &&& event matches BridgeEvent::Poll(PollView::Ready(Ok(artifact)))
            &&& bridge.on_event(event).instance == Some(artifact)
        },
        bridge.on_event(event).state is Failed && !(bridge.state is Failed) ==> {
            &&& bridge.state is Building
            &&& event matches BridgeEvent::Poll(PollView::Ready(Err(reason)))
            &&& bridge.on_event(event).state == StateView::Failed(reason)
        },
        bridge.state is Running || bridge.state is Failed ==> bridge.on_event(event) == bridge,
        bridge.wf() ==> bridge.on_event(event).wf(),
{
}

/// A load request that arrives while a load task is under way starts no
/// second task and leaves the bridge as it is.
pub proof fn lemma_request_while_building_is_dropped(bridge: BridgeView)
    requires
        bridge.state is Building,
    ensures
        !bridge.starts_task(),
        !bridge.starts_task_on(BridgeEvent::LoadRequest),
        bridge.on_load_request() == bridge,
{
}

/// From its initial state on, whatever happens and in whatever order, a
/// bridge has at most one load task in flight: one exactly while it is
/// building, none otherwise.
pub proof fn lemma_at_most_one_task(events: Seq<BridgeEvent>)
    ensures
        0 <= BridgeView::initial().tasks_in_flight(events) <= 1,
        BridgeView::initial().tasks_in_flight(events) == 1 <==> BridgeView::initial().after(
            events,
        ).state is Building,
        BridgeView::initial().after(events).wf(),
    decreases events.len(),
{
    if events.len() > 0 {
        lemma_at_most_one_task(events.drop_last());
    }
}

/// A bridge that runs got there through a task that ended with a library
/// while the bridge was building; it holds that library and has held it ever
/// since.
pub proof fn lemma_running_only_after_load(events: Seq<BridgeEvent>)
    requires
        BridgeView::initial().after(events).state is Running,
    ensures
        exists|i: int|
            {
                &&& 0 <= i < events.len()
                &&& (#[trigger] BridgeView::initial().after(events.take(i))).state is Building
                &&& events[i] matches BridgeEvent::Poll(PollView::Ready(Ok(artifact)))
                &&& BridgeView::initial().after(events).instance == Some(artifact)
            },
    decreases events.len(),
{
    let start = BridgeView::initial();
    if events.len() > 0 {
        let earlier = events.drop_last();
        let before = start.after(earlier);
        if before.state is Running {
            lemma_running_only_after_load(earlier);
            let i = choose|i: int|
                {
                    &&& 0 <= i < earlier.len()
                    &&& (#[trigger] start.after(earlier.take(i))).state is Building
                    &&& earlier[i] matches BridgeEvent::Poll(PollView::Ready(Ok(artifact)))
                    &&& start.after(earlier).instance == Some(artifact)
                };
            assert(events.take(i) =~= earlier.take(i));
            assert(start.after(events.take(i)).state is Building);
        } else {
            let i = events.len() - 1;
            assert(events.take(i) =~= earlier);
            assert(start.after(events.take(i)).state is Building);
        }
    }
}

/// Polls that find the task under way, and frames, leave a bridge as it is.
pub proof fn lemma_waiting_changes_nothing(bridge: BridgeView, events: Seq<BridgeEvent>)
    requires
        forall|i: int|
            0 <= i < events.len() ==> events[i] == BridgeEvent::Poll(PollView::NotReady)
                || events[i] == BridgeEvent::Frame,
    ensures
        bridge.after(events) == bridge,
    decreases events.len(),
{
    if events.len() > 0 {
        lemma_waiting_changes_nothing(bridge, events.drop_last());
    }
}

/// The bridge after a single event.
pub proof fn lemma_after_one(bridge: BridgeView, event: BridgeEvent)
    ensures
        bridge.after(seq![event]) == bridge.on_event(event),
{
    let one = seq![event];
    assert(one.drop_last() =~= Seq::<BridgeEvent>::empty());
    assert(bridge.after(one.drop_last()) == bridge);
}

/// The bridge after one event list and then another.
pub proof fn lemma_after_concat(
    bridge: BridgeView,
    first: Seq<BridgeEvent>,
    second: Seq<BridgeEvent>,
)
    ensures
        bridge.after(first + second) == bridge.after(first).after(second),
    decreases second.len(),
{
    if second.len() == 0 {
        assert(first + second =~= first);
    } else {
        lemma_after_concat(bridge, first, second.drop_last());
        assert((first + second).drop_last() =~= first + second.drop_last());
    }
}

/// A bridge that runs or has failed stays exactly as it is, whatever happens
/// to it: a running bridge keeps the library it holds, and no second library
/// ever takes its place.
pub proof fn lemma_running_and_failed_are_final(bridge: BridgeView, events: Seq<BridgeEvent>)
    requires
        bridge.state is Running || bridge.state is Failed,
    ensures
        bridge.after(events) == bridge,
        bridge.tasks_in_flight(events) == 0,
    decreases events.len(),
{
    if events.len() > 0 {
        lemma_running_and_failed_are_final(bridge, events.drop_last());
    }
}

} // verus!
