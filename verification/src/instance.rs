//! The handle through which a loaded module is driven.
//!
//! The handle owns the opened library. Every operation first makes sure that
//! the library is still loaded and then names the raw entry point to call;
//! the call itself is made by the caller, through the library the handle lends
//! out. Shutting the handle down hands the library out for the last time, so
//! the module is torn down at most once however often shutdown is asked for.

use crate::entry::EntryPoint;
use crate::loader::{ArtifactHandle, ArtifactView};
use libloading::Library;
use vstd::prelude::*;

verus! {

/// Why an operation on a handle was not forwarded to the module.
#[derive(Clone, Copy, Debug, PartialEq, Eq, Structural)]
pub enum InstanceError {
    /// The handle was shut down: its library is no longer loaded.
    Unloaded,
}

/// What becomes of an operation on a handle: the raw entry point to call if
/// the library is loaded, and a refusal if it is not.
pub open spec fn forwarded(loaded: bool, entry: EntryPoint) -> Result<EntryPoint, InstanceError> {
    if loaded {
        Ok(entry)
    } else {
        Err(InstanceError::Unloaded)
    }
}

/// Whether the library is loaded after an operation: it stays as it was
/// unless the operation was the module's teardown.
pub open spec fn loaded_after(loaded: bool, entry: EntryPoint) -> bool {
    loaded && entry != EntryPoint::DestroyInstance
}

/// Whether the library is loaded after `requests` were made, one after the
/// other, of a handle whose library was loaded or not.
pub open spec fn loaded_after_all(loaded: bool, requests: Seq<EntryPoint>) -> bool
    decreases requests.len(),
{
    if requests.len() == 0 {
        loaded
    } else {
        loaded_after(loaded_after_all(loaded, requests.drop_last()), requests.last())
    }
}

/// What becomes of each of `requests`, made one after the other of a handle
/// whose library was loaded or not.
pub open spec fn responses(loaded: bool, requests: Seq<EntryPoint>) -> Seq<
    Result<EntryPoint, InstanceError>,
>
    decreases requests.len(),
{
    if requests.len() == 0 {
        Seq::empty()
    } else {
        responses(loaded, requests.drop_last()).push(
            forwarded(loaded_after_all(loaded, requests.drop_last()), requests.last()),
        )
    }
}

/// How often the module's teardown is forwarded while `requests` are made, one
/// after the other, of a handle whose library was loaded or not.
pub open spec fn teardowns(loaded: bool, requests: Seq<EntryPoint>) -> nat
    decreases requests.len(),
{
    if requests.len() == 0 {
        0
    } else {
        let earlier = teardowns(loaded, requests.drop_last());
        if forwarded(loaded_after_all(loaded, requests.drop_last()), requests.last()) == Ok::<
            EntryPoint,
            InstanceError,
        >(EntryPoint::DestroyInstance) {
            earlier + 1
        } else {
            earlier
        }
    }
}

/// The last call to make through a library, and the library to release once
/// the call has returned.
#[derive(Debug)]
pub struct Teardown {
    pub entry: EntryPoint,
    pub artifact: ArtifactHandle,
}

/// The address of the module's application, known not to be null.
#[derive(Clone, Copy, Debug, PartialEq, Eq)]
pub struct AppPtr {
    address: usize,
}

/// The address of the module's world, known not to be null.
#[derive(Clone, Copy, Debug, PartialEq, Eq)]
pub struct WorldPtr {
    address: usize,
}

impl AppPtr {
    #[verifier::type_invariant]
    spec fn non_null(self) -> bool {
        self.address != 0
    }

    pub closed spec fn spec_address(self) -> usize {
        self.address
    }

    /// The address, to be read as the host's own application type. The module
    /// must have been built against the very same layout of that type; this
    /// cannot be checked here.
    pub fn address(&self) -> (address: usize)
        ensures
            address == self.spec_address(),
            address != 0,
    {
        proof {
            use_type_invariant(self);
        }
        self.address
    }
}

impl WorldPtr {
    #[verifier::type_invariant]
    spec fn non_null(self) -> bool {
        self.address != 0
    }

    pub closed spec fn spec_address(self) -> usize {
        self.address
    }

    /// The address, to be read as the host's own world type. The module must
    /// have been built against the very same layout of that type; this cannot
    /// be checked here.
    pub fn address(&self) -> (address: usize)
        ensures
            address == self.spec_address(),
            address != 0,
    {
        proof {
            use_type_invariant(self);
        }
        self.address
    }
}

/// A loaded game module.
#[derive(Debug)]
pub struct GameInstance {
    artifact: Option<ArtifactHandle>,
}

impl View for GameInstance {
    type V = Option<ArtifactView>;

    /// The library the handle holds; `None` once it was shut down.
    closed spec fn view(&self) -> Option<ArtifactView> {
        match self.artifact {
            Some(artifact) => Some(artifact@),
            None => None,
        }
    }
}

impl GameInstance {
    /// Whether the library is still loaded.
    pub open spec fn is_loaded(&self) -> bool {
        self@ is Some
    }

    /// A handle on a freshly loaded module.
    pub fn new(library: ArtifactHandle) -> (instance: GameInstance)
        ensures
            instance@ == Some(library@),
    {
        GameInstance { artifact: Some(library) }
    }

    /// The library to make raw calls through; `None` once the handle was shut
    /// down.
    pub fn library(&self) -> (library: Option<&Library>)
        ensures
            match self@ {
                Some(artifact) => library == Some(&artifact.library),
                None => library is None,
            },
    {
        match &self.artifact {
            Some(artifact) => Some(artifact.library()),
            None => None,
        }
    }

    /// Names the raw entry point for an operation, provided the library is
    /// still loaded.
    fn forward(&self, entry: EntryPoint) -> (call: Result<EntryPoint, InstanceError>)
        ensures
            call == forwarded(self.is_loaded(), entry),
    {
        match &self.artifact {
            Some(_) => Ok(entry),
            None => Err(InstanceError::Unloaded),
        }
    }

    /// Start: the module is to allocate its application state.
    pub fn create_game_app(&self) -> (call: Result<EntryPoint, InstanceError>)
        ensures
            call == forwarded(self.is_loaded(), EntryPoint::CreateInstance),
    {
        self.forward(EntryPoint::CreateInstance)
    }

    /// Initialize: the module is to run the setup callback that the host
    /// registered with it.
    pub fn init_plugins(&self) -> (call: Result<EntryPoint, InstanceError>)
        ensures
            call == forwarded(self.is_loaded(), EntryPoint::InitInstance),
    {
        self.forward(EntryPoint::InitInstance)
    }

    /// Tick: the module is to advance by one frame.
    pub fn update_app(&self) -> (call: Result<EntryPoint, InstanceError>)
        ensures
            call == forwarded(self.is_loaded(), EntryPoint::TickInstance),
    {
        self.forward(EntryPoint::TickInstance)
    }

    /// Shutdown: the module is to release its application state, and the
    /// library is given up.
    ///
    /// While the library is loaded this hands it out together with the entry
    /// point to call before it is released, and the handle is unloaded from
    /// then on. A handle that was shut down before is left as it is.
    pub fn destroy_app(&mut self) -> (teardown: Result<Teardown, InstanceError>)
        ensures
            forwarded(old(self).is_loaded(), EntryPoint::DestroyInstance) == match teardown {
                Ok(last) => Ok::<EntryPoint, InstanceError>(last.entry),
                Err(refusal) => Err::<EntryPoint, InstanceError>(refusal),
            },
            teardown matches Ok(last) ==> old(self)@ == Some(last.artifact@),
            final(self).is_loaded() == loaded_after(
                old(self).is_loaded(),
                EntryPoint::DestroyInstance,
            ),
    {
        match self.artifact.take() {
            Some(artifact) => Ok(Teardown { entry: EntryPoint::DestroyInstance, artifact }),
            None => Err(InstanceError::Unloaded),
        }
    }

    /// Borrow the application: names the raw entry point that returns its
    /// address.
    pub fn get_app(&self) -> (call: Result<EntryPoint, InstanceError>)
        ensures
            call == forwarded(self.is_loaded(), EntryPoint::BorrowAppPtr),
    {
        self.forward(EntryPoint::BorrowAppPtr)
    }

    /// Borrow the world: names the raw entry point that returns its address.
    pub fn get_world(&self) -> (call: Result<EntryPoint, InstanceError>)
        ensures
            call == forwarded(self.is_loaded(), EntryPoint::BorrowWorldPtr),
    {
        self.forward(EntryPoint::BorrowWorldPtr)
    }

    /// Checks the address that the module returned for its application. The
    /// module returns null while it has no application; an address counts
    /// only while the library is loaded.
    pub fn app_at(&self, address: usize) -> (app: Option<AppPtr>)
        ensures
            app is Some <==> self.is_loaded() && address != 0,
            app matches Some(ptr) ==> ptr.spec_address() == address,
    {
        if self.artifact.is_some() && address != 0 {
            Some(AppPtr { address })
        } else {
            None
        }
    }

    /// Checks the address that the module returned for its world. The module
    /// returns null while it has no application; an address counts only
    /// while the library is loaded.
    pub fn world_at(&self, address: usize) -> (world: Option<WorldPtr>)
        ensures
            world is Some <==> self.is_loaded() && address != 0,
            world matches Some(ptr) ==> ptr.spec_address() == address,
    {
        if self.artifact.is_some() && address != 0 {
            Some(WorldPtr { address })
        } else {
            None
        }
    }
}

/// The module's teardown is forwarded at most once, whatever is asked of a
/// handle and in whatever order: once if the library was loaded at the start
/// and is not at the end, and never otherwise.
pub proof fn lemma_teardown_at_most_once(loaded: bool, requests: Seq<EntryPoint>)
    ensures
        teardowns(loaded, requests) <= 1,
        teardowns(loaded, requests) == 1 <==> loaded && !loaded_after_all(loaded, requests),
        !loaded ==> !loaded_after_all(loaded, requests),
    decreases requests.len(),
{
    if requests.len() > 0 {
        lemma_teardown_at_most_once(loaded, requests.drop_last());
    }
}

/// A handle that is shut down when it is given up has the module's teardown
/// forwarded exactly once over its whole life, whatever was asked of it
/// before, earlier shutdowns included.
pub proof fn lemma_teardown_exactly_once(requests: Seq<EntryPoint>)
    ensures
        teardowns(true, requests.push(EntryPoint::DestroyInstance)) == 1,
        !loaded_after_all(true, requests.push(EntryPoint::DestroyInstance)),
{
    let whole = requests.push(EntryPoint::DestroyInstance);
    assert(whole.drop_last() =~= requests);
    lemma_teardown_at_most_once(true, requests);
}

/// As long as no shutdown is among them, every request made of a loaded
/// handle is forwarded, however many there are, and the library stays loaded.
pub proof fn lemma_forwarded_until_shutdown(requests: Seq<EntryPoint>)
    requires
        forall|i: int| 0 <= i < requests.len() ==> requests[i] != EntryPoint::DestroyInstance,
    ensures
        loaded_after_all(true, requests),
        responses(true, requests).len() == requests.len(),
        forall|i: int|
            0 <= i < requests.len() ==> #[trigger] responses(true, requests)[i] == Ok::<
                EntryPoint,
                InstanceError,
            >(requests[i]),
        teardowns(true, requests) == 0,
    decreases requests.len(),
{
    if requests.len() > 0 {
        lemma_forwarded_until_shutdown(requests.drop_last());
    }
}

} // verus!
