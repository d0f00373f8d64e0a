//! The entry points a game module exports.

use vstd::prelude::*;

verus! {

/// One of the functions a game module must export, each under a fixed,
/// unmangled name and with the C calling convention.
///
/// The variants are listed in the order in which a freshly opened library is
/// probed for them.
#[derive(Clone, Copy, Debug, PartialEq, Eq, Hash, Structural)]
pub enum EntryPoint {
    /// `create_instance() -> void`: allocates the module's application state.
    CreateInstance,
    /// `init_instance() -> void`: runs the setup callback the host registered.
    InitInstance,
    /// `tick_instance() -> void`: advances the module by one frame.
    TickInstance,
    /// `destroy_instance() -> void`: releases the module's application state.
    DestroyInstance,
    /// `borrow_app_ptr() -> pointer`: address of the module's application.
    BorrowAppPtr,
    /// `borrow_world_ptr() -> pointer`: address of the module's world.
    BorrowWorldPtr,
}

/// Every entry point a module must export, in probing order.
pub open spec fn required_entry_points() -> Seq<EntryPoint> {
    seq![
        EntryPoint::CreateInstance,
        EntryPoint::InitInstance,
        EntryPoint::TickInstance,
        EntryPoint::DestroyInstance,
        EntryPoint::BorrowAppPtr,
        EntryPoint::BorrowWorldPtr,
    ]
}

impl EntryPoint {
    /// The exported symbol's name.
    pub open spec fn spec_symbol_name(self) -> Seq<char> {
        match self {
            EntryPoint::CreateInstance => "create_instance"@,
            EntryPoint::InitInstance => "init_instance"@,
            EntryPoint::TickInstance => "tick_instance"@,
            EntryPoint::DestroyInstance => "destroy_instance"@,
            EntryPoint::BorrowAppPtr => "borrow_app_ptr"@,
            EntryPoint::BorrowWorldPtr => "borrow_world_ptr"@,
        }
    }

    /// Position of the entry point in `required_entry_points()`.
    pub open spec fn position(self) -> int {
        match self {
            EntryPoint::CreateInstance => 0,
            EntryPoint::InitInstance => 1,
            EntryPoint::TickInstance => 2,
            EntryPoint::DestroyInstance => 3,
            EntryPoint::BorrowAppPtr => 4,
            EntryPoint::BorrowWorldPtr => 5,
        }
    }

    /// The entry point probed after this one, if any.
    pub open spec fn spec_next(self) -> Option<EntryPoint> {
        if self.position() + 1 < required_entry_points().len() {
            Some(required_entry_points()[self.position() + 1])
        } else {
            None
        }
    }

    /// Whether the raw function returns an address rather than nothing.
    pub open spec fn spec_returns_pointer(self) -> bool {
        self == EntryPoint::BorrowAppPtr || self == EntryPoint::BorrowWorldPtr
    }

    /// The first entry point that is probed.
    pub fn first() -> (e: EntryPoint)
        ensures
            e == required_entry_points()[0],
            e.position() == 0,
    {
        EntryPoint::CreateInstance
    }

    /// The entry point probed after this one; `None` after the last.
    pub fn next(self) -> (n: Option<EntryPoint>)
        ensures
            n == self.spec_next(),
            n matches Some(e) ==> e.position() == self.position() + 1,
            n is None <==> self.position() == 5,
    {
        match self {
            EntryPoint::CreateInstance => Some(EntryPoint::InitInstance),
            EntryPoint::InitInstance => Some(EntryPoint::TickInstance),
            EntryPoint::TickInstance => Some(EntryPoint::DestroyInstance),
            EntryPoint::DestroyInstance => Some(EntryPoint::BorrowAppPtr),
            EntryPoint::BorrowAppPtr => Some(EntryPoint::BorrowWorldPtr),
            EntryPoint::BorrowWorldPtr => None,
        }
    }

    /// The name under which the module exports this entry point.
    pub fn symbol_name(self) -> (name: &'static str)
        ensures
            name@ == self.spec_symbol_name(),
    {
        match self {
            EntryPoint::CreateInstance => "create_instance",
            EntryPoint::InitInstance => "init_instance",
            EntryPoint::TickInstance => "tick_instance",
            EntryPoint::DestroyInstance => "destroy_instance",
            EntryPoint::BorrowAppPtr => "borrow_app_ptr",
            EntryPoint::BorrowWorldPtr => "borrow_world_ptr",
        }
    }

    /// Whether the raw function hands back an address (`true`) or nothing.
    pub fn returns_pointer(self) -> (p: bool)
        ensures
            p == self.spec_returns_pointer(),
    {
        match self {
            EntryPoint::BorrowAppPtr => true,
            EntryPoint::BorrowWorldPtr => true,
            _ => false,
        }
    }
}

/// Every entry point a module must export, in probing order.
pub fn all_entry_points() -> (all: Vec<EntryPoint>)
    ensures
        all@ == required_entry_points(),
{
    let mut all: Vec<EntryPoint> = Vec::new();
    all.push(EntryPoint::CreateInstance);
    all.push(EntryPoint::InitInstance);
    all.push(EntryPoint::TickInstance);
    all.push(EntryPoint::DestroyInstance);
    all.push(EntryPoint::BorrowAppPtr);
    all.push(EntryPoint::BorrowWorldPtr);
    all
}

/// No two entry points share a symbol name: a name stands for exactly one
/// entry point.
pub proof fn lemma_symbol_names_distinct(a: EntryPoint, b: EntryPoint)
    ensures
        a.spec_symbol_name() == b.spec_symbol_name() <==> a == b,
{
    reveal_strlit("create_instance");
    reveal_strlit("init_instance");
    reveal_strlit("tick_instance");
    reveal_strlit("destroy_instance");
    reveal_strlit("borrow_app_ptr");
    reveal_strlit("borrow_world_ptr");
    if a != b {
        assert(a.spec_symbol_name().len() != b.spec_symbol_name().len()
            || a.spec_symbol_name()[0] != b.spec_symbol_name()[0]);
    }
}

} // verus!
