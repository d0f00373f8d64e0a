use game_bridge::entry::{all_entry_points, EntryPoint};

#[test]
fn symbol_names_are_the_exported_names() {
    assert_eq!(EntryPoint::CreateInstance.symbol_name(), "create_instance");
    assert_eq!(EntryPoint::InitInstance.symbol_name(), "init_instance");
    assert_eq!(EntryPoint::TickInstance.symbol_name(), "tick_instance");
    assert_eq!(EntryPoint::DestroyInstance.symbol_name(), "destroy_instance");
    assert_eq!(EntryPoint::BorrowAppPtr.symbol_name(), "borrow_app_ptr");
    assert_eq!(EntryPoint::BorrowWorldPtr.symbol_name(), "borrow_world_ptr");
}

#[test]
fn symbol_names_are_distinct() {
    let all = all_entry_points();
    for (i, a) in all.iter().enumerate() {
        for (j, b) in all.iter().enumerate() {
            assert_eq!(a.symbol_name() == b.symbol_name(), i == j);
        }
    }
}

#[test]
fn entry_points_come_in_probing_order() {
    assert_eq!(
        all_entry_points(),
        vec![
            EntryPoint::CreateInstance,
            EntryPoint::InitInstance,
            EntryPoint::TickInstance,
            EntryPoint::DestroyInstance,
            EntryPoint::BorrowAppPtr,
            EntryPoint::BorrowWorldPtr,
        ]
    );
}

#[test]
fn first_and_next_walk_the_order() {
    let mut walked = vec![EntryPoint::first()];
    let mut current = EntryPoint::first();
    while let Some(next) = current.next() {
        walked.push(next);
        current = next;
    }
    assert_eq!(walked, all_entry_points());
    assert_eq!(EntryPoint::BorrowWorldPtr.next(), None);
    assert_eq!(EntryPoint::TickInstance.next(), Some(EntryPoint::DestroyInstance));
}

#[test]
fn only_the_borrows_return_a_pointer() {
    assert!(!EntryPoint::CreateInstance.returns_pointer());
    assert!(!EntryPoint::InitInstance.returns_pointer());
    assert!(!EntryPoint::TickInstance.returns_pointer());
    assert!(!EntryPoint::DestroyInstance.returns_pointer());
    assert!(EntryPoint::BorrowAppPtr.returns_pointer());
    assert!(EntryPoint::BorrowWorldPtr.returns_pointer());
}
