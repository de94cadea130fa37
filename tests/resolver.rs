use openusd::ar::ResolvedPath;
use openusd::tf::{ResolverCallbacks, Type, FACTORY_SLOTS};

#[test]
fn factory_slots_follow_foreign_order() {
    let callbacks = ResolverCallbacks {
        create_identifier_for_new_asset: Some(1),
        create_identifier: Some(2),
        open_asset: Some(3),
        resolve_for_new_asset: Some(4),
        resolve: Some(5),
        get_extension: Some(6),
        get_timestamp: None,
        close_writable_asset: Some(8),
        open_writable_asset: Some(9),
        write_writable_asset: Some(10),
    };
    let slots = Type { ptr: 0x99 }.set_factory(&callbacks);
    assert_eq!(slots.len(), FACTORY_SLOTS);
    assert_eq!(slots, vec![1, 2, 3, 5, 4, 0, 6, 0, 8, 9, 10]);
}

#[test]
fn absent_callbacks_are_null() {
    let callbacks = ResolverCallbacks {
        create_identifier_for_new_asset: None,
        create_identifier: None,
        open_asset: None,
        resolve_for_new_asset: None,
        resolve: None,
        get_extension: None,
        get_timestamp: None,
        close_writable_asset: None,
        open_writable_asset: None,
        write_writable_asset: None,
    };
    assert_eq!(Type { ptr: 1 }.set_factory(&callbacks), vec![0; 11]);
}

#[test]
fn resolved_path_view_keeps_address() {
    assert_eq!(ResolvedPath::from_raw(0xabc).ptr, 0xabc);
}
