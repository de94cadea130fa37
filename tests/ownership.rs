use openusd::ownership::{Discipline, ForeignHandle, Ledger, Teardown};
use openusd::sdf::{LayerHandle, LayerRefPtr};
use openusd::usd::{Prim, PropertyRef, StageRefPtr};

#[test]
fn exclusive_handle_created_then_destroyed_once() {
    let mut ledger = Ledger::new();
    assert!(ledger.adopt_exclusive(0x1000));
    assert!(ledger.is_held(0x1000));
    assert_eq!(ledger.release(0x1000), Teardown::Destroy);
    assert!(!ledger.is_held(0x1000));
    assert_eq!(ledger.release(0x1000), Teardown::Nothing);
}

#[test]
fn exclusive_address_cannot_be_adopted_twice() {
    let mut ledger = Ledger::new();
    assert!(ledger.adopt_exclusive(0x10));
    assert!(!ledger.adopt_exclusive(0x10));
    assert!(!ledger.adopt_shared(0x10));
    assert_eq!(ledger.holders(0x10), 1);
}

#[test]
fn shared_aliases_free_exactly_once() {
    let mut ledger = Ledger::new();
    assert!(ledger.adopt_shared(0x2000));
    assert!(ledger.adopt_shared(0x2000));
    assert_eq!(ledger.holders(0x2000), 2);
    assert_eq!(ledger.release(0x2000), Teardown::Release);
    assert!(ledger.is_held(0x2000));
    assert_eq!(ledger.holders(0x2000), 1);
    assert_eq!(ledger.release(0x2000), Teardown::ReleaseLast);
    assert!(!ledger.is_held(0x2000));
    assert_eq!(ledger.release(0x2000), Teardown::Nothing);
}

#[test]
fn release_of_unknown_address_owes_nothing() {
    let mut ledger = Ledger::new();
    assert_eq!(ledger.release(0x42), Teardown::Nothing);
    assert_eq!(ledger.holders(0x42), 0);
}

#[test]
fn handles_follow_their_discipline() {
    let mut ledger = Ledger::new();
    let stage = StageRefPtr { ptr: 0x300 };
    let alias = StageRefPtr { ptr: 0x300 };
    let prim = Prim { ptr: 0x400 };
    let view = PropertyRef { ptr: 0x500 };
    assert!(ledger.adopt(&stage));
    assert!(ledger.adopt(&alias));
    assert!(ledger.adopt(&prim));
    assert!(ledger.adopt(&view));
    assert!(!ledger.is_held(0x500));
    assert_eq!(ledger.release_handle(&view), Teardown::Nothing);
    assert_eq!(ledger.release_handle(&prim), Teardown::Destroy);
    assert_eq!(ledger.release_handle(&stage), Teardown::Release);
    assert_eq!(ledger.release_handle(&alias), Teardown::ReleaseLast);
}

#[test]
fn layer_handles_report_their_discipline() {
    assert_eq!(LayerRefPtr::discipline(), Some(Discipline::Shared));
    assert_eq!(LayerHandle::discipline(), None);
    assert_eq!(Prim::discipline(), Some(Discipline::Exclusive));
    assert_eq!(LayerRefPtr { ptr: 7 }.address(), 7);
}
