use openusd::usd::{PrimRange, PrimSiblingRange, RangeStep};

#[test]
fn prim_range_yields_until_end_then_stays_done() {
    let mut range = PrimRange::from_iterators(0x10, 0x11, 0x12);
    assert_eq!(range.ptr(), 0x10);
    assert_eq!(range.current(), 0x11);
    assert_eq!(range.end(), 0x12);
    assert_eq!(range.next(false), RangeStep::Yield);
    assert_eq!(range.next(false), RangeStep::Yield);
    assert_eq!(range.next(true), RangeStep::Done);
    assert_eq!(range.next(false), RangeStep::Done);
}

#[test]
fn empty_sibling_range_is_done_at_once() {
    let mut range = PrimSiblingRange::from_iterators(1, 2, 2);
    assert_eq!(range.next(true), RangeStep::Done);
    assert_eq!(range.next(false), RangeStep::Done);
    assert_eq!(range.current(), 2);
}
