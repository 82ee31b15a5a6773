use chirp::error::any_range::{AnyRange, AnyRangeError};
use std::ops::{Range, RangeFrom, RangeFull, RangeInclusive, RangeTo, RangeToInclusive};

#[test]
fn any_range_roundtrip() {
    assert_eq!(Range::try_from(AnyRange::from(3usize..7)).unwrap(), 3..7);
    assert_eq!(RangeFrom::try_from(AnyRange::from(3usize..)).unwrap(), 3..);
    assert_eq!(RangeFull::try_from(AnyRange::<usize>::from(..)).unwrap(), ..);
    assert_eq!(RangeInclusive::try_from(AnyRange::from(3usize..=7)).unwrap(), 3..=7);
    assert_eq!(RangeTo::try_from(AnyRange::from(..7usize)).unwrap(), ..7);
    assert_eq!(RangeToInclusive::try_from(AnyRange::from(..=7usize)).unwrap(), ..=7);
}

#[test]
fn any_range_wrong_kind() {
    let err: AnyRangeError<usize> = RangeTo::try_from(AnyRange::from(3usize..7)).unwrap_err();
    assert!(matches!(err.range(), AnyRange::Range(r) if *r == (3..7)));
    assert_eq!(err, AnyRangeError(AnyRange::Range(3..7)));
    assert_ne!(AnyRange::from(3usize..7), AnyRange::from(3usize..8));
    assert!(RangeFull::try_from(AnyRange::from(3usize..)).is_err());
    assert_eq!(AnyRange::from(3usize..7).range(), Some(3..7));
    assert_eq!(AnyRange::from(3usize..7).range_to(), None);
    assert_eq!(AnyRange::from(..=9usize).range_to_inclusive(), Some(..=9));
}
