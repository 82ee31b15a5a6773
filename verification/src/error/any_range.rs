//! Holder for any [Range]

use std::ops::{Range, RangeFrom, RangeFull, RangeInclusive, RangeTo, RangeToInclusive};
use vstd::prelude::*;

verus! {

#[verifier::external_type_specification]
#[verifier::external_body]
#[verifier::reject_recursive_types(Idx)]
pub struct ExRangeFrom<Idx>(RangeFrom<Idx>);

#[verifier::external_type_specification]
#[verifier::external_body]
pub struct ExRangeFull(RangeFull);

#[verifier::external_type_specification]
#[verifier::external_body]
#[verifier::reject_recursive_types(Idx)]
pub struct ExRangeTo<Idx>(RangeTo<Idx>);

#[verifier::external_type_specification]
#[verifier::external_body]
#[verifier::reject_recursive_types(Idx)]
pub struct ExRangeToInclusive<Idx>(RangeToInclusive<Idx>);

/// Holder for any [Range]
#[derive(Debug, PartialEq, Eq, Hash)]
#[verifier::reject_recursive_types(Idx)]
pub enum AnyRange<Idx> {
    /// Bounded exclusive [Range] i.e. `0..10`
    Range(Range<Idx>),
    /// Unbounded [RangeFrom], i.e. `0..`
    RangeFrom(RangeFrom<Idx>),
    /// Unbounded [RangeFull], i.e. `..`
    RangeFull(RangeFull),
    /// Bounded inclusive [RangeInclusive], i.e. `0..=10`
    RangeInclusive(RangeInclusive<Idx>),
    /// Unbounded [RangeTo], i.e. `..10`
    RangeTo(RangeTo<Idx>),
    /// Unbounded inclusive [RangeToInclusive], i.e. `..=10`
    RangeToInclusive(RangeToInclusive<Idx>),
}

/// Emitted when conversion back into a [std::ops]::Range\\* fails.
#[derive(Debug, PartialEq, Eq, Hash)]
#[verifier::reject_recursive_types(Idx)]
pub struct AnyRangeError<Idx>(pub AnyRange<Idx>);

impl<Idx> AnyRangeError<Idx> {
    /// The range that could not be converted.
    pub open spec fn inner(self) -> AnyRange<Idx> {
        self.0
    }

    /// The range that could not be converted.
    pub fn range(&self) -> (r: &AnyRange<Idx>)
        ensures
            *r == self.inner(),
    {
        &self.0
    }
}

impl<Idx> From<AnyRange<Idx>> for AnyRangeError<Idx> {
    fn from(value: AnyRange<Idx>) -> (r: Self)
        ensures
            r.inner() == value,
    {
        AnyRangeError(value)
    }
}

impl<Idx> vstd::std_specs::convert::FromSpecImpl<AnyRange<Idx>> for AnyRangeError<Idx> {
    open spec fn obeys_from_spec() -> bool {
        true
    }

    open spec fn from_spec(v: AnyRange<Idx>) -> Self {
        AnyRangeError(v)
    }
}

impl<Idx> From<Range<Idx>> for AnyRange<Idx> {
    fn from(value: Range<Idx>) -> (r: Self)
        ensures
            r == AnyRange::Range(value),
    {
        AnyRange::Range(value)
    }
}

impl<Idx> vstd::std_specs::convert::FromSpecImpl<Range<Idx>> for AnyRange<Idx> {
    open spec fn obeys_from_spec() -> bool {
        true
    }

    open spec fn from_spec(v: Range<Idx>) -> Self {
        AnyRange::Range(v)
    }
}

impl<Idx> From<RangeFrom<Idx>> for AnyRange<Idx> {
    fn from(value: RangeFrom<Idx>) -> (r: Self)
        ensures
            r == AnyRange::RangeFrom(value),
    {
        AnyRange::RangeFrom(value)
    }
}

impl<Idx> vstd::std_specs::convert::FromSpecImpl<RangeFrom<Idx>> for AnyRange<Idx> {
    open spec fn obeys_from_spec() -> bool {
        true
    }

    open spec fn from_spec(v: RangeFrom<Idx>) -> Self {
        AnyRange::RangeFrom(v)
    }
}

impl<Idx> From<RangeFull> for AnyRange<Idx> {
    fn from(value: RangeFull) -> (r: Self)
        ensures
            r == AnyRange::<Idx>::RangeFull(value),
    {
        AnyRange::RangeFull(value)
    }
}

impl<Idx> vstd::std_specs::convert::FromSpecImpl<RangeFull> for AnyRange<Idx> {
    open spec fn obeys_from_spec() -> bool {
        true
    }

    open spec fn from_spec(v: RangeFull) -> Self {
        AnyRange::RangeFull(v)
    }
}

impl<Idx> From<RangeInclusive<Idx>> for AnyRange<Idx> {
    fn from(value: RangeInclusive<Idx>) -> (r: Self)
        ensures
            r == AnyRange::RangeInclusive(value),
    {
        AnyRange::RangeInclusive(value)
    }
}

impl<Idx> vstd::std_specs::convert::FromSpecImpl<RangeInclusive<Idx>> for AnyRange<Idx> {
    open spec fn obeys_from_spec() -> bool {
        true
    }

    open spec fn from_spec(v: RangeInclusive<Idx>) -> Self {
        AnyRange::RangeInclusive(v)
    }
}

impl<Idx> From<RangeTo<Idx>> for AnyRange<Idx> {
    fn from(value: RangeTo<Idx>) -> (r: Self)
        ensures
            r == AnyRange::RangeTo(value),
    {
        AnyRange::RangeTo(value)
    }
}

impl<Idx> vstd::std_specs::convert::FromSpecImpl<RangeTo<Idx>> for AnyRange<Idx> {
    open spec fn obeys_from_spec() -> bool {
        true
    }

    open spec fn from_spec(v: RangeTo<Idx>) -> Self {
        AnyRange::RangeTo(v)
    }
}

impl<Idx> From<RangeToInclusive<Idx>> for AnyRange<Idx> {
    fn from(value: RangeToInclusive<Idx>) -> (r: Self)
        ensures
            r == AnyRange::RangeToInclusive(value),
    {
        AnyRange::RangeToInclusive(value)
    }
}

impl<Idx> vstd::std_specs::convert::FromSpecImpl<RangeToInclusive<Idx>> for AnyRange<Idx> {
    open spec fn obeys_from_spec() -> bool {
        true
    }

    open spec fn from_spec(v: RangeToInclusive<Idx>) -> Self {
        AnyRange::RangeToInclusive(v)
    }
}

impl<Idx> TryFrom<AnyRange<Idx>> for Range<Idx> {
    type Error = AnyRangeError<Idx>;

    fn try_from(value: AnyRange<Idx>) -> (r: Result<Self, Self::Error>) {
        if let AnyRange::Range(r) = value {
            Ok(r)
        } else {
            Err(AnyRangeError::from(value))
        }
    }
}

impl<Idx> vstd::std_specs::convert::TryFromSpecImpl<AnyRange<Idx>> for Range<Idx> {
    open spec fn obeys_try_from_spec() -> bool {
        true
    }

    open spec fn try_from_spec(v: AnyRange<Idx>) -> Result<Self, AnyRangeError<Idx>> {
        match v {
            AnyRange::Range(r) => Ok(r),
            _ => Err(AnyRangeError(v)),
        }
    }
}

impl<Idx> TryFrom<AnyRange<Idx>> for RangeFrom<Idx> {
    type Error = AnyRangeError<Idx>;

    fn try_from(value: AnyRange<Idx>) -> (r: Result<Self, Self::Error>) {
        if let AnyRange::RangeFrom(r) = value {
            Ok(r)
        } else {
            Err(AnyRangeError::from(value))
        }
    }
}

impl<Idx> vstd::std_specs::convert::TryFromSpecImpl<AnyRange<Idx>> for RangeFrom<Idx> {
    open spec fn obeys_try_from_spec() -> bool {
        true
    }

    open spec fn try_from_spec(v: AnyRange<Idx>) -> Result<Self, AnyRangeError<Idx>> {
        match v {
            AnyRange::RangeFrom(r) => Ok(r),
            _ => Err(AnyRangeError(v)),
        }
    }
}

impl<Idx> TryFrom<AnyRange<Idx>> for RangeFull {
    type Error = AnyRangeError<Idx>;

    fn try_from(value: AnyRange<Idx>) -> (r: Result<Self, Self::Error>) {
        if let AnyRange::RangeFull(r) = value {
            Ok(r)
        } else {
            Err(AnyRangeError::from(value))
        }
    }
}

impl<Idx> vstd::std_specs::convert::TryFromSpecImpl<AnyRange<Idx>> for RangeFull {
    open spec fn obeys_try_from_spec() -> bool {
        true
    }

    open spec fn try_from_spec(v: AnyRange<Idx>) -> Result<Self, AnyRangeError<Idx>> {
        match v {
            AnyRange::RangeFull(r) => Ok(r),
            _ => Err(AnyRangeError(v)),
        }
    }
}

impl<Idx> TryFrom<AnyRange<Idx>> for RangeInclusive<Idx> {
    type Error = AnyRangeError<Idx>;

    fn try_from(value: AnyRange<Idx>) -> (r: Result<Self, Self::Error>) {
        if let AnyRange::RangeInclusive(r) = value {
            Ok(r)
        } else {
            Err(AnyRangeError::from(value))
        }
    }
}

impl<Idx> vstd::std_specs::convert::TryFromSpecImpl<AnyRange<Idx>> for RangeInclusive<Idx> {
    open spec fn obeys_try_from_spec() -> bool {
        true
    }

    open spec fn try_from_spec(v: AnyRange<Idx>) -> Result<Self, AnyRangeError<Idx>> {
        match v {
            AnyRange::RangeInclusive(r) => Ok(r),
            _ => Err(AnyRangeError(v)),
        }
    }
}

impl<Idx> TryFrom<AnyRange<Idx>> for RangeTo<Idx> {
    type Error = AnyRangeError<Idx>;

    fn try_from(value: AnyRange<Idx>) -> (r: Result<Self, Self::Error>) {
        if let AnyRange::RangeTo(r) = value {
            Ok(r)
        } else {
            Err(AnyRangeError::from(value))
        }
    }
}

impl<Idx> vstd::std_specs::convert::TryFromSpecImpl<AnyRange<Idx>> for RangeTo<Idx> {
    open spec fn obeys_try_from_spec() -> bool {
        true
    }

    open spec fn try_from_spec(v: AnyRange<Idx>) -> Result<Self, AnyRangeError<Idx>> {
        match v {
            AnyRange::RangeTo(r) => Ok(r),
            _ => Err(AnyRangeError(v)),
        }
    }
}

impl<Idx> TryFrom<AnyRange<Idx>> for RangeToInclusive<Idx> {
    type Error = AnyRangeError<Idx>;

    fn try_from(value: AnyRange<Idx>) -> (r: Result<Self, Self::Error>) {
        if let AnyRange::RangeToInclusive(r) = value {
            Ok(r)
        } else {
            Err(AnyRangeError::from(value))
        }
    }
}

impl<Idx> vstd::std_specs::convert::TryFromSpecImpl<AnyRange<Idx>> for RangeToInclusive<Idx> {
    open spec fn obeys_try_from_spec() -> bool {
        true
    }

    open spec fn try_from_spec(v: AnyRange<Idx>) -> Result<Self, AnyRangeError<Idx>> {
        match v {
            AnyRange::RangeToInclusive(r) => Ok(r),
            _ => Err(AnyRangeError(v)),
        }
    }
}

/// Converting a [Range] into an [AnyRange] and back gives the range; converting it back into
/// another kind of range fails, with an error that holds the [AnyRange].
pub proof fn lemma_range_roundtrip<Idx>(r: Range<Idx>)
    ensures
        <Range<Idx> as vstd::std_specs::convert::TryFromSpec<AnyRange<Idx>>>::try_from_spec(
            <AnyRange<Idx> as vstd::std_specs::convert::FromSpec<Range<Idx>>>::from_spec(r),
        ) == Ok::<Range<Idx>, AnyRangeError<Idx>>(r),
        <RangeFrom<Idx> as vstd::std_specs::convert::TryFromSpec<AnyRange<Idx>>>::try_from_spec(
            <AnyRange<Idx> as vstd::std_specs::convert::FromSpec<Range<Idx>>>::from_spec(r),
        ) == Err::<RangeFrom<Idx>, AnyRangeError<Idx>>(AnyRangeError(AnyRange::Range(r))),
{
}

/// Convenient conversion functions from [AnyRange] to the inner type
impl<Idx> AnyRange<Idx> {
    /// Converts from [AnyRange::Range] into a [Range], else [None]
    pub fn range(self) -> (r: Option<Range<Idx>>)
        ensures
            r == (match self {
                AnyRange::Range(x) => Some(x),
                _ => None,
            }),
    {
        match self {
            AnyRange::Range(x) => Some(x),
            _ => None,
        }
    }

    /// Converts from [AnyRange::RangeFrom] into a [RangeFrom], else [None]
    pub fn range_from(self) -> (r: Option<RangeFrom<Idx>>)
        ensures
            r == (match self {
                AnyRange::RangeFrom(x) => Some(x),
                _ => None,
            }),
    {
        match self {
            AnyRange::RangeFrom(x) => Some(x),
            _ => None,
        }
    }

    /// Converts from [AnyRange::RangeFull] into a [RangeFull], else [None]
    pub fn range_full(self) -> (r: Option<RangeFull>)
        ensures
            r == (match self {
                AnyRange::RangeFull(x) => Some(x),
                _ => None,
            }),
    {
        match self {
            AnyRange::RangeFull(x) => Some(x),
            _ => None,
        }
    }

    /// Converts from [AnyRange::RangeInclusive] into a [RangeInclusive], else [None]
    pub fn range_inclusive(self) -> (r: Option<RangeInclusive<Idx>>)
        ensures
            r == (match self {
                AnyRange::RangeInclusive(x) => Some(x),
                _ => None,
            }),
    {
        match self {
            AnyRange::RangeInclusive(x) => Some(x),
            _ => None,
        }
    }

    /// Converts from [AnyRange::RangeTo] into a [RangeTo], else [None]
    pub fn range_to(self) -> (r: Option<RangeTo<Idx>>)
        ensures
            r == (match self {
                AnyRange::RangeTo(x) => Some(x),
                _ => None,
            }),
    {
        match self {
            AnyRange::RangeTo(x) => Some(x),
            _ => None,
        }
    }

    /// Converts from [AnyRange::RangeToInclusive] into a [RangeToInclusive], else [None]
    pub fn range_to_inclusive(self) -> (r: Option<RangeToInclusive<Idx>>)
        ensures
            r == (match self {
                AnyRange::RangeToInclusive(x) => Some(x),
                _ => None,
            }),
    {
        match self {
            AnyRange::RangeToInclusive(x) => Some(x),
            _ => None,
        }
    }
}

} // verus!
