//! Declarations that let the standard range shapes appear in verified
//! signatures.
//!
//! `vstd` already knows `core::ops::Range` and `core::ops::RangeInclusive`;
//! the remaining shapes used as selectors are declared here. The declarations
//! expose only the structure of each type (its public fields); nothing about
//! behavior is assumed by them.

use vstd::prelude::*;

verus! {

/// Relies on `core::ops::RangeFrom` being a plain record of its public
/// `start` field.
#[verifier::external_type_specification]
#[verifier::reject_recursive_types(Idx)]
pub struct ExRangeFrom<Idx>(core::ops::RangeFrom<Idx>);

/// Relies on `core::ops::RangeFull` being a plain unit struct.
#[verifier::external_type_specification]
pub struct ExRangeFull(core::ops::RangeFull);

/// Relies on `core::ops::RangeTo` being a plain record of its public
/// `end` field.
#[verifier::external_type_specification]
#[verifier::reject_recursive_types(Idx)]
pub struct ExRangeTo<Idx>(core::ops::RangeTo<Idx>);

/// Relies on `core::ops::RangeToInclusive` being a plain record of its public
/// `end` field.
#[verifier::external_type_specification]
#[verifier::reject_recursive_types(Idx)]
pub struct ExRangeToInclusive<Idx>(core::ops::RangeToInclusive<Idx>);

/// Relies on `core::ops::RangeInclusive::start`: it returns the lower bound
/// the range was constructed with.
pub assume_specification<Idx>[ core::ops::RangeInclusive::<Idx>::start ](
    r: &core::ops::RangeInclusive<Idx>,
) -> (s: &Idx)
    ensures
        *s == r@.start,
;

/// Relies on `core::ops::RangeInclusive::end`: it returns the upper bound
/// the range was constructed with.
pub assume_specification<Idx>[ core::ops::RangeInclusive::<Idx>::end ](
    r: &core::ops::RangeInclusive<Idx>,
) -> (e: &Idx)
    ensures
        *e == r@.end,
;

} // verus!
