//! Domain events that can be compared and printed, as the test harness's
//! checks on produced events need.
use vstd::prelude::*;
use crate::cqrs::aggregate::Aggregate;

verus! {

/// A fact about an aggregate of type `T` that changes its state when applied,
/// and that can be compared with another and printed.
pub trait DomainEvent<T: Aggregate>: PartialEq + core::fmt::Debug {
    /// Changes `aggregate` as the event records.
    fn apply(self, aggregate: &mut T);
}

} // verus!
