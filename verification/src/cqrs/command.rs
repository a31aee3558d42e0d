//! Commands: requests that an aggregate either refuses or answers with the
//! domain events that carry them out.
use vstd::prelude::*;
use crate::cqrs::aggregate::{Aggregate, Error};
use crate::cqrs::event::DomainEvent;

verus! {

/// A request decided against the current state of an aggregate of type `A`:
/// refused with an `Error`, or accepted with the events of type `E` that
/// record it. Implemented by the users of the library for their own domains;
/// an implementation's `handle` returns `decided_on` of the aggregate.
pub trait Command<A: Aggregate, E: DomainEvent<A>>: Sized {
    /// The outcome of the command when decided against `aggregate`.
    spec fn decided_on(self, aggregate: A) -> Result<Vec<E>, Error>;

    /// Decides the command against `aggregate`.
    fn handle(self, aggregate: &A) -> (r: Result<Vec<E>, Error>)
        ensures
            r == self.decided_on(*aggregate),
    ;
}

} // verus!
