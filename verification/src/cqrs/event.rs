//! Domain events: facts that, applied in order to an aggregate's default
//! value, rebuild its state.
use vstd::prelude::*;
use crate::cqrs::aggregate::Aggregate;

verus! {

/// A fact about an aggregate of type `T` that changes its state when applied.
/// Implemented by the users of the library for their own domains; an
/// implementation's `apply` changes the aggregate to `applied_to` of it.
pub trait DomainEvent<T: Aggregate>: Sized {
    /// The aggregate that results from applying the event to `aggregate`.
    spec fn applied_to(self, aggregate: T) -> T;

    /// Changes `aggregate` as the event records.
    fn apply(self, aggregate: &mut T)
        ensures
            *final(aggregate) == self.applied_to(*old(aggregate)),
    ;
}

/// The aggregate that results from applying `events` to `aggregate`, first
/// event first.
pub open spec fn replay<T: Aggregate, E: DomainEvent<T>>(aggregate: T, events: Seq<E>) -> T
    decreases events.len(),
{
    if events.len() == 0 {
        aggregate
    } else {
        events.last().applied_to(replay(aggregate, events.drop_last()))
    }
}

/// Replaying no events leaves the aggregate as it is, and replaying events
/// followed by one more event is that event applied to the replay of the
/// events before it: every event is applied, once, in the order given.
pub proof fn law_replay_applies_in_order<T: Aggregate, E: DomainEvent<T>>(
    aggregate: T,
    events: Seq<E>,
    event: E,
)
    ensures
        replay(aggregate, Seq::<E>::empty()) == aggregate,
        replay(aggregate, events.push(event)) == event.applied_to(replay(aggregate, events)),
{
    assert(events.push(event).drop_last() =~= events);
}

/// Replaying `first` and then `second` is replaying them one after the other:
/// the aggregate rebuilt from the earlier events is where the later ones start.
pub proof fn law_replay_composes<T: Aggregate, E: DomainEvent<T>>(
    aggregate: T,
    first: Seq<E>,
    second: Seq<E>,
)
    ensures
        replay(aggregate, first + second) == replay(replay(aggregate, first), second),
    decreases second.len(),
{
    if second.len() == 0 {
        assert(first + second =~= first);
    } else {
        law_replay_composes(aggregate, first, second.drop_last());
        assert((first + second).drop_last() =~= first + second.drop_last());
        assert((first + second).last() == second.last());
    }
}

} // verus!
