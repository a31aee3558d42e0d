//! A harness for testing aggregates in the given / when / then style: given
//! earlier events, when a command is handled, then expect these events or
//! this error.
use vstd::prelude::*;
use core::marker::PhantomData;
use crate::cqrs::aggregate::{Aggregate, Error};
use crate::cqrs::command::Command;
use crate::cqrs::event::{replay, DomainEvent};
use vstd::std_specs::cmp::PartialEqSpec;

verus! {

/// The entry point of an aggregate test.
pub struct TestFramework<A, E> {
    _phantom: PhantomData<(A, E)>,
}

impl<A, E> TestFramework<A, E> where A: Aggregate, E: DomainEvent<A> {
    /// Initiates an aggregate test with no previous events.
    #[must_use]
    pub fn given_no_previous_events(&self) -> (r: AggregateTestExecutor<A, E>)
        ensures
            r@ == Seq::<E>::empty(),
    {
        AggregateTestExecutor { events: Vec::new(), _phantom: PhantomData }
    }

    /// Initiates an aggregate test with a collection of previous events.
    #[must_use]
    pub fn given(&self, events: Vec<E>) -> (r: AggregateTestExecutor<A, E>)
        ensures
            r@ == events@,
    {
        AggregateTestExecutor { events, _phantom: PhantomData }
    }
}

impl<A, E> TestFramework<A, E> {
    /// The framework's one value: it holds nothing but its type parameters.
    pub closed spec fn blank() -> TestFramework<A, E> {
        TestFramework { _phantom: PhantomData }
    }
}

impl<A, E> Default for TestFramework<A, E> where A: Aggregate, E: DomainEvent<A> {
    fn default() -> (r: TestFramework<A, E>)
        ensures
            r == Self::blank(),
    {
        TestFramework { _phantom: PhantomData }
    }
}

/// Holds the initial event state of an aggregate and accepts a command.
pub struct AggregateTestExecutor<A, E> where A: Aggregate, E: DomainEvent<A> {
    events: Vec<E>,
    _phantom: PhantomData<A>,
}

impl<A, E> View for AggregateTestExecutor<A, E> where A: Aggregate, E: DomainEvent<A> {
    type V = Seq<E>;

    /// The previous events, in the order in which they are applied.
    closed spec fn view(&self) -> Seq<E> {
        self.events@
    }
}

impl<A, E> AggregateTestExecutor<A, E> where A: Aggregate, E: DomainEvent<A> {
    /// Consumes a command and, using the state details previously passed,
    /// provides a validator object to test against: the aggregate starts from
    /// its default value, every previous event is applied to it in order, and
    /// the command is handled against the result.
    /// The starting value is one that `A::default()` may return; an
    /// aggregate's default may hold a fresh random identifier.
    pub fn when<C: Command<A, E>>(self, command: C) -> (r: AggregateResultValidator<A, E>)
        ensures
            exists|initial: A|
                call_ensures(A::default, (), initial)
                && r.outcome() == command.decided_on(#[trigger] replay(initial, self@)),
    {
        let mut aggregate = A::default();
        let ghost initial = aggregate;
        let ghost events = self.events@;
        broadcast use vstd::std_specs::vec::axiom_spec_into_iter;
        for event in iter: self.events.into_iter()
            invariant
                iter.seq() == events,
                aggregate == replay(initial, events.take(iter.index() as int)),
        {
            proof {
                let i = iter.index() as int;
                assert(events.take(i + 1).drop_last() =~= events.take(i));
                assert(events.take(i + 1).last() == events[i]);
            }
            event.apply(&mut aggregate);
        }
        proof {
            assert(events.take(events.len() as int) =~= events);
        }
        let result = command.handle(&aggregate);
        let r = AggregateResultValidator { result, _phantom: PhantomData };
        assert(events == self@);
        assert(r.outcome() == command.decided_on(replay(initial, self@)));
        r
    }
}

/// Why an expectation on a command's outcome failed.
#[derive(Debug)]
pub enum ExpectationFailure<E> {
    /// Events were expected, and the command was refused with this error.
    UnexpectedError(Error),
    /// The command produced `received_events`, and `expected_events` was
    /// expected.
    EventsDiffer { received_events: Vec<E>, expected_events: Vec<E> },
    /// An error was expected, and the command produced these events.
    UnexpectedEvents(Vec<E>),
    /// A user error was expected, and the command failed with a technical
    /// error with this message.
    TechnicalError(String),
    /// The command was refused with a user error whose message is
    /// `received_message`, and `expected_message` was expected.
    MessageDiffers { received_message: String, expected_message: String },
}

/// The two sequences of events have the same length and agree element by
/// element by their `==`.
pub open spec fn events_agree<E: PartialEq>(received: Seq<E>, expected: Seq<E>) -> bool {
    &&& received.len() == expected.len()
    &&& forall|i: int| 0 <= i < received.len() ==> #[trigger] received[i].eq_spec(&expected[i])
}

/// Validation object for the `TestFramework` package.
pub struct AggregateResultValidator<A, E> where A: Aggregate, E: DomainEvent<A> {
    result: Result<Vec<E>, Error>,
    _phantom: PhantomData<A>,
}

impl<A, E> AggregateResultValidator<A, E> where A: Aggregate, E: DomainEvent<A> {
    /// The outcome of the command under test.
    pub closed spec fn outcome(&self) -> Result<Vec<E>, Error> {
        self.result
    }

    /// A validator for a command whose outcome was `result`.
    pub fn new(result: Result<Vec<E>, Error>) -> (r: AggregateResultValidator<A, E>)
        ensures
            r.outcome() == result,
    {
        AggregateResultValidator { result, _phantom: PhantomData }
    }

    /// Verifies that the expected events have been produced by the command:
    /// the command succeeded, with events that agree, element by element, with
    /// `expected_events`. The expectation is this function's `requires`: a
    /// verified caller proves it, and the function itself checks nothing at run
    /// time, so a caller that is not verified (such as a `#[test]`) learns
    /// nothing from calling it. Such a caller uses `check_events`, which
    /// compares the events and reports a failed expectation.
    pub fn then_expect_events(self, expected_events: Vec<E>)
        where E: PartialEq,
        requires
            self.outcome() matches Ok(events) && events_agree(events@, expected_events@),
    {
    }

    /// Checks that the expected events have been produced by the command.
    /// The events are compared with `==`; where `E`'s `==` follows its
    /// specification, success comes exactly when the command succeeded with
    /// events that agree, element by element, with `expected_events`.
    pub fn check_events(self, expected_events: Vec<E>) -> (r: Result<(), ExpectationFailure<E>>)
        where E: PartialEq,
        ensures
            match self.outcome() {
                Err(err) => r == Err::<(), ExpectationFailure<E>>(ExpectationFailure::UnexpectedError(err)),
                Ok(events) => {
                    &&& (E::obeys_eq_spec() ==> (r is Ok <==> events_agree(events@, expected_events@)))
                    &&& r is Err ==> r == Err::<(), ExpectationFailure<E>>(
                        ExpectationFailure::EventsDiffer { received_events: events, expected_events },
                    )
                },
            },
    {
        match self.result {
            Err(err) => Err(ExpectationFailure::UnexpectedError(err)),
            Ok(events) => {
                if events == expected_events {
                    Ok(())
                } else {
                    Err(ExpectationFailure::EventsDiffer { received_events: events, expected_events })
                }
            },
        }
    }

    /// Verifies that an `Error` with the expected message is produced with the
    /// command: a user error whose message is `error_message`. The expectation
    /// is this function's `requires`: a verified caller proves it, and the
    /// function itself checks nothing at run time, so a caller that is not
    /// verified (such as a `#[test]`) learns nothing from calling it. Such a
    /// caller uses `check_error`, which compares the outcome and reports a
    /// failed expectation.
    pub fn then_expect_error(self, error_message: &str)
        requires
            self.outcome() matches Err(Error::UserError(m)) && m@ == error_message@,
    {
    }

    /// Checks that an `Error` with the expected message is produced with the
    /// command: a user error whose message is `error_message`.
    pub fn check_error(self, error_message: &str) -> (r: Result<(), ExpectationFailure<E>>)
        ensures
            match self.outcome() {
                Ok(events) => r == Err::<(), ExpectationFailure<E>>(ExpectationFailure::UnexpectedEvents(events)),
                Err(Error::TechnicalError(m)) => r == Err::<(), ExpectationFailure<E>>(ExpectationFailure::TechnicalError(m)),
                Err(Error::UserError(m)) => if m@ == error_message@ {
                    r is Ok
                } else {
                    r matches Err(ExpectationFailure::MessageDiffers { received_message, expected_message })
                        && received_message == m && expected_message@ == error_message@
                },
            },
    {
        match self.result {
            Ok(events) => Err(ExpectationFailure::UnexpectedEvents(events)),
            Err(err) => match err {
                Error::TechnicalError(m) => Err(ExpectationFailure::TechnicalError(m)),
                Error::UserError(m) => {
                    let expected = String::from_str(error_message);
                    if m == expected {
                        Ok(())
                    } else {
                        Err(ExpectationFailure::MessageDiffers { received_message: m, expected_message: expected })
                    }
                },
            },
        }
    }
}

/// The events agree exactly when the two vectors are equal by `Vec`'s own
/// `==` (same length, and every element equal to the one at the same index
/// by `E`'s `==`); in particular two sequences that differ at any one index,
/// not only the first, do not agree.
pub proof fn law_events_agree_compares_every_event<E: PartialEq>(received: Vec<E>, expected: Vec<E>)
    ensures
        events_agree(received@, expected@) <==> received.eq_spec(&expected),
        events_agree(received@, expected@) ==> received@.len() == expected@.len(),
        forall|i: int|
            0 <= i < received@.len() && i < expected@.len() && !received@[i].eq_spec(&expected@[i])
                ==> !events_agree(received@, expected@),
{
    if events_agree(received@, expected@) {
        assert forall|i: int| 0 <= i < received.len() implies received[i].eq_spec(&expected[i]) by {
            assert(received@[i].eq_spec(&expected@[i]));
        }
    }
    if received.eq_spec(&expected) {
        assert forall|i: int| 0 <= i < received@.len() implies #[trigger] received@[i].eq_spec(&expected@[i]) by {
            assert(received[i].eq_spec(&expected[i]));
        }
    }
}

} // verus!
