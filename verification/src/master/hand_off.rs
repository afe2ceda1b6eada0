//! The sending end of a hand-off between two activities.
//!
//! A request and its confirmation travel through slots that hold one value
//! each. The sender keeps account of the request it has under way and
//! submits the next only when the confirmation of the last is consumed.

use vstd::prelude::*;

verus! {

/// Whether a sender with `in_flight` under way must hold a request back.
pub open spec fn would_block<E>(in_flight: Option<E>) -> bool {
    in_flight is Some
}

/// What is in flight after an attempt to submit `event`.
pub open spec fn after_submit<E>(in_flight: Option<E>, event: E) -> Option<E> {
    if would_block(in_flight) {
        in_flight
    } else {
        Some(event)
    }
}

/// What is in flight after the confirmation is consumed: nothing.
pub open spec fn after_confirmation<E>(in_flight: Option<E>) -> Option<E> {
    None
}

/// The sender of requests of type `E`, with at most one of them in flight.
pub struct Requester<E> {
    in_flight: Option<E>,
}

impl<E> View for Requester<E> {
    type V = Option<E>;

    /// The request that is in flight, if any.
    closed spec fn view(&self) -> Option<E> {
        self.in_flight
    }
}

impl<E: Copy> Requester<E> {
    /// A sender with nothing in flight.
    pub fn new() -> (requester: Self)
        ensures
            requester@ is None,
    {
        Self { in_flight: None }
    }

    /// The request that is in flight, if any.
    pub fn in_flight(&self) -> (event: Option<E>)
        ensures
            event == self@,
    {
        self.in_flight
    }

    /// Asks to submit `event`. With nothing in flight the answer is `true`
    /// and `event` is now in flight: the caller sends it. Otherwise the
    /// answer is `false` and nothing has changed: the caller must first
    /// consume the confirmation that is due.
    pub fn submit(&mut self, event: E) -> (free: bool)
        ensures
            free == !would_block(old(self)@),
            final(self)@ == after_submit(old(self)@, event),
    {
        match self.in_flight {
            None => {
                self.in_flight = Some(event);
                true
            },
            Some(_) => false,
        }
    }

    /// Consumes the confirmation. Returns the request that it confirms, if
    /// one was in flight; after the call none is.
    pub fn confirmed(&mut self) -> (event: Option<E>)
        ensures
            event == old(self)@,
            final(self)@ == after_confirmation(old(self)@),
    {
        let event = self.in_flight;
        self.in_flight = None;
        event
    }
}

/// A second request that is submitted before the confirmation of the first
/// is consumed is held back and changes nothing: the first stays in flight.
/// Once the confirmation is consumed the second goes through.
pub proof fn lemma_one_in_flight<E>(idle: Option<E>, first: E, second: E)
    requires
        idle is None,
    ensures
        ({
            let busy = after_submit(idle, first);
            &&& busy == Some(first)
            &&& would_block(busy)
            &&& after_submit(busy, second) == busy
            &&& !would_block(after_confirmation(busy))
            &&& after_submit(after_confirmation(busy), second) == Some(second)
        }),
{
}

} // verus!
