//! Builds M-sequence telegrams and negotiates the transmission rate.

use vstd::prelude::*;
pub use crate::master::dl::message_handler::state_machine::{
    Event, Input, Output, State, TransmissionRate, Wait,
};
use crate::master::dl::message_handler::state_machine::{
    accepts, is_output, state_after, wait_in, StateMachine,
};

pub mod m_sequences;
pub mod state_machine;

verus! {

/// The message handler of one port.
pub struct MessageHandler {
    state_machine: StateMachine,
}

impl View for MessageHandler {
    type V = State;

    closed spec fn view(&self) -> State {
        self.state_machine@
    }
}

impl MessageHandler {
    /// An inactive message handler.
    pub fn new() -> (handler: Self)
        ensures
            handler@ == State::Inactive_0,
    {
        Self { state_machine: StateMachine::new() }
    }

    pub fn state(&self) -> (state: State)
        ensures
            state == self@,
    {
        self.state_machine.state()
    }

    /// What the driver waits for before the next transition.
    pub fn wait(&self) -> (wait: Wait)
        ensures
            wait == wait_in(self@),
    {
        self.state_machine.wait()
    }

    /// Whether the handler has a transition for `input` in its state.
    pub fn accepts(&self, input: Input) -> (accepted: bool)
        ensures
            accepted == accepts(self@, input),
    {
        self.state_machine.accepts(input)
    }

    /// Takes one input and says what the driver does about it.
    pub fn next(&mut self, input: Input) -> (output: Output)
        requires
            accepts(old(self)@, input),
        ensures
            final(self)@ == state_after(old(self)@, input),
            is_output(old(self)@, input, output),
    {
        self.state_machine.next(input)
    }
}

} // verus!
