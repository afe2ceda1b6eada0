//! The message handler state machine: on request it asks the device for its
//! minimum cycle time at a given transmission rate and confirms when the
//! answer has come or has failed to come.

use vstd::prelude::*;
use crate::common::annex_b::MinCycleTime;
use crate::master::dl::message_handler::m_sequences::{
    type_0_read_request, CommunicationChannel, TYPE_0,
};

verus! {

#[allow(non_camel_case_types)]
#[derive(Clone, Copy, Debug, PartialEq, Eq, Structural)]
pub enum State {
    Inactive_0,
    AwaitReply_1,
    Startup_2,
}

/// Transmission rate of the serial link.
#[derive(Clone, Copy, Debug, PartialEq, Eq, Structural)]
pub enum TransmissionRate {
    COM1,
    COM2,
    COM3,
}

impl TransmissionRate {
    /// The rate in bit per second.
    pub open spec fn baud_rate(self) -> u32 {
        match self {
            TransmissionRate::COM1 => 4800,
            TransmissionRate::COM2 => 38400,
            TransmissionRate::COM3 => 230400,
        }
    }

    /// The rate in bit per second.
    #[verifier::when_used_as_spec(baud_rate)]
    pub fn baud(self) -> (rate: u32)
        ensures
            rate == self.baud_rate(),
    {
        match self {
            TransmissionRate::COM1 => 4800,
            TransmissionRate::COM2 => 38400,
            TransmissionRate::COM3 => 230400,
        }
    }
}

/// A request to the message handler.
#[allow(non_camel_case_types)]
#[derive(Clone, Copy, Debug, PartialEq, Eq, Structural)]
pub enum Event {
    /// Try to reach the device at this transmission rate.
    MH_Conf_COMx(TransmissionRate),
}

/// What the machine waits for in its state.
#[derive(Clone, Copy, Debug, PartialEq, Eq, Structural)]
pub enum Wait {
    /// A request.
    ForEvent,
    /// The device message that answers the request sent, or the end of the
    /// time allowed for it.
    ForReply,
    /// Nothing: the machine has no transition from its state.
    Never,
}

/// What the driver hands to the machine.
#[derive(Clone, Copy, Debug, PartialEq, Eq, Structural)]
pub enum Input {
    Event(Event),
    /// The device has answered.
    Reply,
    /// The device has not answered in time.
    ReplyTimeout,
}

/// What the driver does after a transition.
pub enum Output {
    /// Send the master message at this rate and read the device message.
    Transfer { rate: TransmissionRate, m_sequence: TYPE_0<false> },
    /// Confirm the request to its sender.
    Confirm,
}

/// Whether a machine in `state` has a transition for `input`.
pub open spec fn accepts(state: State, input: Input) -> bool {
    match (state, input) {
        (State::Inactive_0, Input::Event(_)) => true,
        (State::AwaitReply_1, Input::Reply) => true,
        (State::AwaitReply_1, Input::ReplyTimeout) => true,
        _ => false,
    }
}

/// What a machine in `state` waits for.
pub open spec fn wait_in(state: State) -> Wait {
    match state {
        State::Inactive_0 => Wait::ForEvent,
        State::AwaitReply_1 => Wait::ForReply,
        State::Startup_2 => Wait::Never,
    }
}

/// The state after `input`, where the machine accepts it.
pub open spec fn state_after(state: State, input: Input) -> State {
    match state {
        State::Inactive_0 => State::AwaitReply_1,
        State::AwaitReply_1 => State::Startup_2,
        State::Startup_2 => State::Startup_2,
    }
}

/// Whether `output` is what a machine in `state` answers to `input`: to a
/// request, the read request for the minimum cycle time on the page channel
/// with an empty device message, at the rate asked for; to the end of the
/// wait for the device, the confirmation.
pub open spec fn is_output(state: State, input: Input, output: Output) -> bool {
    match (state, input) {
        (State::Inactive_0, Input::Event(Event::MH_Conf_COMx(asked))) => {
            &&& output matches Output::Transfer { rate, m_sequence }
            &&& rate == asked
            &&& m_sequence.master_message@ == type_0_read_request(
                CommunicationChannel::Page,
                MinCycleTime,
            )
            &&& m_sequence.device_message@ == seq![0u8, 0u8]
        },
        _ => output is Confirm,
    }
}

pub struct StateMachine {
    state: State,
}

impl View for StateMachine {
    type V = State;

    closed spec fn view(&self) -> State {
        self.state
    }
}

impl StateMachine {
    /// An inactive machine.
    pub fn new() -> (machine: Self)
        ensures
            machine@ == State::Inactive_0,
    {
        Self { state: State::Inactive_0 }
    }

    pub fn state(&self) -> (state: State)
        ensures
            state == self@,
    {
        self.state
    }

    /// What the driver waits for before the next transition.
    pub fn wait(&self) -> (wait: Wait)
        ensures
            wait == wait_in(self@),
    {
        match self.state {
            State::Inactive_0 => Wait::ForEvent,
            State::AwaitReply_1 => Wait::ForReply,
            State::Startup_2 => Wait::Never,
        }
    }

    /// Whether the machine has a transition for `input` in its state.
    pub fn accepts(&self, input: Input) -> (accepted: bool)
        ensures
            accepted == accepts(self@, input),
    {
        match (self.state, input) {
            (State::Inactive_0, Input::Event(_)) => true,
            (State::AwaitReply_1, Input::Reply) => true,
            (State::AwaitReply_1, Input::ReplyTimeout) => true,
            _ => false,
        }
    }

    /// Takes one input and says what the driver does about it.
    pub fn next(&mut self, input: Input) -> (output: Output)
        requires
            accepts(old(self)@, input),
        ensures
            final(self)@ == state_after(old(self)@, input),
            is_output(old(self)@, input, output),
    {
        match self.state {
            State::Inactive_0 => {
                match input {
                    Input::Event(Event::MH_Conf_COMx(rate)) => {
                        let m_sequence = TYPE_0::new(CommunicationChannel::Page, MinCycleTime);
                        self.state = State::AwaitReply_1;
                        Output::Transfer { rate, m_sequence }
                    },
                    _ => Output::Confirm,
                }
            },
            State::AwaitReply_1 => {
                self.state = State::Startup_2;
                Output::Confirm
            },
            State::Startup_2 => Output::Confirm,
        }
    }
}

/// While a request waits for its answer the machine takes no other, and
/// once the answer has come or failed to come the request is confirmed.
pub proof fn lemma_one_transfer_outstanding(event: Event, reply: Input, output: Output)
    requires
        reply == Input::Reply || reply == Input::ReplyTimeout,
        is_output(State::AwaitReply_1, reply, output),
    ensures
        state_after(State::Inactive_0, Input::Event(event)) == State::AwaitReply_1,
        wait_in(State::AwaitReply_1) == Wait::ForReply,
        !accepts(State::AwaitReply_1, Input::Event(event)),
        accepts(State::AwaitReply_1, reply),
        output is Confirm,
{
}

} // verus!
