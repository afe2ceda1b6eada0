//! The mode handler of the data-link layer: takes a request for a mode and
//! leads the port through power cycling, the wait for the ready pulse, the
//! wake-up and the request for communication.
//!
//! In each state the machine has one activity, which its driver carries out,
//! and one transition, which the outcome of the activity selects.

use vstd::prelude::*;
use crate::master::dl::message_handler::TransmissionRate;
use crate::master::pl::ServiceResult;

verus! {

/// Time for which the supply of the device stays off, in milliseconds.
pub const MIN_SHUTDOWN_TIME_MS: u64 = 3000;

/// Time within which the device shows that it is ready, in milliseconds.
pub const TIME_TO_READY_MS: u64 = 5000;

/// Time between the wake-up and the first message, in milliseconds: the
/// delimiting time at COM2, rounded up.
pub const T_DMT_MS: u64 = 1;

/// Time for which the machine rests after a request for communication, in
/// milliseconds.
pub const SETTLE_TIME_MS: u64 = 10000;

#[allow(non_camel_case_types)]
#[derive(Clone, Copy, Debug, PartialEq, Eq, Structural)]
pub enum State {
    Idle_0,
    EstablishCom_1,
    WURQ_5,
    ComRequestCOM2_7,
    WaitOnReadyPulse_10,
    WaitOnPortPowerOn_11,
}

/// A request for a mode.
#[allow(non_camel_case_types)]
#[derive(Clone, Copy, Debug, PartialEq, Eq, Structural)]
pub enum Event {
    DL_SetMode_INACTIVE,
    DL_SetMode_STARTUP,
    DL_SetMODE_PREOPERATE,
    DL_SetMODE_OPERATE,
}

/// How the wait for the ready pulse ended.
#[derive(Clone, Copy, Debug, PartialEq, Eq, Structural)]
pub enum ReadyPulseResult {
    ReadyPulseOk,
    TimeToReadyElapsed,
}

/// Why a request was turned down.
#[derive(Clone, Copy, Debug, PartialEq, Eq, Structural)]
pub enum EventError {
    /// The machine has no transition for this event in this state.
    InvalidState(State, Event),
}

/// Whether the port runs the safety variant of the start-up, which cycles
/// the supply and waits for the ready pulse before the wake-up.
#[derive(Clone, Copy, Debug, PartialEq, Eq, Structural)]
pub enum Safety {
    NonSafety,
    SafetyCom,
}

/// What the driver does for the machine in its state.
#[derive(Clone, Copy, Debug, PartialEq, Eq, Structural)]
pub enum Activity {
    /// Wait for a request, hand it over and send the confirmation that
    /// comes back.
    AwaitEvent,
    /// Have the supply of the device switched off for this many
    /// milliseconds, and wait for the confirmation.
    PortPowerOffOn(u64),
    /// Wait for the ready pulse, for this many milliseconds at most.
    AwaitReadyPulse(u64),
    /// Nothing.
    Proceed,
    /// Have the physical layer wake the device up, and wait for its result.
    WakeUp,
    /// Wait the delimiting time, ask the message handler to reach the
    /// device at this rate, wait for its confirmation, then rest. Times in
    /// milliseconds.
    ComRequest { delimiting_ms: u64, rate: TransmissionRate, settle_ms: u64 },
}

/// What came of an activity.
#[derive(Debug, PartialEq, Eq)]
pub enum Outcome {
    /// The request received.
    Event(Event),
    /// How the wait for the ready pulse ended.
    ReadyPulse(ReadyPulseResult),
    /// What the physical layer reported.
    Service(ServiceResult),
    /// The activity is done and has no result.
    Done,
}

/// The state of the machine as contracts see it.
pub struct Model {
    pub state: State,
    pub retry: u8,
    pub safety: Safety,
    pub min_shutdown_time_ms: u64,
    pub time_to_ready_ms: u64,
}

impl Model {
    /// The machine at start-up.
    pub open spec fn initial(safety: Safety) -> Model {
        Model {
            state: State::Idle_0,
            retry: 0,
            safety,
            min_shutdown_time_ms: MIN_SHUTDOWN_TIME_MS,
            time_to_ready_ms: TIME_TO_READY_MS,
        }
    }

    /// No retry is counted, and the two states of the safety start-up are
    /// entered by a safety port only.
    pub open spec fn inv(self) -> bool {
        &&& self.retry == 0
        &&& (self.state == State::WaitOnPortPowerOn_11 || self.state == State::WaitOnReadyPulse_10)
            ==> self.safety == Safety::SafetyCom
    }

    /// The activity of the machine in its state.
    pub open spec fn activity(self) -> Activity {
        match self.state {
            State::Idle_0 => Activity::AwaitEvent,
            State::WaitOnPortPowerOn_11 => Activity::PortPowerOffOn(self.min_shutdown_time_ms),
            State::WaitOnReadyPulse_10 => Activity::AwaitReadyPulse(self.time_to_ready_ms),
            State::EstablishCom_1 => Activity::Proceed,
            State::WURQ_5 => Activity::WakeUp,
            State::ComRequestCOM2_7 => Activity::ComRequest {
                delimiting_ms: T_DMT_MS,
                rate: TransmissionRate::COM2,
                settle_ms: SETTLE_TIME_MS,
            },
        }
    }

    /// Whether `outcome` is one that the activity of the state can have.
    pub open spec fn accepts(self, outcome: Outcome) -> bool {
        match self.state {
            State::Idle_0 => outcome is Event,
            State::WaitOnReadyPulse_10 => outcome is ReadyPulse,
            State::WURQ_5 => outcome == Outcome::Service(ServiceResult::PL_WakeUp),
            State::WaitOnPortPowerOn_11 | State::EstablishCom_1 | State::ComRequestCOM2_7 => outcome
                is Done,
        }
    }

    /// The state that follows on `outcome`, where the machine accepts it.
    pub open spec fn next_state(self, outcome: Outcome) -> State {
        match self.state {
            State::Idle_0 => if outcome == Outcome::Event(Event::DL_SetMode_STARTUP) {
                if self.safety == Safety::SafetyCom {
                    State::WaitOnPortPowerOn_11
                } else {
                    State::EstablishCom_1
                }
            } else {
                State::Idle_0
            },
            State::WaitOnPortPowerOn_11 => State::WaitOnReadyPulse_10,
            State::WaitOnReadyPulse_10 => if outcome == Outcome::ReadyPulse(
                ReadyPulseResult::ReadyPulseOk,
            ) {
                State::EstablishCom_1
            } else {
                State::Idle_0
            },
            State::EstablishCom_1 => State::WURQ_5,
            State::WURQ_5 => State::ComRequestCOM2_7,
            State::ComRequestCOM2_7 => State::ComRequestCOM2_7,
        }
    }

    /// The machine after `outcome`, where it accepts it: the state changes,
    /// and the retry count starts anew whenever the machine sets out to
    /// establish communication.
    pub open spec fn after(self, outcome: Outcome) -> Model {
        let state = self.next_state(outcome);
        Model {
            state,
            retry: if state == State::EstablishCom_1 {
                0
            } else {
                self.retry
            },
            ..self
        }
    }

    /// The confirmation that goes back to the sender of a request: none
    /// while the machine is not waiting for one; success for a start-up
    /// request; else the state and the event that do not go together.
    pub open spec fn confirmation(self, outcome: Outcome) -> Option<Result<(), EventError>> {
        match (self.state, outcome) {
            (State::Idle_0, Outcome::Event(Event::DL_SetMode_STARTUP)) => Some(Ok(())),
            (State::Idle_0, Outcome::Event(event)) => Some(
                Err(EventError::InvalidState(State::Idle_0, event)),
            ),
            _ => None,
        }
    }
}

/// The mode handler state machine.
pub struct StateMachine {
    state: State,
    retry: u8,
    safety: Safety,
    min_shutdown_time_ms: u64,
    time_to_ready_ms: u64,
}

impl View for StateMachine {
    type V = Model;

    closed spec fn view(&self) -> Model {
        Model {
            state: self.state,
            retry: self.retry,
            safety: self.safety,
            min_shutdown_time_ms: self.min_shutdown_time_ms,
            time_to_ready_ms: self.time_to_ready_ms,
        }
    }
}

impl StateMachine {
    #[verifier::type_invariant]
    spec fn well_formed(self) -> bool {
        self@.inv()
    }

    /// An idle machine for a safety port.
    pub fn new() -> (machine: Self)
        ensures
            machine@ == Model::initial(Safety::SafetyCom),
    {
        Self::with_safety(Safety::SafetyCom)
    }

    /// An idle machine for a port of the given kind.
    pub fn with_safety(safety: Safety) -> (machine: Self)
        ensures
            machine@ == Model::initial(safety),
    {
        Self {
            state: State::Idle_0,
            retry: 0,
            safety,
            min_shutdown_time_ms: MIN_SHUTDOWN_TIME_MS,
            time_to_ready_ms: TIME_TO_READY_MS,
        }
    }

    /// The state of the machine. It satisfies the invariant of the model.
    pub fn state(&self) -> (state: State)
        ensures
            state == self@.state,
            self@.inv(),
    {
        proof {
            use_type_invariant(self);
        }
        self.state
    }

    /// The number of retries counted: always zero.
    pub fn retry(&self) -> (retry: u8)
        ensures
            retry == self@.retry,
            retry == 0,
    {
        proof {
            use_type_invariant(self);
        }
        self.retry
    }

    /// What the driver does for the machine in its state.
    pub fn activity(&self) -> (activity: Activity)
        ensures
            activity == self@.activity(),
    {
        match self.state {
            State::Idle_0 => Activity::AwaitEvent,
            State::WaitOnPortPowerOn_11 => Activity::PortPowerOffOn(self.min_shutdown_time_ms),
            State::WaitOnReadyPulse_10 => Activity::AwaitReadyPulse(self.time_to_ready_ms),
            State::EstablishCom_1 => Activity::Proceed,
            State::WURQ_5 => Activity::WakeUp,
            State::ComRequestCOM2_7 => Activity::ComRequest {
                delimiting_ms: T_DMT_MS,
                rate: TransmissionRate::COM2,
                settle_ms: SETTLE_TIME_MS,
            },
        }
    }

    /// Whether `outcome` is one that the activity of the state can have.
    pub fn accepts(&self, outcome: &Outcome) -> (accepted: bool)
        ensures
            accepted == self@.accepts(*outcome),
    {
        match self.state {
            State::Idle_0 => match outcome {
                Outcome::Event(_) => true,
                _ => false,
            },
            State::WaitOnReadyPulse_10 => match outcome {
                Outcome::ReadyPulse(_) => true,
                _ => false,
            },
            State::WURQ_5 => match outcome {
                Outcome::Service(ServiceResult::PL_WakeUp) => true,
                _ => false,
            },
            State::WaitOnPortPowerOn_11 | State::EstablishCom_1 | State::ComRequestCOM2_7 => match outcome {
                Outcome::Done => true,
                _ => false,
            },
        }
    }

    /// Takes the outcome of the activity and makes the transition. Returns
    /// the confirmation that the driver sends back, if one is due.
    pub fn next(&mut self, outcome: Outcome) -> (confirmation: Option<Result<(), EventError>>)
        requires
            old(self)@.accepts(outcome),
        ensures
            final(self)@ == old(self)@.after(outcome),
            confirmation == old(self)@.confirmation(outcome),
    {
        proof {
            use_type_invariant(&*self);
        }
        match self.state {
            State::Idle_0 => {
                match outcome {
                    Outcome::Event(Event::DL_SetMode_STARTUP) => {
                        match self.safety {
                            Safety::SafetyCom => {
                                self.state = State::WaitOnPortPowerOn_11;
                            },
                            Safety::NonSafety => {
                                self.retry = 0;
                                self.state = State::EstablishCom_1;
                            },
                        }
                        Some(Ok(()))
                    },
                    Outcome::Event(event) => Some(
                        Err(EventError::InvalidState(State::Idle_0, event)),
                    ),
                    _ => None,
                }
            },
            State::WaitOnPortPowerOn_11 => {
                self.state = State::WaitOnReadyPulse_10;
                None
            },
            State::WaitOnReadyPulse_10 => {
                match outcome {
                    Outcome::ReadyPulse(ReadyPulseResult::ReadyPulseOk) => {
                        self.retry = 0;
                        self.state = State::EstablishCom_1;
                    },
                    _ => {
                        self.state = State::Idle_0;
                    },
                }
                None
            },
            State::EstablishCom_1 => {
                self.state = State::WURQ_5;
                None
            },
            State::WURQ_5 => {
                self.state = State::ComRequestCOM2_7;
                None
            },
            State::ComRequestCOM2_7 => None,
        }
    }
}

/// The invariant holds at start-up and after every outcome that the
/// machine accepts.
pub proof fn lemma_inv_holds(model: Model, outcome: Outcome, safety: Safety)
    requires
        model.inv(),
        model.accepts(outcome),
    ensures
        Model::initial(safety).inv(),
        model.after(outcome).inv(),
{
}

/// An idle machine takes a start-up request: it confirms success and goes
/// on to cycle the supply on a safety port, to establish communication on
/// any other.
pub proof fn lemma_startup_accepted(model: Model)
    requires
        model.state == State::Idle_0,
    ensures
        model.accepts(Outcome::Event(Event::DL_SetMode_STARTUP)),
        model.confirmation(Outcome::Event(Event::DL_SetMode_STARTUP)) == Some(
            Ok::<(), EventError>(()),
        ),
        model.after(Outcome::Event(Event::DL_SetMode_STARTUP)).state == if model.safety
            == Safety::SafetyCom {
            State::WaitOnPortPowerOn_11
        } else {
            State::EstablishCom_1
        },
{
}

/// An idle machine turns any other request down: it confirms the state and
/// the event that do not go together, and stays as it is.
pub proof fn lemma_other_mode_refused(model: Model, event: Event)
    requires
        model.state == State::Idle_0,
        event != Event::DL_SetMode_STARTUP,
    ensures
        model.accepts(Outcome::Event(event)),
        model.confirmation(Outcome::Event(event)) == Some(
            Err::<(), EventError>(EventError::InvalidState(State::Idle_0, event)),
        ),
        model.after(Outcome::Event(event)) == model,
{
}

/// A confirmation is due exactly for the outcomes of an idle machine, and
/// only an idle machine waits for a request.
pub proof fn lemma_confirmation_when_idle(model: Model, outcome: Outcome)
    requires
        model.accepts(outcome),
    ensures
        model.confirmation(outcome) is Some <==> model.state == State::Idle_0,
        model.activity() == Activity::AwaitEvent <==> model.state == State::Idle_0,
{
}

/// In every state the activity has an outcome that the machine accepts.
pub proof fn lemma_never_stuck(model: Model)
    ensures
        exists|outcome: Outcome| model.accepts(outcome),
{
    match model.state {
        State::Idle_0 => {
            assert(model.accepts(Outcome::Event(Event::DL_SetMode_STARTUP)));
        },
        State::WaitOnReadyPulse_10 => {
            assert(model.accepts(Outcome::ReadyPulse(ReadyPulseResult::ReadyPulseOk)));
        },
        State::WURQ_5 => {
            assert(model.accepts(Outcome::Service(ServiceResult::PL_WakeUp)));
        },
        _ => {
            assert(model.accepts(Outcome::Done));
        },
    }
}

/// A ready pulse that comes in time sends the machine on to establish
/// communication; one that does not sends it back to idle.
pub proof fn lemma_ready_pulse(model: Model, result: ReadyPulseResult)
    requires
        model.state == State::WaitOnReadyPulse_10,
    ensures
        model.activity() == Activity::AwaitReadyPulse(model.time_to_ready_ms),
        model.accepts(Outcome::ReadyPulse(result)),
        model.after(Outcome::ReadyPulse(result)).state == if result
            == ReadyPulseResult::ReadyPulseOk {
            State::EstablishCom_1
        } else {
            State::Idle_0
        },
{
}

} // verus!
