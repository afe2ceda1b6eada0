//! Physical layer: the wake-up pulse on the C/Q line and the exchange of
//! octets with the device.
//!
//! The layer serves one request at a time. For each it names the calls its
//! driver makes into the environment, in order, and then the result that the
//! driver reports to the requester.

use vstd::prelude::*;

verus! {

/// Duration of the wake-up pulse, in microseconds.
pub const T_WU_US: u64 = 20;

/// Time after the start of the wake-up pulse at which the device is ready
/// to receive, in microseconds.
pub const T_REN_US: u64 = 500;

/// Time for which the output stage rests after it was switched, in
/// microseconds.
pub const T_SETTLE_US: u64 = 10;

/// A request to the physical layer.
#[allow(non_camel_case_types)]
#[derive(Debug, PartialEq, Eq)]
pub enum Service {
    PL_WakeUp,
    /// Send `data` and read as many octets into `answer` as it holds.
    PL_Transfer { data: Vec<u8>, answer: Vec<u8> },
}

/// What the physical layer reports when a request is done.
#[allow(non_camel_case_types)]
#[derive(Debug, PartialEq, Eq)]
pub enum ServiceResult {
    PL_WakeUp,
    PL_Transfer { answer: Vec<u8> },
}

/// Whether the output stage drives the C/Q line.
#[derive(Clone, Copy, Debug, PartialEq, Eq, Structural)]
pub enum CqOutputState {
    Disable,
    Enable,
}

/// One call of the physical layer into its environment.
#[derive(Clone, Copy, Debug, PartialEq, Eq, Structural)]
pub enum Action {
    /// Switch the output stage of the C/Q line.
    CqOutput(CqOutputState),
    /// Suspend for this many microseconds.
    WaitUs(u64),
    /// Drive the wake-up pulse and return when it is over.
    DoReadyPulse,
    /// Exchange the octets of the transfer that is being served.
    ExchangeData,
}

/// The calls of a wake-up: with the output stage off and settled, switch it
/// on, let it settle, drive the pulse, switch the stage off again and leave
/// the line alone until the device is ready to receive.
pub open spec fn wake_up_actions() -> Seq<Action> {
    seq![
        Action::CqOutput(CqOutputState::Disable),
        Action::WaitUs(T_SETTLE_US),
        Action::CqOutput(CqOutputState::Enable),
        Action::WaitUs(T_SETTLE_US),
        Action::DoReadyPulse,
        Action::CqOutput(CqOutputState::Disable),
        Action::WaitUs((T_REN_US - T_WU_US) as u64),
    ]
}

/// The calls of a transfer: the exchange itself.
pub open spec fn transfer_actions() -> Seq<Action> {
    seq![Action::ExchangeData]
}

impl Service {
    /// The calls that serve this request, in order.
    pub open spec fn actions(self) -> Seq<Action> {
        match self {
            Service::PL_WakeUp => wake_up_actions(),
            Service::PL_Transfer { .. } => transfer_actions(),
        }
    }

    /// The result of this request once its calls are made: for a transfer,
    /// the answer buffer as the exchange left it.
    pub open spec fn result(self) -> ServiceResult {
        match self {
            Service::PL_WakeUp => ServiceResult::PL_WakeUp,
            Service::PL_Transfer { data, answer } => ServiceResult::PL_Transfer { answer },
        }
    }
}

/// The physical layer.
pub struct PL {}

impl PL {
    pub fn new() -> (pl: Self) {
        Self {  }
    }

    /// The calls that serve `service`, in order.
    pub fn run(&mut self, service: &Service) -> (actions: Vec<Action>)
        ensures
            actions@ == service.actions(),
    {
        match service {
            Service::PL_WakeUp => self.wake_up(),
            Service::PL_Transfer { .. } => self.transfer(),
        }
    }

    /// The calls of a wake-up, in order.
    pub fn wake_up(&mut self) -> (actions: Vec<Action>)
        ensures
            actions@ == wake_up_actions(),
    {
        let rest: u64 = T_REN_US - T_WU_US;
        let actions = vec![
            Action::CqOutput(CqOutputState::Disable),
            Action::WaitUs(T_SETTLE_US),
            Action::CqOutput(CqOutputState::Enable),
            Action::WaitUs(T_SETTLE_US),
            Action::DoReadyPulse,
            Action::CqOutput(CqOutputState::Disable),
            Action::WaitUs(rest),
        ];
        assert(actions@ =~= wake_up_actions());
        actions
    }

    /// The calls of a transfer: one exchange of its octets.
    pub fn transfer(&mut self) -> (actions: Vec<Action>)
        ensures
            actions@ == transfer_actions(),
    {
        let actions = vec![Action::ExchangeData];
        assert(actions@ =~= transfer_actions());
        actions
    }

    /// The result to report for `service` once its calls are made.
    pub fn result(&self, service: Service) -> (result: ServiceResult)
        ensures
            result == service.result(),
    {
        match service {
            Service::PL_WakeUp => ServiceResult::PL_WakeUp,
            Service::PL_Transfer { data, answer } => ServiceResult::PL_Transfer { answer },
        }
    }
}

/// The shape of a wake-up: the output stage is off at the start and at the
/// end, the pulse is driven while it is on, and after the pulse the line is
/// left alone for the rest of the time the device needs to get ready.
pub proof fn lemma_wake_up_shape()
    ensures
        wake_up_actions().len() == 7,
        wake_up_actions().first() == Action::CqOutput(CqOutputState::Disable),
        wake_up_actions()[2] == Action::CqOutput(CqOutputState::Enable),
        wake_up_actions()[4] == Action::DoReadyPulse,
        wake_up_actions()[5] == Action::CqOutput(CqOutputState::Disable),
        wake_up_actions().last() == Action::WaitUs(480),
        T_WU_US + 480 == T_REN_US,
        forall|i: int| 0 <= i < 7 ==> wake_up_actions()[i] != Action::ExchangeData,
{
}

} // verus!
