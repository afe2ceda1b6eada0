//! The master side of the link: one port with its four state machines and
//! the service that sets its mode.
//!
//! The machines run as activities of their own. Each is handed to a driver
//! that waits, switches and sends for it. What one machine asks of another
//! is put here into the request that the other understands.

use vstd::prelude::*;
use crate::master::dl::dl_mode_handler::{Activity, Event, EventError, Model, Safety};
use crate::master::dl::message_handler::{self, MessageHandler};
use crate::master::dl::{service_result, ErrorInfo, Mode, DL};
use crate::master::hand_off::{after_confirmation, after_submit, would_block};
use crate::master::pl::{Service, PL};
pub use crate::master::dl::ReadyPulseResult;
pub use crate::master::pl::CqOutputState;

pub mod dl;
pub mod hand_off;
pub mod pl;
pub mod port_power_switching;

verus! {

pub type PortPowerSwitchingStateMachine = port_power_switching::StateMachine;

pub type DlModeHandlerStateMachine = dl::DlModeHandlerStateMachine;

/// The request to the port power switching that an activity of the mode
/// handler stands for: a one-time power-off of the duration asked for, where
/// the activity is a power cycle.
pub open spec fn power_request_of(activity: Activity) -> Option<port_power_switching::Event> {
    match activity {
        Activity::PortPowerOffOn(duration) => Some(
            port_power_switching::Event::OneTimePowerOff(duration),
        ),
        _ => None,
    }
}

/// The request to the physical layer that an activity of the mode handler
/// stands for: a wake-up, where the activity is one.
pub open spec fn service_request_of(activity: Activity) -> Option<Service> {
    match activity {
        Activity::WakeUp => Some(Service::PL_WakeUp),
        _ => None,
    }
}

/// The request to the message handler that an activity of the mode handler
/// stands for: to reach the device at the rate asked for, where the activity
/// is a request for communication.
pub open spec fn com_request_of(activity: Activity) -> Option<message_handler::Event> {
    match activity {
        Activity::ComRequest { rate, .. } => Some(message_handler::Event::MH_Conf_COMx(rate)),
        _ => None,
    }
}

/// Names the request to the port power switching that `activity` stands for.
pub fn power_request(activity: Activity) -> (request: Option<port_power_switching::Event>)
    ensures
        request == power_request_of(activity),
{
    match activity {
        Activity::PortPowerOffOn(duration) => Some(
            port_power_switching::Event::OneTimePowerOff(duration),
        ),
        _ => None,
    }
}

/// Names the request to the physical layer that `activity` stands for.
pub fn service_request(activity: Activity) -> (request: Option<Service>)
    ensures
        request == service_request_of(activity),
{
    match activity {
        Activity::WakeUp => Some(Service::PL_WakeUp),
        _ => None,
    }
}

/// Names the request to the message handler that `activity` stands for.
pub fn com_request(activity: Activity) -> (request: Option<message_handler::Event>)
    ensures
        request == com_request_of(activity),
{
    match activity {
        Activity::ComRequest { delimiting_ms, rate, settle_ms } => Some(
            message_handler::Event::MH_Conf_COMx(rate),
        ),
        _ => None,
    }
}

/// One master port as its user sees it.
pub struct Master {
    dl: DL,
}

impl View for Master {
    type V = Option<Event>;

    /// The request for a mode that is in flight, if any.
    closed spec fn view(&self) -> Option<Event> {
        self.dl@
    }
}

impl Master {
    /// A master with no request in flight, and the four machines that run
    /// beside it, each for a driver of its own, in their first states:
    /// supply on, mode handler idle, message handler inactive.
    pub fn new() -> (parts: (
        Self,
        PortPowerSwitchingStateMachine,
        DlModeHandlerStateMachine,
        PL,
        MessageHandler,
    ))
        ensures
            parts.0@ is None,
            parts.1@ == port_power_switching::Model::initial(),
            parts.2@ == Model::initial(Safety::SafetyCom),
            parts.4@ == message_handler::State::Inactive_0,
    {
        let port_power_switching = port_power_switching::StateMachine::new();
        let pl = PL::new();
        let message_handler = MessageHandler::new();
        let (dl, dl_mode_handler) = DL::new();
        (Self { dl }, port_power_switching, dl_mode_handler, pl, message_handler)
    }

    /// First half of the start-up service: names the request that asks the
    /// mode handler for start-up, unless a request is in flight. The caller
    /// sends it and hands the confirmation to
    /// [`Master::dl_set_mode_startup_result`].
    pub fn dl_set_mode_startup(&mut self) -> (request: Option<Event>)
        ensures
            final(self)@ == after_submit(old(self)@, Event::DL_SetMode_STARTUP),
            request == if would_block(old(self)@) {
                None
            } else {
                Some(Event::DL_SetMode_STARTUP)
            },
    {
        self.dl.DL_SetMode(Mode::STARTUP)
    }

    /// Second half of the start-up service: consumes the confirmation of the
    /// mode handler and returns what the service answers.
    pub fn dl_set_mode_startup_result(&mut self, confirmation: Result<(), EventError>) -> (result:
        Result<(), ErrorInfo>)
        ensures
            final(self)@ == after_confirmation(old(self)@),
            result == service_result(confirmation),
    {
        self.dl.DL_SetMode_result(confirmation)
    }
}

} // verus!
