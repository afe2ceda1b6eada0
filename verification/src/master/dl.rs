//! Data-link layer of the master: the service that sets the mode of the
//! port, and the handlers behind it.

use vstd::prelude::*;
use crate::master::dl::dl_mode_handler::{Event, EventError};
pub use crate::master::dl::dl_mode_handler::ReadyPulseResult;
use crate::master::hand_off::{after_confirmation, after_submit, would_block, Requester};

pub mod dl_mode_handler;
pub mod message_handler;

verus! {

pub type DlModeHandlerStateMachine = dl_mode_handler::StateMachine;

/// The mode that a port is asked to take.
#[derive(Clone, Copy, Debug, PartialEq, Eq, Structural)]
pub enum Mode {
    INACTIVE,
    STARTUP,
    PREOPERATE,
    OPERATE,
}

/// The parameters that go with a mode. None is defined so far.
pub struct ValueList {}

/// Why the service turned a call down.
#[allow(non_camel_case_types)]
#[derive(Clone, Copy, Debug, PartialEq, Eq, Structural)]
pub enum ErrorInfo {
    STATE_CONFLICT,
    PARAMETER_CONFLICT,
}

impl Mode {
    /// The request to the mode handler that asks for this mode.
    pub open spec fn event(self) -> Event {
        match self {
            Mode::INACTIVE => Event::DL_SetMode_INACTIVE,
            Mode::STARTUP => Event::DL_SetMode_STARTUP,
            Mode::PREOPERATE => Event::DL_SetMODE_PREOPERATE,
            Mode::OPERATE => Event::DL_SetMODE_OPERATE,
        }
    }
}

/// What the service answers to a confirmation of the mode handler: success
/// where the handler took the request, a state conflict where its state did
/// not allow the request.
pub open spec fn service_result(confirmation: Result<(), EventError>) -> Result<(), ErrorInfo> {
    match confirmation {
        Ok(()) => Ok(()),
        Err(EventError::InvalidState(_, _)) => Err(ErrorInfo::STATE_CONFLICT),
    }
}

/// The data-link layer as its user sees it.
pub struct DL {
    requester: Requester<Event>,
}

impl View for DL {
    type V = Option<Event>;

    /// The request to the mode handler that is in flight, if any.
    closed spec fn view(&self) -> Option<Event> {
        self.requester@
    }
}

impl DL {
    /// The layer with nothing in flight, and its idle mode handler.
    pub fn new() -> (parts: (Self, DlModeHandlerStateMachine))
        ensures
            parts.0@ is None,
            parts.1@ == dl_mode_handler::Model::initial(dl_mode_handler::Safety::SafetyCom),
    {
        (Self { requester: Requester::new() }, dl_mode_handler::StateMachine::new())
    }

    /// First half of the service: names the request that asks the mode
    /// handler for `mode`. With nothing in flight the request is returned
    /// and is in flight from now on: the caller sends it and hands the
    /// confirmation to [`DL::DL_SetMode_result`]. While a request is in
    /// flight nothing is returned and nothing changes.
    #[allow(non_snake_case)]
    pub fn DL_SetMode(&mut self, mode: Mode) -> (request: Option<Event>)
        ensures
            final(self)@ == after_submit(old(self)@, mode.event()),
            request == if would_block(old(self)@) {
                None
            } else {
                Some(mode.event())
            },
    {
        let event = match mode {
            Mode::INACTIVE => Event::DL_SetMode_INACTIVE,
            Mode::STARTUP => Event::DL_SetMode_STARTUP,
            Mode::PREOPERATE => Event::DL_SetMODE_PREOPERATE,
            Mode::OPERATE => Event::DL_SetMODE_OPERATE,
        };
        if self.requester.submit(event) {
            Some(event)
        } else {
            None
        }
    }

    /// Second half of the service: consumes the confirmation of the mode
    /// handler and returns what the service answers. After it nothing is in
    /// flight.
    #[allow(non_snake_case)]
    pub fn DL_SetMode_result(&mut self, confirmation: Result<(), EventError>) -> (result: Result<
        (),
        ErrorInfo,
    >)
        ensures
            final(self)@ == after_confirmation(old(self)@),
            result == service_result(confirmation),
    {
        let _ = self.requester.confirmed();
        match confirmation {
            Ok(()) => Ok(()),
            Err(EventError::InvalidState(_, _)) => Err(ErrorInfo::STATE_CONFLICT),
        }
    }
}

} // verus!
