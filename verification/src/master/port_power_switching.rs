//! Port power switching: turns the supply of the connected device on and
//! off, and holds it off for a given time on request.
//!
//! The machine waits for one event at a time. Its driver asks [`StateMachine::wait`]
//! how to wait, hands the event to [`StateMachine::next`], switches the
//! supply as the reaction says and then confirms the event to its sender.

use vstd::prelude::*;

verus! {

/// Whether the device is supplied.
#[allow(non_camel_case_types)]
#[derive(Clone, Copy, Debug, PartialEq, Eq, Structural)]
pub enum State {
    PowerOn_0,
    PowerOff_1,
}

/// A request to the port power switching, or the end of a hold time.
#[derive(Clone, Copy, Debug, PartialEq, Eq, Structural)]
pub enum Event {
    PortPowerOn,
    PortPowerOff,
    /// Switch the supply off and, after this many milliseconds without
    /// another event, on again.
    OneTimePowerOff(u64),
    /// The hold time has passed. No sender submits this event: it stands
    /// for a bounded wait that ended without one.
    OffTimerElapsed,
}

/// How the driver waits for the next event.
#[derive(Clone, Copy, Debug, PartialEq, Eq, Structural)]
pub enum Wait {
    /// Until an event arrives.
    ForEvent,
    /// Until an event arrives, or for this many milliseconds at most.
    ForEventOrTimeoutMs(u64),
}

/// What happens to the supply in a transition.
#[derive(Clone, Copy, Debug, PartialEq, Eq, Structural)]
pub enum Switch {
    Keep,
    Off,
    On,
}

/// What the driver does after a transition: first the switching, then the
/// confirmation.
#[derive(Clone, Copy, Debug, PartialEq, Eq, Structural)]
pub struct Reaction {
    pub switch: Switch,
    pub confirm: bool,
}

/// The state of the machine as contracts see it.
pub struct Model {
    pub state: State,
    pub off_timer_active: bool,
    pub off_time: u64,
}

impl Model {
    /// The machine at start-up: supply on, no hold time running.
    pub open spec fn initial() -> Model {
        Model { state: State::PowerOn_0, off_timer_active: false, off_time: 0 }
    }

    /// A hold time runs only while the supply is off.
    pub open spec fn inv(self) -> bool {
        self.off_timer_active ==> self.state == State::PowerOff_1
    }

    /// Whether the machine has a transition for `event`. The end of a hold
    /// time cannot come while the supply is on.
    pub open spec fn accepts(self, event: Event) -> bool {
        !(self.state == State::PowerOn_0 && event == Event::OffTimerElapsed)
    }

    /// How to wait for the next event: with the hold time as the limit
    /// while one runs, without a limit otherwise.
    pub open spec fn wait(self) -> Wait {
        if self.off_timer_active {
            Wait::ForEventOrTimeoutMs(self.off_time)
        } else {
            Wait::ForEvent
        }
    }

    /// The machine after `event`.
    pub open spec fn after(self, event: Event) -> Model {
        match (self.state, event) {
            (State::PowerOn_0, Event::PortPowerOn) => self,
            (State::PowerOn_0, Event::PortPowerOff) => Model { state: State::PowerOff_1, ..self },
            (State::PowerOn_0, Event::OneTimePowerOff(duration)) => Model {
                state: State::PowerOff_1,
                off_timer_active: true,
                off_time: duration,
            },
            (State::PowerOn_0, Event::OffTimerElapsed) => self,
            (State::PowerOff_1, Event::PortPowerOff) => Model { off_timer_active: false, ..self },
            (State::PowerOff_1, Event::OneTimePowerOff(duration)) => Model {
                off_timer_active: true,
                off_time: duration,
                ..self
            },
            (State::PowerOff_1, Event::PortPowerOn) | (State::PowerOff_1, Event::OffTimerElapsed) => Model {
                state: State::PowerOn_0,
                off_timer_active: false,
                ..self
            },
        }
    }

    /// What the supply does on `event`: it changes exactly when the state
    /// does.
    pub open spec fn switch(self, event: Event) -> Switch {
        if self.after(event).state == self.state {
            Switch::Keep
        } else if self.state == State::PowerOn_0 {
            Switch::Off
        } else {
            Switch::On
        }
    }

    /// The reaction to `event`. Every event is confirmed as soon as its
    /// transition is done.
    pub open spec fn reaction(self, event: Event) -> Reaction {
        Reaction { switch: self.switch(event), confirm: true }
    }
}

/// The event that a wait ended with: the one received, or the end of the
/// hold time where the wait ran out.
pub open spec fn event_of(received: Option<Event>) -> Event {
    match received {
        Some(event) => event,
        None => Event::OffTimerElapsed,
    }
}

/// Names the event that a bounded wait ended with.
pub fn timeout_event(received: Option<Event>) -> (event: Event)
    ensures
        event == event_of(received),
{
    match received {
        Some(event) => event,
        None => Event::OffTimerElapsed,
    }
}

/// The port power switching state machine.
pub struct StateMachine {
    state: State,
    off_timer_active: bool,
    off_time: u64,
}

impl View for StateMachine {
    type V = Model;

    closed spec fn view(&self) -> Model {
        Model {
            state: self.state,
            off_timer_active: self.off_timer_active,
            off_time: self.off_time,
        }
    }
}

impl StateMachine {
    #[verifier::type_invariant]
    spec fn well_formed(self) -> bool {
        self.off_timer_active ==> self.state == State::PowerOff_1
    }

    /// A machine with the supply on and no hold time running.
    pub fn new() -> (machine: Self)
        ensures
            machine@ == Model::initial(),
    {
        Self { state: State::PowerOn_0, off_timer_active: false, off_time: 0 }
    }

    pub fn state(&self) -> (state: State)
        ensures
            state == self@.state,
    {
        self.state
    }

    /// Whether a hold time runs. It can run only while the supply is off.
    pub fn off_timer_active(&self) -> (active: bool)
        ensures
            active == self@.off_timer_active,
            self@.inv(),
    {
        proof {
            use_type_invariant(self);
        }
        self.off_timer_active
    }

    /// The hold time of the last one-time power-off, in milliseconds.
    pub fn off_time(&self) -> (duration: u64)
        ensures
            duration == self@.off_time,
    {
        self.off_time
    }

    /// How the driver waits for the next event.
    pub fn wait(&self) -> (wait: Wait)
        ensures
            wait == self@.wait(),
            self@.state == State::PowerOn_0 ==> wait == Wait::ForEvent,
    {
        proof {
            use_type_invariant(self);
        }
        if self.off_timer_active {
            Wait::ForEventOrTimeoutMs(self.off_time)
        } else {
            Wait::ForEvent
        }
    }

    /// Whether the machine has a transition for `event` in its state.
    pub fn accepts(&self, event: Event) -> (accepted: bool)
        ensures
            accepted == self@.accepts(event),
    {
        match (self.state, event) {
            (State::PowerOn_0, Event::OffTimerElapsed) => false,
            _ => true,
        }
    }

    /// Takes one event and says what the driver does about it.
    pub fn next(&mut self, event: Event) -> (reaction: Reaction)
        requires
            old(self)@.accepts(event),
        ensures
            final(self)@ == old(self)@.after(event),
            reaction == old(self)@.reaction(event),
    {
        proof {
            use_type_invariant(&*self);
        }
        match self.state {
            State::PowerOn_0 => {
                match event {
                    Event::PortPowerOn => Reaction { switch: Switch::Keep, confirm: true },
                    Event::PortPowerOff => {
                        self.state = State::PowerOff_1;
                        Reaction { switch: Switch::Off, confirm: true }
                    },
                    Event::OneTimePowerOff(duration) => {
                        self.state = State::PowerOff_1;
                        self.off_time = duration;
                        self.off_timer_active = true;
                        Reaction { switch: Switch::Off, confirm: true }
                    },
                    Event::OffTimerElapsed => Reaction { switch: Switch::Keep, confirm: true },
                }
            },
            State::PowerOff_1 => {
                match event {
                    Event::PortPowerOff => {
                        self.off_timer_active = false;
                        Reaction { switch: Switch::Keep, confirm: true }
                    },
                    Event::OneTimePowerOff(duration) => {
                        self.off_timer_active = true;
                        self.off_time = duration;
                        Reaction { switch: Switch::Keep, confirm: true }
                    },
                    Event::PortPowerOn | Event::OffTimerElapsed => {
                        self.off_timer_active = false;
                        self.state = State::PowerOn_0;
                        Reaction { switch: Switch::On, confirm: true }
                    },
                }
            },
        }
    }
}

/// A hold time never runs while the supply is on: this holds at start-up
/// and after every event.
pub proof fn lemma_inv_holds(model: Model, event: Event)
    requires
        model.inv(),
    ensures
        Model::initial().inv(),
        model.after(event).inv(),
{
}

/// With the supply on, a power-off request switches it off exactly once,
/// is confirmed and leaves the machine in the off state.
pub proof fn lemma_power_off(model: Model)
    requires
        model.state == State::PowerOn_0,
    ensures
        model.accepts(Event::PortPowerOff),
        model.reaction(Event::PortPowerOff) == (Reaction { switch: Switch::Off, confirm: true }),
        model.after(Event::PortPowerOff).state == State::PowerOff_1,
{
}

/// While a hold time runs, the wait is bounded by it, and a wait that ends
/// without an event switches the supply on exactly once, stops the timer
/// and leaves the machine in the on state.
pub proof fn lemma_hold_time_elapses(model: Model)
    requires
        model.state == State::PowerOff_1,
        model.off_timer_active,
    ensures
        model.wait() == Wait::ForEventOrTimeoutMs(model.off_time),
        model.accepts(event_of(None)),
        model.reaction(event_of(None)) == (Reaction { switch: Switch::On, confirm: true }),
        model.after(event_of(None)) == (Model {
            state: State::PowerOn_0,
            off_timer_active: false,
            off_time: model.off_time,
        }),
{
}

/// With the supply off, a power-on request switches it on at once and
/// stops a running hold time.
pub proof fn lemma_power_on_stops_timer(model: Model)
    requires
        model.state == State::PowerOff_1,
    ensures
        model.accepts(Event::PortPowerOn),
        model.reaction(Event::PortPowerOn) == (Reaction { switch: Switch::On, confirm: true }),
        model.after(Event::PortPowerOn).state == State::PowerOn_0,
        !model.after(Event::PortPowerOn).off_timer_active,
        model.after(Event::PortPowerOn).wait() == Wait::ForEvent,
{
}

/// A one-time power-off with the supply on: the supply goes off once, the
/// next wait is bounded by the hold time, and when it runs out the supply
/// comes on once and the machine is as it was at the start but for the hold
/// time it remembers.
pub proof fn lemma_one_time_power_off(model: Model, duration: u64)
    requires
        model.state == State::PowerOn_0,
        model.inv(),
    ensures
        ({
            let off = model.after(Event::OneTimePowerOff(duration));
            &&& model.reaction(Event::OneTimePowerOff(duration)).switch == Switch::Off
            &&& off.state == State::PowerOff_1
            &&& off.wait() == Wait::ForEventOrTimeoutMs(duration)
            &&& off.reaction(Event::OffTimerElapsed).switch == Switch::On
            &&& off.after(Event::OffTimerElapsed) == (Model { off_time: duration, ..model })
        }),
{
}

/// The supply is switched exactly in the transitions that change the state,
/// and in the direction of the change.
pub proof fn lemma_switch_follows_state(model: Model, event: Event)
    ensures
        model.switch(event) == Switch::Off <==> model.state == State::PowerOn_0 && model.after(
            event,
        ).state == State::PowerOff_1,
        model.switch(event) == Switch::On <==> model.state == State::PowerOff_1 && model.after(
            event,
        ).state == State::PowerOn_0,
{
}

} // verus!
