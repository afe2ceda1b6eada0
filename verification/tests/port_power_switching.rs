use iol::master::port_power_switching::{
    timeout_event, Event, Reaction, State, StateMachine, Switch, Wait,
};

/// Stands for the environment of the machine: counts what the driver does.
#[derive(Debug, Default, PartialEq)]
struct Recorder {
    port_power_on: usize,
    port_power_off: usize,
    confirmations: usize,
    bounded_waits: Vec<u64>,
}

/// One round of the driver: waits as the machine says, hands over the event
/// that `arrives` during the wait (or the end of the hold time), switches and
/// confirms.
fn next(sm: &mut StateMachine, recorder: &mut Recorder, arrives: Option<Event>) {
    let event = match sm.wait() {
        Wait::ForEvent => arrives.expect("an unbounded wait ends with an event"),
        Wait::ForEventOrTimeoutMs(duration) => {
            recorder.bounded_waits.push(duration);
            timeout_event(arrives)
        }
    };
    assert!(sm.accepts(event), "This should never ever happen!");
    let reaction = sm.next(event);
    match reaction.switch {
        Switch::Keep => {}
        Switch::Off => recorder.port_power_off += 1,
        Switch::On => recorder.port_power_on += 1,
    }
    if reaction.confirm {
        recorder.confirmations += 1;
    }
}

#[test]
#[allow(non_snake_case)]
fn PowerOn_0_state_PortPowerOn_event() {
    let mut sm = StateMachine::new();
    let mut recorder = Recorder::default();
    assert_eq!(sm.state(), State::PowerOn_0);
    next(&mut sm, &mut recorder, Some(Event::PortPowerOn));
    assert_eq!(recorder.confirmations, 1);
    assert_eq!(sm.state(), State::PowerOn_0);
    assert_eq!(recorder.port_power_on, 0);
    assert_eq!(recorder.port_power_off, 0);
}

#[test]
#[allow(non_snake_case)]
fn PowerOn_0_state_PortPowerOff_event() {
    let mut sm = StateMachine::new();
    let mut recorder = Recorder::default();
    assert_eq!(sm.state(), State::PowerOn_0);
    next(&mut sm, &mut recorder, Some(Event::PortPowerOff));
    assert_eq!(recorder.port_power_off, 1);
    assert_eq!(recorder.confirmations, 1);
    assert_eq!(sm.state(), State::PowerOff_1);
}

#[test]
#[allow(non_snake_case)]
fn PowerOn_0_state_OneTimerPowerOff_event() {
    let mut sm = StateMachine::new();
    let mut recorder = Recorder::default();
    assert_eq!(sm.state(), State::PowerOn_0);
    next(&mut sm, &mut recorder, Some(Event::OneTimePowerOff(0)));
    assert_eq!(recorder.port_power_off, 1);
    assert_eq!(sm.state(), State::PowerOff_1);
}

#[test]
#[allow(non_snake_case)]
fn one_time_power_off_is_confirmed_at_once() {
    let mut sm = StateMachine::new();
    let reaction = sm.next(Event::OneTimePowerOff(3000));
    assert_eq!(reaction, Reaction { switch: Switch::Off, confirm: true });
}

#[test]
#[allow(non_snake_case)]
fn panic_in_PowerOn_0() {
    let sm = StateMachine::new();
    assert_eq!(sm.state(), State::PowerOn_0);
    assert!(!sm.accepts(Event::OffTimerElapsed));
    assert!(sm.accepts(Event::PortPowerOn));
    assert!(sm.accepts(Event::PortPowerOff));
    assert!(sm.accepts(Event::OneTimePowerOff(1)));
}

#[allow(non_snake_case)]
fn go_to_PowerOff_1(sm: &mut StateMachine, recorder: &mut Recorder) {
    next(sm, recorder, Some(Event::PortPowerOff));
    assert_eq!(recorder.port_power_off, 1);
    assert_eq!(recorder.confirmations, 1);
    assert_eq!(sm.state(), State::PowerOff_1);
}

#[test]
#[allow(non_snake_case)]
fn PowerOff_1_state_PortPowerOff_event() {
    let mut sm = StateMachine::new();
    let mut recorder = Recorder::default();
    go_to_PowerOff_1(&mut sm, &mut recorder);
    next(&mut sm, &mut recorder, Some(Event::PortPowerOff));
    assert_eq!(recorder.confirmations, 2);
    assert_eq!(sm.state(), State::PowerOff_1);
    assert_eq!(recorder.port_power_off, 1);
    assert_eq!(recorder.port_power_on, 0);
}

#[test]
#[allow(non_snake_case)]
fn PowerOff_1_state_OneTimePowerOff_event() {
    let mut sm = StateMachine::new();
    let mut recorder = Recorder::default();
    go_to_PowerOff_1(&mut sm, &mut recorder);
    next(&mut sm, &mut recorder, Some(Event::OneTimePowerOff(42)));
    assert_eq!(recorder.confirmations, 2);
    assert_eq!(sm.state(), State::PowerOff_1);
    assert_eq!(sm.off_timer_active(), true);
    assert_eq!(sm.off_time(), 42);
    assert_eq!(sm.wait(), Wait::ForEventOrTimeoutMs(42));
}

#[test]
#[allow(non_snake_case)]
fn PowerOff_1_state_PowerOn_event() {
    let mut sm = StateMachine::new();
    let mut recorder = Recorder::default();
    go_to_PowerOff_1(&mut sm, &mut recorder);
    next(&mut sm, &mut recorder, Some(Event::PortPowerOn));
    assert_eq!(recorder.port_power_on, 1);
    assert_eq!(recorder.confirmations, 2);
    assert_eq!(sm.state(), State::PowerOn_0);
}

#[test]
#[allow(non_snake_case)]
fn PowerOff_1_state_OffTimerElapsed_event() {
    let mut sm = StateMachine::new();
    let mut recorder = Recorder::default();
    go_to_PowerOff_1(&mut sm, &mut recorder);
    next(&mut sm, &mut recorder, Some(Event::OffTimerElapsed));
    assert_eq!(recorder.port_power_on, 1);
    assert_eq!(recorder.confirmations, 2);
    assert_eq!(sm.state(), State::PowerOn_0);
}

#[allow(non_snake_case)]
fn start_OneTimePowerOff() -> (StateMachine, Recorder, u64) {
    let mut sm = StateMachine::new();
    let mut recorder = Recorder::default();
    assert_eq!(sm.off_timer_active(), false);
    assert_eq!(sm.off_time(), 0);

    let off_time = 222 as u64;
    next(&mut sm, &mut recorder, Some(Event::OneTimePowerOff(off_time)));
    assert_eq!(recorder.port_power_off, 1);
    assert_eq!(sm.off_timer_active(), true);
    assert_eq!(sm.off_time(), off_time);
    assert_eq!(sm.state(), State::PowerOff_1);
    (sm, recorder, off_time)
}

#[test]
#[allow(non_snake_case)]
fn OneTimePowerOff_aborted_with_PortPowerOff() {
    let (mut sm, mut recorder, off_time) = start_OneTimePowerOff();
    let confirmed = recorder.confirmations;

    next(&mut sm, &mut recorder, Some(Event::PortPowerOff));
    assert_eq!(recorder.bounded_waits, vec![off_time]);
    assert_eq!(recorder.confirmations, confirmed + 1);
    assert_eq!(sm.off_timer_active(), false);
    assert_eq!(sm.off_time(), off_time);
    assert_eq!(sm.state(), State::PowerOff_1);
}

#[test]
#[allow(non_snake_case)]
fn OneTimePowerOff_aborted_with_OneTimePowerOff() {
    let (mut sm, mut recorder, off_time) = start_OneTimePowerOff();
    let confirmed = recorder.confirmations;

    let off_time_2 = 16 as u64;
    next(&mut sm, &mut recorder, Some(Event::OneTimePowerOff(off_time_2)));
    assert_eq!(recorder.bounded_waits, vec![off_time]);
    assert_eq!(recorder.confirmations, confirmed + 1);
    assert_eq!(sm.off_timer_active(), true);
    assert_eq!(sm.off_time(), off_time_2);
    assert_eq!(sm.state(), State::PowerOff_1);
}

#[test]
#[allow(non_snake_case)]
fn OneTimePowerOff_aborted_with_PortPowerOn() {
    let (mut sm, mut recorder, off_time) = start_OneTimePowerOff();
    let confirmed = recorder.confirmations;

    next(&mut sm, &mut recorder, Some(Event::PortPowerOn));
    assert_eq!(recorder.bounded_waits, vec![off_time]);
    assert_eq!(recorder.port_power_on, 1);
    assert_eq!(recorder.confirmations, confirmed + 1);
    assert_eq!(sm.off_timer_active(), false);
    assert_eq!(sm.off_time(), off_time);
    assert_eq!(sm.state(), State::PowerOn_0);
    assert_eq!(sm.wait(), Wait::ForEvent);
}

#[test]
#[allow(non_snake_case)]
fn OneTimePowerOff_success() {
    let (mut sm, mut recorder, off_time) = start_OneTimePowerOff();
    let confirmed = recorder.confirmations;

    next(&mut sm, &mut recorder, None);
    assert_eq!(recorder.bounded_waits, vec![off_time]);
    assert_eq!(recorder.port_power_on, 1);
    assert_eq!(recorder.port_power_off, 1);
    assert_eq!(recorder.confirmations, confirmed + 1);
    assert_eq!(sm.off_timer_active(), false);
    assert_eq!(sm.off_time(), off_time);
    assert_eq!(sm.state(), State::PowerOn_0);
}

#[test]
fn a_wait_that_runs_out_is_the_end_of_the_hold_time() {
    assert_eq!(timeout_event(None), Event::OffTimerElapsed);
    assert_eq!(timeout_event(Some(Event::PortPowerOn)), Event::PortPowerOn);
    assert_eq!(timeout_event(Some(Event::OneTimePowerOff(7))), Event::OneTimePowerOff(7));
}

#[test]
fn every_reaction_in_the_table() {
    let keep = Reaction { switch: Switch::Keep, confirm: true };
    let off = Reaction { switch: Switch::Off, confirm: true };
    let on = Reaction { switch: Switch::On, confirm: true };

    let mut sm = StateMachine::new();
    assert_eq!(sm.wait(), Wait::ForEvent);
    assert_eq!(sm.next(Event::PortPowerOn), keep);
    assert_eq!(sm.next(Event::PortPowerOff), off);
    assert_eq!(sm.next(Event::PortPowerOff), keep);
    assert_eq!(sm.wait(), Wait::ForEvent);
    assert_eq!(sm.next(Event::OneTimePowerOff(5)), keep);
    assert_eq!(sm.wait(), Wait::ForEventOrTimeoutMs(5));
    assert_eq!(sm.next(Event::OffTimerElapsed), on);
    assert_eq!(sm.wait(), Wait::ForEvent);
    assert_eq!(sm.next(Event::OneTimePowerOff(9)), off);
    assert_eq!(sm.next(Event::PortPowerOn), on);
    assert_eq!(sm.state(), State::PowerOn_0);
    assert_eq!(sm.off_time(), 9);
    assert_eq!(sm.off_timer_active(), false);
}
