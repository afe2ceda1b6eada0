use iol::master::hand_off::Requester;
use iol::master::port_power_switching::Event;

#[test]
fn new_requester_has_nothing_in_flight() {
    let requester: Requester<u8> = Requester::new();
    assert_eq!(requester.in_flight(), None);
}

#[test]
fn second_power_request_is_held_back() {
    let mut requester = Requester::new();
    assert!(requester.submit(Event::OneTimePowerOff(3000)));
    assert_eq!(requester.in_flight(), Some(Event::OneTimePowerOff(3000)));

    assert!(!requester.submit(Event::PortPowerOn));
    assert_eq!(requester.in_flight(), Some(Event::OneTimePowerOff(3000)));

    assert_eq!(requester.confirmed(), Some(Event::OneTimePowerOff(3000)));
    assert_eq!(requester.in_flight(), None);

    assert!(requester.submit(Event::PortPowerOn));
    assert_eq!(requester.in_flight(), Some(Event::PortPowerOn));
}

#[test]
fn confirmation_without_request_leaves_nothing_in_flight() {
    let mut requester: Requester<u8> = Requester::new();
    assert_eq!(requester.confirmed(), None);
    assert_eq!(requester.in_flight(), None);
    assert!(requester.submit(5));
}
