use iol::master::pl::{
    Action, CqOutputState, Service, ServiceResult, PL, T_REN_US, T_SETTLE_US, T_WU_US,
};

#[test]
fn wake_up_sequence() {
    assert_eq!(T_WU_US, 20);
    assert_eq!(T_REN_US, 500);
    assert_eq!(T_SETTLE_US, 10);
    let mut pl = PL::new();
    assert_eq!(
        pl.wake_up(),
        vec![
            Action::CqOutput(CqOutputState::Disable),
            Action::WaitUs(10),
            Action::CqOutput(CqOutputState::Enable),
            Action::WaitUs(10),
            Action::DoReadyPulse,
            Action::CqOutput(CqOutputState::Disable),
            Action::WaitUs(480),
        ]
    );
}

#[test]
fn transfer_is_one_exchange() {
    let mut pl = PL::new();
    assert_eq!(pl.transfer(), vec![Action::ExchangeData]);
}

#[test]
fn run_serves_each_request_with_its_own_calls() {
    let mut pl = PL::new();
    let wake_up = pl.wake_up();
    assert_eq!(pl.run(&Service::PL_WakeUp), wake_up);
    let transfer = Service::PL_Transfer { data: vec![0xA2, 0x00], answer: vec![0, 0] };
    assert_eq!(pl.run(&transfer), vec![Action::ExchangeData]);
}

#[test]
fn result_hands_the_answer_back() {
    let pl = PL::new();
    assert_eq!(pl.result(Service::PL_WakeUp), ServiceResult::PL_WakeUp);
    let transfer = Service::PL_Transfer { data: vec![0xA2, 0x00], answer: vec![0x17, 0x2B] };
    assert_eq!(pl.result(transfer), ServiceResult::PL_Transfer { answer: vec![0x17, 0x2B] });
}
