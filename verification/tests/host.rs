use rusty_probe::delay::BitDelay;
use rusty_probe::gpio::Level;
use rusty_probe::leds::{HostStatus, Led, Leds};
use rusty_probe::session::{DapAction, DapEvent, DapSession};

#[test]
fn leds_start_high() {
    let leds = Leds::new();
    assert_eq!(leds, Leds { red: Level::High, green: Level::High, blue: Level::High });
}

#[test]
fn green_shows_connected_and_blue_shows_running() {
    let mut leds = Leds::new();
    assert_eq!(
        leds.react_to_host_status(HostStatus::Connected(false)),
        (Led::Green, Level::Low)
    );
    assert_eq!(leds, Leds { red: Level::High, green: Level::Low, blue: Level::High });
    assert_eq!(leds.react_to_host_status(HostStatus::Running(false)), (Led::Blue, Level::Low));
    assert_eq!(leds, Leds { red: Level::High, green: Level::Low, blue: Level::Low });
    assert_eq!(
        leds.react_to_host_status(HostStatus::Connected(true)),
        (Led::Green, Level::High)
    );
    assert_eq!(leds.react_to_host_status(HostStatus::Running(true)), (Led::Blue, Level::High));
    assert_eq!(leds, Leds::new());
}

#[test]
fn cycles_of_delays() {
    let mut delay = BitDelay;
    assert_eq!(delay.cpu_clock(), 62_500_000);
    assert_eq!(delay.delay_ns(0), 0);
    assert_eq!(delay.delay_ns(15), 0);
    assert_eq!(delay.delay_ns(16), 1);
    assert_eq!(delay.delay_ns(1_000), 62);
    assert_eq!(delay.delay_ns(1_000_000_000), 62_500_000);
    assert_eq!(delay.delay_ns(u32::MAX), 268_435_455);
}

#[test]
fn exchange_of_a_request_and_a_response() {
    let mut session = DapSession::new();
    assert_eq!(session.action(), DapAction::WaitConnection);
    assert_eq!(session.step(DapEvent::Connected), DapAction::ReadRequest);
    assert_eq!(session.step(DapEvent::RequestRead(12)), DapAction::ProcessCommand(12));
    assert_eq!(session.step(DapEvent::CommandProcessed(1024)), DapAction::WriteResponse(1024));
    assert_eq!(session.step(DapEvent::ResponseWritten), DapAction::WaitConnection);
}

#[test]
fn failed_read_goes_back_to_waiting() {
    let mut session = DapSession::new();
    session.step(DapEvent::Connected);
    assert_eq!(session.step(DapEvent::ReadFailed), DapAction::WaitConnection);
}

#[test]
fn failed_write_goes_back_to_waiting() {
    let mut session = DapSession::new();
    session.step(DapEvent::Connected);
    session.step(DapEvent::RequestRead(1));
    session.step(DapEvent::CommandProcessed(0));
    assert_eq!(session.step(DapEvent::WriteFailed), DapAction::WaitConnection);
}

#[test]
fn unexpected_event_leaves_the_action_to_be_done() {
    let mut session = DapSession::new();
    assert_eq!(session.step(DapEvent::ResponseWritten), DapAction::WaitConnection);
    session.step(DapEvent::Connected);
    assert_eq!(session.step(DapEvent::CommandProcessed(3)), DapAction::ReadRequest);
    assert_eq!(session.action(), DapAction::ReadRequest);
}
