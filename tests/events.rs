use key_events::events::{EventConfig, KeyEvents};
use key_events::key::{Key, RawCode, RawKey};
use key_events::pump::{Pump, PumpAction, PumpInput, RawEvent};
use std::time::Duration;

fn plain(c: char) -> RawKey {
    RawKey { code: RawCode::Char(c), ctrl: false, alt: false }
}

fn fresh(tick_rate: u64) -> (KeyEvents, Pump) {
    let mut events = KeyEvents::new(tick_rate);
    let pump = events.take_pump().expect("a new handle holds its pump");
    (events, pump)
}

fn poll_of(a: PumpAction) -> Duration {
    match a {
        PumpAction::Poll(d) => d,
        other => panic!("expected a poll, got {:?}", other),
    }
}

fn press(pump: &mut Pump, raw: RawKey) -> PumpAction {
    assert!(matches!(pump.step(PumpInput::Polled(true)), PumpAction::Read));
    pump.step(PumpInput::Read(RawEvent::Key(raw)))
}

#[test]
fn default_config_ticks_every_250_ms() {
    let config = EventConfig::default();
    assert_eq!(config.tick_rate, Duration::from_millis(250));
}

#[test]
fn config_from_millis() {
    assert_eq!(EventConfig::from_millis(40).tick_rate, Duration::from_millis(40));
}

#[test]
fn pump_polls_for_the_tick_rate() {
    let (_events, pump) = fresh(100);
    assert_eq!(poll_of(pump.start()), Duration::from_millis(100));
}

#[test]
fn with_config_keeps_the_tick_rate() {
    let mut events = KeyEvents::with_config(EventConfig::from_millis(7));
    let pump = events.take_pump().unwrap();
    assert_eq!(poll_of(pump.start()), Duration::from_millis(7));
}

#[test]
fn pump_is_handed_out_once() {
    let mut events = KeyEvents::new(100);
    assert!(events.take_pump().is_some());
    assert!(events.take_pump().is_none());
}

#[test]
fn decode_plain_char() {
    assert_eq!(Key::from_raw(plain('a')), Key::Char('a'));
}

#[test]
fn decode_ctrl_char() {
    let raw = RawKey { code: RawCode::Char('c'), ctrl: true, alt: true };
    assert_eq!(Key::from_raw(raw), Key::Ctrl('c'));
}

#[test]
fn decode_alt_char() {
    let raw = RawKey { code: RawCode::Char('x'), ctrl: false, alt: true };
    assert_eq!(Key::from_raw(raw), Key::Alt('x'));
}

#[test]
fn decode_special_keys() {
    let f5 = RawKey { code: RawCode::F(5), ctrl: true, alt: false };
    assert_eq!(Key::from_raw(f5), Key::F(5));
    let enter = RawKey { code: RawCode::Enter, ctrl: false, alt: false };
    assert_eq!(Key::from_raw(enter), Key::Enter);
    let other = RawKey { code: RawCode::Other, ctrl: false, alt: false };
    assert_eq!(Key::from_raw(other), Key::Unknown);
    assert!(!Key::from_raw(other).is_none());
    assert!(Key::Tick.is_none());
}

#[test]
fn quiet_rounds_send_one_heartbeat_each() {
    let (events, mut pump) = fresh(100);
    for _ in 0..4 {
        assert_eq!(poll_of(pump.step(PumpInput::Polled(false))), Duration::from_millis(100));
    }
    for _ in 0..4 {
        assert_eq!(events.next(), Ok(Key::Tick));
    }
}

#[test]
fn key_then_quiet_rounds() {
    // tick rate 100 ms, 'a' pressed early, then nothing for 500 ms.
    let (events, mut pump) = fresh(100);
    assert_eq!(poll_of(pump.start()), Duration::from_millis(100));
    assert_eq!(poll_of(press(&mut pump, plain('a'))), Duration::from_millis(100));
    for _ in 0..5 {
        pump.step(PumpInput::Polled(false));
    }
    assert_eq!(events.next(), Ok(Key::Char('a')));
    // The round that read the key sends its heartbeat at once.
    for _ in 0..6 {
        assert_eq!(events.next(), Ok(Key::Tick));
    }
}

#[test]
fn keys_arrive_in_order_pressed() {
    let (events, mut pump) = fresh(50);
    for c in ['x', 'y', 'z'] {
        press(&mut pump, plain(c));
    }
    let got: Vec<Key> = (0..6).map(|_| events.next().unwrap()).collect();
    assert_eq!(
        got,
        vec![Key::Char('x'), Key::Tick, Key::Char('y'), Key::Tick, Key::Char('z'), Key::Tick]
    );
}

#[test]
fn other_events_send_only_a_heartbeat() {
    let (events, mut pump) = fresh(100);
    assert!(matches!(pump.step(PumpInput::Polled(true)), PumpAction::Read));
    poll_of(pump.step(PumpInput::Read(RawEvent::Other)));
    pump.step(PumpInput::Polled(false));
    assert_eq!(events.next(), Ok(Key::Tick));
    assert_eq!(events.next(), Ok(Key::Tick));
}

#[test]
fn zero_tick_rate_still_delivers() {
    let (events, mut pump) = fresh(0);
    assert_eq!(poll_of(pump.start()), Duration::ZERO);
    assert_eq!(poll_of(pump.step(PumpInput::Polled(false))), Duration::ZERO);
    assert_eq!(events.next(), Ok(Key::Tick));
}

#[test]
fn poll_failure_stops_the_pump() {
    let (_events, mut pump) = fresh(100);
    assert!(matches!(pump.step(PumpInput::PollFailed), PumpAction::Stop));
    assert!(matches!(pump.step(PumpInput::Polled(false)), PumpAction::Stop));
    assert!(matches!(pump.start(), PumpAction::Stop));
}

#[test]
fn read_failure_stops_the_pump() {
    let (_events, mut pump) = fresh(100);
    assert!(matches!(pump.step(PumpInput::Polled(true)), PumpAction::Read));
    assert!(matches!(pump.step(PumpInput::ReadFailed), PumpAction::Stop));
}

#[test]
fn out_of_turn_outcome_stops_the_pump() {
    let (_events, mut pump) = fresh(100);
    let read = PumpInput::Read(RawEvent::Key(plain('q')));
    assert!(matches!(pump.step(read), PumpAction::Stop));
}

#[test]
fn send_failure_stops_the_pump() {
    let (events, mut pump) = fresh(100);
    drop(events);
    assert!(matches!(pump.step(PumpInput::Polled(false)), PumpAction::Stop));
}
