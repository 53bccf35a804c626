use roastcraft::config::{Channel, Config, ConfigError, DeviceKind, Serial, Ta612c};
use roastcraft::devices::Device;
use roastcraft::exchange::{Action, Event, Payload, ReadError};
use roastcraft::reading::{Reading, ReadingMap};
use roastcraft::scheduler::{
    Notice, Scheduler, Session, Started, Stopped, DEFAULT_TICK_MS, DEFAULT_TIMEOUT_MS,
};

fn sc_config() -> Config {
    let mut config = Config::new();
    config.serial = Some(Serial {
        port: "COM1".to_string(),
        baud_rate: 9600,
        data_bits: 8,
        parity: "none".to_string(),
        stop_bits: 1,
        modbus: None,
        ta612c: Some(Ta612c {
            channel: vec![Channel {
                channel_id: "bt".to_string(),
                label: "BT".to_string(),
                id: 0,
                unit: "C".to_string(),
                color: String::new(),
                ror_color: String::new(),
            }],
        }),
    });
    config
}

fn sc_payload() -> Payload {
    let mut m = ReadingMap::new();
    m.insert("bt".to_string(), Reading::Text("30.5".to_string()));
    Payload::Readings(m)
}

#[test]
fn scheduler_starts_idle() {
    let s = Scheduler::new(DEFAULT_TICK_MS, DEFAULT_TIMEOUT_MS);
    assert_eq!(s, Scheduler { session: Session::Idle, tick_ms: 2000, timeout_ms: 10000 });
    assert!(!s.is_running());
}

#[test]
fn second_start_builds_nothing() {
    let mut s = Scheduler::new(2000, 10000);
    match s.start(sc_config()) {
        Started::Spawn(device) => assert_eq!(device.kind(), DeviceKind::Ta612c),
        other => panic!("unexpected {other:?}"),
    }
    assert!(s.is_running());
    let before = s;
    assert!(matches!(s.start(sc_config()), Started::AlreadyRunning));
    assert_eq!(s, before);
    assert!(matches!(s.start(Config::new()), Started::AlreadyRunning));
    assert_eq!(s, before);
}

#[test]
fn stop_while_idle_does_nothing() {
    let mut s = Scheduler::new(3000, 10000);
    let before = s;
    assert_eq!(s.stop(), Stopped::AlreadyIdle);
    assert_eq!(s, before);
    assert!(matches!(s.start(sc_config()), Started::Spawn(_)));
    assert_eq!(s.stop(), Stopped::Cancel);
    assert_eq!(s, before);
    assert_eq!(s.stop(), Stopped::AlreadyIdle);
    assert!(matches!(s.start(sc_config()), Started::Spawn(_)));
}

#[test]
fn rejected_start_stays_idle() {
    let mut s = Scheduler::new(2000, 10000);
    match s.start(Config::new()) {
        Started::Rejected(e) => assert_eq!(e, ConfigError::NoTransport),
        other => panic!("unexpected {other:?}"),
    }
    assert!(!s.is_running());
    let mut bad = sc_config();
    if let Some(serial) = bad.serial.as_mut() {
        serial.data_bits = 10;
    }
    assert!(matches!(s.start(bad), Started::Rejected(ConfigError::DataBits)));
    assert_eq!(s.session, Session::Idle);
}

#[test]
fn failed_open_returns_to_idle() {
    let mut s = Scheduler::new(2000, 10000);
    assert!(matches!(s.start(sc_config()), Started::Spawn(_)));
    s.open_failed();
    assert_eq!(s, Scheduler::new(2000, 10000));
    assert!(matches!(s.start(sc_config()), Started::Spawn(_)));
}

#[test]
fn overrun_cycle_is_a_failure_without_readings() {
    let s = Scheduler::new(2000, 10000);
    assert_eq!(s.conclude(10001, Ok(sc_payload())), Notice::Failure(ReadError::Timeout));
    assert_eq!(s.conclude(u64::MAX, Err(ReadError::Transport)), Notice::Failure(ReadError::Timeout));
    assert_eq!(s.conclude(10000, Ok(sc_payload())), Notice::Deliver(sc_payload()));
    assert_eq!(s.conclude(0, Ok(sc_payload())), Notice::Deliver(sc_payload()));
    assert_eq!(s.conclude(5, Err(ReadError::Status(503))), Notice::Failure(ReadError::Status(503)));
    assert_eq!(s.conclude(5, Err(ReadError::Body)), Notice::Failure(ReadError::Body));
}

#[test]
fn tick_after_an_overrun_is_unaffected() {
    let s = Scheduler::new(2000, 10000);
    let mut device = Device::from_config(sc_config()).unwrap();
    let first = device.begin();
    assert_eq!(s.conclude(20000, Err(ReadError::Transport)), Notice::Failure(ReadError::Timeout));
    assert_eq!(device.begin(), first);
    let mut answer = vec![0u8; 13];
    answer[4] = 0x31;
    answer[5] = 0x01;
    match device.advance(&Event::Bytes(answer)) {
        Action::Emit(payload) => {
            assert_eq!(s.conclude(120, Ok(payload)), Notice::Deliver(sc_payload()));
        }
        other => panic!("unexpected {other:?}"),
    }
}
