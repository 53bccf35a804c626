use roastcraft::config::{Channel, Config, Http, Modbus, Serial, Slave, Ta612c, Tcp};
use roastcraft::devices::Device;
use roastcraft::exchange::{Action, Event, Payload, ReadError};
use roastcraft::reading::Reading;

fn dv_slave(channel_id: &str, id: u16) -> Slave {
    Slave {
        channel_id: channel_id.to_string(),
        label: String::new(),
        id,
        function: 3,
        registry: 2,
        divisor: 10,
        decode_type: "float".to_string(),
        unit: "C".to_string(),
        color: String::new(),
        ror_color: String::new(),
    }
}

fn dv_channel(channel_id: &str) -> Channel {
    Channel {
        channel_id: channel_id.to_string(),
        label: String::new(),
        id: 0,
        unit: "C".to_string(),
        color: String::new(),
        ror_color: String::new(),
    }
}

fn dv_serial(modbus: Option<Modbus>, ta612c: Option<Ta612c>) -> Config {
    let mut config = Config::new();
    config.serial = Some(Serial {
        port: "COM7".to_string(),
        baud_rate: 19200,
        data_bits: 7,
        parity: "even".to_string(),
        stop_bits: 2,
        modbus,
        ta612c,
    });
    config
}

fn dv_tcp(modbus: Option<Modbus>, http: Option<Http>) -> Config {
    let mut config = Config::new();
    config.tcp = Some(Tcp { ip: "10.1.1.1".to_string(), port: 1502, modbus, http });
    config
}

#[test]
fn device_speaks_tcp_modbus() {
    let modbus = Modbus { protocol: "tcp".to_string(), slave: vec![dv_slave("bt", 9)] };
    let mut device = Device::from_config(dv_tcp(Some(modbus), None)).unwrap();
    assert!(device.is_well_formed());
    assert_eq!(
        device.begin(),
        Action::Exchange { request: vec![0, 1, 0, 0, 0, 6, 9, 3, 0, 2, 0, 1], expect: 6 }
    );
    assert_eq!(device.advance(&Event::Bytes(vec![0, 1, 0, 0, 0, 5])), Action::Receive { expect: 5 });
    match device.advance(&Event::Bytes(vec![9, 3, 2, 0x01, 0x31])) {
        Action::Emit(Payload::Readings(m)) => {
            assert_eq!(m.get(&"bt".to_string()), Some(&Reading::Ratio { raw: 305, divisor: 10 }));
        }
        other => panic!("unexpected {other:?}"),
    }
    assert_eq!(device.advance(&Event::Failed), Action::Fail(ReadError::OutOfTurn));
}

#[test]
fn device_speaks_rtu_modbus() {
    let modbus = Modbus { protocol: "rtu".to_string(), slave: vec![dv_slave("bt", 1)] };
    let mut device = Device::from_config(dv_serial(Some(modbus), None)).unwrap();
    match device.begin() {
        Action::Exchange { request, expect } => {
            assert_eq!(expect, 6);
            assert_eq!(request.len(), 8);
            assert_eq!(&request[..6], &[1, 3, 0, 2, 0, 1]);
        }
        other => panic!("unexpected {other:?}"),
    }
    match device.advance(&Event::Failed) {
        Action::Emit(Payload::Readings(m)) => assert_eq!(m.len(), 0),
        other => panic!("unexpected {other:?}"),
    }
}

#[test]
fn device_speaks_to_the_thermometer() {
    let thermo = Ta612c { channel: vec![dv_channel("t1")] };
    let mut device = Device::from_config(dv_serial(None, Some(thermo))).unwrap();
    assert_eq!(
        device.begin(),
        Action::Exchange { request: vec![0xAA, 0x55, 0x01, 0x03, 0x03], expect: 13 }
    );
    let mut answer = vec![0u8; 13];
    answer[4] = 0xE8;
    answer[5] = 0x03;
    match device.advance(&Event::Bytes(answer)) {
        Action::Emit(Payload::Readings(m)) => {
            assert_eq!(m.get(&"t1".to_string()), Some(&Reading::Text("100.0".to_string())));
        }
        other => panic!("unexpected {other:?}"),
    }
    assert_eq!(device.advance(&Event::Failed), Action::Fail(ReadError::Transport));
}

#[test]
fn device_speaks_to_the_endpoint() {
    let http = Http { channel: vec![dv_channel("bt")] };
    let mut device = Device::from_config(dv_tcp(None, Some(http))).unwrap();
    assert_eq!(device.begin(), Action::Fetch { url: "http://10.1.1.1:1502".to_string() });
    assert_eq!(
        device.advance(&Event::Response { status: 500, body: "{}".to_string() }),
        Action::Fail(ReadError::Status(500))
    );
    assert!(matches!(
        device.advance(&Event::Response { status: 200, body: "{}".to_string() }),
        Action::Emit(Payload::Json(_))
    ));
}
