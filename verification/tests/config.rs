use roastcraft::config::{
    check_slaves, parse_parity, Channel, Config, ConfigError, DataBits, DeviceKind, Http,
    LineSettings, Modbus, Parity, Serial, Slave, StopBits, Ta612c, Tcp,
};
use roastcraft::devices::Device;

fn cfg_slave(channel_id: &str, id: u16, function: u16, divisor: u16) -> Slave {
    Slave {
        channel_id: channel_id.to_string(),
        label: channel_id.to_uppercase(),
        id,
        function,
        registry: 0,
        divisor,
        decode_type: "u16".to_string(),
        unit: "C".to_string(),
        color: String::new(),
        ror_color: String::new(),
    }
}

fn cfg_channel(channel_id: &str, id: u16) -> Channel {
    Channel {
        channel_id: channel_id.to_string(),
        label: channel_id.to_uppercase(),
        id,
        unit: "C".to_string(),
        color: String::new(),
        ror_color: String::new(),
    }
}

fn cfg_serial(modbus: Option<Modbus>, ta612c: Option<Ta612c>) -> Serial {
    Serial {
        port: "/dev/ttyUSB0".to_string(),
        baud_rate: 9600,
        data_bits: 8,
        parity: "none".to_string(),
        stop_bits: 1,
        modbus,
        ta612c,
    }
}

fn cfg_tcp(modbus: Option<Modbus>, http: Option<Http>) -> Tcp {
    Tcp { ip: "192.168.1.10".to_string(), port: 502, modbus, http }
}

fn cfg_with(serial: Option<Serial>, tcp: Option<Tcp>) -> Config {
    let mut config = Config::new();
    config.serial = serial;
    config.tcp = tcp;
    config
}

fn cfg_modbus(slaves: Vec<Slave>) -> Modbus {
    Modbus { protocol: "rtu".to_string(), slave: slaves }
}

#[test]
fn new_config_is_empty() {
    let config = Config::new();
    assert_eq!(config.version, "");
    assert_eq!(config.brand, "");
    assert_eq!(config.model, "");
    assert!(config.serial.is_none());
    assert!(config.tcp.is_none());
}

#[test]
fn kind_needs_exactly_one_transport() {
    assert_eq!(Config::new().device_kind(), Err(ConfigError::NoTransport));
    let both = cfg_with(Some(cfg_serial(None, None)), Some(cfg_tcp(None, None)));
    assert_eq!(both.device_kind(), Err(ConfigError::TransportConflict));
}

#[test]
fn kind_needs_exactly_one_protocol() {
    let none = cfg_with(Some(cfg_serial(None, None)), None);
    assert_eq!(none.device_kind(), Err(ConfigError::MissingProtocol));
    let two = cfg_with(
        Some(cfg_serial(
            Some(cfg_modbus(vec![cfg_slave("bt", 1, 3, 10)])),
            Some(Ta612c { channel: vec![cfg_channel("bt", 0)] }),
        )),
        None,
    );
    assert_eq!(two.device_kind(), Err(ConfigError::ProtocolConflict));
    let none_tcp = cfg_with(None, Some(cfg_tcp(None, None)));
    assert_eq!(none_tcp.device_kind(), Err(ConfigError::MissingProtocol));
    let two_tcp = cfg_with(
        None,
        Some(cfg_tcp(
            Some(cfg_modbus(vec![cfg_slave("bt", 1, 3, 10)])),
            Some(Http { channel: vec![cfg_channel("bt", 0)] }),
        )),
    );
    assert_eq!(two_tcp.device_kind(), Err(ConfigError::ProtocolConflict));
}

#[test]
fn kind_follows_transport_and_protocol() {
    let rtu = cfg_with(Some(cfg_serial(Some(cfg_modbus(vec![cfg_slave("bt", 1, 3, 10)])), None)), None);
    assert_eq!(rtu.device_kind(), Ok(DeviceKind::RtuModbus));
    let thermo = cfg_with(
        Some(cfg_serial(None, Some(Ta612c { channel: vec![cfg_channel("bt", 0)] }))),
        None,
    );
    assert_eq!(thermo.device_kind(), Ok(DeviceKind::Ta612c));
    let tcp = cfg_with(None, Some(cfg_tcp(Some(cfg_modbus(vec![cfg_slave("bt", 1, 3, 10)])), None)));
    assert_eq!(tcp.device_kind(), Ok(DeviceKind::TcpModbus));
    let http = cfg_with(None, Some(cfg_tcp(None, Some(Http { channel: vec![cfg_channel("bt", 0)] }))));
    assert_eq!(http.device_kind(), Ok(DeviceKind::HttpPoll));
}

#[test]
fn line_settings_accept_the_listed_values() {
    let mut serial = cfg_serial(None, None);
    assert_eq!(
        serial.line_settings(),
        Ok(LineSettings { data_bits: DataBits::Eight, parity: Parity::Off, stop_bits: StopBits::One })
    );
    serial.data_bits = 5;
    serial.parity = "Even".to_string();
    serial.stop_bits = 2;
    assert_eq!(
        serial.line_settings(),
        Ok(LineSettings { data_bits: DataBits::Five, parity: Parity::Even, stop_bits: StopBits::Two })
    );
    serial.data_bits = 6;
    serial.parity = "ODD".to_string();
    assert_eq!(
        serial.line_settings(),
        Ok(LineSettings { data_bits: DataBits::Six, parity: Parity::Odd, stop_bits: StopBits::Two })
    );
    serial.data_bits = 7;
    assert_eq!(serial.line_settings().map(|l| l.data_bits), Ok(DataBits::Seven));
}

#[test]
fn line_settings_reject_other_values() {
    let mut serial = cfg_serial(None, None);
    serial.data_bits = 9;
    serial.parity = "mark".to_string();
    serial.stop_bits = 3;
    assert_eq!(serial.line_settings(), Err(ConfigError::DataBits));
    serial.data_bits = 8;
    assert_eq!(serial.line_settings(), Err(ConfigError::Parity));
    serial.parity = "odd".to_string();
    assert_eq!(serial.line_settings(), Err(ConfigError::StopBits));
    serial.stop_bits = 0;
    assert_eq!(serial.line_settings(), Err(ConfigError::StopBits));
    serial.data_bits = 4;
    assert_eq!(serial.line_settings(), Err(ConfigError::DataBits));
}

#[test]
fn parity_words_in_either_case() {
    assert_eq!(parse_parity("none"), Some(Parity::Off));
    assert_eq!(parse_parity("NONE"), Some(Parity::Off));
    assert_eq!(parse_parity("eVeN"), Some(Parity::Even));
    assert_eq!(parse_parity("Odd"), Some(Parity::Odd));
    assert_eq!(parse_parity(""), None);
    assert_eq!(parse_parity("evens"), None);
    assert_eq!(parse_parity("od"), None);
}

#[test]
fn slave_lists_are_checked_in_order() {
    assert_eq!(check_slaves(&vec![]), Err(ConfigError::NoChannels));
    assert_eq!(check_slaves(&vec![cfg_slave("bt", 1, 3, 10)]), Ok(()));
    assert_eq!(check_slaves(&vec![cfg_slave("bt", 1, 4, 10)]), Err(ConfigError::Function));
    assert_eq!(check_slaves(&vec![cfg_slave("bt", 1, 3, 0)]), Err(ConfigError::Divisor));
    assert_eq!(check_slaves(&vec![cfg_slave("bt", 1, 4, 0)]), Err(ConfigError::Function));
    assert_eq!(
        check_slaves(&vec![cfg_slave("bt", 1, 3, 10), cfg_slave("et", 2, 3, 0), cfg_slave("x", 3, 6, 1)]),
        Err(ConfigError::Divisor)
    );
}

#[test]
fn validate_agrees_with_construction() {
    let good = cfg_with(Some(cfg_serial(Some(cfg_modbus(vec![cfg_slave("bt", 1, 3, 10)])), None)), None);
    assert_eq!(Device::validate(&good), Ok(DeviceKind::RtuModbus));
    assert!(Device::from_config(good).is_ok());

    let mut bad_line = cfg_serial(Some(cfg_modbus(vec![cfg_slave("bt", 1, 3, 10)])), None);
    bad_line.stop_bits = 7;
    let bad = cfg_with(Some(bad_line), None);
    assert_eq!(Device::validate(&bad), Err(ConfigError::StopBits));
    assert_eq!(Device::from_config(bad).err(), Some(ConfigError::StopBits));

    let empty = cfg_with(None, Some(cfg_tcp(None, Some(Http { channel: vec![] }))));
    assert_eq!(Device::validate(&empty), Err(ConfigError::NoChannels));
    assert_eq!(Device::from_config(empty).err(), Some(ConfigError::NoChannels));

    let no_slaves = cfg_with(None, Some(cfg_tcp(Some(cfg_modbus(vec![])), None)));
    assert_eq!(Device::validate(&no_slaves), Err(ConfigError::NoChannels));

    let thermo = cfg_with(Some(cfg_serial(None, Some(Ta612c { channel: vec![] }))), None);
    assert_eq!(Device::validate(&thermo), Err(ConfigError::NoChannels));
    assert_eq!(Device::validate(&Config::new()), Err(ConfigError::NoTransport));
}

#[test]
fn from_config_builds_the_selected_kind() {
    let rtu = cfg_with(Some(cfg_serial(Some(cfg_modbus(vec![cfg_slave("bt", 1, 3, 10)])), None)), None);
    let device = Device::from_config(rtu).unwrap();
    assert_eq!(device.kind(), DeviceKind::RtuModbus);
    assert!(device.is_well_formed());

    let tcp = cfg_with(None, Some(cfg_tcp(Some(cfg_modbus(vec![cfg_slave("bt", 1, 3, 10)])), None)));
    assert_eq!(Device::from_config(tcp).unwrap().kind(), DeviceKind::TcpModbus);

    let thermo = cfg_with(
        Some(cfg_serial(None, Some(Ta612c { channel: vec![cfg_channel("bt", 0)] }))),
        None,
    );
    assert_eq!(Device::from_config(thermo).unwrap().kind(), DeviceKind::Ta612c);

    let http = cfg_with(None, Some(cfg_tcp(None, Some(Http { channel: vec![cfg_channel("bt", 0)] }))));
    assert_eq!(Device::from_config(http).unwrap().kind(), DeviceKind::HttpPoll);
}
