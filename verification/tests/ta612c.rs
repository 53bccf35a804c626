use roastcraft::config::{Channel, Config, ConfigError, Modbus, Serial, Ta612c};
use roastcraft::exchange::{Action, Event, Payload, ReadError};
use roastcraft::reading::{Reading, ReadingMap};
use roastcraft::devices::ta612c::{decode_response, query_frame, Ta612cDevice, RESPONSE_LEN};

fn ta_channel(channel_id: &str, id: u16) -> Channel {
    Channel {
        channel_id: channel_id.to_string(),
        label: channel_id.to_uppercase(),
        id,
        unit: "C".to_string(),
        color: String::new(),
        ror_color: String::new(),
    }
}

fn ta_channels(n: usize) -> Vec<Channel> {
    (0..n).map(|i| ta_channel(&format!("ch{i}"), i as u16)).collect()
}

fn ta_config(channels: Vec<Channel>) -> Config {
    let mut config = Config::new();
    config.serial = Some(Serial {
        port: "COM3".to_string(),
        baud_rate: 9600,
        data_bits: 8,
        parity: "none".to_string(),
        stop_bits: 1,
        modbus: None,
        ta612c: Some(Ta612c { channel: channels }),
    });
    config
}

fn ta_text(m: &ReadingMap, key: &str) -> String {
    match m.get(&key.to_string()) {
        Some(Reading::Text(s)) => s.clone(),
        other => panic!("no text for {key}: {other:?}"),
    }
}

#[test]
fn query_is_the_fixed_five_bytes() {
    assert_eq!(query_frame(), vec![0xAA, 0x55, 0x01, 0x03, 0x03]);
}

#[test]
fn two_channels_decode_two_slots() {
    let mut response = vec![0u8; 13];
    response[4] = 0x00;
    response[5] = 0x01;
    response[6] = 0x00;
    response[7] = 0x02;
    let m = decode_response(&ta_channels(2), &response);
    assert_eq!(m.len(), 2);
    assert_eq!(ta_text(&m, "ch0"), "25.6");
    assert_eq!(ta_text(&m, "ch1"), "51.2");
}

#[test]
fn slots_are_little_endian_tenths() {
    let response: Vec<u8> = vec![0xAA, 0x55, 0x01, 0x0B, 0x31, 0x01, 0xFF, 0xFF, 0x00, 0x00, 0x09, 0x00, 0x7E];
    let m = decode_response(&ta_channels(4), &response);
    assert_eq!(m.len(), 4);
    assert_eq!(ta_text(&m, "ch0"), "30.5");
    assert_eq!(ta_text(&m, "ch1"), "6553.5");
    assert_eq!(ta_text(&m, "ch2"), "0.0");
    assert_eq!(ta_text(&m, "ch3"), "0.9");
    for i in 0..4 {
        let raw = u16::from_le_bytes([response[4 + 2 * i], response[5 + 2 * i]]);
        let expected = format!("{}.{}", raw / 10, raw % 10);
        assert_eq!(ta_text(&m, &format!("ch{i}")), expected);
    }
}

#[test]
fn channels_beyond_the_fourth_get_nothing() {
    let response = vec![1u8; 13];
    let m = decode_response(&ta_channels(6), &response);
    assert_eq!(m.len(), 4);
    assert_eq!(m.get(&"ch4".to_string()), None);
    assert_eq!(m.entries[3].channel_id, "ch3");
}

#[test]
fn answers_of_another_length_give_nothing() {
    assert_eq!(decode_response(&ta_channels(2), &vec![0u8; 12]).len(), 0);
    assert_eq!(decode_response(&ta_channels(2), &vec![0u8; 14]).len(), 0);
    assert_eq!(decode_response(&ta_channels(2), &vec![]).len(), 0);
}

#[test]
fn thermometer_cycle_asks_then_decodes() {
    let device = Ta612cDevice::new(ta_config(ta_channels(2))).unwrap();
    assert_eq!(
        device.begin(),
        Action::Exchange { request: vec![0xAA, 0x55, 0x01, 0x03, 0x03], expect: RESPONSE_LEN }
    );
    let mut response = vec![0u8; 13];
    response[5] = 0x01;
    response[7] = 0x02;
    match device.advance(&Event::Bytes(response)) {
        Action::Emit(Payload::Readings(m)) => {
            assert_eq!(ta_text(&m, "ch0"), "25.6");
            assert_eq!(ta_text(&m, "ch1"), "51.2");
            assert_eq!(m.len(), 2);
        }
        other => panic!("unexpected {other:?}"),
    }
}

#[test]
fn thermometer_failure_fails_the_cycle() {
    let device = Ta612cDevice::new(ta_config(ta_channels(2))).unwrap();
    assert_eq!(device.advance(&Event::Failed), Action::Fail(ReadError::Transport));
    assert_eq!(device.advance(&Event::Bytes(vec![0u8; 5])), Action::Fail(ReadError::Length));
    assert_eq!(device.advance(&Event::Bytes(vec![0u8; 14])), Action::Fail(ReadError::Length));
    assert_eq!(
        device.advance(&Event::Response { status: 200, body: String::new() }),
        Action::Fail(ReadError::Transport)
    );
}

#[test]
fn thermometer_needs_its_own_sub_tree() {
    assert_eq!(Ta612cDevice::new(Config::new()).err(), Some(ConfigError::NoTransport));
    assert_eq!(Ta612cDevice::new(ta_config(vec![])).err(), Some(ConfigError::NoChannels));
    let mut other = ta_config(ta_channels(1));
    if let Some(serial) = other.serial.as_mut() {
        serial.ta612c = None;
        serial.modbus = Some(Modbus { protocol: "rtu".to_string(), slave: vec![] });
    }
    assert_eq!(Ta612cDevice::new(other).err(), Some(ConfigError::MissingProtocol));
    let mut bad = ta_config(ta_channels(1));
    if let Some(serial) = bad.serial.as_mut() {
        serial.parity = "space".to_string();
    }
    assert_eq!(Ta612cDevice::new(bad).err(), Some(ConfigError::Parity));
    let good = Ta612cDevice::new(ta_config(ta_channels(3))).unwrap();
    assert_eq!(good.port, "COM3");
    assert_eq!(good.baud_rate, 9600);
    assert_eq!(good.channels.len(), 3);
}
