//! The configuration tree of a polling session and its validation.

use vstd::prelude::*;
use vstd::string::*;
use crate::text::{matches_word, word_matches};

verus! {

/// Root of the configuration: metadata tags and exactly one transport.
#[derive(Clone, Debug)]
pub struct Config {
    pub version: String,
    pub brand: String,
    pub model: String,
    pub serial: Option<Serial>,
    pub tcp: Option<Tcp>,
}

/// A serial line and the protocol spoken over it.
#[derive(Clone, Debug)]
pub struct Serial {
    pub port: String,
    pub baud_rate: u16,
    pub data_bits: u16,
    pub parity: String,
    pub stop_bits: u16,
    pub modbus: Option<Modbus>,
    pub ta612c: Option<Ta612c>,
}

/// A network peer and the protocol spoken with it.
#[derive(Clone, Debug)]
pub struct Tcp {
    pub ip: String,
    pub port: u16,
    pub modbus: Option<Modbus>,
    pub http: Option<Http>,
}

/// Channels of a four-slot serial thermometer, mapped to slots by position.
#[derive(Clone, Debug)]
pub struct Ta612c {
    pub channel: Vec<Channel>,
}

/// Modbus slaves, in polling order.
#[derive(Clone, Debug)]
pub struct Modbus {
    pub protocol: String,
    pub slave: Vec<Slave>,
}

/// Channels reported by a polled HTTP endpoint.
#[derive(Clone, Debug)]
pub struct Http {
    pub channel: Vec<Channel>,
}

/// One Modbus measurement point.
#[derive(Clone, Debug)]
pub struct Slave {
    pub channel_id: String,
    pub label: String,
    pub id: u16,
    pub function: u16,
    pub registry: u16,
    pub divisor: u16,
    pub decode_type: String,
    pub unit: String,
    pub color: String,
    pub ror_color: String,
}

/// One positional measurement point.
#[derive(Clone, Debug)]
pub struct Channel {
    pub channel_id: String,
    pub label: String,
    pub id: u16,
    pub unit: String,
    pub color: String,
    pub ror_color: String,
}

/// Why a configuration cannot drive a device.
#[derive(Clone, Copy, Debug, PartialEq, Eq, Structural)]
pub enum ConfigError {
    /// Neither a serial line nor a network peer is configured.
    NoTransport,
    /// Both a serial line and a network peer are configured.
    TransportConflict,
    /// The transport carries no protocol, or not the one the device speaks.
    MissingProtocol,
    /// The transport carries two protocols.
    ProtocolConflict,
    /// The protocol lists no slave or channel.
    NoChannels,
    /// Data bits are not 5, 6, 7 or 8.
    DataBits,
    /// Parity is not one of none, even, odd.
    Parity,
    /// Stop bits are not 1 or 2.
    StopBits,
    /// A slave asks for a function other than reading holding registers.
    Function,
    /// A slave's divisor is zero.
    Divisor,
}

/// Number of data bits per character on a serial line.
#[derive(Clone, Copy, Debug, PartialEq, Eq, Structural)]
pub enum DataBits {
    Five,
    Six,
    Seven,
    Eight,
}

/// Parity checking on a serial line.
#[derive(Clone, Copy, Debug, PartialEq, Eq, Structural)]
pub enum Parity {
    Off,
    Even,
    Odd,
}

/// Number of stop bits on a serial line.
#[derive(Clone, Copy, Debug, PartialEq, Eq, Structural)]
pub enum StopBits {
    One,
    Two,
}

/// The validated framing of a serial line.
#[derive(Clone, Copy, Debug, PartialEq, Eq, Structural)]
pub struct LineSettings {
    pub data_bits: DataBits,
    pub parity: Parity,
    pub stop_bits: StopBits,
}

/// The device that a configuration selects.
#[derive(Clone, Copy, Debug, PartialEq, Eq, Structural)]
pub enum DeviceKind {
    RtuModbus,
    TcpModbus,
    Ta612c,
    HttpPoll,
}

/// The Modbus function code for reading holding registers.
pub const READ_HOLDING_REGISTERS: u16 = 3;

/// The parity that a configured word selects.
pub open spec fn parity_of(s: Seq<char>) -> Option<Parity> {
    if word_matches(s, "none"@, "NONE"@) {
        Some(Parity::Off)
    } else if word_matches(s, "even"@, "EVEN"@) {
        Some(Parity::Even)
    } else if word_matches(s, "odd"@, "ODD"@) {
        Some(Parity::Odd)
    } else {
        None
    }
}

/// The data bits that a configured number selects.
pub open spec fn data_bits_of(n: u16) -> Option<DataBits> {
    if n == 5 {
        Some(DataBits::Five)
    } else if n == 6 {
        Some(DataBits::Six)
    } else if n == 7 {
        Some(DataBits::Seven)
    } else if n == 8 {
        Some(DataBits::Eight)
    } else {
        None
    }
}

/// The stop bits that a configured number selects.
pub open spec fn stop_bits_of(n: u16) -> Option<StopBits> {
    if n == 1 {
        Some(StopBits::One)
    } else if n == 2 {
        Some(StopBits::Two)
    } else {
        None
    }
}

/// What is wrong with one slave, if anything.
pub open spec fn slave_fault(s: Slave) -> Option<ConfigError> {
    if s.function != READ_HOLDING_REGISTERS {
        Some(ConfigError::Function)
    } else if s.divisor == 0 {
        Some(ConfigError::Divisor)
    } else {
        None
    }
}

/// The fault of the first faulty slave at or after `from`, if there is one.
pub open spec fn first_slave_fault(slaves: Seq<Slave>, from: int) -> Option<ConfigError>
    decreases slaves.len() - from,
{
    if from < 0 || from >= slaves.len() {
        None
    } else if slave_fault(slaves[from]) is Some {
        slave_fault(slaves[from])
    } else {
        first_slave_fault(slaves, from + 1)
    }
}

/// The verdict on a slave list: it must be non-empty and free of faults.
pub open spec fn slaves_verdict(slaves: Seq<Slave>) -> Result<(), ConfigError> {
    if slaves.len() == 0 {
        Err(ConfigError::NoChannels)
    } else {
        match first_slave_fault(slaves, 0) {
            Some(e) => Err(e),
            None => Ok(()),
        }
    }
}

/// Every slave reads holding registers and has a non-zero divisor.
pub open spec fn slaves_sound(slaves: Seq<Slave>) -> bool {
    forall|i: int| 0 <= i < slaves.len() ==> slave_fault(#[trigger] slaves[i]) is None
}

/// A list without a faulty slave from `from` on is sound from there on.
pub proof fn lemma_no_fault_sound(slaves: Seq<Slave>, from: int)
    requires
        0 <= from,
        first_slave_fault(slaves, from) is None,
    ensures
        forall|i: int| from <= i < slaves.len() ==> slave_fault(#[trigger] slaves[i]) is None,
    decreases slaves.len() - from,
{
    if from < slaves.len() {
        lemma_no_fault_sound(slaves, from + 1);
    }
}

/// Reads a parity word, in either case.
pub fn parse_parity(s: &str) -> (r: Option<Parity>)
    ensures
        r == parity_of(s@),
{
    proof {
        reveal_strlit("none");
        reveal_strlit("NONE");
        reveal_strlit("even");
        reveal_strlit("EVEN");
        reveal_strlit("odd");
        reveal_strlit("ODD");
    }
    if matches_word(s, "none", "NONE") {
        Some(Parity::Off)
    } else if matches_word(s, "even", "EVEN") {
        Some(Parity::Even)
    } else if matches_word(s, "odd", "ODD") {
        Some(Parity::Odd)
    } else {
        None
    }
}

/// A sound list has no faulty slave from `from` on.
pub proof fn lemma_sound_no_fault(slaves: Seq<Slave>, from: int)
    requires
        0 <= from,
        slaves_sound(slaves),
    ensures
        first_slave_fault(slaves, from) is None,
    decreases slaves.len() - from,
{
    if from < slaves.len() {
        lemma_sound_no_fault(slaves, from + 1);
    }
}

/// Checks a slave list: non-empty, and every slave reads holding registers
/// with a non-zero divisor. The first faulty slave decides the error.
pub fn check_slaves(slaves: &Vec<Slave>) -> (r: Result<(), ConfigError>)
    ensures
        r == slaves_verdict(slaves@),
        r is Ok <==> slaves@.len() > 0 && slaves_sound(slaves@),
{
    proof {
        if slaves_sound(slaves@) {
            lemma_sound_no_fault(slaves@, 0);
        }
    }
    if slaves.len() == 0 {
        return Err(ConfigError::NoChannels);
    }
    let mut i: usize = 0;
    while i < slaves.len()
        invariant
            i <= slaves.len(),
            first_slave_fault(slaves@, 0) == first_slave_fault(slaves@, i as int),
        decreases slaves.len() - i,
    {
        if slaves[i].function != READ_HOLDING_REGISTERS {
            return Err(ConfigError::Function);
        }
        if slaves[i].divisor == 0 {
            return Err(ConfigError::Divisor);
        }
        i += 1;
    }
    proof {
        lemma_no_fault_sound(slaves@, 0);
    }
    Ok(())
}

impl Serial {
    /// The framing that the line's fields select, or the first field that
    /// names none: data bits, then parity, then stop bits.
    pub open spec fn line_spec(&self) -> Result<LineSettings, ConfigError> {
        match data_bits_of(self.data_bits) {
            None => Err(ConfigError::DataBits),
            Some(data_bits) => match parity_of(self.parity@) {
                None => Err(ConfigError::Parity),
                Some(parity) => match stop_bits_of(self.stop_bits) {
                    None => Err(ConfigError::StopBits),
                    Some(stop_bits) => Ok(LineSettings { data_bits, parity, stop_bits }),
                },
            },
        }
    }

    /// Validates the framing of the line.
    pub fn line_settings(&self) -> (r: Result<LineSettings, ConfigError>)
        ensures
            r == self.line_spec(),
    {
        let data_bits = if self.data_bits == 5 {
            DataBits::Five
        } else if self.data_bits == 6 {
            DataBits::Six
        } else if self.data_bits == 7 {
            DataBits::Seven
        } else if self.data_bits == 8 {
            DataBits::Eight
        } else {
            return Err(ConfigError::DataBits);
        };
        let parity = match parse_parity(self.parity.as_str()) {
            Some(p) => p,
            None => {
                return Err(ConfigError::Parity);
            },
        };
        let stop_bits = if self.stop_bits == 1 {
            StopBits::One
        } else if self.stop_bits == 2 {
            StopBits::Two
        } else {
            return Err(ConfigError::StopBits);
        };
        Ok(LineSettings { data_bits, parity, stop_bits })
    }
}

impl Config {
    /// An empty configuration: blank tags and no transport.
    pub fn new() -> (c: Self)
        ensures
            c.version@ == Seq::<char>::empty(),
            c.brand@ == Seq::<char>::empty(),
            c.model@ == Seq::<char>::empty(),
            c.serial is None,
            c.tcp is None,
    {
        Self {
            version: String::new(),
            brand: String::new(),
            model: String::new(),
            serial: None,
            tcp: None,
        }
    }

    /// The device that the tree selects: exactly one transport must be
    /// present, with exactly one protocol under it.
    pub open spec fn kind_spec(&self) -> Result<DeviceKind, ConfigError> {
        match (self.serial, self.tcp) {
            (None, None) => Err(ConfigError::NoTransport),
            (Some(_), Some(_)) => Err(ConfigError::TransportConflict),
            (Some(serial), None) => match (serial.modbus, serial.ta612c) {
                (None, None) => Err(ConfigError::MissingProtocol),
                (Some(_), Some(_)) => Err(ConfigError::ProtocolConflict),
                (Some(_), None) => Ok(DeviceKind::RtuModbus),
                (None, Some(_)) => Ok(DeviceKind::Ta612c),
            },
            (None, Some(tcp)) => match (tcp.modbus, tcp.http) {
                (None, None) => Err(ConfigError::MissingProtocol),
                (Some(_), Some(_)) => Err(ConfigError::ProtocolConflict),
                (Some(_), None) => Ok(DeviceKind::TcpModbus),
                (None, Some(_)) => Ok(DeviceKind::HttpPoll),
            },
        }
    }

    /// Selects the device that the tree describes.
    pub fn device_kind(&self) -> (r: Result<DeviceKind, ConfigError>)
        ensures
            r == self.kind_spec(),
    {
        match (&self.serial, &self.tcp) {
            (None, None) => Err(ConfigError::NoTransport),
            (Some(_), Some(_)) => Err(ConfigError::TransportConflict),
            (Some(serial), None) => match (&serial.modbus, &serial.ta612c) {
                (None, None) => Err(ConfigError::MissingProtocol),
                (Some(_), Some(_)) => Err(ConfigError::ProtocolConflict),
                (Some(_), None) => Ok(DeviceKind::RtuModbus),
                (None, Some(_)) => Ok(DeviceKind::Ta612c),
            },
            (None, Some(tcp)) => match (&tcp.modbus, &tcp.http) {
                (None, None) => Err(ConfigError::MissingProtocol),
                (Some(_), Some(_)) => Err(ConfigError::ProtocolConflict),
                (Some(_), None) => Ok(DeviceKind::TcpModbus),
                (None, Some(_)) => Ok(DeviceKind::HttpPoll),
            },
        }
    }
}

} // verus!
