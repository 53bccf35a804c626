//! The TA612C four-channel thermometer: a fixed query and a fixed 13-byte
//! answer that carries four little-endian temperatures in tenths of a degree.

use vstd::prelude::*;
use crate::config::{Channel, Config, ConfigError, DeviceKind, LineSettings};
use crate::exchange::{Action, ActionView, Event, Payload, ReadError};
use crate::reading::{Reading, ReadingMap, ReadingValue};
use crate::text::{one_decimal, render_one_decimal};

verus! {

/// Length of the thermometer's answer.
pub const RESPONSE_LEN: usize = 13;

/// Number of temperature slots in an answer.
pub const SLOTS: usize = 4;

/// The query that asks the thermometer for its four temperatures.
pub open spec fn query_bytes() -> Seq<u8> {
    seq![0xAAu8, 0x55u8, 0x01u8, 0x03u8, 0x03u8]
}

/// The 16-bit value whose low byte is `lo` and whose high byte is `hi`.
pub open spec fn le16(lo: u8, hi: u8) -> int {
    lo as int + 256 * (hi as int)
}

/// Slot `i` of an answer, in tenths of a degree: bytes `4 + 2i` and `5 + 2i`.
pub open spec fn slot_tenths(response: Seq<u8>, i: int) -> int {
    le16(response[4 + 2 * i], response[5 + 2 * i])
}

/// The entry that slot `i` gives: the `i`-th channel's id with the slot's
/// temperature as one-decimal text.
pub open spec fn slot_entry(channels: Seq<Channel>, response: Seq<u8>, i: int) -> (
    Seq<char>,
    ReadingValue,
) {
    (channels[i].channel_id@, ReadingValue::Text(one_decimal(slot_tenths(response, i) as nat)))
}

/// The number of entries that an answer gives: one per channel, four at most.
pub open spec fn slot_count(channels: Seq<Channel>) -> int {
    if channels.len() < SLOTS {
        channels.len() as int
    } else {
        SLOTS as int
    }
}

/// The entries that an answer gives: none unless it has exactly 13 bytes,
/// else one per slot that has a channel.
pub open spec fn decoded(channels: Seq<Channel>, response: Seq<u8>) -> Seq<
    (Seq<char>, ReadingValue),
> {
    if response.len() != RESPONSE_LEN {
        Seq::empty()
    } else {
        Seq::new(slot_count(channels) as nat, |i: int| slot_entry(channels, response, i))
    }
}

/// The query frame, ready to be written.
pub fn query_frame() -> (q: Vec<u8>)
    ensures
        q@ == query_bytes(),
{
    let mut q: Vec<u8> = Vec::new();
    q.push(0xAA);
    q.push(0x55);
    q.push(0x01);
    q.push(0x03);
    q.push(0x03);
    assert(q@ =~= query_bytes());
    q
}

/// Decodes an answer into the readings of the configured channels. An answer
/// of any length but 13 gives no reading.
pub fn decode_response(channels: &Vec<Channel>, response: &Vec<u8>) -> (m: ReadingMap)
    ensures
        m.pairs() == decoded(channels@, response@),
        response@.len() == RESPONSE_LEN ==> forall|i: int|
            0 <= i < SLOTS && i < channels@.len() ==> #[trigger] m.pairs()[i] == (
                channels@[i].channel_id@,
                ReadingValue::Text(
                    one_decimal(le16(response@[4 + 2 * i], response@[5 + 2 * i]) as nat),
                ),
            ),
{
    let mut m = ReadingMap::new();
    if response.len() != RESPONSE_LEN {
        return m;
    }
    let count: usize = if channels.len() < SLOTS {
        channels.len()
    } else {
        SLOTS
    };
    let mut i: usize = 0;
    while i < count
        invariant
            i <= count,
            count == slot_count(channels@),
            response@.len() == RESPONSE_LEN,
            m.pairs() == Seq::new(i as nat, |k: int| slot_entry(channels@, response@, k)),
        decreases count - i,
    {
        let lo: u8 = response[4 + 2 * i];
        let hi: u8 = response[5 + 2 * i];
        let tenths: u32 = lo as u32 + 256 * (hi as u32);
        m.insert(channels[i].channel_id.clone(), Reading::Text(render_one_decimal(tenths)));
        assert(m.pairs() =~= Seq::new(
            (i + 1) as nat,
            |k: int| slot_entry(channels@, response@, k),
        ));
        i += 1;
    }
    m
}

/// How a cycle opens: write the query, then read the 13-byte answer.
pub open spec fn opening() -> ActionView {
    ActionView::Exchange { request: query_bytes(), expect: RESPONSE_LEN as int }
}

/// How a cycle closes: with the readings of a 13-byte answer; as failed,
/// without readings, where the answer has another length or the read failed.
pub open spec fn closing(channels: Seq<Channel>, event: Event) -> ActionView {
    match event {
        Event::Bytes(bytes) => if bytes@.len() == RESPONSE_LEN {
            ActionView::EmitReadings(decoded(channels, bytes@))
        } else {
            ActionView::Fail(ReadError::Length)
        },
        _ => ActionView::Fail(ReadError::Transport),
    }
}

/// A TA612C thermometer on a serial line.
#[derive(Clone, Debug)]
pub struct Ta612cDevice {
    pub port: String,
    pub baud_rate: u16,
    pub line: LineSettings,
    pub channels: Vec<Channel>,
}

impl Ta612cDevice {
    /// Whether a configuration can drive a thermometer, and if not, why: it
    /// must select the thermometer, frame its line validly and list a channel.
    pub open spec fn verdict(config: Config) -> Result<(), ConfigError> {
        match config.kind_spec() {
            Err(e) => Err(e),
            Ok(kind) => if kind != DeviceKind::Ta612c {
                Err(ConfigError::MissingProtocol)
            } else {
                match config.serial->0.line_spec() {
                    Err(e) => Err(e),
                    Ok(_) => if config.serial->0.ta612c->0.channel@.len() == 0 {
                        Err(ConfigError::NoChannels)
                    } else {
                        Ok(())
                    },
                }
            },
        }
    }

    /// The device holds what `config` says of its line and channels.
    pub open spec fn built_from(&self, config: Config) -> bool {
        &&& config.serial is Some
        &&& config.serial->0.ta612c is Some
        &&& self.port == config.serial->0.port
        &&& self.baud_rate == config.serial->0.baud_rate
        &&& Ok::<LineSettings, ConfigError>(self.line) == config.serial->0.line_spec()
        &&& self.channels == config.serial->0.ta612c->0.channel
        &&& self.channels@.len() > 0
    }

    /// Builds the device that `config` describes, or says why it describes
    /// none.
    pub fn new(config: Config) -> (r: Result<Ta612cDevice, ConfigError>)
        ensures
            match r {
                Ok(device) => Self::verdict(config) is Ok && device.built_from(config),
                Err(e) => Self::verdict(config) == Err::<(), ConfigError>(e),
            },
    {
        match config.device_kind() {
            Err(e) => {
                return Err(e);
            },
            Ok(kind) => {
                if kind != DeviceKind::Ta612c {
                    return Err(ConfigError::MissingProtocol);
                }
            },
        }
        let Config { serial, .. } = config;
        let serial = serial.unwrap();
        let line = match serial.line_settings() {
            Err(e) => {
                return Err(e);
            },
            Ok(line) => line,
        };
        let channels = serial.ta612c.unwrap().channel;
        if channels.len() == 0 {
            return Err(ConfigError::NoChannels);
        }
        Ok(Ta612cDevice { port: serial.port, baud_rate: serial.baud_rate, line, channels })
    }

    /// Opens a cycle: write the query, then read the 13-byte answer.
    pub fn begin(&self) -> (a: Action)
        ensures
            a@ == opening(),
    {
        Action::Exchange { request: query_frame(), expect: RESPONSE_LEN }
    }

    /// Closes a cycle: the answer's readings, or a failure where the read
    /// failed or the answer does not have 13 bytes.
    pub fn advance(&self, event: &Event) -> (a: Action)
        ensures
            a@ == closing(self.channels@, *event),
    {
        match event {
            Event::Bytes(bytes) => if bytes.len() == RESPONSE_LEN {
                Action::Emit(Payload::Readings(decode_response(&self.channels, bytes)))
            } else {
                Action::Fail(ReadError::Length)
            },
            _ => Action::Fail(ReadError::Transport),
        }
    }
}

} // verus!
