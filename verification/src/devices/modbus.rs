//! Polling Modbus slaves for one holding register each, over a serial line
//! (RTU framing) or a network session (TCP framing).
//!
//! Frames are built and checked by `rmodbus`. The device decides what to ask
//! next: one slave after the other, in configured order, a failed slave being
//! left out of the cycle's readings.

use vstd::prelude::*;
use crate::config::{check_slaves, slaves_sound, Config, ConfigError, DeviceKind, Slave};
use crate::exchange::{Action, ActionView, Event, Link, Payload, ReadError};
use crate::reading::{decode_register, reading_of, ReadingMap, ReadingValue};

verus! {

/// How frames are laid out on the wire.
#[derive(Clone, Copy, Debug, PartialEq, Eq, Structural)]
pub enum Protocol {
    /// Serial framing: the frame ends with a CRC-16.
    Rtu,
    /// Network framing: the frame starts with a six-byte header, which gives
    /// the number of bytes that follow.
    Tcp,
}

/// Where a device stands within a cycle.
#[derive(Clone, Copy, Debug, PartialEq, Eq, Structural)]
pub enum Phase {
    /// Nothing has been asked of the connection.
    Idle,
    /// A request was written; the answer's first six bytes are awaited.
    Header,
    /// The answer's first six bytes are held; its remaining bytes are awaited.
    Rest,
}

/// Why a slave has no reading in a cycle.
#[derive(Clone, Copy, Debug, PartialEq, Eq, Structural)]
pub enum SlaveReadError {
    /// No request frame could be built for the slave.
    Request,
    /// The connection failed while the slave's answer was awaited.
    Transport,
    /// The bytes that came disagree in number with those asked for, or tell
    /// no usable length.
    Length,
    /// The answer was rejected, as for a bad checksum, an exception or
    /// another unit, or carries no register.
    Frame,
}

/// Number of bytes read before the length of an answer is known.
pub const HEADER_LEN: usize = 6;

/// Number of registers asked of each slave.
pub const REGISTER_COUNT: u16 = 1;

/// The request frame that `rmodbus` builds for reading `count` holding
/// registers from `register` of slave `unit`, or `None` where it builds none.
pub uninterp spec fn holdings_request(tcp: bool, unit: u8, register: u16, count: u16) -> Option<
    Seq<u8>,
>;

/// The register values that `rmodbus` reads out of `response`, taken as the
/// answer to the request above, or `None` where it rejects the frame.
pub uninterp spec fn holdings_values(
    tcp: bool,
    unit: u8,
    register: u16,
    count: u16,
    response: Seq<u8>,
) -> Option<Seq<u16>>;

/// The 16-bit value whose high byte is `hi` and whose low byte is `lo`.
pub open spec fn be16(hi: u8, lo: u8) -> int {
    256 * (hi as int) + lo as int
}

/// The total length of an answer, told from its first six bytes. On a serial
/// line the function code decides: a read carries its byte count, a write is
/// eight bytes, an exception five. On a network session the header's length
/// field decides. `None` where the bytes fit no frame of up to 255 bytes.
pub open spec fn guessed_len(header: Seq<u8>, tcp: bool) -> Option<u8> {
    if tcp {
        if header[2] == 0 && header[3] == 0 && be16(header[4], header[5]) + 6 <= 255 {
            Some((be16(header[4], header[5]) + 6) as u8)
        } else {
            None
        }
    } else {
        let function = header[1];
        if function >= 0x80 {
            Some(5u8)
        } else if 1 <= function <= 4 {
            if header[2] + 5 <= 255 {
                Some((header[2] + 5) as u8)
            } else {
                None
            }
        } else if function == 5 || function == 6 || function == 15 || function == 16 {
            Some(8u8)
        } else {
            None
        }
    }
}

/// Where the unit id stands in a frame: first on a serial line, after the
/// six-byte header on a network session.
pub open spec fn unit_offset(tcp: bool) -> int {
    if tcp {
        6
    } else {
        0
    }
}

/// The body of a request: the unit id, function code 3, then the register
/// address and the register count, each high byte first.
pub open spec fn request_body(unit: u8, register: u16, count: u16) -> Seq<u8> {
    seq![
        unit,
        3u8,
        (register / 256) as u8,
        (register % 256) as u8,
        (count / 256) as u8,
        (count % 256) as u8,
    ]
}

/// The layout of a request frame. On a network session it is the header
/// `00 01 00 00 00 06` (transaction 1, protocol 0, six bytes follow) and the
/// body; on a serial line it is the body and two checksum bytes.
pub open spec fn request_layout(tcp: bool, unit: u8, register: u16, count: u16, frame: Seq<u8>) -> bool {
    if tcp {
        frame == seq![0u8, 1u8, 0u8, 0u8, 0u8, 6u8] + request_body(unit, register, count)
    } else {
        frame.len() == 8 && frame.subrange(0, 6) == request_body(unit, register, count)
    }
}

/// What an accepted answer shows: it comes from the unit asked, answers
/// function code 3, yields no more values than were asked for, and its first
/// value is the two bytes behind the byte count, high byte first.
pub open spec fn answer_layout(tcp: bool, unit: u8, count: u16, response: Seq<u8>, values: Seq<u16>) -> bool {
    let at = unit_offset(tcp);
    &&& response[at] == unit
    &&& response[at + 1] == 3
    &&& values.len() <= count
    &&& values.len() > 0 ==> {
        &&& response.len() >= at + 5
        &&& values[0] == be16(response[at + 3], response[at + 4])
    }
}

/// The shortest answer that can carry a register.
pub open spec fn min_response_len(protocol: Protocol) -> int {
    match protocol {
        Protocol::Rtu => 6,
        Protocol::Tcp => 10,
    }
}

/// The bytes of a frame, where there is one.
pub open spec fn frame_view(frame: Option<Vec<u8>>) -> Option<Seq<u8>> {
    match frame {
        Some(f) => Some(f@),
        None => None,
    }
}

/// The values read, where there are any.
pub open spec fn values_view(values: Option<Vec<u16>>) -> Option<Seq<u16>> {
    match values {
        Some(v) => Some(v@),
        None => None,
    }
}

/// Calls `ModbusRequest::generate_get_holdings` of `rmodbus` on a fresh
/// request object. Trusted: the frame is the one named by
/// `holdings_request`, and it is laid out as `request_layout` says; the
/// checksum of a serial frame is left to `rmodbus`.
#[verifier::external_body]
fn generate_get_holdings(protocol: Protocol, unit: u8, register: u16, count: u16) -> (r: Option<
    Vec<u8>,
>)
    ensures
        frame_view(r) == holdings_request(protocol is Tcp, unit, register, count),
        r matches Some(frame) ==> request_layout(protocol is Tcp, unit, register, count, frame@),
{
    let proto = match protocol {
        Protocol::Rtu => rmodbus::ModbusProto::Rtu,
        Protocol::Tcp => rmodbus::ModbusProto::TcpUdp,
    };
    let mut request = rmodbus::client::ModbusRequest::new(unit, proto);
    let mut frame: Vec<u8> = Vec::new();
    match request.generate_get_holdings(register, count, &mut frame) {
        Ok(()) => Some(frame),
        Err(_) => None,
    }
}

/// Calls `guess_response_frame_len` of `rmodbus`. Trusted: the result is
/// `guessed_len`, which restates the function's arithmetic. The function
/// indexes the first six bytes and, on a network session, adds 6 to the
/// 16-bit length field without a check, so both are required.
#[verifier::external_body]
fn guess_response_frame_len(header: &Vec<u8>, protocol: Protocol) -> (r: Option<u8>)
    requires
        header@.len() >= HEADER_LEN,
        protocol is Tcp ==> be16(header@[4], header@[5]) + 6 <= 0xffff,
    ensures
        r == guessed_len(header@, protocol is Tcp),
{
    let proto = match protocol {
        Protocol::Rtu => rmodbus::ModbusProto::Rtu,
        Protocol::Tcp => rmodbus::ModbusProto::TcpUdp,
    };
    match rmodbus::guess_response_frame_len(header.as_slice(), proto) {
        Ok(n) => Some(n),
        Err(_) => None,
    }
}

/// Calls `ModbusRequest::parse_u16` of `rmodbus` on a request object that
/// holds the unit, register and count of a holding-register read. Trusted:
/// the values are those named by `holdings_values`, and an accepted answer
/// shows what `answer_layout` says; the checks that `rmodbus` makes beyond
/// those are left to it. The function subtracts from the payload's length
/// without a check, so the frame must be long enough to carry a payload.
#[verifier::external_body]
fn parse_u16(protocol: Protocol, unit: u8, register: u16, count: u16, response: &Vec<u8>) -> (r:
    Option<Vec<u16>>)
    requires
        response@.len() >= min_response_len(protocol),
    ensures
        values_view(r) == holdings_values(protocol is Tcp, unit, register, count, response@),
        r matches Some(values) ==> answer_layout(protocol is Tcp, unit, count, response@, values@),
{
    let proto = match protocol {
        Protocol::Rtu => rmodbus::ModbusProto::Rtu,
        Protocol::Tcp => rmodbus::ModbusProto::TcpUdp,
    };
    let mut request = rmodbus::client::ModbusRequest::new(unit, proto);
    request.func = rmodbus::consts::ModbusFunction::GetHoldings;
    request.reg = register;
    request.count = count;
    let mut values: Vec<u16> = Vec::new();
    match request.parse_u16(response.as_slice(), &mut values) {
        Ok(()) => Some(values),
        Err(_) => None,
    }
}

/// The unit id that a slave is addressed by: the low byte of its id.
pub open spec fn unit_of(slave: Slave) -> u8 {
    (slave.id % 256) as u8
}

/// The request frame for a slave: one holding register at its registry
/// address.
pub open spec fn request_of(protocol: Protocol, slave: Slave) -> Option<Seq<u8>> {
    holdings_request(protocol is Tcp, unit_of(slave), slave.registry, REGISTER_COUNT)
}

/// The first of the values read out of an answer, if there is one.
pub open spec fn first_value(values: Option<Seq<u16>>) -> Option<u16> {
    match values {
        Some(v) => if v.len() > 0 {
            Some(v[0])
        } else {
            None
        },
        None => None,
    }
}

/// The register that a complete answer carries for a slave; a frame error
/// where the answer is too short, is rejected, or carries no value.
pub open spec fn register_of(protocol: Protocol, slave: Slave, response: Seq<u8>) -> Result<
    u16,
    SlaveReadError,
> {
    if response.len() < min_response_len(protocol) {
        Err(SlaveReadError::Frame)
    } else {
        match first_value(
            holdings_values(
                protocol is Tcp,
                unit_of(slave),
                slave.registry,
                REGISTER_COUNT,
                response,
            ),
        ) {
            Some(raw) => Ok(raw),
            None => Err(SlaveReadError::Frame),
        }
    }
}

/// Picks the register out of the values read from an answer.
pub fn first_register(values: &Option<Vec<u16>>) -> (r: Option<u16>)
    ensures
        r == first_value(values_view(*values)),
{
    match values {
        Some(v) => if v.len() > 0 {
            Some(v[0])
        } else {
            None
        },
        None => None,
    }
}

/// The unit id of a slave.
pub fn unit_id(slave: &Slave) -> (u: u8)
    ensures
        u == unit_of(*slave),
{
    (slave.id % 256) as u8
}

/// Builds the request frame for a slave.
pub fn build_request(protocol: Protocol, slave: &Slave) -> (r: Option<Vec<u8>>)
    ensures
        frame_view(r) == request_of(protocol, *slave),
        r matches Some(frame) ==> request_layout(
            protocol is Tcp,
            unit_of(*slave),
            slave.registry,
            REGISTER_COUNT,
            frame@,
        ),
{
    generate_get_holdings(protocol, unit_id(slave), slave.registry, REGISTER_COUNT)
}

/// Tells the total length of an answer from its first bytes. Fewer than six
/// bytes tell nothing.
pub fn frame_length(header: &Vec<u8>, protocol: Protocol) -> (r: Option<u8>)
    ensures
        r == (if header@.len() < HEADER_LEN {
            None
        } else {
            guessed_len(header@, protocol is Tcp)
        }),
{
    if header.len() < HEADER_LEN {
        return None;
    }
    match protocol {
        Protocol::Tcp => {
            let field: u32 = 256 * (header[4] as u32) + header[5] as u32;
            if field + 6 > 255 {
                return None;
            }
        },
        Protocol::Rtu => {},
    }
    guess_response_frame_len(header, protocol)
}

/// Reads a slave's register out of a complete answer.
pub fn read_register(protocol: Protocol, slave: &Slave, response: &Vec<u8>) -> (r: Result<
    u16,
    SlaveReadError,
>)
    ensures
        r == register_of(protocol, *slave, response@),
        r matches Ok(raw) ==> {
            let at = unit_offset(protocol is Tcp);
            &&& response@.len() >= at + 5
            &&& response@[at] == unit_of(*slave)
            &&& response@[at + 1] == 3
            &&& raw == be16(response@[at + 3], response@[at + 4])
        },
{
    let enough: usize = match protocol {
        Protocol::Rtu => 6,
        Protocol::Tcp => 10,
    };
    if response.len() < enough {
        return Err(SlaveReadError::Frame);
    }
    let values = parse_u16(protocol, unit_id(slave), slave.registry, REGISTER_COUNT, response);
    match first_register(&values) {
        Some(raw) => Ok(raw),
        None => Err(SlaveReadError::Frame),
    }
}

/// The entries that the first `n` slaves give: one for each slave whose
/// outcome is a register value, in polling order.
pub open spec fn collected(
    slaves: Seq<Slave>,
    outcomes: Seq<Result<u16, SlaveReadError>>,
    n: int,
) -> Seq<
    (Seq<char>, ReadingValue),
>
    decreases n,
{
    if n <= 0 {
        Seq::empty()
    } else {
        let rest = collected(slaves, outcomes, n - 1);
        match outcomes[n - 1] {
            Ok(raw) => rest.push((slaves[n - 1].channel_id@, reading_of(raw, slaves[n - 1]))),
            Err(_) => rest,
        }
    }
}

/// The number of slaves that have an outcome.
pub open spec fn polled(slaves: Seq<Slave>, outcomes: Seq<Result<u16, SlaveReadError>>) -> int {
    if outcomes.len() < slaves.len() {
        outcomes.len() as int
    } else {
        slaves.len() as int
    }
}

/// Gathers the readings of a cycle from the outcome of each slave: a slave
/// without a register value is left out.
pub fn collect_readings(slaves: &Vec<Slave>, outcomes: &Vec<Result<u16, SlaveReadError>>) -> (m:
    ReadingMap)
    requires
        slaves_sound(slaves@),
    ensures
        m.pairs() == collected(slaves@, outcomes@, polled(slaves@, outcomes@)),
{
    let count: usize = if outcomes.len() < slaves.len() {
        outcomes.len()
    } else {
        slaves.len()
    };
    let mut m = ReadingMap::new();
    let mut i: usize = 0;
    while i < count
        invariant
            i <= count,
            count == polled(slaves@, outcomes@),
            slaves_sound(slaves@),
            m.pairs() == collected(slaves@, outcomes@, i as int),
        decreases count - i,
    {
        match outcomes[i] {
            Ok(raw) => {
                let slave = &slaves[i];
                m.insert(slave.channel_id.clone(), decode_register(raw, slave));
            },
            Err(_) => {},
        }
        i += 1;
    }
    m
}

/// A Modbus master that polls its slaves in turn.
#[derive(Clone, Debug)]
pub struct ModbusDevice {
    pub link: Link,
    pub protocol: Protocol,
    pub slaves: Vec<Slave>,
    pub phase: Phase,
    /// Index of the slave that is being polled.
    pub cursor: usize,
    /// The first six bytes of the current answer, while the rest is awaited.
    pub header: Vec<u8>,
    /// The outcome of each slave polled so far in this cycle.
    pub outcomes: Vec<Result<u16, SlaveReadError>>,
}

/// The part of a device that changes during a cycle.
pub struct PollState {
    pub phase: Phase,
    pub cursor: int,
    pub header: Seq<u8>,
    pub outcomes: Seq<Result<u16, SlaveReadError>>,
}

impl View for ModbusDevice {
    type V = PollState;

    open spec fn view(&self) -> PollState {
        PollState {
            phase: self.phase,
            cursor: self.cursor as int,
            header: self.header@,
            outcomes: self.outcomes@,
        }
    }
}

/// Turns to the slave at `cursor`: asks for its register, passes over it
/// where no request can be built, and ends the cycle with the readings
/// gathered once every slave has had its turn.
pub open spec fn poll_from(
    slaves: Seq<Slave>,
    protocol: Protocol,
    cursor: int,
    outcomes: Seq<Result<u16, SlaveReadError>>,
) -> (PollState, ActionView)
    decreases slaves.len() - cursor,
{
    if cursor < 0 || cursor >= slaves.len() {
        (
            PollState { phase: Phase::Idle, cursor, header: Seq::empty(), outcomes },
            ActionView::EmitReadings(collected(slaves, outcomes, polled(slaves, outcomes))),
        )
    } else {
        match request_of(protocol, slaves[cursor]) {
            Some(frame) => (
                PollState { phase: Phase::Header, cursor, header: Seq::empty(), outcomes },
                ActionView::Exchange { request: frame, expect: HEADER_LEN as int },
            ),
            None => poll_from(
                slaves,
                protocol,
                cursor + 1,
                outcomes.push(Err(SlaveReadError::Request)),
            ),
        }
    }
}

/// How a cycle opens, whatever an earlier cycle left behind: with the first
/// slave and no outcome.
pub open spec fn opened(slaves: Seq<Slave>, protocol: Protocol) -> (PollState, ActionView) {
    poll_from(slaves, protocol, 0, Seq::empty())
}

/// Records the outcome of the current slave and turns to the next.
pub open spec fn settled(
    slaves: Seq<Slave>,
    protocol: Protocol,
    state: PollState,
    outcome: Result<u16, SlaveReadError>,
) -> (PollState, ActionView) {
    poll_from(slaves, protocol, state.cursor + 1, state.outcomes.push(outcome))
}

/// What follows the first six bytes of an answer. Anything but six bytes
/// fails the slave, and so do six bytes that tell no length or a length below
/// six. A length of six makes them the whole answer; a greater one asks for
/// the remaining bytes.
pub open spec fn after_header(
    slaves: Seq<Slave>,
    protocol: Protocol,
    state: PollState,
    event: Event,
) -> (PollState, ActionView) {
    match event {
        Event::Bytes(bytes) => if bytes@.len() != HEADER_LEN {
            settled(slaves, protocol, state, Err(SlaveReadError::Length))
        } else {
            match guessed_len(bytes@, protocol is Tcp) {
                None => settled(slaves, protocol, state, Err(SlaveReadError::Length)),
                Some(total) => if total < HEADER_LEN {
                    settled(slaves, protocol, state, Err(SlaveReadError::Length))
                } else if total == HEADER_LEN {
                    settled(
                        slaves,
                        protocol,
                        state,
                        register_of(protocol, slaves[state.cursor], bytes@),
                    )
                } else {
                    (
                        PollState {
                            phase: Phase::Rest,
                            cursor: state.cursor,
                            header: bytes@,
                            outcomes: state.outcomes,
                        },
                        ActionView::Receive { expect: total - HEADER_LEN },
                    )
                },
            }
        },
        _ => settled(slaves, protocol, state, Err(SlaveReadError::Transport)),
    }
}

/// What follows the remaining bytes of an answer: the register that the
/// whole answer carries, provided that as many bytes came as its length
/// foretold.
pub open spec fn after_rest(
    slaves: Seq<Slave>,
    protocol: Protocol,
    state: PollState,
    event: Event,
) -> (PollState, ActionView) {
    match event {
        Event::Bytes(bytes) => match guessed_len(state.header, protocol is Tcp) {
            Some(total) => if total == state.header.len() + bytes@.len() {
                settled(
                    slaves,
                    protocol,
                    state,
                    register_of(protocol, slaves[state.cursor], state.header + bytes@),
                )
            } else {
                settled(slaves, protocol, state, Err(SlaveReadError::Length))
            },
            None => settled(slaves, protocol, state, Err(SlaveReadError::Length)),
        },
        _ => settled(slaves, protocol, state, Err(SlaveReadError::Transport)),
    }
}

/// The device's answer to an event, by the phase it is in.
pub open spec fn step(slaves: Seq<Slave>, protocol: Protocol, state: PollState, event: Event) -> (
    PollState,
    ActionView,
) {
    match state.phase {
        Phase::Idle => (state, ActionView::Fail(ReadError::OutOfTurn)),
        Phase::Header => after_header(slaves, protocol, state, event),
        Phase::Rest => after_rest(slaves, protocol, state, event),
    }
}

impl ModbusDevice {
    /// The device's invariant: sound slaves, one outcome for each slave
    /// before the cursor, a slave under the cursor while an answer is awaited,
    /// and a six-byte header that foretells more while the rest is awaited.
    pub open spec fn wf(&self) -> bool {
        &&& self.slaves@.len() > 0
        &&& slaves_sound(self.slaves@)
        &&& self.cursor <= self.slaves@.len()
        &&& self.outcomes@.len() == self.cursor
        &&& self.phase != Phase::Idle ==> self.cursor < self.slaves@.len()
        &&& self.phase == Phase::Rest ==> self.header@.len() == HEADER_LEN
    }

    /// Tells whether the device's invariant holds.
    pub fn is_well_formed(&self) -> (r: bool)
        ensures
            r == self.wf(),
    {
        let sound = match check_slaves(&self.slaves) {
            Ok(()) => true,
            Err(_) => false,
        };
        let placed = self.cursor <= self.slaves.len() && self.outcomes.len() == self.cursor;
        let asking = match self.phase {
            Phase::Idle => true,
            Phase::Header => self.cursor < self.slaves.len(),
            Phase::Rest => self.cursor < self.slaves.len() && self.header.len() == HEADER_LEN,
        };
        sound && placed && asking
    }

    /// Whether a configuration can drive a Modbus master, and if not, why:
    /// it must select Modbus, frame a serial line validly, and list slaves
    /// that are all sound.
    pub open spec fn verdict(config: Config) -> Result<(), ConfigError> {
        match config.kind_spec() {
            Err(e) => Err(e),
            Ok(DeviceKind::RtuModbus) => match config.serial->0.line_spec() {
                Err(e) => Err(e),
                Ok(_) => crate::config::slaves_verdict(config.serial->0.modbus->0.slave@),
            },
            Ok(DeviceKind::TcpModbus) => crate::config::slaves_verdict(
                config.tcp->0.modbus->0.slave@,
            ),
            Ok(_) => Err(ConfigError::MissingProtocol),
        }
    }

    /// The device holds what `config` says of its link and slaves, and stands
    /// before its first cycle.
    pub open spec fn built_from(&self, config: Config) -> bool {
        &&& self@ == PollState {
            phase: Phase::Idle,
            cursor: 0,
            header: Seq::empty(),
            outcomes: Seq::empty(),
        }
        &&& match config.kind_spec() {
            Ok(DeviceKind::RtuModbus) => {
                &&& self.protocol == Protocol::Rtu
                &&& self.slaves == config.serial->0.modbus->0.slave
                &&& self.link matches Link::Serial { port, baud_rate, line }
                &&& port == config.serial->0.port
                &&& baud_rate == config.serial->0.baud_rate
                &&& Ok::<crate::config::LineSettings, ConfigError>(line)
                    == config.serial->0.line_spec()
            },
            Ok(DeviceKind::TcpModbus) => {
                &&& self.protocol == Protocol::Tcp
                &&& self.slaves == config.tcp->0.modbus->0.slave
                &&& self.link matches Link::Network { ip, port }
                &&& ip == config.tcp->0.ip
                &&& port == config.tcp->0.port
            },
            _ => false,
        }
    }

    /// Builds the master that `config` describes, or says why it describes
    /// none.
    pub fn new(config: Config) -> (r: Result<ModbusDevice, ConfigError>)
        ensures
            match r {
                Ok(device) => Self::verdict(config) is Ok && device.built_from(config)
                    && device.wf(),
                Err(e) => Self::verdict(config) == Err::<(), ConfigError>(e),
            },
    {
        let kind = match config.device_kind() {
            Err(e) => {
                return Err(e);
            },
            Ok(kind) => kind,
        };
        let Config { serial, tcp, .. } = config;
        let (link, protocol, slaves) = match kind {
            DeviceKind::RtuModbus => {
                let serial = serial.unwrap();
                let line = match serial.line_settings() {
                    Err(e) => {
                        return Err(e);
                    },
                    Ok(line) => line,
                };
                (
                    Link::Serial { port: serial.port, baud_rate: serial.baud_rate, line },
                    Protocol::Rtu,
                    serial.modbus.unwrap().slave,
                )
            },
            DeviceKind::TcpModbus => {
                let tcp = tcp.unwrap();
                (
                    Link::Network { ip: tcp.ip, port: tcp.port },
                    Protocol::Tcp,
                    tcp.modbus.unwrap().slave,
                )
            },
            _ => {
                return Err(ConfigError::MissingProtocol);
            },
        };
        match check_slaves(&slaves) {
            Err(e) => {
                return Err(e);
            },
            Ok(()) => {},
        }
        Ok(
            ModbusDevice {
                link,
                protocol,
                slaves,
                phase: Phase::Idle,
                cursor: 0,
                header: Vec::new(),
                outcomes: Vec::new(),
            },
        )
    }

    /// Turns to the slave under the cursor and to those after it, until one
    /// can be asked or the cycle ends.
    fn poll(&mut self) -> (a: Action)
        requires
            old(self).slaves@.len() > 0,
            slaves_sound(old(self).slaves@),
            old(self).cursor <= old(self).slaves@.len(),
            old(self).outcomes@.len() == old(self).cursor,
        ensures
            final(self).wf(),
            final(self).slaves == old(self).slaves,
            final(self).protocol == old(self).protocol,
            final(self).link == old(self).link,
            (final(self)@, a@) == poll_from(
                old(self).slaves@,
                old(self).protocol,
                old(self).cursor as int,
                old(self).outcomes@,
            ),
    {
        self.header = Vec::new();
        loop
            invariant
                self.slaves == old(self).slaves,
                self.protocol == old(self).protocol,
                self.link == old(self).link,
                self.slaves@.len() > 0,
                slaves_sound(self.slaves@),
                self.cursor <= self.slaves@.len(),
                self.outcomes@.len() == self.cursor,
                self.header@ == Seq::<u8>::empty(),
                poll_from(self.slaves@, self.protocol, self.cursor as int, self.outcomes@)
                    == poll_from(
                    old(self).slaves@,
                    old(self).protocol,
                    old(self).cursor as int,
                    old(self).outcomes@,
                ),
            decreases self.slaves@.len() - self.cursor,
        {
            if self.cursor >= self.slaves.len() {
                self.phase = Phase::Idle;
                let readings = collect_readings(&self.slaves, &self.outcomes);
                return Action::Emit(Payload::Readings(readings));
            }
            match build_request(self.protocol, &self.slaves[self.cursor]) {
                Some(request) => {
                    self.phase = Phase::Header;
                    return Action::Exchange { request, expect: HEADER_LEN };
                },
                None => {
                    self.outcomes.push(Err(SlaveReadError::Request));
                    self.cursor = self.cursor + 1;
                },
            }
        }
    }

    /// Records the outcome of the slave under the cursor and turns to the
    /// next.
    fn settle(&mut self, outcome: Result<u16, SlaveReadError>) -> (a: Action)
        requires
            old(self).wf(),
            old(self).cursor < old(self).slaves@.len(),
        ensures
            final(self).wf(),
            final(self).slaves == old(self).slaves,
            final(self).protocol == old(self).protocol,
            final(self).link == old(self).link,
            (final(self)@, a@) == settled(
                old(self).slaves@,
                old(self).protocol,
                old(self)@,
                outcome,
            ),
    {
        assert(self.cursor < self.slaves.len());
        self.outcomes.push(outcome);
        self.cursor = self.cursor + 1;
        self.poll()
    }

    /// Opens a cycle: forgets whatever an earlier cycle left behind and turns
    /// to the first slave.
    pub fn begin(&mut self) -> (a: Action)
        requires
            old(self).wf(),
        ensures
            final(self).wf(),
            final(self).slaves == old(self).slaves,
            final(self).protocol == old(self).protocol,
            final(self).link == old(self).link,
            (final(self)@, a@) == opened(old(self).slaves@, old(self).protocol),
    {
        self.cursor = 0;
        self.outcomes = Vec::new();
        self.poll()
    }

    /// Takes what came back from the connection and says what to do next.
    pub fn advance(&mut self, event: &Event) -> (a: Action)
        requires
            old(self).wf(),
        ensures
            final(self).wf(),
            final(self).slaves == old(self).slaves,
            final(self).protocol == old(self).protocol,
            final(self).link == old(self).link,
            (final(self)@, a@) == step(old(self).slaves@, old(self).protocol, old(self)@, *event),
    {
        match self.phase {
            Phase::Idle => Action::Fail(ReadError::OutOfTurn),
            Phase::Header => {
                match event {
                    Event::Bytes(bytes) => {
                        if bytes.len() != HEADER_LEN {
                            return self.settle(Err(SlaveReadError::Length));
                        }
                        match frame_length(bytes, self.protocol) {
                            None => self.settle(Err(SlaveReadError::Length)),
                            Some(total) => {
                                if (total as usize) < HEADER_LEN {
                                    self.settle(Err(SlaveReadError::Length))
                                } else if total as usize == HEADER_LEN {
                                    let outcome = read_register(
                                        self.protocol,
                                        &self.slaves[self.cursor],
                                        bytes,
                                    );
                                    self.settle(outcome)
                                } else {
                                    self.phase = Phase::Rest;
                                    self.header = copy_bytes(bytes);
                                    Action::Receive { expect: total as usize - HEADER_LEN }
                                }
                            },
                        }
                    },
                    _ => self.settle(Err(SlaveReadError::Transport)),
                }
            },
            Phase::Rest => {
                match event {
                    Event::Bytes(bytes) => {
                        let foretold = frame_length(&self.header, self.protocol);
                        let matches = match foretold {
                            Some(total) => bytes.len() <= 255 && total as usize
                                == self.header.len() + bytes.len(),
                            None => false,
                        };
                        if !matches {
                            return self.settle(Err(SlaveReadError::Length));
                        }
                        let mut response = copy_bytes(&self.header);
                        let mut rest = copy_bytes(bytes);
                        response.append(&mut rest);
                        let outcome = read_register(
                            self.protocol,
                            &self.slaves[self.cursor],
                            &response,
                        );
                        self.settle(outcome)
                    },
                    _ => self.settle(Err(SlaveReadError::Transport)),
                }
            },
        }
    }
}

/// A copy of `bytes`.
pub fn copy_bytes(bytes: &Vec<u8>) -> (r: Vec<u8>)
    ensures
        r@ == bytes@,
{
    let mut r: Vec<u8> = Vec::new();
    let mut i: usize = 0;
    while i < bytes.len()
        invariant
            i <= bytes.len(),
            r@ == bytes@.subrange(0, i as int),
        decreases bytes.len() - i,
    {
        r.push(bytes[i]);
        assert(r@ =~= bytes@.subrange(0, i + 1));
        i += 1;
    }
    assert(r@ =~= bytes@);
    r
}

/// Settling the last slave ends the cycle: the device falls idle and emits
/// the readings that the outcomes of all slaves give.
pub proof fn lemma_last_slave_ends_cycle(
    slaves: Seq<Slave>,
    protocol: Protocol,
    state: PollState,
    outcome: Result<u16, SlaveReadError>,
)
    requires
        slaves.len() > 0,
        state.cursor == slaves.len() - 1,
        state.outcomes.len() == state.cursor,
    ensures
        settled(slaves, protocol, state, outcome) == (
            PollState {
                phase: Phase::Idle,
                cursor: slaves.len() as int,
                header: Seq::empty(),
                outcomes: state.outcomes.push(outcome),
            },
            ActionView::EmitReadings(
                collected(slaves, state.outcomes.push(outcome), slaves.len() as int),
            ),
        ),
{
}

/// The entry that slave `i` gives when its outcome is a register value.
pub open spec fn entry_of(
    slaves: Seq<Slave>,
    outcomes: Seq<Result<u16, SlaveReadError>>,
    i: int,
) -> (
    Seq<char>,
    ReadingValue,
) {
    (slaves[i].channel_id@, reading_of(outcomes[i].unwrap(), slaves[i]))
}

/// The channel ids of `slaves` are pairwise different.
pub open spec fn distinct_channels(slaves: Seq<Slave>) -> bool {
    forall|i: int, j: int|
        0 <= i < j < slaves.len() ==> slaves[i].channel_id@ != slaves[j].channel_id@
}

/// Exactly the slave at `failed` has no register value.
pub open spec fn only_failure(outcomes: Seq<Result<u16, SlaveReadError>>, failed: int) -> bool {
    &&& 0 <= failed < outcomes.len()
    &&& forall|i: int| 0 <= i < outcomes.len() ==> (outcomes[i] is Err <==> i == failed)
}

proof fn lemma_collected_skips(
    slaves: Seq<Slave>,
    outcomes: Seq<Result<u16, SlaveReadError>>,
    failed: int,
    n: int,
)
    requires
        outcomes.len() == slaves.len(),
        only_failure(outcomes, failed),
        0 <= n <= slaves.len(),
    ensures
        collected(slaves, outcomes, n).len() == (if n > failed {
            n - 1
        } else {
            n
        }),
        forall|j: int|
            0 <= j < collected(slaves, outcomes, n).len() ==> #[trigger] collected(
                slaves,
                outcomes,
                n,
            )[j] == entry_of(
                slaves,
                outcomes,
                if j < failed {
                    j
                } else {
                    j + 1
                },
            ),
    decreases n,
{
    if n > 0 {
        lemma_collected_skips(slaves, outcomes, failed, n - 1);
    }
}

/// Where exactly one of the configured slaves fails and no two slaves share a
/// channel id, the cycle's mapping has one entry less than there are slaves:
/// it lacks the failed slave's channel id and holds, for every other slave,
/// that slave's reading under its channel id.
pub proof fn lemma_single_failure(
    slaves: Seq<Slave>,
    outcomes: Seq<Result<u16, SlaveReadError>>,
    failed: int,
)
    requires
        outcomes.len() == slaves.len(),
        only_failure(outcomes, failed),
        distinct_channels(slaves),
    ensures
        ({
            let pairs = collected(slaves, outcomes, polled(slaves, outcomes));
            let mapping = crate::reading::mapping_of(pairs);
            &&& pairs.len() == slaves.len() - 1
            &&& mapping.dom().finite()
            &&& mapping.dom().len() == slaves.len() - 1
            &&& !mapping.dom().contains(slaves[failed].channel_id@)
            &&& forall|i: int|
                0 <= i < slaves.len() && i != failed ==> mapping.dom().contains(
                    #[trigger] slaves[i].channel_id@,
                ) && mapping[slaves[i].channel_id@] == reading_of(outcomes[i].unwrap(), slaves[i])
        }),
{
    let n = slaves.len() as int;
    let pairs = collected(slaves, outcomes, n);
    let mapping = crate::reading::mapping_of(pairs);
    let source = |j: int|
        if j < failed {
            j
        } else {
            j + 1
        };
    lemma_collected_skips(slaves, outcomes, failed, n);
    assert forall|i: int, j: int| 0 <= i < j < pairs.len() implies pairs[i].0 != pairs[j].0 by {
        assert(pairs[i] == entry_of(slaves, outcomes, source(i)));
        assert(pairs[j] == entry_of(slaves, outcomes, source(j)));
        assert(source(i) < source(j));
    }
    crate::reading::lemma_mapping_distinct(pairs);
    crate::reading::lemma_mapping_keys(pairs);
    if mapping.dom().contains(slaves[failed].channel_id@) {
        let j = choose|j: int|
            0 <= j < pairs.len() && (#[trigger] pairs[j]).0 == slaves[failed].channel_id@;
        assert(pairs[j] == entry_of(slaves, outcomes, source(j)));
        assert(source(j) != failed);
        if source(j) < failed {
            assert(slaves[source(j)].channel_id@ != slaves[failed].channel_id@);
        } else {
            assert(slaves[failed].channel_id@ != slaves[source(j)].channel_id@);
        }
    }
    assert forall|i: int| 0 <= i < slaves.len() && i != failed implies mapping.dom().contains(
        #[trigger] slaves[i].channel_id@,
    ) && mapping[slaves[i].channel_id@] == reading_of(outcomes[i].unwrap(), slaves[i]) by {
        let j = if i < failed {
            i
        } else {
            i - 1
        };
        assert(pairs[j] == entry_of(slaves, outcomes, source(j)));
        assert(source(j) == i);
        assert(mapping.dom().contains(pairs[j].0));
    }
}

} // verus!
