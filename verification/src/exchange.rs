//! The conversation between a device and whoever owns its connection: the
//! device asks for bytes to be moved, and is told what came back.

use vstd::prelude::*;
use crate::config::LineSettings;
use crate::reading::{ReadingMap, ReadingValue};

verus! {

/// A parsed JSON document, carried through as it was received.
#[verifier::external_type_specification]
#[verifier::external_body]
pub struct ExJsonValue(serde_json::Value);

/// Why a cycle produced no readings.
#[derive(Clone, Copy, Debug, PartialEq, Eq, Structural)]
pub enum ReadError {
    /// The connection failed or answered out of turn.
    Transport,
    /// The answer does not have the length that the protocol fixes.
    Length,
    /// The endpoint answered with a status outside 200..=299.
    Status(u16),
    /// The endpoint's body is not a JSON document.
    Body,
    /// The cycle took longer than the cycle timeout.
    Timeout,
    /// An answer arrived though nothing had been asked.
    OutOfTurn,
}

/// Where a device is reached.
#[derive(Clone, Debug, PartialEq, Eq)]
pub enum Link {
    Serial { port: String, baud_rate: u16, line: LineSettings },
    Network { ip: String, port: u16 },
}

/// What came back from the connection.
#[derive(Clone, Debug)]
pub enum Event {
    /// The bytes that were read.
    Bytes(Vec<u8>),
    /// The answer to a GET request.
    Response { status: u16, body: String },
    /// The connection reported an error.
    Failed,
}

/// What a finished cycle delivers.
#[derive(Debug, PartialEq)]
pub enum Payload {
    Readings(ReadingMap),
    Json(serde_json::Value),
}

/// What a device asks of its connection, or how its cycle ended.
#[derive(Debug, PartialEq)]
pub enum Action {
    /// Write `request`, then read exactly `expect` bytes.
    Exchange { request: Vec<u8>, expect: usize },
    /// Read exactly `expect` more bytes.
    Receive { expect: usize },
    /// Issue one GET request to `url`.
    Fetch { url: String },
    /// The cycle is complete: deliver its payload.
    Emit(Payload),
    /// The cycle failed.
    Fail(ReadError),
}

/// What an `Action` denotes.
pub enum ActionView {
    Exchange { request: Seq<u8>, expect: int },
    Receive { expect: int },
    Fetch { url: Seq<char> },
    EmitReadings(Seq<(Seq<char>, ReadingValue)>),
    EmitJson(serde_json::Value),
    Fail(ReadError),
}

impl View for Action {
    type V = ActionView;

    open spec fn view(&self) -> ActionView {
        match *self {
            Action::Exchange { request, expect } => ActionView::Exchange {
                request: request@,
                expect: expect as int,
            },
            Action::Receive { expect } => ActionView::Receive { expect: expect as int },
            Action::Fetch { url } => ActionView::Fetch { url: url@ },
            Action::Emit(Payload::Readings(m)) => ActionView::EmitReadings(m.pairs()),
            Action::Emit(Payload::Json(v)) => ActionView::EmitJson(v),
            Action::Fail(e) => ActionView::Fail(e),
        }
    }
}

} // verus!
