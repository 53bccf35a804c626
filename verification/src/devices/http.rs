//! A polled HTTP endpoint that reports its readings as one JSON document.

use vstd::prelude::*;
use vstd::string::*;
use crate::config::{Channel, Config, ConfigError, DeviceKind};
use crate::exchange::{Action, ActionView, Event, Payload, ReadError};
use crate::text::{decimal, push_decimal};

verus! {

/// The error with which `serde_json` rejects a text.
#[verifier::external_type_specification]
#[verifier::external_body]
pub struct ExJsonError(serde_json::Error);

/// The document that `serde_json` reads out of `body`, or `None` where it
/// rejects the text.
pub uninterp spec fn parsed_json(body: Seq<char>) -> Option<serde_json::Value>;

/// The document read, where the text was accepted.
pub open spec fn document_of(parsed: Result<serde_json::Value, serde_json::Error>) -> Option<
    serde_json::Value,
> {
    match parsed {
        Ok(v) => Some(v),
        Err(_) => None,
    }
}

/// Calls `serde_json::from_str` for a `Value`. Trusted: the outcome is the
/// one named by `parsed_json`; nothing is claimed of what the document holds.
#[verifier::external_body]
fn from_str(body: &str) -> (r: Result<serde_json::Value, serde_json::Error>)
    ensures
        document_of(r) == parsed_json(body@),
{
    serde_json::from_str::<serde_json::Value>(body)
}

/// The address that is polled.
pub open spec fn url_of(ip: Seq<char>, port: u16) -> Seq<char> {
    "http://"@ + ip + ":"@ + decimal(port as nat)
}

/// How a cycle ends on an answer with the given status whose body was read as
/// `document`: a status outside 200..=299 fails it, whatever the body; so does
/// a body that is no JSON document; else the document is delivered as it is.
pub open spec fn outcome_of(status: u16, document: Option<serde_json::Value>) -> ActionView {
    if !(200 <= status <= 299) {
        ActionView::Fail(ReadError::Status(status))
    } else {
        match document {
            Some(v) => ActionView::EmitJson(v),
            None => ActionView::Fail(ReadError::Body),
        }
    }
}

/// How a cycle ends on what came back: an answer by its status and body,
/// anything else as a transport failure.
pub open spec fn concluded(event: Event) -> ActionView {
    match event {
        Event::Response { status, body } => outcome_of(status, parsed_json(body@)),
        _ => ActionView::Fail(ReadError::Transport),
    }
}

/// Builds the address `http://ip:port`.
pub fn make_url(ip: &str, port: u16) -> (url: String)
    ensures
        url@ == url_of(ip@, port),
{
    let mut url = String::new();
    url.append("http://");
    url.append(ip);
    url.append(":");
    push_decimal(&mut url, port as u32);
    assert(url@ =~= url_of(ip@, port));
    url
}

/// Decides how a cycle ends from an answer's status and its body as read.
pub fn conclude(status: u16, parsed: Result<serde_json::Value, serde_json::Error>) -> (a: Action)
    ensures
        a@ == outcome_of(status, document_of(parsed)),
{
    if status < 200 || status > 299 {
        return Action::Fail(ReadError::Status(status));
    }
    match parsed {
        Ok(v) => Action::Emit(Payload::Json(v)),
        Err(_) => Action::Fail(ReadError::Body),
    }
}

/// An HTTP endpoint on the network.
#[derive(Clone, Debug)]
pub struct HttpDevice {
    pub ip: String,
    pub port: u16,
    pub channels: Vec<Channel>,
}

impl HttpDevice {
    /// Whether a configuration can drive an endpoint, and if not, why: it
    /// must select the endpoint and list a channel.
    pub open spec fn verdict(config: Config) -> Result<(), ConfigError> {
        match config.kind_spec() {
            Err(e) => Err(e),
            Ok(kind) => if kind != DeviceKind::HttpPoll {
                Err(ConfigError::MissingProtocol)
            } else if config.tcp->0.http->0.channel@.len() == 0 {
                Err(ConfigError::NoChannels)
            } else {
                Ok(())
            },
        }
    }

    /// The device holds what `config` says of its peer and channels.
    pub open spec fn built_from(&self, config: Config) -> bool {
        &&& config.tcp is Some
        &&& config.tcp->0.http is Some
        &&& self.ip == config.tcp->0.ip
        &&& self.port == config.tcp->0.port
        &&& self.channels == config.tcp->0.http->0.channel
        &&& self.channels@.len() > 0
    }

    /// Builds the endpoint that `config` describes, or says why it describes
    /// none.
    pub fn new(config: Config) -> (r: Result<HttpDevice, ConfigError>)
        ensures
            match r {
                Ok(device) => Self::verdict(config) is Ok && device.built_from(config),
                Err(e) => Self::verdict(config) == Err::<(), ConfigError>(e),
            },
    {
        match config.device_kind() {
            Err(e) => {
                return Err(e);
            },
            Ok(kind) => {
                if kind != DeviceKind::HttpPoll {
                    return Err(ConfigError::MissingProtocol);
                }
            },
        }
        let Config { tcp, .. } = config;
        let tcp = tcp.unwrap();
        let channels = tcp.http.unwrap().channel;
        if channels.len() == 0 {
            return Err(ConfigError::NoChannels);
        }
        Ok(HttpDevice { ip: tcp.ip, port: tcp.port, channels })
    }

    /// Opens a cycle: one GET request to the endpoint.
    pub fn begin(&self) -> (a: Action)
        ensures
            a@ == (ActionView::Fetch { url: url_of(self.ip@, self.port) }),
    {
        Action::Fetch { url: make_url(self.ip.as_str(), self.port) }
    }

    /// Closes a cycle on what came back.
    pub fn advance(&self, event: &Event) -> (a: Action)
        ensures
            a@ == concluded(*event),
    {
        match event {
            Event::Response { status, body } => {
                if *status < 200 || *status > 299 {
                    return Action::Fail(ReadError::Status(*status));
                }
                conclude(*status, from_str(body.as_str()))
            },
            _ => Action::Fail(ReadError::Transport),
        }
    }
}

} // verus!
