//! The closed set of devices behind one interface: open a cycle, then feed it
//! what the connection returns until it ends.

use vstd::prelude::*;

pub mod http;
pub mod modbus;
pub mod ta612c;

use crate::config::{check_slaves, Config, ConfigError, DeviceKind};
use crate::exchange::{Action, ActionView, Event};
use crate::devices::http::HttpDevice;
use crate::devices::modbus::{ModbusDevice, Protocol};
use crate::devices::ta612c::Ta612cDevice;

verus! {

/// A device of one of the supported kinds.
#[derive(Clone, Debug)]
pub enum Device {
    RtuModbus(ModbusDevice),
    TcpModbus(ModbusDevice),
    Ta612c(Ta612cDevice),
    HttpPoll(HttpDevice),
}

/// A Modbus master kept what it was built with, and stands where `step` or
/// `opened` put it.
pub open spec fn modbus_moved(
    before: ModbusDevice,
    after: ModbusDevice,
    action: ActionView,
    expected: (crate::devices::modbus::PollState, ActionView),
) -> bool {
    &&& after.wf()
    &&& after.slaves == before.slaves
    &&& after.protocol == before.protocol
    &&& after.link == before.link
    &&& (after@, action) == expected
}

impl Device {
    /// A Modbus master is well formed and frames as its kind says.
    pub open spec fn wf(&self) -> bool {
        match *self {
            Device::RtuModbus(m) => m.wf() && m.protocol == Protocol::Rtu,
            Device::TcpModbus(m) => m.wf() && m.protocol == Protocol::Tcp,
            _ => true,
        }
    }

    /// Whether a configuration can drive a device, and if not, why: the
    /// verdict of the kind that it selects.
    pub open spec fn verdict(config: Config) -> Result<(), ConfigError> {
        match config.kind_spec() {
            Err(e) => Err(e),
            Ok(DeviceKind::RtuModbus) => ModbusDevice::verdict(config),
            Ok(DeviceKind::TcpModbus) => ModbusDevice::verdict(config),
            Ok(DeviceKind::Ta612c) => Ta612cDevice::verdict(config),
            Ok(DeviceKind::HttpPoll) => HttpDevice::verdict(config),
        }
    }

    /// The kind of the device.
    pub open spec fn kind_spec(&self) -> DeviceKind {
        match *self {
            Device::RtuModbus(_) => DeviceKind::RtuModbus,
            Device::TcpModbus(_) => DeviceKind::TcpModbus,
            Device::Ta612c(_) => DeviceKind::Ta612c,
            Device::HttpPoll(_) => DeviceKind::HttpPoll,
        }
    }

    /// The device is of the kind that `config` selects and holds what
    /// `config` says of it.
    pub open spec fn built_from(&self, config: Config) -> bool {
        &&& config.kind_spec() == Ok::<DeviceKind, ConfigError>(self.kind_spec())
        &&& match *self {
            Device::RtuModbus(m) => m.built_from(config),
            Device::TcpModbus(m) => m.built_from(config),
            Device::Ta612c(t) => t.built_from(config),
            Device::HttpPoll(h) => h.built_from(config),
        }
    }

    /// Tells whether the device's invariant holds.
    pub fn is_well_formed(&self) -> (r: bool)
        ensures
            r == self.wf(),
    {
        match self {
            Device::RtuModbus(m) => m.is_well_formed() && m.protocol == Protocol::Rtu,
            Device::TcpModbus(m) => m.is_well_formed() && m.protocol == Protocol::Tcp,
            _ => true,
        }
    }

    /// Says which device `config` selects, or why it drives none, without
    /// building anything.
    pub fn validate(config: &Config) -> (r: Result<DeviceKind, ConfigError>)
        ensures
            match r {
                Ok(kind) => Self::verdict(*config) is Ok && config.kind_spec() == Ok::<
                    DeviceKind,
                    ConfigError,
                >(kind),
                Err(e) => Self::verdict(*config) == Err::<(), ConfigError>(e),
            },
    {
        let kind = match config.device_kind() {
            Err(e) => {
                return Err(e);
            },
            Ok(kind) => kind,
        };
        match (&config.serial, &config.tcp) {
            (Some(serial), _) => {
                match serial.line_settings() {
                    Err(e) => {
                        return Err(e);
                    },
                    Ok(_) => {},
                }
                match (&serial.modbus, &serial.ta612c) {
                    (Some(modbus), _) => match check_slaves(&modbus.slave) {
                        Err(e) => Err(e),
                        Ok(()) => Ok(kind),
                    },
                    (_, Some(ta612c)) => if ta612c.channel.len() == 0 {
                        Err(ConfigError::NoChannels)
                    } else {
                        Ok(kind)
                    },
                    _ => Ok(kind),
                }
            },
            (_, Some(tcp)) => match (&tcp.modbus, &tcp.http) {
                (Some(modbus), _) => match check_slaves(&modbus.slave) {
                    Err(e) => Err(e),
                    Ok(()) => Ok(kind),
                },
                (_, Some(http)) => if http.channel.len() == 0 {
                    Err(ConfigError::NoChannels)
                } else {
                    Ok(kind)
                },
                _ => Ok(kind),
            },
            _ => Ok(kind),
        }
    }

    /// Builds the device that `config` selects, or says why it selects none.
    pub fn from_config(config: Config) -> (r: Result<Device, ConfigError>)
        ensures
            match r {
                Ok(device) => Self::verdict(config) is Ok && device.built_from(config)
                    && device.wf(),
                Err(e) => Self::verdict(config) == Err::<(), ConfigError>(e),
            },
    {
        match config.device_kind() {
            Err(e) => Err(e),
            Ok(DeviceKind::RtuModbus) => match ModbusDevice::new(config) {
                Ok(m) => Ok(Device::RtuModbus(m)),
                Err(e) => Err(e),
            },
            Ok(DeviceKind::TcpModbus) => match ModbusDevice::new(config) {
                Ok(m) => Ok(Device::TcpModbus(m)),
                Err(e) => Err(e),
            },
            Ok(DeviceKind::Ta612c) => match Ta612cDevice::new(config) {
                Ok(t) => Ok(Device::Ta612c(t)),
                Err(e) => Err(e),
            },
            Ok(DeviceKind::HttpPoll) => match HttpDevice::new(config) {
                Ok(h) => Ok(Device::HttpPoll(h)),
                Err(e) => Err(e),
            },
        }
    }

    /// The kind of the device.
    pub fn kind(&self) -> (k: DeviceKind)
        ensures
            k == self.kind_spec(),
    {
        match self {
            Device::RtuModbus(_) => DeviceKind::RtuModbus,
            Device::TcpModbus(_) => DeviceKind::TcpModbus,
            Device::Ta612c(_) => DeviceKind::Ta612c,
            Device::HttpPoll(_) => DeviceKind::HttpPoll,
        }
    }

    /// Opens a cycle, as the device's kind does.
    pub fn begin(&mut self) -> (a: Action)
        requires
            old(self).wf(),
        ensures
            final(self).wf(),
            match (*old(self), *final(self)) {
                (Device::RtuModbus(before), Device::RtuModbus(after)) => modbus_moved(
                    before,
                    after,
                    a@,
                    crate::devices::modbus::opened(before.slaves@, before.protocol),
                ),
                (Device::TcpModbus(before), Device::TcpModbus(after)) => modbus_moved(
                    before,
                    after,
                    a@,
                    crate::devices::modbus::opened(before.slaves@, before.protocol),
                ),
                (Device::Ta612c(before), Device::Ta612c(after)) => after == before && a@
                    == crate::devices::ta612c::opening(),
                (Device::HttpPoll(before), Device::HttpPoll(after)) => after == before && a@ == (
                    ActionView::Fetch { url: crate::devices::http::url_of(before.ip@, before.port) }),
                _ => false,
            },
    {
        match self {
            Device::RtuModbus(m) => m.begin(),
            Device::TcpModbus(m) => m.begin(),
            Device::Ta612c(t) => t.begin(),
            Device::HttpPoll(h) => h.begin(),
        }
    }

    /// Takes what came back from the connection, as the device's kind does.
    pub fn advance(&mut self, event: &Event) -> (a: Action)
        requires
            old(self).wf(),
        ensures
            final(self).wf(),
            match (*old(self), *final(self)) {
                (Device::RtuModbus(before), Device::RtuModbus(after)) => modbus_moved(
                    before,
                    after,
                    a@,
                    crate::devices::modbus::step(before.slaves@, before.protocol, before@, *event),
                ),
                (Device::TcpModbus(before), Device::TcpModbus(after)) => modbus_moved(
                    before,
                    after,
                    a@,
                    crate::devices::modbus::step(before.slaves@, before.protocol, before@, *event),
                ),
                (Device::Ta612c(before), Device::Ta612c(after)) => after == before && a@
                    == crate::devices::ta612c::closing(before.channels@, *event),
                (Device::HttpPoll(before), Device::HttpPoll(after)) => after == before && a@
                    == crate::devices::http::concluded(*event),
                _ => false,
            },
    {
        match self {
            Device::RtuModbus(m) => m.advance(event),
            Device::TcpModbus(m) => m.advance(event),
            Device::Ta612c(t) => t.advance(event),
            Device::HttpPoll(h) => h.advance(event),
        }
    }
}

} // verus!
