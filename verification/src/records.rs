//! Structured log records. The engine and the reporting routines return these
//! as values; the surrounding program turns each into one logging call. The
//! variant fields are the contract: a read record always carries length, hex,
//! interface and endpoint; a timeout record always carries interface and
//! endpoint.

use vstd::prelude::*;
use crate::usb::Direction;
use crate::usb::Speed;
use crate::usb::TransferType;
use crate::usb::TransportError;

verus! {

/// Severity of a record, in the order of a conventional logging facade.
#[derive(Clone, Copy, Debug, PartialEq, Eq, Structural)]
pub enum Level {
    Error,
    Warn,
    Info,
    Debug,
}

/// One structured record, named fields included.
pub enum LogRecord {
    /// Identity and topology summary of one device.
    Device {
        bus: u8,
        address: u8,
        port: u8,
        speed: Speed,
        num_configs: u8,
        vid: u16,
        pid: u16,
    },
    /// One interface descriptor of the active configuration.
    Interface { iface: u8, class: u8, subclass: u8, protocol_code: u8, length: u8 },
    /// One endpoint descriptor of the active configuration.
    EndpointInfo {
        iface: u8,
        endpoint: u8,
        direction: Direction,
        transfer_type: TransferType,
        address: u8,
        interval: u8,
        length: u8,
        max_packet_size: u16,
    },
    /// The device's string descriptors.
    Strings { manufacturer: String, serial: String, product: String },
    /// A successful bulk read: payload length and lowercase hex rendering.
    Read { len: usize, hex: String, iface: u8, endpoint: u8 },
    /// A timed-out bulk read; the expected steady state of an idle device.
    Timeout { iface: u8, endpoint: u8 },
    /// An endpoint handed to the polling engine whose direction is not IN.
    NotIn { iface: u8, endpoint: u8 },
    /// A poll thread's terminal failure, with the transport error that ended it.
    Failed { iface: u8, endpoint: u8, error: TransportError },
}

impl LogRecord {
    /// The severity each record is emitted at.
    pub open spec fn spec_level(&self) -> Level {
        match self {
            LogRecord::Device { .. } => Level::Info,
            LogRecord::Interface { .. } => Level::Info,
            LogRecord::EndpointInfo { .. } => Level::Info,
            LogRecord::Strings { .. } => Level::Info,
            LogRecord::Read { .. } => Level::Info,
            LogRecord::Timeout { .. } => Level::Debug,
            LogRecord::NotIn { .. } => Level::Warn,
            LogRecord::Failed { .. } => Level::Error,
        }
    }

    /// Reads are informational, timeouts low-severity diagnostics, a
    /// direction mismatch a warning, and a terminal failure an error.
    pub fn level(&self) -> (r: Level)
        ensures
            r == self.spec_level(),
    {
        match self {
            LogRecord::Device { .. } => Level::Info,
            LogRecord::Interface { .. } => Level::Info,
            LogRecord::EndpointInfo { .. } => Level::Info,
            LogRecord::Strings { .. } => Level::Info,
            LogRecord::Read { .. } => Level::Info,
            LogRecord::Timeout { .. } => Level::Debug,
            LogRecord::NotIn { .. } => Level::Warn,
            LogRecord::Failed { .. } => Level::Error,
        }
    }
}

} // verus!
