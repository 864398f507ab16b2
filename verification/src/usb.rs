//! Basic USB value types: transfer direction, transfer type, transport
//! errors, and the flattened endpoint descriptor record.

use vstd::prelude::*;

verus! {

/// Vendor ID of the device this daemon attaches to.
pub const ARTO_RTOS_VID: u16 = 0x1d6b;

/// Product ID of the device this daemon attaches to.
pub const ARTO_RTOS_PID: u16 = 0x8030;

/// Size of the buffer handed to each bulk read.
pub const BUFFER_SIZE: usize = 1024;

/// Bound, in milliseconds, on each blocking bulk read; reaching it is the
/// retried timeout outcome, not a failure.
pub const READ_TIMEOUT_MS: u64 = 100;

/// Transfer direction of an endpoint, from the direction bit of its address.
#[derive(Clone, Copy, Debug, PartialEq, Eq, Structural)]
pub enum Direction {
    In,
    Out,
}

/// Transfer type of an endpoint.
#[derive(Clone, Copy, Debug, PartialEq, Eq, Structural)]
pub enum TransferType {
    Control,
    Isochronous,
    Bulk,
    Interrupt,
}

/// Negotiated speed of a device, as the host-access layer reports it.
#[derive(Clone, Copy, Debug, PartialEq, Eq, Structural)]
pub enum Speed {
    Unknown,
    Low,
    Full,
    High,
    Super,
    SuperPlus,
}

/// Outcome classes of the USB host-access layer, mirrored as plain values so
/// that the engine's decisions over them can be verified.
#[derive(Clone, Copy, Debug, PartialEq, Eq, Structural)]
pub enum TransportError {
    Io,
    InvalidParam,
    Access,
    NoDevice,
    NotFound,
    Busy,
    Timeout,
    Overflow,
    Pipe,
    Interrupted,
    NoMem,
    NotSupported,
    BadDescriptor,
    Other,
}

/// One endpoint, flattened with the coordinates of the configuration,
/// interface and alternate setting it belongs to. Immutable after discovery.
#[derive(Clone, Copy, Debug, PartialEq, Eq, Structural)]
pub struct Endpoint {
    /// config number
    pub config: u8,
    /// interface number
    pub iface: u8,
    /// alternative setting number
    pub setting: u8,
    /// endpoint number
    pub number: u8,
    /// endpoint address
    pub address: u8,
    /// endpoint direction
    pub direction: Direction,
    /// endpoint max packet size
    pub max_packet_size: u16,
    /// endpoint transfer type
    pub transfer_type: TransferType,
}

impl Endpoint {
    /// True exactly when this endpoint's direction is IN.
    pub fn is_in(&self) -> (r: bool)
        ensures
            r == (self.direction == Direction::In),
    {
        match self.direction {
            Direction::In => true,
            Direction::Out => false,
        }
    }
}

/// Folds the platform's reply to a request for automatic kernel-driver
/// detachment into its designed meaning: detachment is an optimization, not a
/// precondition, so a platform that reports the operation unsupported yields
/// "not detached" rather than an error; any other failure is a real error.
pub fn classify_detach(res: &Result<(), TransportError>) -> (r: Result<bool, TransportError>)
    ensures
        res is Ok ==> r == Ok::<bool, TransportError>(true),
        *res == Err::<(), TransportError>(TransportError::NotSupported) ==> r == Ok::<
            bool,
            TransportError,
        >(false),
        *res matches Err(e) ==> (e != TransportError::NotSupported ==> r == Err::<
            bool,
            TransportError,
        >(e)),
{
    match res {
        Ok(_) => Ok(true),
        Err(e) => {
            if *e == TransportError::NotSupported {
                Ok(false)
            } else {
                Err(*e)
            }
        },
    }
}

/// Exact-match filter on both identity fields: a device is attached to if and
/// only if its vendor ID and product ID both equal the configured constants.
pub fn device_matches(vid: u16, pid: u16) -> (r: bool)
    ensures
        r == (vid == ARTO_RTOS_VID && pid == ARTO_RTOS_PID),
{
    vid == ARTO_RTOS_VID && pid == ARTO_RTOS_PID
}

} // verus!
