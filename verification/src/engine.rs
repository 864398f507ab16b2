//! The per-endpoint polling state machine. One poll thread's life is
//! Configuring -> Polling -> Terminated, with no way back: a non-IN endpoint
//! fails before any read, a configuration failure is fatal, a timed-out read
//! is retried forever, and any other transport error ends the thread.
//!
//! The step functions decide; the surrounding program performs the blocking
//! reads and hands each outcome back as a plain value. `poll_run` drives the
//! same steps over a finite script of outcomes, so the whole policy is stated
//! and proved in one place.

use vstd::prelude::*;
use crate::hex::hex_lower;
use crate::hex::spec_hex;
use crate::records::LogRecord;
use crate::usb::Direction;
use crate::usb::Endpoint;
use crate::usb::TransportError;

verus! {

/// Lifecycle state of one poll thread.
#[derive(Clone, Copy, Debug, PartialEq, Eq, Structural)]
pub enum PollState {
    /// Direction validated, interface not yet claimed.
    Configuring,
    /// Claimed and configured; reads are being issued.
    Polling,
    /// Stopped by an external cancellation request.
    TerminatedOk,
    /// Stopped by an unrecoverable error.
    TerminatedErr(PollError),
}

/// Why a poll thread terminated.
#[derive(Clone, Copy, Debug, PartialEq, Eq, Structural)]
pub enum PollError {
    /// The endpoint's direction is not IN: a static misconfiguration.
    DirectionMismatch,
    /// Claiming the interface or selecting its alternate setting failed.
    ConfigFailed(TransportError),
    /// A read failed with something other than a timeout.
    Transport(TransportError),
}

/// A read outcome that ends the poll loop: any error except a timeout.
pub open spec fn is_fatal_outcome(o: Result<Vec<u8>, TransportError>) -> bool {
    o matches Err(e) && e != TransportError::Timeout
}

/// The one record a read outcome produces: a read record with the payload's
/// length and lowercase hex for a success, a timeout diagnostic for a
/// timeout, and a failure record carrying the error otherwise.
pub open spec fn read_record_for(
    rec: LogRecord,
    o: Result<Vec<u8>, TransportError>,
    ep: Endpoint,
) -> bool {
    match o {
        Ok(buf) => rec matches LogRecord::Read { len, hex, iface, endpoint }
            && len == buf@.len() && hex@ == spec_hex(buf@) && iface == ep.iface && endpoint
            == ep.number,
        Err(e) => if e == TransportError::Timeout {
            rec == (LogRecord::Timeout { iface: ep.iface, endpoint: ep.number })
        } else {
            rec == (LogRecord::Failed { iface: ep.iface, endpoint: ep.number, error: e })
        },
    }
}

/// Entry into the state machine: validates the endpoint's direction. A non-IN
/// endpoint fails immediately, with no retry and before any read; an IN
/// endpoint proceeds to configuration.
pub fn begin_poll(ep: &Endpoint) -> (r: (PollState, Option<LogRecord>))
    ensures
        ep.direction == Direction::In ==> r == (PollState::Configuring, None::<LogRecord>),
        ep.direction != Direction::In ==> r == (
            PollState::TerminatedErr(PollError::DirectionMismatch),
            Some(LogRecord::NotIn { iface: ep.iface, endpoint: ep.number }),
        ),
{
    if ep.is_in() {
        (PollState::Configuring, None)
    } else {
        (
            PollState::TerminatedErr(PollError::DirectionMismatch),
            Some(LogRecord::NotIn { iface: ep.iface, endpoint: ep.number }),
        )
    }
}

/// Leaves Configuring: a successful claim-and-select moves to Polling; a
/// failure is fatal for this thread, propagated and never retried.
pub fn step_configure(res: &Result<(), TransportError>) -> (st: PollState)
    ensures
        res is Ok ==> st == PollState::Polling,
        *res matches Err(e) ==> st == PollState::TerminatedErr(PollError::ConfigFailed(e)),
{
    match res {
        Ok(_) => PollState::Polling,
        Err(e) => PollState::TerminatedErr(PollError::ConfigFailed(*e)),
    }
}

/// One Polling iteration, after the read's outcome is known. A cancellation
/// request ends the thread cleanly before the outcome is looked at. A
/// success or a timeout stays in Polling and yields its record; any other
/// error yields a failure record and terminates.
pub fn step_read(ep: &Endpoint, cancelled: bool, outcome: &Result<Vec<u8>, TransportError>) -> (r:
    (PollState, Option<LogRecord>))
    ensures
        cancelled ==> r == (PollState::TerminatedOk, None::<LogRecord>),
        !cancelled ==> (r.1 matches Some(rec) && read_record_for(rec, *outcome, *ep)),
        !cancelled && !is_fatal_outcome(*outcome) ==> r.0 == PollState::Polling,
        !cancelled && is_fatal_outcome(*outcome) ==> (*outcome matches Err(e) ==> r.0
            == PollState::TerminatedErr(PollError::Transport(e))),
{
    if cancelled {
        return (PollState::TerminatedOk, None);
    }
    match outcome {
        Ok(buf) => {
            let hex = hex_lower(buf.as_slice());
            (
                PollState::Polling,
                Some(
                    LogRecord::Read {
                        len: buf.len(),
                        hex,
                        iface: ep.iface,
                        endpoint: ep.number,
                    },
                ),
            )
        },
        Err(e) => {
            if *e == TransportError::Timeout {
                (
                    PollState::Polling,
                    Some(LogRecord::Timeout { iface: ep.iface, endpoint: ep.number }),
                )
            } else {
                (
                    PollState::TerminatedErr(PollError::Transport(*e)),
                    Some(LogRecord::Failed { iface: ep.iface, endpoint: ep.number, error: *e }),
                )
            }
        },
    }
}

/// What one whole poll-thread run produced over a finite script of read
/// outcomes: the records it emitted, how many reads it issued, and where the
/// state machine ended.
pub struct PollRun {
    pub records: Vec<LogRecord>,
    pub reads_issued: usize,
    pub state: PollState,
}

/// Drives the state machine over a finite script of read outcomes: direction
/// check, one configuration step, then one read per script entry until the
/// script ends or a fatal outcome terminates the thread.
///
/// The contract pins the whole policy down: a non-IN endpoint issues zero
/// reads and fails with a direction mismatch; a configuration failure issues
/// zero reads; otherwise one record per issued read, reads continue past
/// every timeout, the first fatal outcome is the last read, and a script of
/// timeouts alone leaves the machine still in Polling with nothing but
/// timeout diagnostics emitted.
pub fn poll_run(
    ep: &Endpoint,
    config_res: &Result<(), TransportError>,
    outcomes: &Vec<Result<Vec<u8>, TransportError>>,
) -> (r: PollRun)
    ensures
        ep.direction != Direction::In ==> r.state == PollState::TerminatedErr(
            PollError::DirectionMismatch,
        ) && r.reads_issued == 0 && r.records@ == seq![
            LogRecord::NotIn { iface: ep.iface, endpoint: ep.number },
        ],
        ep.direction == Direction::In ==> (*config_res matches Err(e) ==> r.state
            == PollState::TerminatedErr(PollError::ConfigFailed(e)) && r.reads_issued == 0
            && r.records@.len() == 0),
        ep.direction == Direction::In && config_res is Ok ==> {
            &&& r.records@.len() == r.reads_issued
            &&& r.reads_issued <= outcomes@.len()
            &&& forall|k: int|
                0 <= k < r.reads_issued ==> read_record_for(
                    r.records@[k],
                    outcomes@[k],
                    *ep,
                )
            &&& (forall|k: int| 0 <= k < outcomes@.len() ==> !is_fatal_outcome(outcomes@[k]))
                ==> r.reads_issued == outcomes@.len() && r.state == PollState::Polling
            &&& forall|j: int|
                0 <= j < outcomes@.len() && is_fatal_outcome(outcomes@[j]) && (forall|k: int|
                    0 <= k < j ==> !is_fatal_outcome(outcomes@[k])) ==> r.reads_issued == j + 1
                    && (outcomes@[j] matches Err(e) ==> r.state == PollState::TerminatedErr(
                    PollError::Transport(e),
                ))
        },
        ep.direction == Direction::In && config_res is Ok && (forall|k: int|
            0 <= k < outcomes@.len() ==> outcomes@[k] == Err::<Vec<u8>, TransportError>(
                TransportError::Timeout,
            )) ==> r.state == PollState::Polling && forall|k: int|
            0 <= k < r.records@.len() ==> r.records@[k] == (LogRecord::Timeout {
                iface: ep.iface,
                endpoint: ep.number,
            }),
{
    let (st0, rec0) = begin_poll(ep);
    match st0 {
        PollState::TerminatedErr(e) => {
            let mut records: Vec<LogRecord> = Vec::new();
            match rec0 {
                Some(rc) => records.push(rc),
                None => (),
            }
            return PollRun { records, reads_issued: 0, state: PollState::TerminatedErr(e) };
        },
        _ => (),
    }
    let st1 = step_configure(config_res);
    match st1 {
        PollState::TerminatedErr(e) => {
            return PollRun {
                records: Vec::new(),
                reads_issued: 0,
                state: PollState::TerminatedErr(e),
            };
        },
        _ => (),
    }
    let mut records: Vec<LogRecord> = Vec::new();
    let mut i: usize = 0;
    while i < outcomes.len()
        invariant
            ep.direction == Direction::In,
            config_res is Ok,
            i <= outcomes@.len(),
            records@.len() == i as int,
            forall|k: int| 0 <= k < i ==> read_record_for(records@[k], outcomes@[k], *ep),
            forall|k: int| 0 <= k < i ==> !is_fatal_outcome(outcomes@[k]),
        decreases outcomes@.len() - i,
    {
        let (st, rec) = step_read(ep, false, &outcomes[i]);
        match rec {
            Some(rc) => records.push(rc),
            None => (),
        }
        i = i + 1;
        match st {
            PollState::Polling => (),
            _ => {
                return PollRun { records, reads_issued: i, state: st };
            },
        }
    }
    PollRun { records, reads_issued: i, state: PollState::Polling }
}

} // verus!
