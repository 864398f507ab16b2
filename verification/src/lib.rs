//! A verified core for a USB bulk-endpoint polling daemon.
//!
//! The library models a device's configuration/interface/endpoint topology,
//! flattens it into endpoint descriptors, and drives a per-endpoint polling
//! state machine that retries on timeouts and aborts on transport errors.
//! All device I/O (the USB host-access layer, logging sinks, threads) lives
//! outside the library; the library works on plain values handed in and
//! returns structured records and state decisions.

pub mod discovery;
pub mod engine;
pub mod hex;
pub mod lockcheck;
pub mod records;
pub mod report;
pub mod usb;
