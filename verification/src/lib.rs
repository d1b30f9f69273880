//! Performance measurement for UEFI firmware.
//!
//! Instrumented firmware code records timestamped measurements ("module X started",
//! "driver Y bound controller Z") as binary records in a bounded buffer, for diagnostics
//! tooling to read later. This crate holds the rules of that path:
//!
//! - [`known`] and [`resolve`]: the well-known identifiers and tokens, and how the
//!   identifier of a measurement is resolved;
//! - [`writer`] and [`record`]: the bounds-checked little-endian writer and the five
//!   record layouts;
//! - [`buffer`]: the fixed-capacity, append-only store of encoded records;
//! - [`measurement`] and [`gateway`]: from a request to a record in the buffer;
//! - [`logging`]: the fixed call shapes for the measurement points of the core and of
//!   modules;
//! - [`protocol`] and [`status`]: the decisions of the protocol entry point, its status
//!   codes and its diagnostic lines;
//! - [`timer`]: the frequency of the tick counter, resolved once;
//! - [`error`] and [`guid`]: the error codes and the GUIDs that records carry.
//!
//! Nothing here fails the firmware: a measurement that cannot be recorded is refused with
//! an error, and the buffer and the offsets that were handed in are left as they were.

pub mod buffer;
pub mod error;
pub mod gateway;
pub mod guid;
pub mod known;
pub mod logging;
pub mod measurement;
pub mod protocol;
pub mod record;
pub mod resolve;
pub mod status;
pub mod timer;
pub mod writer;
