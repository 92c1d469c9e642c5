//! Core logic of a local-first vector-tile serving service.
//!
//! The library owns the bookkeeping of a collection of locally stored tile
//! archives, the planning of bounded-region extractions from a remote
//! archive, and the decision logic of the coordinating service and of the
//! tile HTTP route. All file, network and archive-format work is performed
//! by the hosting application, which feeds plain values into the functions
//! here and carries out the actions they decide.

pub mod bounds;
pub mod error;
pub mod extract;
pub mod pathutil;
pub mod region;
pub mod server;
pub mod tiles;
pub mod tileserver;

use vstd::prelude::*;

verus! {

/// Verbosity levels a hosting application can ask the process logger for.
pub enum LogLevel {
    /// A level lower than all log levels.
    Off,
    /// Corresponds to the `Error` log level.
    Error,
    /// Corresponds to the `Warn` log level.
    Warn,
    /// Corresponds to the `Info` log level.
    Info,
    /// Corresponds to the `Debug` log level.
    Debug,
    /// Corresponds to the `Trace` log level.
    Trace,
}

} // verus!
