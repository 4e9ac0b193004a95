//! Core logic of a bounded-concurrency TCP port scanner.
//!
//! Given a host and an inclusive port range, the scanner probes every port,
//! classifies each outcome (open / refused / timed out), appends each
//! classification to a dedicated log, and supports bounded "tail" reads of
//! those logs.  This crate holds the verified decision logic: the concurrency
//! gate, the outcome classification, the result sink and its counters, the
//! scan state machine, the tail-read computation, and the supporting
//! configuration, directory, logging and command-script rules.  The
//! surrounding process performs the actual socket, file and process I/O and
//! feeds the results back in as plain values.

pub mod config;
pub mod decimal;
pub mod dirs;
pub mod limiter;
pub mod logging;
pub mod logread;
pub mod network;
pub mod ray;
pub mod scan;
pub mod sink;
pub mod tail;
pub mod text;

pub use limiter::ThreadLimiter;
