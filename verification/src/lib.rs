//! Core of a terminal-session recorder.
//!
//! The library holds the recorder's decisions and bookkeeping: the resolved
//! configuration record, byte-size parsing, the echo and anti-clobber rules,
//! timing-line formatting, and the relay state machine that fans child output
//! and caller input out to the configured log sinks.  A thin platform layer
//! drives it with the events it observes on the pseudo-terminal.

pub mod errors;
pub mod options;
pub mod session;
pub mod size;
pub mod timing;
