//! Push a text notification to an ntfy-style HTTP endpoint, and keep what could
//! not be delivered in a queue for a later retry.
//!
//! The library holds the rules: how a request is built, which outcome counts as
//! delivered, what is queued and logged, how the log is trimmed. It performs no
//! I/O itself; the caller reads and writes the files and makes the HTTP call.

pub mod cli;
pub mod dispatch;
pub mod logging;
pub mod queue;
