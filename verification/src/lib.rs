//! Decisions of a multi-target port forwarder: which pod a connection goes
//! to, which port on it, and when a relay in flight has to end.

pub mod abort;
pub mod cancelable_stream;
pub mod cli;
pub mod errors;
pub mod listener;
pub mod pod;
pub mod report;
pub mod service;
pub mod session;
pub mod text;
pub mod watch;
