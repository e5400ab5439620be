//! Tells whether a TCP port on a host is reachable, without doing any I/O.
//!
//! A check runs in four stages: the command line is read into a request, the
//! hostname is resolved to addresses, the addresses are probed one after the
//! other until one accepts a connection, and the outcome is reported with a
//! line of text and an exit code. This crate makes every decision of those
//! stages and leaves the outside work to its caller: looking a name up,
//! opening a connection, printing, exiting.
//!
//! - [`args`]: the command line, the request it yields, the usage errors.
//! - [`resolve`]: resolved addresses, and what a lookup leaves to probe.
//! - [`probe`]: which address to try next and when to stop.
//! - [`report`]: the lines that tell what is checked and how it ended.
//! - [`session`]: one invocation as a sequence of steps for the caller.
//! - [`transcript`]: what a whole invocation does, and what holds of it.
//! - [`number`]: decimal numbers, read and written.

pub mod args;
pub mod number;
pub mod probe;
pub mod report;
pub mod resolve;
pub mod session;
pub mod transcript;
