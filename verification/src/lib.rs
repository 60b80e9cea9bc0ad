//! Transport layer of a ground-control link: one read/write contract over a
//! serial device or a UDP socket, and a tracker of round-trip latency.
//!
//! The library holds the decisions: which line settings a baud rate gives,
//! which operations build a link and in what order, which primitive a read
//! or a write goes to, and how a latency sample enters the smoothed
//! estimate. Devices, sockets and the message bus belong to the caller.

pub mod comms;
pub mod config;
pub mod ema;
pub mod ivy;
pub mod port;
