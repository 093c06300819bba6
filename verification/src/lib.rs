//! A link-layer "ping": probes a host on the local segment by sending an
//! Address Resolution Protocol request and matching the reply, reporting one
//! outcome per probe.
//!
//! The crate holds the probe engine itself: the codec that lays an ARP
//! request out as an Ethernet frame and reads an ARP message back out of
//! received bytes, and the probe session, a state machine that decides, step
//! by step, what the driver of a raw link channel should do next. Opening
//! the channel, sending and receiving, command-line handling and printing
//! are the caller's business; the session tells it what to do through
//! [`session::SessionCommand`] values and learns what happened through
//! [`session::SessionEvent`] values.

pub mod codec;
pub mod error;
pub mod icmp;
pub mod net;
pub mod session;
pub mod tcp;
pub mod utils;
