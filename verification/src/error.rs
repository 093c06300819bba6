//! The closed set of failure kinds a probe can report.

use vstd::prelude::*;

verus! {

/// Everything that can go wrong while probing.
///
/// `PingTimeout`, `SendPacketError`, `BuildPacketError` and
/// `ParsePacketError` are per-probe outcomes: the session stays usable and
/// the next advance begins a fresh probe. `CreateChannelError` and `IOError`
/// are fatal: the session produces no further probes after reporting them.
#[derive(Clone, Copy, PartialEq, Eq, Structural, Debug)]
pub enum ErrorKind {
    /// The codec could not construct a request frame.
    BuildPacketError,
    /// Received bytes passed the ethertype gate but are no ARP message.
    ParsePacketError,
    /// The link channel rejected a send.
    SendPacketError,
    /// The link channel could not be opened.
    CreateChannelError,
    /// No matching reply arrived within the configured deadline.
    PingTimeout,
    /// The link channel failed while receiving, other than by timing out.
    IOError,
}

impl ErrorKind {
    /// A short human-readable description, for the caller's error lines.
    pub fn message(&self) -> (r: &'static str)
        ensures
            r@ == self.spec_message(),
    {
        match self {
            ErrorKind::BuildPacketError => "failed to build the request packet",
            ErrorKind::ParsePacketError => "failed to parse a received packet",
            ErrorKind::SendPacketError => "failed to send the request packet",
            ErrorKind::CreateChannelError => "failed to create the datalink channel",
            ErrorKind::PingTimeout => "ping timeout",
            ErrorKind::IOError => "input/output error on the datalink channel",
        }
    }

    pub open spec fn spec_message(self) -> Seq<char> {
        match self {
            ErrorKind::BuildPacketError => "failed to build the request packet"@,
            ErrorKind::ParsePacketError => "failed to parse a received packet"@,
            ErrorKind::SendPacketError => "failed to send the request packet"@,
            ErrorKind::CreateChannelError => "failed to create the datalink channel"@,
            ErrorKind::PingTimeout => "ping timeout"@,
            ErrorKind::IOError => "input/output error on the datalink channel"@,
        }
    }
}

} // verus!
