//! The probe session: a state machine that owns the probe configuration and
//! sequence counter and decides, one step at a time, what the driver of the
//! link channel should do next.
//!
//! The driver (outside this crate) performs the channel work: it opens the
//! channel, sends bytes, and blocks on the next frame. Each advance of the
//! session is driven as a little dialogue: the driver feeds a
//! [`SessionEvent`] into [`ARPPing::step`] and obeys the returned
//! [`SessionCommand`] until the command yields a [`ProbeOutcome`] or signals
//! the end of the sequence. Every decision — when to open the channel, what
//! bytes to send, whether a received frame answers the outstanding request,
//! when the probe has timed out, and which failures end the session — is
//! made here.

use vstd::prelude::*;
use vstd::string::StringExecFns;

use crate::codec::ARP_MESSAGE_LEN;
use crate::codec::ETHERNET_HEADER_LEN;
use crate::codec::ETHERTYPE_ARP;
use crate::codec::ArpMessage;
use crate::codec::ArpOperation;
use crate::codec::EthernetFrame;
use crate::codec::encode_request;
use crate::codec::decode_arp;
use crate::codec::spec_frame_destination;
use crate::codec::spec_frame_ethertype;
use crate::codec::spec_parse_arp_message;
use crate::codec::spec_request_frame_bytes;
use crate::error::ErrorKind;
use crate::net::Ipv4Address;
use crate::net::MacAddress;

verus! {

/// One probe's result: a matching reply with the received frame's size and
/// the round-trip time, or a failure kind.
#[derive(Clone, Copy, PartialEq, Eq, Structural, Debug)]
pub enum ProbeOutcome {
    Success { reply: ArpMessage, frame_size: usize, round_trip_micros: u64 },
    Failure { kind: ErrorKind },
}

/// What the channel driver reports back to the session.
///
/// `elapsed_micros` is the time since the current probe's send timestamp,
/// in microseconds.
#[derive(PartialEq, Eq, Debug)]
pub enum SessionEvent {
    /// The caller asks for the next probe's outcome.
    Start,
    /// The channel is open with both deadlines set to the configured timeout.
    OpenSucceeded,
    /// The channel could not be opened.
    OpenFailed,
    /// The request frame went out; the probe clock started at the send.
    SendSucceeded { elapsed_micros: u64 },
    /// The channel rejected the send.
    SendFailed,
    /// The next frame arrived.
    FrameReceived { frame: Vec<u8>, elapsed_micros: u64 },
    /// The receive deadline passed at the transport level.
    ReceiveTimedOut,
    /// The receive failed some other way.
    ReceiveFailed,
}

/// What the session asks the channel driver to do next.
#[derive(PartialEq, Eq, Debug)]
pub enum SessionCommand {
    /// Open the link channel against the configured interface, with read and
    /// write deadlines both set to the configured timeout; report
    /// `OpenSucceeded` or `OpenFailed`.
    OpenChannel,
    /// Send these bytes, record the send timestamp, and report
    /// `SendSucceeded` or `SendFailed`.
    SendFrame { frame: Vec<u8> },
    /// Block for the next frame, up to the remaining deadline; report
    /// `FrameReceived`, `ReceiveTimedOut` or `ReceiveFailed`.
    AwaitFrame,
    /// The current advance is done, with this outcome.
    Yield { outcome: ProbeOutcome },
    /// The probe sequence is exhausted, or the session is past a fatal
    /// failure; no outcome, now or ever again.
    EndOfSequence,
}

/// Where the session stands between steps.
#[derive(Clone, Copy, PartialEq, Eq, Structural, Debug)]
pub enum Phase {
    /// No channel yet; the first advance opens one.
    Unopened,
    /// The driver was asked to open the channel.
    Opening,
    /// The channel is open and no probe is outstanding.
    Idle,
    /// The driver was asked to send the request of the current probe.
    Sending,
    /// The driver was asked for the next frame of the current probe.
    Awaiting,
    /// A fatal failure was reported; the session is finished.
    Fatal,
}

/// How a received frame relates to the outstanding request.
#[derive(Clone, Copy, PartialEq, Eq, Structural, Debug)]
pub enum FrameVerdict {
    /// The frame answers the request: yield it as this probe's reply.
    Accept { reply: ArpMessage },
    /// Unrelated traffic: keep listening.
    Discard,
    /// The frame claimed to be ARP but does not parse as one: the probe
    /// fails with a parse error.
    ParseFailure,
}

/// A probe has timed out once more than the configured whole-second timeout
/// has elapsed since its send.
pub open spec fn spec_timed_out(timeout_secs: u64, elapsed_micros: u64) -> bool {
    elapsed_micros > timeout_secs * 1_000_000
}

/// The match policy: what to do with `bytes`, received while the request of
/// a probe with our `source_mac` toward `target_ip` is outstanding.
///
/// A frame that is not ARP by ethertype, or not addressed to us or to
/// broadcast, is unrelated traffic. One that passes that gate must parse as
/// an ARP message, must be a reply, must come from the probed host, and must
/// name us (or broadcast) as its target; of those three, a parse failure is
/// an error, the rest are unrelated traffic.
pub open spec fn spec_evaluate(
    source_mac: MacAddress,
    target_ip: Ipv4Address,
    bytes: Seq<u8>,
) -> FrameVerdict {
    if bytes.len() < ETHERNET_HEADER_LEN || spec_frame_ethertype(bytes) != ETHERTYPE_ARP {
        FrameVerdict::Discard
    } else if !(spec_frame_destination(bytes) == source_mac
        || spec_frame_destination(bytes).is_broadcast()) {
        FrameVerdict::Discard
    } else if bytes.len() < ETHERNET_HEADER_LEN + ARP_MESSAGE_LEN {
        FrameVerdict::ParseFailure
    } else {
        let m = spec_parse_arp_message(bytes.skip(ETHERNET_HEADER_LEN as int));
        if m.operation != ArpOperation::Reply {
            FrameVerdict::Discard
        } else if m.sender_ip != target_ip {
            FrameVerdict::Discard
        } else if !(m.target_mac == source_mac || m.target_mac.is_broadcast()) {
            FrameVerdict::Discard
        } else {
            FrameVerdict::Accept { reply: m }
        }
    }
}

/// Apply the match policy to a received frame.
pub fn evaluate_frame(source_mac: &MacAddress, target_ip: &Ipv4Address, bytes: &Vec<u8>) -> (v:
    FrameVerdict)
    ensures
        v == spec_evaluate(*source_mac, *target_ip, bytes@),
{
    let frame = match EthernetFrame::decode(bytes) {
        Ok(frame) => frame,
        Err(_) => {
            return FrameVerdict::Discard;
        },
    };
    if frame.ethertype != ETHERTYPE_ARP {
        return FrameVerdict::Discard;
    }
    if !(frame.destination == *source_mac || frame.destination == MacAddress::broadcast()) {
        return FrameVerdict::Discard;
    }
    let m = match decode_arp(&frame) {
        Ok(m) => m,
        Err(_) => {
            return FrameVerdict::ParseFailure;
        },
    };
    if m.operation != ArpOperation::Reply {
        return FrameVerdict::Discard;
    }
    if m.sender_ip != *target_ip {
        return FrameVerdict::Discard;
    }
    if !(m.target_mac == *source_mac || m.target_mac == MacAddress::broadcast()) {
        return FrameVerdict::Discard;
    }
    FrameVerdict::Accept { reply: m }
}

/// One ARP probe session: the configuration given once at construction, the
/// sequence counter, and the phase the session stands in. The link channel
/// handle itself lives with the driver; the session only directs it.
pub struct ARPPing {
    /// Name of the interface the channel is to be bound to.
    pub interface: String,
    /// Per-probe timeout, in whole seconds.
    pub timeout: u64,
    /// Number of probes; zero means unbounded.
    pub count: u64,
    pub source_ip: Ipv4Address,
    pub source_mac: MacAddress,
    pub target_ip: Ipv4Address,
    pub target_mac: MacAddress,
    /// Probes begun so far; the current probe's sequence number once one is
    /// outstanding.
    pub sequence: u64,
    pub phase: Phase,
}

impl ARPPing {
    /// The same session in another phase.
    pub open spec fn with_phase(self, phase: Phase) -> ARPPing {
        ARPPing { phase, ..self }
    }

    /// The same session with the next probe begun.
    pub open spec fn with_next_probe(self) -> ARPPing {
        ARPPing { phase: Phase::Sending, sequence: (self.sequence + 1) as u64, ..self }
    }

    /// A bounded session is exhausted once `count` probes have begun; an
    /// unbounded one never is.
    pub open spec fn is_exhausted(self) -> bool {
        self.count != 0 && self.sequence >= self.count
    }

    /// The wire image of this session's request frame.
    pub open spec fn spec_request_bytes(self) -> Seq<u8> {
        spec_request_frame_bytes(self.source_ip, self.source_mac, self.target_ip, self.target_mac)
    }

    /// Which events the driver may feed in which phase. `Start` asks for the
    /// next outcome; the others answer an outstanding command.
    pub open spec fn accepts(self, event: SessionEvent) -> bool {
        match self.phase {
            Phase::Unopened => event is Start,
            Phase::Opening => event is OpenSucceeded || event is OpenFailed,
            Phase::Idle => event is Start,
            Phase::Sending => event is SendSucceeded || event is SendFailed,
            Phase::Awaiting => event is FrameReceived || event is ReceiveTimedOut
                || event is ReceiveFailed,
            Phase::Fatal => event is Start,
        }
    }

    /// Beginning an advance from an open, idle channel: end of sequence when
    /// exhausted, else the next probe begins and its request goes out.
    pub open spec fn spec_begin(pre: ARPPing, post: ARPPing, cmd: SessionCommand) -> bool {
        if pre.is_exhausted() {
            post == pre && cmd == SessionCommand::EndOfSequence
        } else {
            post == pre.with_next_probe() && (cmd matches SessionCommand::SendFrame { frame }
                && frame@ == pre.spec_request_bytes())
        }
    }

    /// Entering the receive loop (or coming back around it): the probe times
    /// out once its deadline has passed, else the driver is to listen on.
    pub open spec fn spec_keep_waiting(pre: ARPPing, elapsed_micros: u64, post: ARPPing, cmd:
        SessionCommand) -> bool {
        if spec_timed_out(pre.timeout, elapsed_micros) {
            post == pre.with_phase(Phase::Idle) && cmd == SessionCommand::Yield {
                outcome: ProbeOutcome::Failure { kind: ErrorKind::PingTimeout },
            }
        } else {
            post == pre.with_phase(Phase::Awaiting) && cmd == SessionCommand::AwaitFrame
        }
    }

    /// A received frame, judged by the match policy: a matching reply ends
    /// the probe with a success carrying the frame's size and the elapsed
    /// time; a frame past the ethertype gate that does not parse ends it
    /// with a parse error; unrelated traffic keeps the loop going, subject
    /// to the deadline.
    pub open spec fn spec_on_frame(
        pre: ARPPing,
        bytes: Seq<u8>,
        elapsed_micros: u64,
        post: ARPPing,
        cmd: SessionCommand,
    ) -> bool {
        match spec_evaluate(pre.source_mac, pre.target_ip, bytes) {
            FrameVerdict::Accept { reply } => post == pre.with_phase(Phase::Idle) && cmd
                == SessionCommand::Yield {
                outcome: ProbeOutcome::Success {
                    reply,
                    frame_size: bytes.len() as usize,
                    round_trip_micros: elapsed_micros,
                },
            },
            FrameVerdict::ParseFailure => post == pre.with_phase(Phase::Idle) && cmd
                == SessionCommand::Yield {
                outcome: ProbeOutcome::Failure { kind: ErrorKind::ParsePacketError },
            },
            FrameVerdict::Discard => ARPPing::spec_keep_waiting(pre, elapsed_micros, post, cmd),
        }
    }

    /// The whole transition relation of [`ARPPing::step`], one case per
    /// phase and event.
    pub open spec fn spec_step(pre: ARPPing, event: SessionEvent, post: ARPPing, cmd:
        SessionCommand) -> bool {
        match pre.phase {
            Phase::Unopened => post == pre.with_phase(Phase::Opening) && cmd
                == SessionCommand::OpenChannel,
            Phase::Opening => match event {
                SessionEvent::OpenFailed => post == pre.with_phase(Phase::Fatal) && cmd
                    == SessionCommand::Yield {
                    outcome: ProbeOutcome::Failure { kind: ErrorKind::CreateChannelError },
                },
                _ => ARPPing::spec_begin(pre.with_phase(Phase::Idle), post, cmd),
            },
            Phase::Idle => ARPPing::spec_begin(pre, post, cmd),
            Phase::Sending => match event {
                SessionEvent::SendFailed => post == pre.with_phase(Phase::Idle) && cmd
                    == SessionCommand::Yield {
                    outcome: ProbeOutcome::Failure { kind: ErrorKind::SendPacketError },
                },
                SessionEvent::SendSucceeded { elapsed_micros } => ARPPing::spec_keep_waiting(
                    pre,
                    elapsed_micros,
                    post,
                    cmd,
                ),
                _ => false,
            },
            Phase::Awaiting => match event {
                SessionEvent::FrameReceived { frame, elapsed_micros } => ARPPing::spec_on_frame(
                    pre,
                    frame@,
                    elapsed_micros,
                    post,
                    cmd,
                ),
                SessionEvent::ReceiveTimedOut => post == pre.with_phase(Phase::Idle) && cmd
                    == SessionCommand::Yield {
                    outcome: ProbeOutcome::Failure { kind: ErrorKind::PingTimeout },
                },
                _ => post == pre.with_phase(Phase::Fatal) && cmd == SessionCommand::Yield {
                    outcome: ProbeOutcome::Failure { kind: ErrorKind::IOError },
                },
            },
            Phase::Fatal => post == pre && cmd == SessionCommand::EndOfSequence,
        }
    }

    /// The subcommand name of this mode.
    pub fn name() -> (r: String)
        ensures
            r@ == "arp"@,
    {
        String::from_str("arp")
    }

    /// Build the request frame for these addresses, as the wire bytes of an
    /// Ethernet frame around an ARP request. The buffer is allocated at
    /// exactly the minimum frame size, so building cannot in fact fail; the
    /// `Result` keeps the shape of an interface that reports an undersized
    /// buffer as `BuildPacketError`.
    pub fn build_ethernet(
        source_ip: Ipv4Address,
        source_mac: MacAddress,
        target_ip: Ipv4Address,
        target_mac: MacAddress,
    ) -> (r: Result<EthernetFrame, ErrorKind>)
        ensures
            r is Ok,
            r matches Ok(f) ==> f.destination == target_mac && f.source == source_mac
                && f.ethertype == ETHERTYPE_ARP && f.spec_bytes() == spec_request_frame_bytes(
                source_ip,
                source_mac,
                target_ip,
                target_mac,
            ),
    {
        Ok(encode_request(source_ip, source_mac, target_ip, target_mac))
    }

    /// Read a frame's payload as an ARP message: the ethertype gate, then
    /// the structural parse.
    pub fn from_ethernet(frame: &EthernetFrame) -> (r: Result<ArpMessage, ErrorKind>)
        ensures
            r is Ok <==> frame.ethertype == ETHERTYPE_ARP && frame.payload@.len()
                >= ARP_MESSAGE_LEN,
            r matches Ok(m) ==> m == spec_parse_arp_message(frame.payload@),
            r matches Err(k) ==> k == ErrorKind::ParsePacketError,
    {
        decode_arp(frame)
    }

    /// A fresh session over the given configuration: nothing opened, no
    /// probe begun.
    pub fn new(
        interface: String,
        timeout: u64,
        count: u64,
        source_ip: Ipv4Address,
        source_mac: MacAddress,
        target_ip: Ipv4Address,
        target_mac: MacAddress,
    ) -> (s: ARPPing)
        ensures
            s.interface == interface,
            s.timeout == timeout,
            s.count == count,
            s.source_ip == source_ip,
            s.source_mac == source_mac,
            s.target_ip == target_ip,
            s.target_mac == target_mac,
            s.sequence == 0,
            s.phase == Phase::Unopened,
    {
        ARPPing {
            interface,
            timeout,
            count,
            source_ip,
            source_mac,
            target_ip,
            target_mac,
            sequence: 0,
            phase: Phase::Unopened,
        }
    }

    /// Whether the probe's deadline has passed `elapsed_micros` after its
    /// send.
    fn timed_out(&self, elapsed_micros: u64) -> (r: bool)
        ensures
            r == spec_timed_out(self.timeout, elapsed_micros),
    {
        (elapsed_micros as u128) > (self.timeout as u128) * 1_000_000
    }

    /// Begin the next probe, or signal exhaustion.
    fn begin(&mut self) -> (cmd: SessionCommand)
        requires
            old(self).sequence < u64::MAX,
        ensures
            ARPPing::spec_begin(*old(self), *final(self), cmd),
    {
        if self.count != 0 && self.sequence >= self.count {
            return SessionCommand::EndOfSequence;
        }
        self.sequence = self.sequence + 1;
        self.phase = Phase::Sending;
        let frame = encode_request(self.source_ip, self.source_mac, self.target_ip,
            self.target_mac);
        SessionCommand::SendFrame { frame: frame.encode() }
    }

    /// The probe's receive-loop gate: time out past the deadline, else
    /// listen for the next frame.
    fn keep_waiting(&mut self, elapsed_micros: u64) -> (cmd: SessionCommand)
        ensures
            ARPPing::spec_keep_waiting(*old(self), elapsed_micros, *final(self), cmd),
    {
        if self.timed_out(elapsed_micros) {
            self.phase = Phase::Idle;
            SessionCommand::Yield {
                outcome: ProbeOutcome::Failure { kind: ErrorKind::PingTimeout },
            }
        } else {
            self.phase = Phase::Awaiting;
            SessionCommand::AwaitFrame
        }
    }

    /// Drive the session one step: feed in what happened, get back what to
    /// do next. The whole behaviour is [`ARPPing::spec_step`]; the sequence
    /// bound, asked only of the steps that can begin a probe, keeps the
    /// probe counter from wrapping.
    pub fn step(&mut self, event: SessionEvent) -> (cmd: SessionCommand)
        requires
            old(self).accepts(event),
            old(self).phase is Idle || old(self).phase is Opening ==> old(self).sequence
                < u64::MAX,
        ensures
            ARPPing::spec_step(*old(self), event, *final(self), cmd),
    {
        match self.phase {
            Phase::Unopened => {
                self.phase = Phase::Opening;
                SessionCommand::OpenChannel
            },
            Phase::Opening => match event {
                SessionEvent::OpenFailed => {
                    self.phase = Phase::Fatal;
                    SessionCommand::Yield {
                        outcome: ProbeOutcome::Failure { kind: ErrorKind::CreateChannelError },
                    }
                },
                _ => {
                    self.phase = Phase::Idle;
                    self.begin()
                },
            },
            Phase::Idle => self.begin(),
            Phase::Sending => match event {
                SessionEvent::SendSucceeded { elapsed_micros } => self.keep_waiting(
                    elapsed_micros,
                ),
                _ => {
                    self.phase = Phase::Idle;
                    SessionCommand::Yield {
                        outcome: ProbeOutcome::Failure { kind: ErrorKind::SendPacketError },
                    }
                },
            },
            Phase::Awaiting => match event {
                SessionEvent::FrameReceived { frame, elapsed_micros } => {
                    match evaluate_frame(&self.source_mac, &self.target_ip, &frame) {
                        FrameVerdict::Accept { reply } => {
                            self.phase = Phase::Idle;
                            SessionCommand::Yield {
                                outcome: ProbeOutcome::Success {
                                    reply,
                                    frame_size: frame.len(),
                                    round_trip_micros: elapsed_micros,
                                },
                            }
                        },
                        FrameVerdict::ParseFailure => {
                            self.phase = Phase::Idle;
                            SessionCommand::Yield {
                                outcome: ProbeOutcome::Failure { kind: ErrorKind::ParsePacketError },
                            }
                        },
                        FrameVerdict::Discard => self.keep_waiting(elapsed_micros),
                    }
                },
                SessionEvent::ReceiveTimedOut => {
                    self.phase = Phase::Idle;
                    SessionCommand::Yield {
                        outcome: ProbeOutcome::Failure { kind: ErrorKind::PingTimeout },
                    }
                },
                _ => {
                    self.phase = Phase::Fatal;
                    SessionCommand::Yield {
                        outcome: ProbeOutcome::Failure { kind: ErrorKind::IOError },
                    }
                },
            },
            Phase::Fatal => SessionCommand::EndOfSequence,
        }
    }

    /// The sequence number of the probe begun most recently; the number of
    /// probes begun so far.
    pub fn sequence(&self) -> (r: u64)
        ensures
            r == self.sequence,
    {
        self.sequence
    }

    /// The phase the session stands in.
    pub fn phase(&self) -> (r: Phase)
        ensures
            r == self.phase,
    {
        self.phase
    }
}

/// Bounded termination, the begin side: an advance from an idle session
/// signals end of sequence exactly when a positive `count` of probes has
/// already begun; otherwise it begins one more probe, raising the sequence
/// counter by one and changing nothing else. So a session begun at sequence
/// zero ends exactly on the advance after its `count`-th probe, and a
/// session with `count` zero never signals the end itself.
pub proof fn lemma_bounded_termination(pre: ARPPing, post: ARPPing, cmd: SessionCommand)
    requires
        pre.phase == Phase::Idle,
        ARPPing::spec_step(pre, SessionEvent::Start, post, cmd),
    ensures
        cmd is EndOfSequence <==> pre.count != 0 && pre.sequence >= pre.count,
        cmd is EndOfSequence ==> post == pre,
        !(cmd is EndOfSequence) ==> post == pre.with_next_probe(),
{
}

/// The sequence counter moves only when a probe begins: every step that
/// does not ask for a send leaves it where it was.
pub proof fn lemma_sequence_stable(pre: ARPPing, event: SessionEvent, post: ARPPing, cmd:
    SessionCommand)
    requires
        ARPPing::spec_step(pre, event, post, cmd),
        !(cmd is SendFrame),
    ensures
        post.sequence == pre.sequence,
{
}

/// An unbounded session never signals the end of the sequence short of a
/// fatal failure.
pub proof fn lemma_unbounded_never_ends(pre: ARPPing, event: SessionEvent, post: ARPPing, cmd:
    SessionCommand)
    requires
        ARPPing::spec_step(pre, event, post, cmd),
        pre.count == 0,
        pre.phase != Phase::Fatal,
    ensures
        !(cmd is EndOfSequence),
{
}

/// One exchange of a dialogue between the session and its driver: the event
/// fed to [`ARPPing::step`], the state it left behind, and the command it
/// returned.
pub type DialogueStep = (SessionEvent, ARPPing, SessionCommand);

/// A dialogue: from `s0` on, every exchange feeds an event the session
/// accepts while the probe counter has room — all that [`ARPPing::step`]
/// asks of its caller — and records exactly what the step did with it.
pub open spec fn spec_dialogue(s0: ARPPing, trace: Seq<DialogueStep>) -> bool
    decreases trace.len(),
{
    trace.len() == 0 || {
        &&& s0.accepts(trace[0].0)
        &&& (s0.phase is Idle || s0.phase is Opening ==> s0.sequence < u64::MAX)
        &&& ARPPing::spec_step(s0, trace[0].0, trace[0].1, trace[0].2)
        &&& spec_dialogue(trace[0].1, trace.skip(1))
    }
}

/// How many probes a dialogue begins: its send commands, one per probe.
pub open spec fn spec_send_count(trace: Seq<DialogueStep>) -> int
    decreases trace.len(),
{
    if trace.len() == 0 {
        0
    } else {
        (if trace[0].2 is SendFrame {
            1int
        } else {
            0int
        }) + spec_send_count(trace.skip(1))
    }
}

/// Where a dialogue leaves the session.
pub open spec fn spec_final_state(s0: ARPPing, trace: Seq<DialogueStep>) -> ARPPing
    decreases trace.len(),
{
    if trace.len() == 0 {
        s0
    } else {
        spec_final_state(trace[0].1, trace.skip(1))
    }
}

/// One step's bookkeeping: the sequence counter moves up by one exactly on a
/// send command, the configuration never moves, and within a positive count
/// the counter never passes it.
pub proof fn lemma_step_accounting(pre: ARPPing, event: SessionEvent, post: ARPPing, cmd:
    SessionCommand)
    requires
        pre.accepts(event),
        pre.phase is Idle || pre.phase is Opening ==> pre.sequence < u64::MAX,
        ARPPing::spec_step(pre, event, post, cmd),
    ensures
        post.sequence == pre.sequence + (if cmd is SendFrame {
            1int
        } else {
            0int
        }),
        post.count == pre.count,
        cmd is SendFrame ==> !pre.is_exhausted(),
        cmd is EndOfSequence ==> pre.phase is Fatal || pre.is_exhausted(),
{
}

/// Bounded termination over a whole dialogue: however the driver's events
/// interleave, the sequence counter counts exactly the probes begun, and a
/// session with a positive count never begins more than `count` probes.
pub proof fn lemma_dialogue_bounded(s0: ARPPing, trace: Seq<DialogueStep>)
    requires
        spec_dialogue(s0, trace),
    ensures
        spec_final_state(s0, trace).sequence == s0.sequence + spec_send_count(trace),
        spec_final_state(s0, trace).count == s0.count,
        s0.count != 0 && s0.sequence <= s0.count ==> s0.sequence + spec_send_count(trace)
            <= s0.count,
    decreases trace.len(),
{
    if trace.len() > 0 {
        lemma_step_accounting(s0, trace[0].0, trace[0].1, trace[0].2);
        lemma_dialogue_bounded(trace[0].1, trace.skip(1));
    }
}

/// One outcome per probe: while a probe is outstanding, no step opens a
/// channel, begins another probe or ends the sequence; the dialogue either
/// keeps listening on the same probe or yields that probe's one outcome,
/// leaving the session idle or, after a fatal failure, finished.
pub proof fn lemma_one_outcome_per_probe(pre: ARPPing, event: SessionEvent, post: ARPPing, cmd:
    SessionCommand)
    requires
        pre.phase is Sending || pre.phase is Awaiting,
        pre.accepts(event),
        ARPPing::spec_step(pre, event, post, cmd),
    ensures
        !(cmd is SendFrame),
        !(cmd is EndOfSequence),
        !(cmd is OpenChannel),
        post.sequence == pre.sequence,
        cmd is Yield ==> post.phase is Idle || post.phase is Fatal,
        cmd is AwaitFrame ==> post.phase is Awaiting,
{
}

/// Reply rejection is silent, not fatal: while a probe waits within its
/// deadline, a frame the match policy discards — for instance a well-formed
/// reply whose sender is not the probed host — leaves the session exactly
/// as it was, still listening for the outstanding request's reply.
pub proof fn lemma_rejection_is_silent(pre: ARPPing, event: SessionEvent, post: ARPPing, cmd:
    SessionCommand)
    requires
        pre.phase == Phase::Awaiting,
        ARPPing::spec_step(pre, event, post, cmd),
        event matches SessionEvent::FrameReceived { frame, elapsed_micros }
            && spec_evaluate(pre.source_mac, pre.target_ip, frame@) is Discard
            && !spec_timed_out(pre.timeout, elapsed_micros),
    ensures
        post == pre,
        cmd == SessionCommand::AwaitFrame,
{
}

/// A probe that times out — at the transport level, or because unrelated
/// traffic carried it past its deadline — resolves to `PingTimeout`, and
/// the session stands idle again, ready to begin the next probe with the
/// sequence counter unchanged.
pub proof fn lemma_timeout_is_not_fatal(
    pre: ARPPing,
    event: SessionEvent,
    post: ARPPing,
    cmd: SessionCommand,
)
    requires
        pre.phase == Phase::Awaiting,
        ARPPing::spec_step(pre, event, post, cmd),
        (event is ReceiveTimedOut)
            || (event matches SessionEvent::FrameReceived { frame, elapsed_micros }
                && spec_evaluate(pre.source_mac, pre.target_ip, frame@) is Discard
                && spec_timed_out(pre.timeout, elapsed_micros)),
    ensures
        post == pre.with_phase(Phase::Idle),
        cmd == (SessionCommand::Yield {
            outcome: ProbeOutcome::Failure { kind: ErrorKind::PingTimeout },
        }),
        post.accepts(SessionEvent::Start),
{
}

/// The silent-rejection scenario, whole: a frame the match policy discards
/// within the deadline leaves the probe open; when no matching reply ever
/// arrives, the probe resolves to `PingTimeout`; and, probes remaining,
/// the following advance begins the next one, raising the sequence
/// counter. (An exhausted bounded session has no next probe to begin:
/// bounded termination takes precedence there.)
pub proof fn lemma_rejection_scenario(
    s0: ARPPing,
    event: SessionEvent,
    s1: ARPPing,
    c1: SessionCommand,
    s2: ARPPing,
    c2: SessionCommand,
    s3: ARPPing,
    c3: SessionCommand,
)
    requires
        s0.phase is Awaiting,
        event matches SessionEvent::FrameReceived { frame, elapsed_micros }
            && spec_evaluate(s0.source_mac, s0.target_ip, frame@) is Discard
            && !spec_timed_out(s0.timeout, elapsed_micros),
        ARPPing::spec_step(s0, event, s1, c1),
        ARPPing::spec_step(s1, SessionEvent::ReceiveTimedOut, s2, c2),
        !s2.is_exhausted(),
        s2.sequence < u64::MAX,
        ARPPing::spec_step(s2, SessionEvent::Start, s3, c3),
    ensures
        s1 == s0,
        c1 == SessionCommand::AwaitFrame,
        c2 == (SessionCommand::Yield {
            outcome: ProbeOutcome::Failure { kind: ErrorKind::PingTimeout },
        }),
        c3 is SendFrame,
        s3.sequence == s0.sequence + 1,
{
}

/// The timeout scenario, whole: with no frame at all before the deadline,
/// the probe resolves to `PingTimeout`, and the next advance of an
/// unbounded session begins the following sequence number — the timed-out
/// probe's number is not reused.
pub proof fn lemma_timeout_scenario(
    s0: ARPPing,
    s1: ARPPing,
    c1: SessionCommand,
    s2: ARPPing,
    c2: SessionCommand,
)
    requires
        s0.phase is Awaiting,
        s0.count == 0,
        s0.sequence < u64::MAX,
        ARPPing::spec_step(s0, SessionEvent::ReceiveTimedOut, s1, c1),
        ARPPing::spec_step(s1, SessionEvent::Start, s2, c2),
    ensures
        c1 == (SessionCommand::Yield {
            outcome: ProbeOutcome::Failure { kind: ErrorKind::PingTimeout },
        }),
        c2 matches SessionCommand::SendFrame { frame } && frame@ == s0.spec_request_bytes(),
        s2.sequence == s0.sequence + 1,
{
}

/// Broadcast acceptance: a parseable ARP reply from the probed host is
/// accepted whenever the frame's destination is our address or broadcast
/// and the reply's target is our address or broadcast — in particular when
/// either of the two is the broadcast address.
pub proof fn lemma_broadcast_accepted(
    source_mac: MacAddress,
    target_ip: Ipv4Address,
    bytes: Seq<u8>,
)
    requires
        bytes.len() >= ETHERNET_HEADER_LEN + ARP_MESSAGE_LEN,
        spec_frame_ethertype(bytes) == ETHERTYPE_ARP,
        spec_frame_destination(bytes) == source_mac
            || spec_frame_destination(bytes).is_broadcast(),
        ({
            let m = spec_parse_arp_message(bytes.skip(ETHERNET_HEADER_LEN as int));
            m.operation == ArpOperation::Reply && m.sender_ip == target_ip
                && (m.target_mac == source_mac || m.target_mac.is_broadcast())
        }),
    ensures
        spec_evaluate(source_mac, target_ip, bytes) == (FrameVerdict::Accept {
            reply: spec_parse_arp_message(bytes.skip(ETHERNET_HEADER_LEN as int)),
        }),
{
}

} // verus!
