use rsping::codec::{encode_arp_message, ArpMessage, ArpOperation, EthernetFrame};
use rsping::error::ErrorKind;
use rsping::net::{Ipv4Address, MacAddress};
use rsping::session::{
    evaluate_frame, ARPPing, FrameVerdict, Phase, ProbeOutcome, SessionCommand, SessionEvent,
};

const SOURCE_IP: Ipv4Address = Ipv4Address(192, 168, 1, 2);
const SOURCE_MAC: MacAddress = MacAddress(0x00, 0x0C, 0x29, 0x83, 0x8C, 0x20);
const TARGET_IP: Ipv4Address = Ipv4Address(192, 168, 1, 3);
const TARGET_MAC: MacAddress = MacAddress(0x00, 0x0C, 0x29, 0x24, 0x20, 0x6F);

fn session(timeout: u64, count: u64) -> ARPPing {
    ARPPing::new("eth0".to_string(), timeout, count, SOURCE_IP, SOURCE_MAC, TARGET_IP, TARGET_MAC)
}

fn reply_frame(destination: MacAddress, sender_ip: Ipv4Address, arp_target: MacAddress) -> Vec<u8> {
    let message = ArpMessage {
        hardware_type: 1,
        protocol_type: 0x0800,
        hw_addr_len: 6,
        proto_addr_len: 4,
        operation: ArpOperation::Reply,
        sender_mac: TARGET_MAC,
        sender_ip,
        target_mac: arp_target,
        target_ip: SOURCE_IP,
    };
    EthernetFrame { destination, source: TARGET_MAC, ethertype: 0x0806, payload: encode_arp_message(&message) }
        .encode()
}

/// Drive one advance whose receive times out at the transport level.
fn advance_to_timeout(s: &mut ARPPing, first: bool) -> ProbeOutcome {
    let mut cmd = s.step(SessionEvent::Start);
    if first {
        assert_eq!(cmd, SessionCommand::OpenChannel);
        cmd = s.step(SessionEvent::OpenSucceeded);
    }
    match cmd {
        SessionCommand::SendFrame { frame } => assert_eq!(frame.len(), 42),
        other => panic!("expected a send, got {:?}", other),
    }
    let cmd = s.step(SessionEvent::SendSucceeded { elapsed_micros: 5 });
    assert_eq!(cmd, SessionCommand::AwaitFrame);
    match s.step(SessionEvent::ReceiveTimedOut) {
        SessionCommand::Yield { outcome } => outcome,
        other => panic!("expected an outcome, got {:?}", other),
    }
}

#[test]
fn bounded_session_ends_after_count_probes() {
    let mut s = session(1, 3);
    for n in 1..=3u64 {
        let outcome = advance_to_timeout(&mut s, n == 1);
        assert_eq!(outcome, ProbeOutcome::Failure { kind: ErrorKind::PingTimeout });
        assert_eq!(s.sequence(), n);
    }
    assert_eq!(s.step(SessionEvent::Start), SessionCommand::EndOfSequence);
    assert_eq!(s.sequence(), 3);
    // and it stays ended
    assert_eq!(s.step(SessionEvent::Start), SessionCommand::EndOfSequence);
}

#[test]
fn unbounded_session_never_self_terminates() {
    let mut s = session(1, 0);
    for n in 1..=50u64 {
        let outcome = advance_to_timeout(&mut s, n == 1);
        assert_eq!(outcome, ProbeOutcome::Failure { kind: ErrorKind::PingTimeout });
        assert_eq!(s.sequence(), n);
    }
}

#[test]
fn timeout_then_next_probe_uses_next_sequence() {
    let mut s = session(1, 0);
    let outcome = advance_to_timeout(&mut s, true);
    assert_eq!(outcome, ProbeOutcome::Failure { kind: ErrorKind::PingTimeout });
    assert_eq!(s.sequence(), 1);

    // The second advance begins sequence 2, not a reuse of sequence 1.
    let cmd = s.step(SessionEvent::Start);
    assert!(matches!(cmd, SessionCommand::SendFrame { .. }));
    assert_eq!(s.sequence(), 2);
}

#[test]
fn wrong_sender_is_discarded_silently() {
    let mut s = session(1, 0);
    let cmd = s.step(SessionEvent::Start);
    assert_eq!(cmd, SessionCommand::OpenChannel);
    s.step(SessionEvent::OpenSucceeded);
    s.step(SessionEvent::SendSucceeded { elapsed_micros: 3 });

    // Correct ethertype and operation, but the sender is not the probed host.
    let stray = reply_frame(SOURCE_MAC, Ipv4Address(192, 168, 1, 77), SOURCE_MAC);
    let cmd = s.step(SessionEvent::FrameReceived { frame: stray, elapsed_micros: 100 });
    assert_eq!(cmd, SessionCommand::AwaitFrame);

    // No reply ever arrives: the probe resolves to a timeout ...
    let cmd = s.step(SessionEvent::ReceiveTimedOut);
    assert_eq!(
        cmd,
        SessionCommand::Yield { outcome: ProbeOutcome::Failure { kind: ErrorKind::PingTimeout } }
    );

    // ... and the session accepts the next advance normally.
    let cmd = s.step(SessionEvent::Start);
    assert!(matches!(cmd, SessionCommand::SendFrame { .. }));
    assert_eq!(s.sequence(), 2);
}

#[test]
fn matching_reply_is_a_success() {
    let mut s = session(1, 0);
    s.step(SessionEvent::Start);
    s.step(SessionEvent::OpenSucceeded);
    s.step(SessionEvent::SendSucceeded { elapsed_micros: 2 });

    let reply = reply_frame(SOURCE_MAC, TARGET_IP, SOURCE_MAC);
    let size = reply.len();
    let cmd = s.step(SessionEvent::FrameReceived { frame: reply, elapsed_micros: 1234 });
    match cmd {
        SessionCommand::Yield {
            outcome: ProbeOutcome::Success { reply, frame_size, round_trip_micros },
        } => {
            assert_eq!(reply.operation, ArpOperation::Reply);
            assert_eq!(reply.sender_ip, TARGET_IP);
            assert_eq!(reply.sender_mac, TARGET_MAC);
            assert_eq!(frame_size, size);
            assert_eq!(round_trip_micros, 1234);
        },
        other => panic!("expected a success, got {:?}", other),
    }
    assert_eq!(s.phase(), Phase::Idle);
}

#[test]
fn broadcast_destination_is_accepted() {
    let broadcast = MacAddress::broadcast();
    let frame = reply_frame(broadcast, TARGET_IP, SOURCE_MAC);
    let verdict = evaluate_frame(&SOURCE_MAC, &TARGET_IP, &frame);
    assert!(matches!(verdict, FrameVerdict::Accept { .. }));
}

#[test]
fn broadcast_arp_target_is_accepted() {
    let broadcast = MacAddress::broadcast();
    let frame = reply_frame(SOURCE_MAC, TARGET_IP, broadcast);
    let verdict = evaluate_frame(&SOURCE_MAC, &TARGET_IP, &frame);
    assert!(matches!(verdict, FrameVerdict::Accept { .. }));
}

#[test]
fn non_arp_frame_is_discarded_not_fatal() {
    // A wrong ethertype never reaches the ARP parse, whatever the payload.
    let frame = EthernetFrame {
        destination: SOURCE_MAC,
        source: TARGET_MAC,
        ethertype: 0x0800,
        payload: vec![0u8; 10],
    }
    .encode();
    assert_eq!(evaluate_frame(&SOURCE_MAC, &TARGET_IP, &frame), FrameVerdict::Discard);
}

#[test]
fn runt_frame_is_discarded() {
    let tiny: Vec<u8> = vec![0u8; 5];
    assert_eq!(evaluate_frame(&SOURCE_MAC, &TARGET_IP, &tiny), FrameVerdict::Discard);
}

#[test]
fn frame_for_another_host_is_discarded() {
    let elsewhere = MacAddress(0xAA, 0xBB, 0xCC, 0xDD, 0xEE, 0xFF);
    let frame = reply_frame(elsewhere, TARGET_IP, SOURCE_MAC);
    let verdict = evaluate_frame(&SOURCE_MAC, &TARGET_IP, &frame);
    assert_eq!(verdict, FrameVerdict::Discard);
}

#[test]
fn request_operation_is_discarded() {
    let mut frame = reply_frame(SOURCE_MAC, TARGET_IP, SOURCE_MAC);
    // Rewrite the ARP operation field to "request".
    frame[21] = 1;
    let verdict = evaluate_frame(&SOURCE_MAC, &TARGET_IP, &frame);
    assert_eq!(verdict, FrameVerdict::Discard);
}

#[test]
fn short_arp_payload_fails_the_probe() {
    let mut s = session(1, 0);
    s.step(SessionEvent::Start);
    s.step(SessionEvent::OpenSucceeded);
    s.step(SessionEvent::SendSucceeded { elapsed_micros: 2 });

    let stunted = EthernetFrame {
        destination: SOURCE_MAC,
        source: TARGET_MAC,
        ethertype: 0x0806,
        payload: vec![0u8; 20],
    }
    .encode();
    assert_eq!(stunted.len(), 34);
    let cmd = s.step(SessionEvent::FrameReceived { frame: stunted, elapsed_micros: 9 });
    assert_eq!(
        cmd,
        SessionCommand::Yield {
            outcome: ProbeOutcome::Failure { kind: ErrorKind::ParsePacketError },
        }
    );

    // Per-probe, not fatal: the next advance begins the next probe.
    let cmd = s.step(SessionEvent::Start);
    assert!(matches!(cmd, SessionCommand::SendFrame { .. }));
    assert_eq!(s.sequence(), 2);
}

#[test]
fn discard_past_deadline_times_the_probe_out() {
    let mut s = session(1, 0);
    s.step(SessionEvent::Start);
    s.step(SessionEvent::OpenSucceeded);
    s.step(SessionEvent::SendSucceeded { elapsed_micros: 2 });

    let stray = reply_frame(SOURCE_MAC, Ipv4Address(10, 0, 0, 9), SOURCE_MAC);
    // One second is 1_000_000 microseconds; this discard arrives after it.
    let cmd = s.step(SessionEvent::FrameReceived { frame: stray, elapsed_micros: 1_000_001 });
    assert_eq!(
        cmd,
        SessionCommand::Yield { outcome: ProbeOutcome::Failure { kind: ErrorKind::PingTimeout } }
    );
}

#[test]
fn send_failure_is_per_probe() {
    let mut s = session(1, 0);
    s.step(SessionEvent::Start);
    s.step(SessionEvent::OpenSucceeded);
    let cmd = s.step(SessionEvent::SendFailed);
    assert_eq!(
        cmd,
        SessionCommand::Yield {
            outcome: ProbeOutcome::Failure { kind: ErrorKind::SendPacketError },
        }
    );
    let cmd = s.step(SessionEvent::Start);
    assert!(matches!(cmd, SessionCommand::SendFrame { .. }));
    assert_eq!(s.sequence(), 2);
}

#[test]
fn open_failure_is_fatal() {
    let mut s = session(1, 0);
    let cmd = s.step(SessionEvent::Start);
    assert_eq!(cmd, SessionCommand::OpenChannel);
    let cmd = s.step(SessionEvent::OpenFailed);
    assert_eq!(
        cmd,
        SessionCommand::Yield {
            outcome: ProbeOutcome::Failure { kind: ErrorKind::CreateChannelError },
        }
    );
    assert_eq!(s.step(SessionEvent::Start), SessionCommand::EndOfSequence);
}

#[test]
fn receive_failure_is_fatal() {
    let mut s = session(1, 0);
    s.step(SessionEvent::Start);
    s.step(SessionEvent::OpenSucceeded);
    s.step(SessionEvent::SendSucceeded { elapsed_micros: 1 });
    let cmd = s.step(SessionEvent::ReceiveFailed);
    assert_eq!(
        cmd,
        SessionCommand::Yield { outcome: ProbeOutcome::Failure { kind: ErrorKind::IOError } }
    );
    assert_eq!(s.phase(), Phase::Fatal);
    assert_eq!(s.step(SessionEvent::Start), SessionCommand::EndOfSequence);
}

#[test]
fn error_kinds_have_messages() {
    assert_eq!(ErrorKind::PingTimeout.message(), "ping timeout");
    assert_eq!(ErrorKind::SendPacketError.message(), "failed to send the request packet");
}

#[test]
fn mode_names() {
    assert_eq!(ARPPing::name(), "arp");
    assert_eq!(rsping::icmp::IcmpPing::name(), "icmp");
    assert_eq!(rsping::tcp::TcpPing::name(), "tcp");
}
