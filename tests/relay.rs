use pipe_relay::relay::{splice_source_to_dest, Action, Phase, ReadOutcome, Relay, Side, Termination};

/// Drives `relay` through one read of `data` from `from`, writing the chunk
/// it asks for into `out`; returns the action after the write.
fn relay_once(relay: &mut Relay, from: Side, data: &[u8], out: &mut Vec<u8>) -> Action {
    let mut buf = vec![0u8; 8];
    buf[..data.len()].copy_from_slice(data);
    assert_eq!(relay.on_readable(from, true), Action::TryRead(from));
    match relay.on_read(ReadOutcome::Bytes(data.len()), &buf) {
        Action::WriteAll { to, len } => {
            assert_eq!(to, from.other());
            out.extend_from_slice(&buf[..len]);
        }
        other => panic!("unexpected action {:?}", other),
    }
    relay.on_written(true)
}

#[test]
fn other_side() {
    assert_eq!(Side::Left.other(), Side::Right);
    assert_eq!(Side::Right.other(), Side::Left);
}

#[test]
fn read_outcome_decisions() {
    assert_eq!(
        splice_source_to_dest(Side::Left, ReadOutcome::Bytes(0)),
        Phase::Stopped(Termination::Disconnected(Side::Left))
    );
    assert_eq!(
        splice_source_to_dest(Side::Right, ReadOutcome::Bytes(5)),
        Phase::Writing { from: Side::Right, len: 5 }
    );
    assert_eq!(splice_source_to_dest(Side::Left, ReadOutcome::WouldBlock), Phase::Waiting);
    assert_eq!(
        splice_source_to_dest(Side::Right, ReadOutcome::Failed),
        Phase::Stopped(Termination::ReadFailed(Side::Right))
    );
}

#[test]
fn ping_pong_then_close() {
    let mut relay = Relay::new();
    assert_eq!(relay.next_action(), Action::WaitReadable);
    let mut to_tcp = Vec::new();
    let mut to_ipc = Vec::new();
    assert_eq!(relay_once(&mut relay, Side::Left, b"PING", &mut to_tcp), Action::WaitReadable);
    assert_eq!(to_tcp, b"PING".to_vec());
    assert_eq!(relay_once(&mut relay, Side::Right, b"PONG", &mut to_ipc), Action::WaitReadable);
    assert_eq!(to_ipc, b"PONG".to_vec());
    assert_eq!(relay.on_readable(Side::Left, true), Action::TryRead(Side::Left));
    let buf = vec![0u8; 8];
    assert_eq!(
        relay.on_read(ReadOutcome::Bytes(0), &buf),
        Action::Stop(Termination::Disconnected(Side::Left))
    );
    assert_eq!(relay.phase(), Phase::Stopped(Termination::Disconnected(Side::Left)));
}

#[test]
fn tcp_side_closing_first_stops() {
    let mut relay = Relay::new();
    relay.on_readable(Side::Right, true);
    assert_eq!(
        relay.on_read(ReadOutcome::Bytes(0), &[0u8; 4]),
        Action::Stop(Termination::Disconnected(Side::Right))
    );
}

#[test]
fn small_chunks_deliver_same_bytes() {
    let message = b"hello, relay";
    let mut whole = Vec::new();
    let mut relay = Relay::new();
    for part in message.chunks(8) {
        relay_once(&mut relay, Side::Left, part, &mut whole);
    }
    let mut pieces = Vec::new();
    let mut relay = Relay::new();
    for part in message.chunks(1) {
        relay_once(&mut relay, Side::Left, part, &mut pieces);
    }
    assert_eq!(whole, message.to_vec());
    assert_eq!(pieces, message.to_vec());
}

#[test]
fn stale_readiness_is_harmless() {
    let mut relay = Relay::new();
    assert_eq!(relay.on_readable(Side::Left, true), Action::TryRead(Side::Left));
    assert_eq!(relay.on_read(ReadOutcome::WouldBlock, &[7u8; 4]), Action::WaitReadable);
    assert_eq!(relay.phase(), Phase::Waiting);
    let mut out = Vec::new();
    relay_once(&mut relay, Side::Left, b"ab", &mut out);
    assert_eq!(out, b"ab".to_vec());
}

#[test]
fn read_error_stops() {
    let mut relay = Relay::new();
    relay.on_readable(Side::Right, true);
    assert_eq!(
        relay.on_read(ReadOutcome::Failed, &[0u8; 4]),
        Action::Stop(Termination::ReadFailed(Side::Right))
    );
}

#[test]
fn wait_error_stops() {
    let mut relay = Relay::new();
    assert_eq!(
        relay.on_readable(Side::Left, false),
        Action::Stop(Termination::WaitFailed(Side::Left))
    );
}

#[test]
fn write_error_stops() {
    let mut relay = Relay::new();
    relay.on_readable(Side::Left, true);
    assert_eq!(
        relay.on_read(ReadOutcome::Bytes(3), b"abcd"),
        Action::WriteAll { to: Side::Right, len: 3 }
    );
    assert_eq!(relay.on_written(false), Action::Stop(Termination::WriteFailed(Side::Right)));
}

#[test]
fn two_relays_are_independent() {
    let mut a = Relay::new();
    let mut b = Relay::new();
    a.on_readable(Side::Left, true);
    a.on_read(ReadOutcome::Bytes(0), &[0u8; 2]);
    let mut out = Vec::new();
    assert_eq!(relay_once(&mut b, Side::Left, b"ok", &mut out), Action::WaitReadable);
    assert_eq!(out, b"ok".to_vec());
    assert_eq!(a.next_action(), Action::Stop(Termination::Disconnected(Side::Left)));
}
