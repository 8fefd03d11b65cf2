use udp_framed::addr::NetAddr;
use udp_framed::adapter::{
    PollFlush, PollRecv, RecvError, RecvEvent, SendEvent, Submit, UdpFramed,
};
use udp_framed::codec::{Codec, CodecError, PingCodec, PingFrame, BAD_LENGTH};
use udp_framed::registry::RecordingRegistry;

fn adapter() -> UdpFramed<u32, PingCodec, RecordingRegistry> {
    UdpFramed::new(0u32, PingCodec, RecordingRegistry::new())
}

fn frame(op: u8, id: u64) -> PingFrame {
    PingFrame { op, id }
}

fn dest() -> NetAddr {
    NetAddr::V4 { ip: 0x0102_0304, port: 80 }
}

#[test]
fn new_starts_flushed_with_empty_buffers() {
    let a = adapter();
    assert!(a.flushed);
    assert!(a.rd.is_empty());
    assert!(a.wr.is_empty());
    assert_eq!(a.dest(), NetAddr::V4 { ip: 0, port: 0 });
    assert_eq!(a.wire_bytes(), Vec::<u8>::new());
}

#[test]
fn encode_produces_exact_wire_bytes() {
    let c = PingCodec;
    let v = c.encode(&frame(3, 0x0102_0304_0506_0708)).unwrap();
    assert_eq!(v, vec![3, 1, 2, 3, 4, 5, 6, 7, 8]);
}

#[test]
fn decode_empty_datagram_is_ignorable() {
    let c = PingCodec;
    assert_eq!(c.decode(&[]), Ok(None));
}

#[test]
fn decode_wrong_length_is_malformed() {
    let c = PingCodec;
    assert_eq!(c.decode(&[1, 2, 3]), Err(CodecError { code: BAD_LENGTH }));
}

#[test]
fn decode_reads_big_endian_id() {
    let c = PingCodec;
    let got = c.decode(&[9, 0, 0, 0, 0, 0, 0, 1, 255]).unwrap();
    assert_eq!(got, Some(frame(9, 511)));
}

#[test]
fn submit_fills_send_buffer_with_one_frame() {
    let mut a = adapter();
    let r = a.start_send(frame(1, 7), dest(), SendEvent::Pending);
    assert!(matches!(r, Ok(Submit::Accepted)));
    assert!(!a.flushed);
    assert_eq!(a.dest(), dest());
    assert_eq!(a.wire_bytes(), vec![1, 0, 0, 0, 0, 0, 0, 0, 7]);
}

#[test]
fn backpressure_hands_the_item_back() {
    let mut a = adapter();
    let first = frame(1, 7);
    let second = frame(2, 8);
    let other = NetAddr::V4 { ip: 9, port: 9 };
    assert!(matches!(a.start_send(first, dest(), SendEvent::Pending), Ok(Submit::Accepted)));
    // The first frame is still unflushed and the flush would block: the
    // second submission is rejected with the item handed back untouched.
    match a.start_send(second, other, SendEvent::Pending) {
        Ok(Submit::NotReady(f, d)) => {
            assert_eq!(f, second);
            assert_eq!(d, other);
        }
        _ => panic!("expected backpressure"),
    }
    assert!(!a.flushed);
    assert_eq!(a.dest(), dest());
    assert_eq!(a.wire_bytes(), vec![1, 0, 0, 0, 0, 0, 0, 0, 7]);
}

#[test]
fn decode_error_leaves_no_residue() {
    let mut a = adapter();
    let from = NetAddr::V4 { ip: 1, port: 1 };
    let r = a.poll(RecvEvent::Datagram(vec![1, 2, 3], from));
    assert_eq!(r.unwrap_err(), RecvError::Codec(CodecError { code: BAD_LENGTH }));
    assert!(a.rd.is_empty());
    // A subsequent unrelated receive is unaffected by the prior error.
    let good = vec![1, 0, 0, 0, 0, 0, 0, 0, 7];
    match a.poll(RecvEvent::Datagram(good, from)) {
        Ok(PollRecv::Ready(Some((f, d)))) => {
            assert_eq!(f, frame(1, 7));
            assert_eq!(d, from);
        }
        _ => panic!("expected a decoded frame"),
    }
    assert!(a.rd.is_empty());
}

#[test]
fn recv_would_block_suspends() {
    let mut a = adapter();
    assert!(matches!(a.poll(RecvEvent::Pending), Ok(PollRecv::Pending)));
}

#[test]
fn empty_datagram_yields_no_frame() {
    let mut a = adapter();
    let from = NetAddr::V4 { ip: 1, port: 1 };
    assert!(matches!(a.poll(RecvEvent::Datagram(vec![], from)), Ok(PollRecv::Ready(None))));
}

#[test]
fn send_fault_evicts_exactly_the_targeted_peer() {
    let mut a = adapter();
    assert!(matches!(a.start_send(frame(1, 7), dest(), SendEvent::Pending), Ok(Submit::Accepted)));
    assert_eq!(a.poll_complete(SendEvent::Fault(111)), PollFlush::Ready);
    // Exactly one removal, with the canonical (IPv6-mapped) destination.
    assert_eq!(a.node_state.removal_count(), 1);
    assert_eq!(
        a.node_state.removal_at(0),
        NetAddr::V6 { hi: 0, lo: 0x0000_ffff_0102_0304, port: 80 }
    );
    // The adapter is left as if the attempt completed, and stays usable.
    assert!(a.flushed);
    assert!(a.wr.is_empty());
    assert!(matches!(a.start_send(frame(2, 8), dest(), SendEvent::Pending), Ok(Submit::Accepted)));
    assert_eq!(a.poll_complete(SendEvent::Sent(9)), PollFlush::Ready);
    assert_eq!(a.node_state.removal_count(), 1);
}

#[test]
fn recv_fault_is_terminal_and_distinct() {
    let mut a = adapter();
    let r = a.poll(RecvEvent::Fault(104));
    assert_eq!(r.unwrap_err(), RecvError::Socket(104));
    // No peer was evicted: a local socket fault is not a bad peer.
    assert_eq!(a.node_state.removal_count(), 0);
}

#[test]
fn round_trip_through_submit_flush_and_receive() {
    let mut a = adapter();
    let loopback = NetAddr::V4 { ip: 0x7f00_0001, port: 4000 };
    let ping = frame(1, 7);
    assert!(matches!(a.start_send(ping, loopback, SendEvent::Pending), Ok(Submit::Accepted)));
    // The driver sends exactly these bytes; over loopback the same datagram
    // comes back from the same address.
    let wire = a.wire_bytes();
    assert_eq!(a.poll_complete(SendEvent::Sent(wire.len())), PollFlush::Ready);
    match a.poll(RecvEvent::Datagram(wire, loopback)) {
        Ok(PollRecv::Ready(Some((f, d)))) => {
            assert_eq!(f, ping);
            assert_eq!(d, loopback);
        }
        _ => panic!("expected the submitted frame back"),
    }
}

#[test]
fn partial_write_still_flushes_and_never_retries() {
    let mut a = adapter();
    assert!(matches!(a.start_send(frame(1, 7), dest(), SendEvent::Pending), Ok(Submit::Accepted)));
    assert_eq!(a.wire_bytes().len(), 9);
    // The socket reports fewer bytes than the datagram held: the datagram
    // is considered dispatched all the same.
    assert_eq!(a.poll_complete(SendEvent::Sent(4)), PollFlush::Ready);
    assert!(a.flushed);
    assert!(a.wr.is_empty());
    assert_eq!(a.node_state.removal_count(), 0);
    // Nothing is owed any more: a further poll is a no-op.
    assert_eq!(a.poll_complete(SendEvent::Pending), PollFlush::Ready);
}

#[test]
fn flush_would_block_suspends_without_change() {
    let mut a = adapter();
    assert!(matches!(a.start_send(frame(1, 7), dest(), SendEvent::Pending), Ok(Submit::Accepted)));
    assert_eq!(a.poll_complete(SendEvent::Pending), PollFlush::Pending);
    assert!(!a.flushed);
    assert_eq!(a.wire_bytes(), vec![1, 0, 0, 0, 0, 0, 0, 0, 7]);
}

#[test]
fn close_performs_the_final_flush() {
    let mut a = adapter();
    assert!(matches!(a.start_send(frame(1, 7), dest(), SendEvent::Pending), Ok(Submit::Accepted)));
    assert_eq!(a.close(SendEvent::Pending), PollFlush::Pending);
    assert_eq!(a.close(SendEvent::Sent(9)), PollFlush::Ready);
    assert!(a.flushed);
    assert_eq!(a.close(SendEvent::Pending), PollFlush::Ready);
}

#[test]
fn socket_accessors_hand_the_socket_through() {
    let mut a = UdpFramed::new(42u32, PingCodec, RecordingRegistry::new());
    assert_eq!(*a.get_ref(), 42);
    *a.get_mut() = 43;
    assert_eq!(*a.get_ref(), 43);
    assert_eq!(a.into_inner(), 43);
}

#[test]
fn canonical_form_maps_v4_into_v6() {
    let v4 = NetAddr::V4 { ip: 0x0102_0304, port: 80 };
    assert_eq!(
        v4.to_canonical(),
        NetAddr::V6 { hi: 0, lo: 0x0000_ffff_0102_0304, port: 80 }
    );
    let v6 = NetAddr::V6 { hi: 7, lo: 9, port: 81 };
    assert_eq!(v6.to_canonical(), v6);
}
