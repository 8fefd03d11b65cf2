//! The frame adapter: a unified producer/consumer of framed datagrams over
//! one exclusively-owned socket.
//!
//! The adapter owns the socket value but never touches it: the driver that
//! polls the adapter performs each non-blocking socket attempt (through
//! [`UdpFramed::get_mut`]) and hands the outcome back as a [`RecvEvent`] or
//! [`SendEvent`]. Every decision — buffer lifecycle, the flushed gate,
//! backpressure, and the send-fault eviction policy — is made here.
//!
//! Outbound, at most one frame is in flight: the `flushed` flag is the sole
//! gate, and a submission while a flush is still owed and would block is
//! handed back to the caller untouched. A hard send fault never ends the
//! stream; the targeted peer is evicted from the membership registry and the
//! adapter carries on. Inbound, each datagram is decoded exactly once and
//! the receive buffer is cleared immediately afterwards, so no datagram
//! content can leak into a later decode; a hard receive fault is terminal,
//! since a broken local socket is not a bad peer.

use vstd::prelude::*;
use vstd::slice::slice_to_vec;
use bytes::BytesMut;
use crate::addr::NetAddr;
use crate::buffer::{bm_view, bm_with_capacity, bm_clear, bm_extend, bm_slice};
use crate::codec::{Codec, CodecError, MAX_DATAGRAM};
use crate::registry::PeerRegistry;

verus! {

/// Preallocated capacity of the receive buffer: the full receive window.
pub const INITIAL_RD_CAPACITY: usize = 64 * 1024;

/// Preallocated capacity of the send buffer; it grows on demand.
pub const INITIAL_WR_CAPACITY: usize = 8 * 1024;

/// Outcome of one non-blocking receive attempt on the socket, as reported
/// by the driver.
pub enum RecvEvent {
    /// The socket was not ready: the inbound suspension point.
    Pending,
    /// One whole datagram of these bytes arrived from this source address.
    Datagram(Vec<u8>, NetAddr),
    /// A hard I/O error unrelated to readiness, with its OS error code.
    Fault(i32),
}

/// Outcome of one non-blocking send attempt on the socket, as reported by
/// the driver. It is consulted only while a flush is owed; with nothing
/// pending no attempt is made and the event is ignored.
#[derive(Clone, Copy, PartialEq, Eq, Structural, Debug)]
pub enum SendEvent {
    /// The socket was not ready: the outbound suspension point.
    Pending,
    /// The socket accepted the datagram and wrote this many bytes.
    Sent(usize),
    /// A hard I/O error unrelated to readiness, with its OS error code.
    Fault(i32),
}

/// Why the inbound path failed: the two failures a caller can see are kept
/// apart, because only the local one is terminal.
#[derive(Clone, Copy, PartialEq, Eq, Structural, Debug)]
pub enum RecvError {
    /// The codec rejected the datagram.
    Codec(CodecError),
    /// The local socket reported a hard fault: fatal for the stream.
    Socket(i32),
}

/// The produced item of one inbound poll.
#[derive(Debug)]
pub enum PollRecv<F> {
    /// Suspended: the socket was not ready.
    Pending,
    /// One receive attempt completed: a decoded frame with its source
    /// address, or nothing if the codec found the datagram ignorable.
    Ready(Option<(F, NetAddr)>),
}

/// The outcome of one flush poll.
#[derive(Clone, Copy, PartialEq, Eq, Structural, Debug)]
pub enum PollFlush {
    /// Suspended: the pending datagram could not be sent yet.
    Pending,
    /// Nothing is owed to the wire any more.
    Ready,
}

/// The outcome of submitting a frame.
#[derive(Debug)]
pub enum Submit<F> {
    /// The frame was encoded into the send buffer; a flush is now owed.
    Accepted,
    /// Backpressure: the previous frame is still unflushed and the send
    /// would block. The item is handed back; resubmit it later.
    NotReady(F, NetAddr),
}

/// A unified producer/consumer interface to an underlying datagram socket,
/// using a [`Codec`] to translate between raw datagrams and frames.
///
/// The adapter owns the socket exclusively; one adapter instance is the only
/// reader and writer of it. Send faults are not propagated: the offending
/// peer is removed from the injected [`PeerRegistry`] and the adapter stays
/// usable for every other peer.
pub struct UdpFramed<S, C: Codec, R: PeerRegistry> {
    /// The underlying socket, owned but driven from outside.
    pub socket: S,
    /// The codec translating between datagram bytes and frames.
    pub codec: C,
    /// Receive buffer: scratch space, cleared after every decode attempt.
    pub rd: BytesMut,
    /// Send buffer: the encoded form of the one not-yet-transmitted frame.
    pub wr: BytesMut,
    /// Destination of the next flush; overwritten by each submission.
    pub out_addr: NetAddr,
    /// True exactly when the send buffer is empty and nothing is owed.
    pub flushed: bool,
    /// The membership registry's remove-peer capability.
    pub node_state: R,
    /// The one frame in flight outbound, if any, with its destination.
    pub pending: Ghost<Option<(C::Frame, NetAddr)>>,
}

impl<S, C: Codec, R: PeerRegistry> UdpFramed<S, C, R> {
    /// The adapter's invariant: the receive buffer is empty between polls,
    /// and the flushed flag reflects send-buffer occupancy exactly — empty
    /// when flushed, holding precisely the encoding of the one pending
    /// frame, addressed by the destination slot, when not.
    pub open spec fn inv(&self) -> bool {
        &&& bm_view(self.rd) == Seq::<u8>::empty()
        &&& (self.flushed <==> self.pending@ is None)
        &&& (self.flushed ==> bm_view(self.wr) == Seq::<u8>::empty())
        &&& match self.pending@ {
            Some(p) => {
                &&& self.codec.enc_spec(p.0) == Ok::<Seq<u8>, CodecError>(bm_view(self.wr))
                &&& self.out_addr == p.1
            },
            None => true,
        }
    }

    /// How one flush poll relates the state after (`post`) to the state
    /// before (`pre`), given the socket event and the reported outcome:
    /// a no-op when already flushed; suspension leaves everything as it
    /// was; completion empties the send buffer whatever byte count the
    /// socket reported (a short datagram write is never retried); and a
    /// hard fault additionally hands exactly the canonical destination
    /// address to the registry — and nothing else ends up there.
    pub open spec fn flush_post(pre: Self, post: Self, ev: SendEvent, r: PollFlush) -> bool {
        &&& post.socket == pre.socket
        &&& post.codec == pre.codec
        &&& bm_view(post.rd) == bm_view(pre.rd)
        &&& post.out_addr == pre.out_addr
        &&& if pre.flushed {
            &&& r == PollFlush::Ready
            &&& post.flushed
            &&& post.pending == pre.pending
            &&& bm_view(post.wr) == bm_view(pre.wr)
            &&& post.node_state == pre.node_state
        } else {
            match ev {
                SendEvent::Pending => {
                    &&& r == PollFlush::Pending
                    &&& post.flushed == pre.flushed
                    &&& post.pending == pre.pending
                    &&& bm_view(post.wr) == bm_view(pre.wr)
                    &&& post.node_state == pre.node_state
                },
                SendEvent::Sent(n) => {
                    &&& r == PollFlush::Ready
                    &&& post.flushed
                    &&& post.pending@ is None
                    &&& bm_view(post.wr) == Seq::<u8>::empty()
                    &&& post.node_state == pre.node_state
                },
                SendEvent::Fault(code) => {
                    &&& r == PollFlush::Ready
                    &&& post.flushed
                    &&& post.pending@ is None
                    &&& bm_view(post.wr) == Seq::<u8>::empty()
                    &&& post.node_state.removed() == pre.node_state.removed().push(
                        pre.out_addr.canonical_spec(),
                    )
                },
            }
        }
    }

    /// Create a new adapter backed by the given socket and codec, with the
    /// registry's remove-peer capability injected.
    ///
    /// Buffers start at their preallocated capacities, the destination slot
    /// at the all-zero sentinel, and the flushed flag true: nothing pending.
    pub fn new(socket: S, codec: C, state: R) -> (t: UdpFramed<S, C, R>)
        ensures
            t.inv(),
            t.flushed,
            t.socket == socket,
            t.codec == codec,
            t.node_state == state,
            t.out_addr == (NetAddr::V4 { ip: 0u32, port: 0u16 }),
            bm_view(t.rd) == Seq::<u8>::empty(),
            bm_view(t.wr) == Seq::<u8>::empty(),
    {
        UdpFramed {
            socket,
            codec,
            rd: bm_with_capacity(INITIAL_RD_CAPACITY),
            wr: bm_with_capacity(INITIAL_WR_CAPACITY),
            out_addr: NetAddr::unspecified(),
            flushed: true,
            node_state: state,
            pending: Ghost(None),
        }
    }

    /// A reference to the underlying socket.
    ///
    /// Tampering with the socket while the adapter is being driven violates
    /// the exclusive-ownership contract and can corrupt the frame stream.
    pub fn get_ref(&self) -> (s: &S)
        ensures
            *s == self.socket,
    {
        &self.socket
    }

    /// A mutable reference to the underlying socket; the driver performs
    /// its non-blocking attempts through this.
    pub fn get_mut(&mut self) -> (s: &mut S)
        ensures
            *s == old(self).socket,
            final(self).socket == *final(s),
            final(self).codec == old(self).codec,
            final(self).rd == old(self).rd,
            final(self).wr == old(self).wr,
            final(self).out_addr == old(self).out_addr,
            final(self).flushed == old(self).flushed,
            final(self).node_state == old(self).node_state,
            final(self).pending == old(self).pending,
    {
        &mut self.socket
    }

    /// Consume the adapter, returning the underlying socket.
    pub fn into_inner(self) -> (s: S)
        ensures
            s == self.socket,
    {
        self.socket
    }

    /// The bytes owed to the wire: a copy of the send buffer's content.
    /// The driver sends exactly these to [`Self::dest`] when a flush is
    /// owed.
    pub fn wire_bytes(&self) -> (v: Vec<u8>)
        ensures
            v@ == bm_view(self.wr),
    {
        slice_to_vec(bm_slice(&self.wr))
    }

    /// The destination of the next flush.
    pub fn dest(&self) -> (a: NetAddr)
        ensures
            a == self.out_addr,
    {
        self.out_addr
    }

    /// Produce the next inbound item from the outcome of one non-blocking
    /// receive attempt.
    ///
    /// A datagram is decoded exactly once and the receive buffer is cleared
    /// immediately afterwards, whatever the decode's outcome, so one bad
    /// datagram cannot contaminate the next: everything but the (empty
    /// again) receive buffer is exactly as before, and what is returned
    /// depends on the event alone. A hard socket fault is terminal for the
    /// stream — the one inbound error that is surfaced rather than
    /// absorbed — and is kept distinct from a codec error.
    pub fn poll(&mut self, ev: RecvEvent) -> (r: Result<PollRecv<C::Frame>, RecvError>)
        requires
            old(self).inv(),
            ev matches RecvEvent::Datagram(d, a) ==> d@.len() <= MAX_DATAGRAM,
        ensures
            final(self).inv(),
            final(self).socket == old(self).socket,
            final(self).codec == old(self).codec,
            final(self).node_state == old(self).node_state,
            bm_view(final(self).wr) == bm_view(old(self).wr),
            final(self).out_addr == old(self).out_addr,
            final(self).flushed == old(self).flushed,
            final(self).pending == old(self).pending,
            bm_view(final(self).rd) == Seq::<u8>::empty(),
            match ev {
                RecvEvent::Pending => r == Ok::<PollRecv<C::Frame>, RecvError>(PollRecv::Pending),
                RecvEvent::Fault(code) => r == Err::<PollRecv<C::Frame>, RecvError>(
                    RecvError::Socket(code),
                ),
                RecvEvent::Datagram(d, a) => match old(self).codec.dec_spec(d@) {
                    Ok(Some(f)) => r == Ok::<PollRecv<C::Frame>, RecvError>(
                        PollRecv::Ready(Some((f, a))),
                    ),
                    Ok(None) => r == Ok::<PollRecv<C::Frame>, RecvError>(PollRecv::Ready(None)),
                    Err(e) => r == Err::<PollRecv<C::Frame>, RecvError>(RecvError::Codec(e)),
                },
            },
    {
        match ev {
            RecvEvent::Pending => Ok(PollRecv::Pending),
            RecvEvent::Fault(code) => Err(RecvError::Socket(code)),
            RecvEvent::Datagram(d, a) => {
                bm_extend(&mut self.rd, d.as_slice());
                let decoded = self.codec.decode(bm_slice(&self.rd));
                bm_clear(&mut self.rd);
                match decoded {
                    Ok(Some(frame)) => Ok(PollRecv::Ready(Some((frame, a)))),
                    Ok(None) => Ok(PollRecv::Ready(None)),
                    Err(e) => Err(RecvError::Codec(e)),
                }
            },
        }
    }

    /// Complete the outbound half: apply the outcome of the driver's
    /// non-blocking send of the buffered datagram.
    ///
    /// Already flushed: immediately ready, nothing consulted. Would-block
    /// suspends with everything untouched. A completed send empties the
    /// buffer and sets the flag whatever the byte count — a short write is
    /// an anomaly of the socket, not retried and not an error, because a
    /// datagram cannot be continued. A hard fault is the deliberate
    /// deviation from plain framing: it is absorbed, the canonical form of
    /// the targeted destination is handed to the registry's remove-peer
    /// capability (exactly once), and the adapter is left flushed so its
    /// caller is never stuck on one unreachable peer.
    pub fn poll_complete(&mut self, ev: SendEvent) -> (r: PollFlush)
        requires
            old(self).inv(),
        ensures
            final(self).inv(),
            Self::flush_post(*old(self), *final(self), ev, r),
    {
        if self.flushed {
            return PollFlush::Ready;
        }
        match ev {
            SendEvent::Pending => PollFlush::Pending,
            SendEvent::Sent(_n) => {
                bm_clear(&mut self.wr);
                self.flushed = true;
                self.pending = Ghost(None);
                PollFlush::Ready
            },
            SendEvent::Fault(_code) => {
                let peer = self.out_addr.to_canonical();
                self.node_state.remove_peer(peer);
                bm_clear(&mut self.wr);
                self.flushed = true;
                self.pending = Ghost(None);
                PollFlush::Ready
            },
        }
    }

    /// Submit a frame for sending.
    ///
    /// If the previous frame is still unflushed, the owed flush is applied
    /// first (from the given event); if it would block, the submission is
    /// rejected as [`Submit::NotReady`] with the item handed back untouched
    /// and the adapter unchanged — no frame is ever silently dropped, and
    /// at most one encoded frame occupies the send buffer. Once nothing is
    /// owed, the frame is encoded into the send buffer, the destination
    /// recorded, and the flushed flag cleared; an encode failure surfaces
    /// to the caller and leaves the buffer empty and nothing pending.
    pub fn start_send(&mut self, frame: C::Frame, dest: NetAddr, ev: SendEvent) -> (r: Result<
        Submit<C::Frame>,
        CodecError,
    >)
        requires
            old(self).inv(),
        ensures
            final(self).inv(),
            final(self).socket == old(self).socket,
            final(self).codec == old(self).codec,
            bm_view(final(self).rd) == bm_view(old(self).rd),
            if !old(self).flushed && ev is Pending {
                &&& r == Ok::<Submit<C::Frame>, CodecError>(Submit::NotReady(frame, dest))
                &&& final(self).flushed == old(self).flushed
                &&& final(self).pending == old(self).pending
                &&& bm_view(final(self).wr) == bm_view(old(self).wr)
                &&& final(self).out_addr == old(self).out_addr
                &&& final(self).node_state == old(self).node_state
            } else {
                &&& if !old(self).flushed && ev is Fault {
                    final(self).node_state.removed() == old(self).node_state.removed().push(
                        old(self).out_addr.canonical_spec(),
                    )
                } else {
                    final(self).node_state == old(self).node_state
                }
                &&& match old(self).codec.enc_spec(frame) {
                    Ok(b) => {
                        &&& r == Ok::<Submit<C::Frame>, CodecError>(Submit::Accepted)
                        &&& bm_view(final(self).wr) == b
                        &&& final(self).out_addr == dest
                        &&& !final(self).flushed
                        &&& final(self).pending@ == Some((frame, dest))
                    },
                    Err(e) => {
                        &&& r == Err::<Submit<C::Frame>, CodecError>(e)
                        &&& bm_view(final(self).wr) == Seq::<u8>::empty()
                        &&& final(self).flushed
                        &&& final(self).pending@ is None
                        &&& final(self).out_addr == old(self).out_addr
                    },
                }
            },
    {
        if !self.flushed {
            match self.poll_complete(ev) {
                PollFlush::Ready => {},
                PollFlush::Pending => {
                    return Ok(Submit::NotReady(frame, dest));
                },
            }
        }
        match self.codec.encode(&frame) {
            Ok(encoded) => {
                proof {
                    self.codec.frame_fits(frame);
                }
                bm_extend(&mut self.wr, encoded.as_slice());
                self.out_addr = dest;
                self.flushed = false;
                self.pending = Ghost(Some((frame, dest)));
                Ok(Submit::Accepted)
            },
            Err(e) => Err(e),
        }
    }

    /// Close the outbound half: one final flush attempt under the same
    /// suspension contract. The socket itself is not shut down; its
    /// lifetime is the adapter's.
    pub fn close(&mut self, ev: SendEvent) -> (r: PollFlush)
        requires
            old(self).inv(),
        ensures
            final(self).inv(),
            Self::flush_post(*old(self), *final(self), ev, r),
    {
        self.poll_complete(ev)
    }

    /// The flushed flag is an exact account of send-buffer occupancy: when
    /// it is set the buffer is empty, and when it is clear the buffer holds
    /// precisely the encoding of the one pending frame, addressed by the
    /// destination slot — never more than one frame at any instant.
    pub proof fn lemma_flushed_reflects_buffer(self)
        requires
            self.inv(),
        ensures
            self.flushed ==> bm_view(self.wr) == Seq::<u8>::empty(),
            !self.flushed ==> (self.pending@ matches Some(p) && self.codec.enc_spec(p.0)
                == Ok::<Seq<u8>, CodecError>(bm_view(self.wr)) && self.out_addr == p.1),
    {
    }

    /// Round trip through the adapter: while a frame is pending outbound,
    /// the exact bytes owed to the wire decode back to that very frame. A
    /// driver that sends them, receives them back (say over loopback), and
    /// polls the adapter with the arrived datagram is therefore handed the
    /// frame it submitted.
    pub proof fn lemma_round_trip(self)
        requires
            self.inv(),
            !self.flushed,
        ensures
            self.pending@ matches Some(p) ==> self.codec.dec_spec(bm_view(self.wr))
                == Ok::<Option<C::Frame>, CodecError>(Some(p.0)),
    {
        match self.pending@ {
            Some(p) => self.codec.round_trip(p.0),
            None => {},
        }
    }
}

} // verus!
