//! The codec capability: paired encode/decode functions translating between
//! frames and raw datagram bytes.
//!
//! The wire format is the codec's business, not the adapter's. A codec must
//! interpret one whole datagram per decode call (no incremental state across
//! calls) and must append the complete wire bytes of one frame per encode
//! call; bytes produced by a successful encode must decode back to the same
//! frame. A small concrete codec, [`PingCodec`], lives here as well.

use vstd::prelude::*;

verus! {

/// A codec failure: a malformed datagram on decode, or an encode failure.
/// The code tells the codec's failure modes apart.
#[derive(Clone, Copy, PartialEq, Eq, Structural, Debug)]
pub struct CodecError {
    pub code: u64,
}

/// Paired encode/decode functions between frames and datagram bytes.
///
/// `enc_spec` and `dec_spec` say, at the specification level, what the
/// executable `encode` and `decode` return; `round_trip` is the law every
/// codec owes: a successful encode's bytes decode back to the same frame.
pub trait Codec: Sized {
    type Frame;

    /// The wire bytes of a frame, or the error `encode` fails with.
    spec fn enc_spec(&self, f: Self::Frame) -> Result<Seq<u8>, CodecError>;

    /// What one whole datagram decodes to: a frame, nothing (the datagram is
    /// ignorable), or a decode error.
    spec fn dec_spec(&self, bytes: Seq<u8>) -> Result<Option<Self::Frame>, CodecError>;

    /// The round-trip law: bytes produced by a successful encode decode back
    /// to the frame they were produced from.
    proof fn round_trip(&self, f: Self::Frame)
        ensures
            self.enc_spec(f) matches Ok(b)
                ==> self.dec_spec(b) == Ok::<Option<Self::Frame>, CodecError>(Some(f)),
    ;

    /// One frame travels as one datagram: a successful encode fits in
    /// [`MAX_DATAGRAM`] bytes.
    proof fn frame_fits(&self, f: Self::Frame)
        ensures
            self.enc_spec(f) matches Ok(b) ==> b.len() <= MAX_DATAGRAM,
    ;

    /// Produce the complete wire bytes for one frame.
    fn encode(&self, f: &Self::Frame) -> (r: Result<Vec<u8>, CodecError>)
        ensures
            match self.enc_spec(*f) {
                Ok(b) => r matches Ok(v) && v@ == b,
                Err(e) => r == Err::<Vec<u8>, CodecError>(e),
            },
    ;

    /// Interpret one whole datagram.
    fn decode(&self, bytes: &[u8]) -> (r: Result<Option<Self::Frame>, CodecError>)
        ensures
            r == self.dec_spec(bytes@),
    ;
}

/// The largest datagram the adapter exchanges with its driver: the
/// preallocated receive window. It covers the maximum possible UDP payload
/// under common configurations, and an encoded frame must fit in it, since
/// one frame travels as one datagram.
pub const MAX_DATAGRAM: usize = 65536;

/// Error code of [`PingCodec`]: the datagram is neither empty nor exactly
/// one frame long.
pub const BAD_LENGTH: u64 = 1;

/// A small fixed-size frame: a one-byte operation code and a 64-bit
/// identifier.
#[derive(Clone, Copy, PartialEq, Eq, Structural, Debug)]
pub struct PingFrame {
    pub op: u8,
    pub id: u64,
}

/// A concrete codec for [`PingFrame`]: nine wire bytes, the operation code
/// followed by the identifier in big-endian order. An empty datagram is
/// ignorable; any other length is malformed.
pub struct PingCodec;

/// The big-endian bytes of a 64-bit identifier.
pub open spec fn id_bytes(id: u64) -> Seq<u8> {
    seq![
        (id >> 56) as u8,
        (id >> 48) as u8,
        (id >> 40) as u8,
        (id >> 32) as u8,
        (id >> 24) as u8,
        (id >> 16) as u8,
        (id >> 8) as u8,
        id as u8,
    ]
}

/// The 64-bit identifier read back from eight big-endian bytes.
pub open spec fn id_of(b: Seq<u8>) -> u64
    recommends
        b.len() == 8,
{
    (((b[0] as u64) << 56) | ((b[1] as u64) << 48) | ((b[2] as u64) << 40)
        | ((b[3] as u64) << 32) | ((b[4] as u64) << 24) | ((b[5] as u64) << 16)
        | ((b[6] as u64) << 8) | (b[7] as u64))
}

/// Splitting an identifier into big-endian bytes and reassembling them gives
/// the identifier back.
pub proof fn lemma_id_round_trip(id: u64)
    ensures
        id_of(id_bytes(id)) == id,
{
    let b = id_bytes(id);
    assert((((((id >> 56) as u8) as u64) << 56) | ((((id >> 48) as u8) as u64) << 48)
        | ((((id >> 40) as u8) as u64) << 40) | ((((id >> 32) as u8) as u64) << 32)
        | ((((id >> 24) as u8) as u64) << 24) | ((((id >> 16) as u8) as u64) << 16)
        | ((((id >> 8) as u8) as u64) << 8) | ((id as u8) as u64)) == id) by (bit_vector);
}

impl Codec for PingCodec {
    type Frame = PingFrame;

    open spec fn enc_spec(&self, f: PingFrame) -> Result<Seq<u8>, CodecError> {
        Ok(seq![f.op] + id_bytes(f.id))
    }

    open spec fn dec_spec(&self, bytes: Seq<u8>) -> Result<Option<PingFrame>, CodecError> {
        if bytes.len() == 0 {
            Ok(None)
        } else if bytes.len() != 9 {
            Err(CodecError { code: BAD_LENGTH })
        } else {
            Ok(Some(PingFrame { op: bytes[0], id: id_of(bytes.subrange(1, 9)) }))
        }
    }

    proof fn frame_fits(&self, f: PingFrame) {
    }

    proof fn round_trip(&self, f: PingFrame) {
        let b = seq![f.op] + id_bytes(f.id);
        assert(b.len() == 9);
        assert(b.subrange(1, 9) =~= id_bytes(f.id));
        lemma_id_round_trip(f.id);
    }

    fn encode(&self, f: &PingFrame) -> (r: Result<Vec<u8>, CodecError>) {
        let mut v: Vec<u8> = Vec::new();
        v.push(f.op);
        v.push((f.id >> 56) as u8);
        v.push(#[verifier::truncate] ((f.id >> 48) as u8));
        v.push(#[verifier::truncate] ((f.id >> 40) as u8));
        v.push(#[verifier::truncate] ((f.id >> 32) as u8));
        v.push(#[verifier::truncate] ((f.id >> 24) as u8));
        v.push(#[verifier::truncate] ((f.id >> 16) as u8));
        v.push(#[verifier::truncate] ((f.id >> 8) as u8));
        v.push(#[verifier::truncate] (f.id as u8));
        proof {
            assert(v@ =~= seq![f.op] + id_bytes(f.id));
        }
        Ok(v)
    }

    fn decode(&self, bytes: &[u8]) -> (r: Result<Option<PingFrame>, CodecError>) {
        let n = bytes.len();
        if n == 0 {
            return Ok(None);
        }
        if n != 9 {
            return Err(CodecError { code: BAD_LENGTH });
        }
        let op = bytes[0];
        let id: u64 = ((bytes[1] as u64) << 56) | ((bytes[2] as u64) << 48)
            | ((bytes[3] as u64) << 40) | ((bytes[4] as u64) << 32)
            | ((bytes[5] as u64) << 24) | ((bytes[6] as u64) << 16)
            | ((bytes[7] as u64) << 8) | (bytes[8] as u64);
        proof {
            let t = bytes@.subrange(1, 9);
            assert(id == id_of(t));
        }
        Ok(Some(PingFrame { op, id }))
    }
}

} // verus!
