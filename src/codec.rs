//! Framing of messages on a byte stream: a 4-byte little-endian length `N`
//! followed by exactly `N` payload bytes.

use vstd::prelude::*;

verus! {

/// Largest payload a frame may carry (2^31 bytes).
pub const MAX_FRAME_LEN: u32 = 0x8000_0000;

/// Why a byte sequence is not a frame.
#[derive(Clone, Copy, Debug, PartialEq, Eq, Structural)]
pub enum FrameError {
    /// Fewer bytes than the length prefix announces (or no full prefix).
    Truncated,
    /// The announced or given payload is larger than `MAX_FRAME_LEN`.
    TooLarge,
    /// Bytes follow the announced payload.
    TrailingBytes,
}

/// Little-endian encoding of a 32-bit length.
pub open spec fn le_bytes(n: u32) -> Seq<u8> {
    seq![(n & 0xff) as u8, ((n >> 8) & 0xff) as u8, ((n >> 16) & 0xff) as u8, (n >> 24) as u8]
}

/// The 32-bit value held little-endian in four bytes.
pub open spec fn le_value(b0: u8, b1: u8, b2: u8, b3: u8) -> u32 {
    (b0 as u32) | ((b1 as u32) << 8) | ((b2 as u32) << 16) | ((b3 as u32) << 24)
}

/// The length announced by the prefix of `b` (which holds at least 4 bytes).
pub open spec fn announced_len(b: Seq<u8>) -> u32 {
    le_value(b[0], b[1], b[2], b[3])
}

/// The frame that carries `payload`.
pub open spec fn frame_of(payload: Seq<u8>) -> Seq<u8> {
    le_bytes(payload.len() as u32) + payload
}

pub proof fn lemma_le_round_trip(n: u32)
    ensures
        le_value(le_bytes(n)[0], le_bytes(n)[1], le_bytes(n)[2], le_bytes(n)[3]) == n,
{
    let b0 = (n & 0xff) as u8;
    let b1 = ((n >> 8) & 0xff) as u8;
    let b2 = ((n >> 16) & 0xff) as u8;
    let b3 = (n >> 24) as u8;
    assert(((b0 as u32) | ((b1 as u32) << 8) | ((b2 as u32) << 16) | ((b3 as u32) << 24)) == n)
        by (bit_vector)
        requires
            b0 == (n & 0xff) as u8,
            b1 == ((n >> 8) & 0xff) as u8,
            b2 == ((n >> 16) & 0xff) as u8,
            b3 == (n >> 24) as u8,
    ;
}

/// Wraps `payload` into a frame; a payload over `MAX_FRAME_LEN` is refused.
pub fn encode_frame(payload: &[u8]) -> (r: Result<Vec<u8>, FrameError>)
    ensures
        payload@.len() <= MAX_FRAME_LEN ==> r == Ok::<Vec<u8>, FrameError>(r->Ok_0)
            && r->Ok_0@ == frame_of(payload@),
        payload@.len() > MAX_FRAME_LEN ==> r == Err::<Vec<u8>, FrameError>(FrameError::TooLarge),
{
    if payload.len() > MAX_FRAME_LEN as usize {
        return Err(FrameError::TooLarge);
    }
    let n: u32 = payload.len() as u32;
    let mut out: Vec<u8> = Vec::new();
    out.push((n & 0xff) as u8);
    out.push(((n >> 8) & 0xff) as u8);
    out.push(((n >> 16) & 0xff) as u8);
    out.push((n >> 24) as u8);
    let mut i: usize = 0;
    while i < payload.len()
        invariant
            i <= payload@.len(),
            out@ == le_bytes(n) + payload@.subrange(0, i as int),
        decreases payload@.len() - i,
    {
        out.push(payload[i]);
        i += 1;
        assert(out@ =~= le_bytes(n) + payload@.subrange(0, i as int));
    }
    assert(payload@.subrange(0, payload@.len() as int) =~= payload@);
    Ok(out)
}

/// Reads the payload length from a 4-byte prefix.
pub fn decode_frame_len(prefix: &[u8]) -> (r: Result<u32, FrameError>)
    ensures
        prefix@.len() < 4 ==> r == Err::<u32, FrameError>(FrameError::Truncated),
        prefix@.len() >= 4 && announced_len(prefix@) > MAX_FRAME_LEN ==> r == Err::<
            u32,
            FrameError,
        >(FrameError::TooLarge),
        prefix@.len() >= 4 && announced_len(prefix@) <= MAX_FRAME_LEN ==> r == Ok::<
            u32,
            FrameError,
        >(announced_len(prefix@)),
{
    if prefix.len() < 4 {
        return Err(FrameError::Truncated);
    }
    let n: u32 = (prefix[0] as u32) | ((prefix[1] as u32) << 8) | ((prefix[2] as u32) << 16) | ((
    prefix[3] as u32) << 24);
    if n > MAX_FRAME_LEN {
        Err(FrameError::TooLarge)
    } else {
        Ok(n)
    }
}

/// Whether `b` is exactly one frame.
pub open spec fn is_frame(b: Seq<u8>) -> bool {
    b.len() >= 4 && announced_len(b) <= MAX_FRAME_LEN && b.len() == 4 + announced_len(b)
}

/// Extracts the payload of a frame that occupies all of `bytes`.
pub fn decode_frame(bytes: &[u8]) -> (r: Result<Vec<u8>, FrameError>)
    ensures
        is_frame(bytes@) ==> r == Ok::<Vec<u8>, FrameError>(r->Ok_0) && r->Ok_0@
            == bytes@.subrange(4, bytes@.len() as int),
        bytes@.len() < 4 ==> r == Err::<Vec<u8>, FrameError>(FrameError::Truncated),
        bytes@.len() >= 4 && announced_len(bytes@) > MAX_FRAME_LEN ==> r == Err::<
            Vec<u8>,
            FrameError,
        >(FrameError::TooLarge),
        bytes@.len() >= 4 && announced_len(bytes@) <= MAX_FRAME_LEN && bytes@.len() < 4
            + announced_len(bytes@) ==> r == Err::<Vec<u8>, FrameError>(FrameError::Truncated),
        bytes@.len() >= 4 && announced_len(bytes@) <= MAX_FRAME_LEN && bytes@.len() > 4
            + announced_len(bytes@) ==> r == Err::<Vec<u8>, FrameError>(FrameError::TrailingBytes),
{
    let n = match decode_frame_len(bytes) {
        Ok(n) => n,
        Err(e) => return Err(e),
    };
    let total: usize = bytes.len();
    if total - 4 < n as usize {
        return Err(FrameError::Truncated);
    }
    if total - 4 > n as usize {
        return Err(FrameError::TrailingBytes);
    }
    let mut out: Vec<u8> = Vec::new();
    let mut i: usize = 4;
    while i < total
        invariant
            4 <= i <= total,
            total == bytes@.len(),
            out@ == bytes@.subrange(4, i as int),
        decreases total - i,
    {
        out.push(bytes[i]);
        i += 1;
        assert(out@ =~= bytes@.subrange(4, i as int));
    }
    Ok(out)
}

/// Framing loses nothing: the frame of a payload decodes to that payload.
pub proof fn lemma_frame_round_trip(payload: Seq<u8>)
    requires
        payload.len() <= MAX_FRAME_LEN,
    ensures
        is_frame(frame_of(payload)),
        frame_of(payload).subrange(4, frame_of(payload).len() as int) == payload,
{
    let n = payload.len() as u32;
    lemma_le_round_trip(n);
    let f = frame_of(payload);
    assert(f[0] == le_bytes(n)[0] && f[1] == le_bytes(n)[1] && f[2] == le_bytes(n)[2] && f[3]
        == le_bytes(n)[3]);
    assert(f.subrange(4, f.len() as int) =~= payload);
}

} // verus!
