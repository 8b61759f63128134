//! Framing of the wire protocol: every message travels as a four-byte
//! big-endian length followed by that many bytes of envelope.
//!
//! What the envelope holds is not this module's business: it frames bytes
//! and takes frames apart.

use vstd::prelude::*;
use vstd::slice::{slice_subrange, slice_to_vec};

verus! {

/// The number of bytes of the length prefix.
pub const PREFIX_LEN: usize = 4;

/// The longest envelope that a frame can hold: its length must fit the prefix.
pub const MAX_ENVELOPE_LEN: usize = 0xFFFF_FFFF;

/// The four bytes that stand for `len`, most significant first.
pub open spec fn length_prefix(len: nat) -> Seq<u8> {
    seq![
        ((len / 0x100_0000) % 0x100) as u8,
        ((len / 0x1_0000) % 0x100) as u8,
        ((len / 0x100) % 0x100) as u8,
        (len % 0x100) as u8,
    ]
}

/// The length that the first four bytes of `bytes` stand for.
pub open spec fn prefixed_length(bytes: Seq<u8>) -> nat {
    (bytes[0] * 0x100_0000 + bytes[1] * 0x1_0000 + bytes[2] * 0x100 + bytes[3]) as nat
}

/// The frame of `envelope`: its length prefix, then the envelope itself.
pub open spec fn framed(envelope: Seq<u8>) -> Seq<u8> {
    length_prefix(envelope.len()) + envelope
}

/// `bytes` begins with a whole frame: the prefix and as many bytes as it announces.
pub open spec fn holds_frame(bytes: Seq<u8>) -> bool {
    bytes.len() >= PREFIX_LEN && bytes.len() >= PREFIX_LEN + prefixed_length(bytes)
}

/// The envelope of the frame that `bytes` begins with.
pub open spec fn first_envelope(bytes: Seq<u8>) -> Seq<u8> {
    bytes.subrange(PREFIX_LEN as int, PREFIX_LEN + prefixed_length(bytes))
}

/// What follows the frame that `bytes` begins with.
pub open spec fn after_frame(bytes: Seq<u8>) -> Seq<u8> {
    bytes.subrange(PREFIX_LEN + prefixed_length(bytes), bytes.len() as int)
}

/// The prefix of a length that fits it stands for that length.
pub proof fn lemma_prefix_round_trip(len: nat)
    requires
        len <= MAX_ENVELOPE_LEN,
    ensures
        length_prefix(len).len() == PREFIX_LEN,
        prefixed_length(length_prefix(len)) == len,
{
}

/// Round trip: a frame, whatever follows it, begins with a whole frame
/// whose envelope is the one that was framed, and what follows is left over.
pub proof fn lemma_frame_round_trip(envelope: Seq<u8>, rest: Seq<u8>)
    requires
        envelope.len() <= MAX_ENVELOPE_LEN,
    ensures
        holds_frame(framed(envelope) + rest),
        first_envelope(framed(envelope) + rest) == envelope,
        after_frame(framed(envelope) + rest) == rest,
{
    lemma_prefix_round_trip(envelope.len());
    let bytes = framed(envelope) + rest;
    assert(bytes[0] == length_prefix(envelope.len())[0]);
    assert(bytes[1] == length_prefix(envelope.len())[1]);
    assert(bytes[2] == length_prefix(envelope.len())[2]);
    assert(bytes[3] == length_prefix(envelope.len())[3]);
    assert(prefixed_length(bytes) == envelope.len());
    assert(first_envelope(bytes) =~= envelope);
    assert(after_frame(bytes) =~= rest);
}

/// A frame is never whole before its last byte: no proper beginning of a
/// frame holds a whole frame, so that a short read is always noticed.
pub proof fn lemma_short_read_is_noticed(envelope: Seq<u8>, len: int)
    requires
        envelope.len() <= MAX_ENVELOPE_LEN,
        0 <= len < framed(envelope).len(),
    ensures
        !holds_frame(framed(envelope).subrange(0, len)),
{
    lemma_prefix_round_trip(envelope.len());
    let whole = framed(envelope);
    let part = whole.subrange(0, len);
    if len >= PREFIX_LEN {
        assert(part[0] == length_prefix(envelope.len())[0]);
        assert(part[1] == length_prefix(envelope.len())[1]);
        assert(part[2] == length_prefix(envelope.len())[2]);
        assert(part[3] == length_prefix(envelope.len())[3]);
        assert(prefixed_length(part) == envelope.len());
    }
}

/// The frame of `envelope`, or `None` for an envelope too long to be framed.
pub fn frame(envelope: &[u8]) -> (out: Option<Vec<u8>>)
    ensures
        envelope@.len() <= MAX_ENVELOPE_LEN ==> (out matches Some(bytes) && bytes@ == framed(
            envelope@,
        )),
        envelope@.len() > MAX_ENVELOPE_LEN ==> out is None,
{
    let len: usize = envelope.len();
    if len > MAX_ENVELOPE_LEN {
        return None;
    }
    let mut bytes: Vec<u8> = Vec::new();
    bytes.push(((len / 0x100_0000) % 0x100) as u8);
    bytes.push(((len / 0x1_0000) % 0x100) as u8);
    bytes.push(((len / 0x100) % 0x100) as u8);
    bytes.push((len % 0x100) as u8);
    assert(bytes@ =~= length_prefix(len as nat));
    let mut i: usize = 0;
    while i < len
        invariant
            len == envelope@.len(),
            i <= len,
            bytes@ == length_prefix(len as nat) + envelope@.subrange(0, i as int),
        decreases len - i,
    {
        bytes.push(envelope[i]);
        i = i + 1;
        assert(bytes@ =~= length_prefix(len as nat) + envelope@.subrange(0, i as int));
    }
    assert(envelope@.subrange(0, len as int) =~= envelope@);
    Some(bytes)
}

/// The length of the envelope that the length prefix `prefix` announces.
pub fn frame_length(prefix: &[u8; 4]) -> (out: u32)
    ensures
        out == prefixed_length(prefix@),
{
    let b0: u32 = prefix[0] as u32;
    let b1: u32 = prefix[1] as u32;
    let b2: u32 = prefix[2] as u32;
    let b3: u32 = prefix[3] as u32;
    b0 * 0x100_0000 + b1 * 0x1_0000 + b2 * 0x100 + b3
}

/// Takes the first frame off `bytes`: its envelope and the number of bytes
/// that the frame takes up, or `None` where `bytes` does not hold a whole
/// frame yet.
pub fn split_frame(bytes: &[u8]) -> (out: Option<(Vec<u8>, usize)>)
    ensures
        holds_frame(bytes@) ==> (out matches Some(taken) && taken.0@ == first_envelope(bytes@)
            && taken.1 == PREFIX_LEN + prefixed_length(bytes@)),
        !holds_frame(bytes@) ==> out is None,
{
    if bytes.len() < PREFIX_LEN {
        return None;
    }
    let b0: u64 = bytes[0] as u64;
    let b1: u64 = bytes[1] as u64;
    let b2: u64 = bytes[2] as u64;
    let b3: u64 = bytes[3] as u64;
    let announced: u64 = b0 * 0x100_0000 + b1 * 0x1_0000 + b2 * 0x100 + b3;
    let available: usize = bytes.len() - PREFIX_LEN;
    if announced > available as u64 {
        return None;
    }
    let end: usize = PREFIX_LEN + announced as usize;
    Some((slice_to_vec(slice_subrange(bytes, PREFIX_LEN, end)), end))
}

} // verus!
