//! The wire codec: fixed-width, little-endian, no framing.
//!
//! One record is 28 bytes: the six vector components as the little-endian
//! bytes of their IEEE-754 bit patterns (position, then view angle), followed
//! by the action's 4-byte discriminant. A full snapshot is 456 bytes: an
//! 8-byte little-endian element count (always 16) followed by the sixteen
//! records in slot order.
//!
//! Decoding never interprets the floats and validates the discriminant by
//! falling back to `Stand`, so an undersized buffer is the only malformed
//! input; the caller treats that as "no usable data this round".

use vstd::prelude::*;

use vstd::bytes::lemma_auto_spec_u32_to_from_le_bytes;
use vstd::bytes::lemma_auto_spec_u64_to_from_le_bytes;
use vstd::bytes::spec_u32_from_le_bytes;
use vstd::bytes::spec_u32_to_le_bytes;
use vstd::bytes::spec_u64_from_le_bytes;
use vstd::bytes::spec_u64_to_le_bytes;
use vstd::bytes::u32_from_le_bytes;
use vstd::bytes::u32_to_le_bytes;
use vstd::bytes::u64_from_le_bytes;
use vstd::bytes::u64_to_le_bytes;
use vstd::slice::slice_subrange;

use crate::shared::{action_code, action_from_code, Action, PlayerInfo, SerializableVector3};

verus! {

/// Why a received buffer yielded no usable data.
#[derive(Clone, Copy, Debug, PartialEq, Eq, Structural)]
pub enum CodecError {
    /// The buffer is too short for the expected shape, or its element count
    /// is not the fixed slot count.
    Malformed,
}

/// The 12-byte encoding of one vector: each component's bit pattern in
/// little-endian byte order.
pub open spec fn spec_encode_vector3(v: SerializableVector3) -> Seq<u8> {
    spec_u32_to_le_bytes(v.x) + spec_u32_to_le_bytes(v.y) + spec_u32_to_le_bytes(v.z)
}

/// The vector a 12-byte chunk stands for.
pub open spec fn spec_decode_vector3(b: Seq<u8>) -> SerializableVector3
    recommends
        b.len() == 12,
{
    SerializableVector3 {
        x: spec_u32_from_le_bytes(b.subrange(0, 4)),
        y: spec_u32_from_le_bytes(b.subrange(4, 8)),
        z: spec_u32_from_le_bytes(b.subrange(8, 12)),
    }
}

/// The 28-byte encoding of one record: position, view angle, discriminant.
pub open spec fn spec_encode_record(p: PlayerInfo) -> Seq<u8> {
    spec_encode_vector3(p.position) + spec_encode_vector3(p.viewangle) + spec_u32_to_le_bytes(
        action_code(p.action),
    )
}

/// A buffer decodes as a record exactly when it holds at least one full
/// record; trailing bytes are ignored, as the receive buffers are fixed.
pub open spec fn spec_decode_record_ok(b: Seq<u8>) -> bool {
    b.len() >= 28
}

/// The record a buffer stands for. Out-of-range discriminants fall back to
/// `Stand` rather than being rejected.
pub open spec fn spec_decode_record(b: Seq<u8>) -> PlayerInfo
    recommends
        spec_decode_record_ok(b),
{
    PlayerInfo {
        position: spec_decode_vector3(b.subrange(0, 12)),
        viewangle: spec_decode_vector3(b.subrange(12, 24)),
        action: action_from_code(spec_u32_from_le_bytes(b.subrange(24, 28))),
    }
}

/// The records of a snapshot, concatenated in slot order.
pub open spec fn spec_encode_records(s: Seq<PlayerInfo>) -> Seq<u8>
    decreases s.len(),
{
    if s.len() == 0 {
        Seq::empty()
    } else {
        spec_encode_record(s[0]) + spec_encode_records(s.subrange(1, s.len() as int))
    }
}

/// The 456-byte encoding of a full snapshot: the element count, then the
/// sixteen records.
pub open spec fn spec_encode_array(s: Seq<PlayerInfo>) -> Seq<u8> {
    spec_u64_to_le_bytes(s.len() as u64) + spec_encode_records(s)
}

/// A buffer decodes as a snapshot exactly when it holds the full fixed-size
/// array and its element count is the slot count.
pub open spec fn spec_decode_array_ok(b: Seq<u8>) -> bool {
    b.len() >= 456 && spec_u64_from_le_bytes(b.subrange(0, 8)) == 16
}

/// The sixteen records a snapshot buffer stands for.
pub open spec fn spec_decode_array(b: Seq<u8>) -> Seq<PlayerInfo>
    recommends
        spec_decode_array_ok(b),
{
    Seq::new(16, |i: int| spec_decode_record(b.subrange(8 + 28 * i, 36 + 28 * i)))
}

/// Append the little-endian bytes of one component.
fn push_u32_le(out: &mut Vec<u8>, v: u32)
    ensures
        final(out)@ == old(out)@ + spec_u32_to_le_bytes(v),
{
    let mut bytes = u32_to_le_bytes(v);
    out.append(&mut bytes);
}

/// Append the 12-byte encoding of one vector.
fn push_vector3(out: &mut Vec<u8>, v: &SerializableVector3)
    ensures
        final(out)@ == old(out)@ + spec_encode_vector3(*v),
{
    push_u32_le(out, v.x);
    push_u32_le(out, v.y);
    push_u32_le(out, v.z);
    proof {
        assert(out@ =~= old(out)@ + spec_encode_vector3(*v));
    }
}

/// Encode one record into its fixed 28-byte form.
pub fn encode_player_info(p: &PlayerInfo) -> (out: Vec<u8>)
    ensures
        out@ == spec_encode_record(*p),
        out@.len() == 28,
{
    let mut out: Vec<u8> = Vec::new();
    push_vector3(&mut out, &p.position);
    push_vector3(&mut out, &p.viewangle);
    push_u32_le(&mut out, p.action.code());
    proof {
        lemma_auto_spec_u32_to_from_le_bytes();
        assert(out@ =~= spec_encode_record(*p));
    }
    out
}

/// Read one little-endian component at `offset`.
fn read_u32_le(b: &[u8], offset: usize) -> (v: u32)
    requires
        offset + 4 <= b@.len(),
    ensures
        v == spec_u32_from_le_bytes(b@.subrange(offset as int, offset as int + 4)),
{
    let len = b.len();
    u32_from_le_bytes(slice_subrange(b, offset, offset + 4))
}

/// Decode one record from a received buffer. Fails exactly when the buffer
/// is shorter than one encoded record; trailing bytes are ignored.
pub fn decode_player_info(b: &[u8]) -> (r: Result<PlayerInfo, CodecError>)
    ensures
        match r {
            Ok(p) => spec_decode_record_ok(b@) && p == spec_decode_record(b@),
            Err(e) => !spec_decode_record_ok(b@) && e == CodecError::Malformed,
        },
{
    if b.len() < 28 {
        return Err(CodecError::Malformed);
    }
    let p = PlayerInfo {
        position: SerializableVector3 {
            x: read_u32_le(b, 0),
            y: read_u32_le(b, 4),
            z: read_u32_le(b, 8),
        },
        viewangle: SerializableVector3 {
            x: read_u32_le(b, 12),
            y: read_u32_le(b, 16),
            z: read_u32_le(b, 20),
        },
        action: Action::from_code(read_u32_le(b, 24)),
    };
    proof {
        assert(b@.subrange(0, 12).subrange(0, 4) =~= b@.subrange(0, 4));
        assert(b@.subrange(0, 12).subrange(4, 8) =~= b@.subrange(4, 8));
        assert(b@.subrange(0, 12).subrange(8, 12) =~= b@.subrange(8, 12));
        assert(b@.subrange(12, 24).subrange(0, 4) =~= b@.subrange(12, 16));
        assert(b@.subrange(12, 24).subrange(4, 8) =~= b@.subrange(16, 20));
        assert(b@.subrange(12, 24).subrange(8, 12) =~= b@.subrange(20, 24));
        assert(p == spec_decode_record(b@));
    }
    Ok(p)
}

/// One record encodes to exactly 28 bytes.
pub proof fn lemma_record_size(p: PlayerInfo)
    ensures
        spec_encode_record(p).len() == 28,
{
    lemma_auto_spec_u32_to_from_le_bytes();
}

/// Concatenated record encodings grow one record at a time.
proof fn lemma_records_push(s: Seq<PlayerInfo>, p: PlayerInfo)
    ensures
        spec_encode_records(s.push(p)) == spec_encode_records(s) + spec_encode_record(p),
    decreases s.len(),
{
    if s.len() == 0 {
        assert(s.push(p)[0] == p);
        assert(s.push(p).subrange(1, 1) =~= Seq::<PlayerInfo>::empty());
        assert(spec_encode_records(Seq::<PlayerInfo>::empty()) == Seq::<u8>::empty());
        assert(s =~= Seq::<PlayerInfo>::empty());
        assert(spec_encode_records(s.push(p)) == spec_encode_record(p) + Seq::<u8>::empty());
        assert(spec_encode_record(p) + Seq::<u8>::empty() =~= Seq::<u8>::empty()
            + spec_encode_record(p));
    } else {
        let rest = s.subrange(1, s.len() as int);
        assert(s.push(p)[0] == s[0]);
        assert(s.push(p).subrange(1, s.len() as int + 1) =~= rest.push(p));
        lemma_records_push(rest, p);
        assert(spec_encode_record(s[0]) + (spec_encode_records(rest) + spec_encode_record(p)) =~= (
        spec_encode_record(s[0]) + spec_encode_records(rest)) + spec_encode_record(p));
        assert(spec_encode_records(s.push(p)) == spec_encode_records(s) + spec_encode_record(p));
    }
}

/// Sixteen records encode to 28 bytes each.
proof fn lemma_records_len(s: Seq<PlayerInfo>)
    ensures
        spec_encode_records(s).len() == 28 * s.len(),
    decreases s.len(),
{
    if s.len() == 0 {
    } else {
        lemma_record_size(s[0]);
        lemma_records_len(s.subrange(1, s.len() as int));
    }
}

/// Record `i` of a concatenated encoding sits at byte offset `28 * i`.
proof fn lemma_records_index(s: Seq<PlayerInfo>, i: int)
    requires
        0 <= i < s.len(),
    ensures
        spec_encode_records(s).subrange(28 * i, 28 * i + 28) == spec_encode_record(s[i]),
    decreases i,
{
    lemma_records_len(s);
    lemma_record_size(s[0]);
    let rest = s.subrange(1, s.len() as int);
    lemma_records_len(rest);
    if i == 0 {
        assert(spec_encode_records(s).subrange(0, 28) =~= spec_encode_record(s[0]));
    } else {
        lemma_records_index(rest, i - 1);
        assert(spec_encode_records(s).subrange(28 * i, 28 * i + 28) =~= spec_encode_records(
            rest,
        ).subrange(28 * (i - 1), 28 * (i - 1) + 28));
    }
}

/// Encode a full snapshot into its fixed 456-byte form.
pub fn encode_player_array(records: &Vec<PlayerInfo>) -> (out: Vec<u8>)
    requires
        records@.len() == 16,
    ensures
        out@ == spec_encode_array(records@),
        out@.len() == 456,
{
    let mut out: Vec<u8> = Vec::new();
    let mut prefix = u64_to_le_bytes(16u64);
    out.append(&mut prefix);
    proof {
        assert(records@.subrange(0, 0) =~= Seq::<PlayerInfo>::empty());
        assert(out@ =~= spec_u64_to_le_bytes(16u64) + spec_encode_records(records@.subrange(0, 0)));
    }
    let mut i: usize = 0;
    while i < 16
        invariant
            i <= 16,
            records@.len() == 16,
            out@ == spec_u64_to_le_bytes(16u64) + spec_encode_records(
                records@.subrange(0, i as int),
            ),
        decreases 16 - i,
    {
        let mut rec = encode_player_info(&records[i]);
        out.append(&mut rec);
        proof {
            assert(records@.subrange(0, i as int).push(records@[i as int]) =~= records@.subrange(
                0,
                i + 1,
            ));
            lemma_records_push(records@.subrange(0, i as int), records@[i as int]);
            assert(out@ =~= spec_u64_to_le_bytes(16u64) + spec_encode_records(
                records@.subrange(0, i + 1),
            ));
        }
        i = i + 1;
    }
    proof {
        assert(records@.subrange(0, 16) =~= records@);
        lemma_records_len(records@);
        lemma_auto_spec_u64_to_from_le_bytes();
    }
    out
}

/// Decode a full snapshot from a received buffer. Fails exactly when the
/// buffer is shorter than one encoded snapshot or its element count is not
/// the slot count; trailing bytes are ignored.
pub fn decode_player_array(b: &[u8]) -> (r: Result<Vec<PlayerInfo>, CodecError>)
    ensures
        match r {
            Ok(v) => spec_decode_array_ok(b@) && v@ == spec_decode_array(b@) && v@.len() == 16,
            Err(e) => !spec_decode_array_ok(b@) && e == CodecError::Malformed,
        },
{
    if b.len() < 456 {
        return Err(CodecError::Malformed);
    }
    let count = u64_from_le_bytes(slice_subrange(b, 0, 8));
    if count != 16 {
        return Err(CodecError::Malformed);
    }
    let mut records: Vec<PlayerInfo> = Vec::new();
    let mut i: usize = 0;
    while i < 16
        invariant
            i <= 16,
            b@.len() >= 456,
            records@.len() == i,
            forall|j: int|
                0 <= j < i ==> records@[j] == spec_decode_record(
                    b@.subrange(8 + 28 * j, 36 + 28 * j),
                ),
        decreases 16 - i,
    {
        let chunk = slice_subrange(b, 8 + 28 * i, 36 + 28 * i);
        match decode_player_info(chunk) {
            Ok(rec) => records.push(rec),
            Err(_) => {
                proof {
                    assert(false);
                }
                return Err(CodecError::Malformed);
            },
        }
        i = i + 1;
    }
    proof {
        assert(records@ =~= spec_decode_array(b@));
    }
    Ok(records)
}

/// Round trip for one record: decoding an encoding yields the record back,
/// for every record value.
pub proof fn lemma_record_round_trip(p: PlayerInfo)
    ensures
        spec_decode_record_ok(spec_encode_record(p)),
        spec_decode_record(spec_encode_record(p)) == p,
{
    lemma_auto_spec_u32_to_from_le_bytes();
    let e = spec_encode_record(p);
    assert(e.subrange(0, 12).subrange(0, 4) =~= spec_u32_to_le_bytes(p.position.x));
    assert(e.subrange(0, 12).subrange(4, 8) =~= spec_u32_to_le_bytes(p.position.y));
    assert(e.subrange(0, 12).subrange(8, 12) =~= spec_u32_to_le_bytes(p.position.z));
    assert(e.subrange(12, 24).subrange(0, 4) =~= spec_u32_to_le_bytes(p.viewangle.x));
    assert(e.subrange(12, 24).subrange(4, 8) =~= spec_u32_to_le_bytes(p.viewangle.y));
    assert(e.subrange(12, 24).subrange(8, 12) =~= spec_u32_to_le_bytes(p.viewangle.z));
    assert(e.subrange(24, 28) =~= spec_u32_to_le_bytes(action_code(p.action)));
    assert(action_from_code(action_code(p.action)) == p.action);
}

/// Round trip for a full snapshot: decoding an encoding yields the sixteen
/// records back, for every snapshot.
pub proof fn lemma_array_round_trip(s: Seq<PlayerInfo>)
    requires
        s.len() == 16,
    ensures
        spec_decode_array_ok(spec_encode_array(s)),
        spec_decode_array(spec_encode_array(s)) == s,
{
    lemma_auto_spec_u64_to_from_le_bytes();
    lemma_records_len(s);
    let e = spec_encode_array(s);
    assert(e.subrange(0, 8) =~= spec_u64_to_le_bytes(16u64));
    assert forall|i: int| 0 <= i < 16 implies spec_decode_array(e)[i] == s[i] by {
        lemma_records_index(s, i);
        assert(e.subrange(8 + 28 * i, 36 + 28 * i) =~= spec_encode_records(s).subrange(
            28 * i,
            28 * i + 28,
        ));
        lemma_record_round_trip(s[i]);
    }
    assert(spec_decode_array(e) =~= s);
}

} // verus!
