//! The wire frame: a fixed 108-byte little-endian snapshot of the four
//! slots, two header fields followed by four 26-byte records.

use crate::controller::{type_tag_spec, Controller};
use vstd::prelude::*;

verus! {

/// Magic constant opening every frame; the remote refuses frames without it.
pub const MAGIC: u16 = 0x3276;

/// Total size of one encoded frame in bytes.
pub const FRAME_LEN: usize = 108;

/// Little-endian bytes of a 16-bit value.
pub open spec fn le16(v: u16) -> Seq<u8> {
    seq![(v & 0xff) as u8, ((v >> 8) & 0xff) as u8]
}

/// Little-endian bytes of a 32-bit value.
pub open spec fn le32(v: u32) -> Seq<u8> {
    seq![
        (v & 0xff) as u8,
        ((v >> 8) & 0xff) as u8,
        ((v >> 16) & 0xff) as u8,
        ((v >> 24) & 0xff) as u8,
    ]
}

/// Little-endian bytes of a 64-bit value.
pub open spec fn le64(v: u64) -> Seq<u8> {
    seq![
        (v & 0xff) as u8,
        ((v >> 8) & 0xff) as u8,
        ((v >> 16) & 0xff) as u8,
        ((v >> 24) & 0xff) as u8,
        ((v >> 32) & 0xff) as u8,
        ((v >> 40) & 0xff) as u8,
        ((v >> 48) & 0xff) as u8,
        ((v >> 56) & 0xff) as u8,
    ]
}

/// Little-endian bytes of a signed 32-bit value (two's complement).
pub open spec fn le32i(v: i32) -> Seq<u8> {
    le32(v as u32)
}

/// The 26 bytes one slot contributes: type tag, button mask, then the four
/// stick coordinates; an empty slot contributes 26 zero bytes.
pub open spec fn record_spec(p: Option<Controller>) -> Seq<u8> {
    match p {
        None => le16(0) + le64(0) + le32(0) + le32(0) + le32(0) + le32(0),
        Some(c) => le16(type_tag_spec(c.type_)) + le64(c.keys) + le32i(c.joy_left.x) + le32i(
            c.joy_left.y,
        ) + le32i(c.joy_right.x) + le32i(c.joy_right.y),
    }
}

/// How many of the four slots are occupied.
pub open spec fn active_count(pads: Seq<Option<Controller>>) -> int {
    (if pads[0] is Some {
        1int
    } else {
        0int
    }) + (if pads[1] is Some {
        1int
    } else {
        0int
    }) + (if pads[2] is Some {
        1int
    } else {
        0int
    }) + (if pads[3] is Some {
        1int
    } else {
        0int
    })
}

/// The full 108-byte frame: magic, active-slot count, then all four records
/// in fixed slot order, occupied or not.
pub open spec fn frame_spec(pads: Seq<Option<Controller>>) -> Seq<u8> {
    le16(MAGIC) + le16(active_count(pads) as u16) + record_spec(pads[0]) + record_spec(pads[1])
        + record_spec(pads[2]) + record_spec(pads[3])
}

/// Appends a 16-bit value in little-endian order.
fn push_u16_le(buf: &mut Vec<u8>, v: u16)
    ensures
        final(buf)@ == old(buf)@ + le16(v),
{
    proof {
        assert((v & 0xff) < 256 && ((v >> 8) & 0xff) < 256) by (bit_vector);
    }
    buf.push((v & 0xff) as u8);
    buf.push(((v >> 8) & 0xff) as u8);
    assert(buf@ =~= old(buf)@ + le16(v));
}

/// Appends a 32-bit value in little-endian order.
fn push_u32_le(buf: &mut Vec<u8>, v: u32)
    ensures
        final(buf)@ == old(buf)@ + le32(v),
{
    proof {
        assert((v & 0xff) < 256 && ((v >> 8) & 0xff) < 256 && ((v >> 16) & 0xff) < 256 && ((v
            >> 24) & 0xff) < 256) by (bit_vector);
    }
    buf.push((v & 0xff) as u8);
    buf.push(((v >> 8) & 0xff) as u8);
    buf.push(((v >> 16) & 0xff) as u8);
    buf.push(((v >> 24) & 0xff) as u8);
    assert(buf@ =~= old(buf)@ + le32(v));
}

/// Appends a 64-bit value in little-endian order.
fn push_u64_le(buf: &mut Vec<u8>, v: u64)
    ensures
        final(buf)@ == old(buf)@ + le64(v),
{
    proof {
        assert((v & 0xff) < 256 && ((v >> 8) & 0xff) < 256 && ((v >> 16) & 0xff) < 256 && ((v
            >> 24) & 0xff) < 256 && ((v >> 32) & 0xff) < 256 && ((v >> 40) & 0xff) < 256 && ((v
            >> 48) & 0xff) < 256 && ((v >> 56) & 0xff) < 256) by (bit_vector);
    }
    buf.push((v & 0xff) as u8);
    buf.push(((v >> 8) & 0xff) as u8);
    buf.push(((v >> 16) & 0xff) as u8);
    buf.push(((v >> 24) & 0xff) as u8);
    buf.push(((v >> 32) & 0xff) as u8);
    buf.push(((v >> 40) & 0xff) as u8);
    buf.push(((v >> 48) & 0xff) as u8);
    buf.push(((v >> 56) & 0xff) as u8);
    assert(buf@ =~= old(buf)@ + le64(v));
}

/// Appends a signed 32-bit value in little-endian two's-complement order.
fn push_i32_le(buf: &mut Vec<u8>, v: i32)
    ensures
        final(buf)@ == old(buf)@ + le32i(v),
{
    push_u32_le(buf, v as u32);
}

/// Appends one slot's 26-byte record.
fn push_record(buf: &mut Vec<u8>, p: &Option<Controller>)
    ensures
        final(buf)@ == old(buf)@ + record_spec(*p),
{
    match p {
        None => {
            push_u16_le(buf, 0);
            push_u64_le(buf, 0);
            push_u32_le(buf, 0);
            push_u32_le(buf, 0);
            push_u32_le(buf, 0);
            push_u32_le(buf, 0);
        },
        Some(c) => {
            push_u16_le(buf, c.type_.tag());
            push_u64_le(buf, c.keys);
            push_i32_le(buf, c.joy_left.x);
            push_i32_le(buf, c.joy_left.y);
            push_i32_le(buf, c.joy_right.x);
            push_i32_le(buf, c.joy_right.y);
        },
    }
    assert(buf@ =~= old(buf)@ + record_spec(*p));
}

/// Serializes the four slots into a fresh frame: magic, the count of
/// occupied slots, then every slot's record in fixed order.
pub fn encode_frame(pads: &[Option<Controller>; 4]) -> (buf: Vec<u8>)
    ensures
        buf@ == frame_spec(pads@),
        buf@.len() == FRAME_LEN,
{
    let mut buf: Vec<u8> = Vec::new();
    let mut count: u16 = 0;
    if pads[0].is_some() {
        count = count + 1;
    }
    if pads[1].is_some() {
        count = count + 1;
    }
    if pads[2].is_some() {
        count = count + 1;
    }
    if pads[3].is_some() {
        count = count + 1;
    }
    push_u16_le(&mut buf, MAGIC);
    push_u16_le(&mut buf, count);
    push_record(&mut buf, &pads[0]);
    push_record(&mut buf, &pads[1]);
    push_record(&mut buf, &pads[2]);
    push_record(&mut buf, &pads[3]);
    assert(buf@ =~= frame_spec(pads@));
    buf
}

/// 26 zero bytes: the record of an empty slot.
pub open spec fn zero_record() -> Seq<u8> {
    Seq::new(26, |j: int| 0u8)
}

/// Law: in any frame, the header's active count equals the number of
/// occupied slots (it fits in one byte, so byte 2 carries it and byte 3 is
/// zero), and every byte of an empty slot's 26-byte record is zero.
pub proof fn lemma_frame_layout(pads: Seq<Option<Controller>>)
    requires
        pads.len() == 4,
    ensures
        frame_spec(pads).len() == 108,
        0 <= active_count(pads) <= 4,
        frame_spec(pads)[2] == active_count(pads) as u8,
        frame_spec(pads)[3] == 0,
        pads[0] is None ==> frame_spec(pads).subrange(4, 30) == zero_record(),
        pads[1] is None ==> frame_spec(pads).subrange(30, 56) == zero_record(),
        pads[2] is None ==> frame_spec(pads).subrange(56, 82) == zero_record(),
        pads[3] is None ==> frame_spec(pads).subrange(82, 108) == zero_record(),
{
    let f = frame_spec(pads);
    let c = active_count(pads) as u16;
    assert(c <= 4 ==> (c & 0xff) == c && ((c >> 8) & 0xff) == 0) by (bit_vector);
    lemma_zero_record();
    if pads[0] is None {
        assert(f.subrange(4, 30) =~= zero_record());
    }
    if pads[1] is None {
        assert(f.subrange(30, 56) =~= zero_record());
    }
    if pads[2] is None {
        assert(f.subrange(56, 82) =~= zero_record());
    }
    if pads[3] is None {
        assert(f.subrange(82, 108) =~= zero_record());
    }
}

/// The record of an empty slot is 26 zero bytes.
proof fn lemma_zero_record()
    ensures
        record_spec(None::<Controller>) == zero_record(),
{
    assert((0u16 & 0xff) == 0 && ((0u16 >> 8) & 0xff) == 0) by (bit_vector);
    assert((0u32 & 0xff) == 0 && ((0u32 >> 8) & 0xff) == 0 && ((0u32 >> 16) & 0xff) == 0 && ((0u32
        >> 24) & 0xff) == 0) by (bit_vector);
    assert((0u64 & 0xff) == 0 && ((0u64 >> 8) & 0xff) == 0 && ((0u64 >> 16) & 0xff) == 0 && ((0u64
        >> 24) & 0xff) == 0 && ((0u64 >> 32) & 0xff) == 0 && ((0u64 >> 40) & 0xff) == 0 && ((0u64
        >> 48) & 0xff) == 0 && ((0u64 >> 56) & 0xff) == 0) by (bit_vector);
    assert(le16(0u16) =~= Seq::new(2, |j: int| 0u8));
    assert(le32(0u32) =~= Seq::new(4, |j: int| 0u8));
    assert(le64(0u64) =~= Seq::new(8, |j: int| 0u8));
    assert(record_spec(None::<Controller>) =~= zero_record());
}

} // verus!
