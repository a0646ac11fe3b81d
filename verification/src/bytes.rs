//! Little-endian byte-cursor utilities shared by the decoders and encoders.
//!
//! Reads go through a position cursor over a byte slice and never panic: a
//! read past the end of the slice yields `None` and leaves the cursor where it
//! was. Writes append to a growable byte buffer.

use vstd::prelude::*;
use vstd::bytes::*;
use vstd::slice::*;

verus! {

/// Little-endian byte image of a signed 64-bit value: the image of its
/// two's-complement bit pattern.
pub open spec fn spec_i64_to_le_bytes(x: i64) -> Seq<u8> {
    spec_u64_to_le_bytes(x as u64)
}

/// Signed 64-bit value read from 8 little-endian bytes.
pub open spec fn spec_i64_from_le_bytes(s: Seq<u8>) -> i64 {
    spec_u64_from_le_bytes(s) as i64
}

/// Reading back the 8-byte image of a signed value gives the value back.
pub proof fn lemma_i64_le_bytes_roundtrip(x: i64)
    ensures
        spec_i64_to_le_bytes(x).len() == 8,
        spec_i64_from_le_bytes(spec_i64_to_le_bytes(x)) == x,
{
    lemma_auto_spec_u64_to_from_le_bytes();
    assert(spec_u64_from_le_bytes(spec_u64_to_le_bytes(x as u64)) == x as u64);
    assert(((x as u64) as i64) == x) by (bit_vector);
}

/// Concatenation of a sequence of byte chunks, in order.
pub open spec fn concat_chunks(cs: Seq<Seq<u8>>) -> Seq<u8>
    decreases cs.len(),
{
    if cs.len() == 0 {
        Seq::<u8>::empty()
    } else {
        cs[0] + concat_chunks(cs.drop_first())
    }
}

/// Appending a chunk to the sequence appends its bytes to the concatenation.
pub proof fn lemma_concat_chunks_push(cs: Seq<Seq<u8>>, c: Seq<u8>)
    ensures
        concat_chunks(cs.push(c)) == concat_chunks(cs) + c,
    decreases cs.len(),
{
    if cs.len() == 0 {
        assert(cs.push(c).drop_first() =~= Seq::<Seq<u8>>::empty());
        assert(cs =~= Seq::<Seq<u8>>::empty());
        assert(concat_chunks(Seq::<Seq<u8>>::empty()) == Seq::<u8>::empty());
        assert(cs.push(c)[0] == c);
        assert(concat_chunks(cs.push(c)) =~= concat_chunks(cs) + c);
    } else {
        assert(cs.push(c).drop_first() =~= cs.drop_first().push(c));
        lemma_concat_chunks_push(cs.drop_first(), c);
        assert(concat_chunks(cs.push(c)) =~= concat_chunks(cs) + c);
    }
}

/// The concatenation of chunks of one fixed width is one chunk's width per
/// chunk, and each chunk can be read back from its window.
pub proof fn lemma_concat_chunks_fixed(cs: Seq<Seq<u8>>, w: int)
    requires
        w > 0,
        forall|i: int| 0 <= i < cs.len() ==> (#[trigger] cs[i]).len() == w,
    ensures
        concat_chunks(cs).len() == w * cs.len(),
        forall|i: int|
            0 <= i < cs.len() ==> concat_chunks(cs).subrange(w * i, w * i + w) == #[trigger] cs[i],
    decreases cs.len(),
{
    if cs.len() == 0 {
        assert(concat_chunks(cs).len() == w * cs.len()) by (nonlinear_arith)
            requires
                concat_chunks(cs).len() == 0,
                cs.len() == 0,
        ;
    } else {
        let rest = cs.drop_first();
        lemma_concat_chunks_fixed(rest, w);
        assert(w * (cs.len() - 1) + w == w * cs.len()) by (nonlinear_arith);
        assert forall|i: int| 0 <= i < cs.len() implies concat_chunks(cs).subrange(w * i, w * i + w)
            == #[trigger] cs[i] by {
            if i == 0 {
                assert(concat_chunks(cs).subrange(0, w) =~= cs[0]);
            } else {
                assert(w * (i - 1) == w * i - w) by (nonlinear_arith);
                assert(w * i - w >= 0 && w * i + w <= w * cs.len()) by (nonlinear_arith)
                    requires
                        1 <= i < cs.len(),
                        w > 0,
                ;
                assert(concat_chunks(rest).subrange(w * (i - 1), w * (i - 1) + w) == rest[i - 1]);
                assert(concat_chunks(cs).subrange(w * i, w * i + w) =~= concat_chunks(
                    rest,
                ).subrange(w * (i - 1), w * (i - 1) + w));
            }
        }
    }
}

/// A sequence of fixed-width windows over a byte sequence concatenates back
/// to it.
pub proof fn lemma_concat_chunks_reconstruct(cs: Seq<Seq<u8>>, t: Seq<u8>, w: int)
    requires
        w > 0,
        w * cs.len() == t.len(),
        forall|i: int| 0 <= i < cs.len() ==> #[trigger] cs[i] == t.subrange(w * i, w * i + w),
    ensures
        concat_chunks(cs) == t,
    decreases cs.len(),
{
    if cs.len() == 0 {
        assert(t.len() == 0) by (nonlinear_arith)
            requires
                w * cs.len() == t.len(),
                cs.len() == 0,
        ;
        assert(concat_chunks(cs) =~= t);
    } else {
        assert(w <= t.len()) by (nonlinear_arith)
            requires
                cs.len() >= 1,
                w > 0,
                w * cs.len() == t.len(),
        ;
        let rest = cs.drop_first();
        let trest = t.subrange(w, t.len() as int);
        assert(w * rest.len() == trest.len()) by (nonlinear_arith)
            requires
                w * cs.len() == t.len(),
                rest.len() == cs.len() - 1,
                trest.len() == t.len() - w,
        ;
        assert forall|i: int| 0 <= i < rest.len() implies #[trigger] rest[i] == trest.subrange(
            w * i,
            w * i + w,
        ) by {
            assert(w * (i + 1) == w * i + w) by (nonlinear_arith);
            assert(w * i >= 0 && w * (i + 1) + w <= t.len()) by (nonlinear_arith)
                requires
                    0 <= i < rest.len(),
                    rest.len() == cs.len() - 1,
                    w > 0,
                    w * cs.len() == t.len(),
            ;
            assert(cs[i + 1] == t.subrange(w * (i + 1), w * (i + 1) + w));
            assert(trest.subrange(w * i, w * i + w) =~= t.subrange(w * (i + 1), w * (i + 1) + w));
        }
        lemma_concat_chunks_reconstruct(rest, trest, w);
        assert(cs[0] == t.subrange(0, w));
        assert(concat_chunks(cs) =~= t);
    }
}

/// Reads one byte and advances the cursor.
pub fn take_u8(data: &[u8], pos: &mut usize) -> (r: Option<u8>)
    ensures
        match r {
            Some(v) => {
                &&& *old(pos) + 1 <= data@.len()
                &&& *final(pos) == *old(pos) + 1
                &&& v == data@[*old(pos) as int]
            },
            None => *final(pos) == *old(pos) && *old(pos) + 1 > data@.len(),
        },
{
    if *pos < data.len() {
        let v = *slice_index_get(data, *pos);
        *pos = *pos + 1;
        Some(v)
    } else {
        None
    }
}

/// Reads two little-endian bytes as an unsigned 16-bit value.
pub fn take_u16(data: &[u8], pos: &mut usize) -> (r: Option<u16>)
    ensures
        match r {
            Some(v) => {
                &&& *old(pos) + 2 <= data@.len()
                &&& *final(pos) == *old(pos) + 2
                &&& v == spec_u16_from_le_bytes(data@.subrange(*old(pos) as int, *old(pos) + 2))
            },
            None => *final(pos) == *old(pos) && *old(pos) + 2 > data@.len(),
        },
{
    if *pos <= data.len() && data.len() - *pos >= 2 {
        let s = slice_subrange(data, *pos, *pos + 2);
        let v = u16_from_le_bytes(s);
        *pos = *pos + 2;
        Some(v)
    } else {
        None
    }
}

/// Reads four little-endian bytes as an unsigned 32-bit value.
pub fn take_u32(data: &[u8], pos: &mut usize) -> (r: Option<u32>)
    ensures
        match r {
            Some(v) => {
                &&& *old(pos) + 4 <= data@.len()
                &&& *final(pos) == *old(pos) + 4
                &&& v == spec_u32_from_le_bytes(data@.subrange(*old(pos) as int, *old(pos) + 4))
            },
            None => *final(pos) == *old(pos) && *old(pos) + 4 > data@.len(),
        },
{
    if *pos <= data.len() && data.len() - *pos >= 4 {
        let s = slice_subrange(data, *pos, *pos + 4);
        let v = u32_from_le_bytes(s);
        *pos = *pos + 4;
        Some(v)
    } else {
        None
    }
}

/// Reads eight little-endian bytes as an unsigned 64-bit value.
pub fn take_u64(data: &[u8], pos: &mut usize) -> (r: Option<u64>)
    ensures
        match r {
            Some(v) => {
                &&& *old(pos) + 8 <= data@.len()
                &&& *final(pos) == *old(pos) + 8
                &&& v == spec_u64_from_le_bytes(data@.subrange(*old(pos) as int, *old(pos) + 8))
            },
            None => *final(pos) == *old(pos) && *old(pos) + 8 > data@.len(),
        },
{
    if *pos <= data.len() && data.len() - *pos >= 8 {
        let s = slice_subrange(data, *pos, *pos + 8);
        let v = u64_from_le_bytes(s);
        *pos = *pos + 8;
        Some(v)
    } else {
        None
    }
}

/// Reads eight little-endian bytes as a signed 64-bit value.
pub fn take_i64(data: &[u8], pos: &mut usize) -> (r: Option<i64>)
    ensures
        match r {
            Some(v) => {
                &&& *old(pos) + 8 <= data@.len()
                &&& *final(pos) == *old(pos) + 8
                &&& v == spec_i64_from_le_bytes(data@.subrange(*old(pos) as int, *old(pos) + 8))
            },
            None => *final(pos) == *old(pos) && *old(pos) + 8 > data@.len(),
        },
{
    match take_u64(data, pos) {
        Some(v) => Some(v as i64),
        None => None,
    }
}

/// Copies the next `n` bytes out of the slice and advances the cursor.
pub fn take_bytes(data: &[u8], pos: &mut usize, n: usize) -> (r: Option<Vec<u8>>)
    ensures
        match r {
            Some(v) => {
                &&& *old(pos) + n <= data@.len()
                &&& *final(pos) == *old(pos) + n
                &&& v@ == data@.subrange(*old(pos) as int, *old(pos) + n)
            },
            None => *final(pos) == *old(pos) && *old(pos) + n > data@.len(),
        },
{
    if *pos <= data.len() && data.len() - *pos >= n {
        let s = slice_subrange(data, *pos, *pos + n);
        let v = slice_to_vec(s);
        *pos = *pos + n;
        Some(v)
    } else {
        None
    }
}

/// Appends one byte to the output buffer.
pub fn push_u8(out: &mut Vec<u8>, v: u8)
    ensures
        final(out)@ == old(out)@ + seq![v],
{
    out.push(v);
    proof {
        assert(out@ =~= old(out)@ + seq![v]);
    }
}

/// Appends an unsigned 16-bit value as two little-endian bytes.
pub fn push_u16(out: &mut Vec<u8>, v: u16)
    ensures
        final(out)@ == old(out)@ + spec_u16_to_le_bytes(v),
{
    let mut b = u16_to_le_bytes(v);
    out.append(&mut b);
}

/// Appends an unsigned 32-bit value as four little-endian bytes.
pub fn push_u32(out: &mut Vec<u8>, v: u32)
    ensures
        final(out)@ == old(out)@ + spec_u32_to_le_bytes(v),
{
    let mut b = u32_to_le_bytes(v);
    out.append(&mut b);
}

/// Appends an unsigned 64-bit value as eight little-endian bytes.
pub fn push_u64(out: &mut Vec<u8>, v: u64)
    ensures
        final(out)@ == old(out)@ + spec_u64_to_le_bytes(v),
{
    let mut b = u64_to_le_bytes(v);
    out.append(&mut b);
}

/// Appends a signed 64-bit value as eight little-endian bytes.
pub fn push_i64(out: &mut Vec<u8>, v: i64)
    ensures
        final(out)@ == old(out)@ + spec_i64_to_le_bytes(v),
{
    push_u64(out, v as u64);
}

/// Appends a byte slice unchanged.
pub fn push_bytes(out: &mut Vec<u8>, s: &[u8])
    ensures
        final(out)@ == old(out)@ + s@,
{
    out.extend_from_slice(s);
}

} // verus!
