//! Bounds-checked little-endian writes into a caller-provided buffer.
//!
//! Every writer takes the destination and a write offset. On success the bytes lie at the
//! old offset and the offset has moved past them. On failure neither the destination nor
//! the offset has changed.

use crate::error::Error;
use vstd::prelude::*;

verus! {

/// Whether `needed` bytes fit into a buffer of `len` bytes from `offset` on.
pub open spec fn has_space(len: int, offset: int, needed: int) -> bool {
    offset + needed <= len
}

/// The buffer `dest` with `src` written over the bytes from `offset` on.
pub open spec fn overwrite(dest: Seq<u8>, offset: int, src: Seq<u8>) -> Seq<u8>
    recommends
        0 <= offset,
        offset + src.len() <= dest.len(),
{
    dest.subrange(0, offset) + src + dest.subrange(offset + src.len(), dest.len() as int)
}

/// The byte of `v` with index `i`, counted from the least significant one.
pub open spec fn byte_of(v: u64, i: nat) -> u8 {
    ((v >> ((8 * i) as u64)) & 0xff) as u8
}

/// The little-endian encoding of an 8-bit integer.
pub open spec fn le_bytes_u8(v: u8) -> Seq<u8> {
    seq![v]
}

/// The little-endian encoding of a 16-bit integer.
pub open spec fn le_bytes_u16(v: u16) -> Seq<u8> {
    seq![byte_of(v as u64, 0), byte_of(v as u64, 1)]
}

/// The little-endian encoding of a 32-bit integer.
pub open spec fn le_bytes_u32(v: u32) -> Seq<u8> {
    seq![byte_of(v as u64, 0), byte_of(v as u64, 1), byte_of(v as u64, 2), byte_of(v as u64, 3)]
}

/// The little-endian encoding of a 64-bit integer.
pub open spec fn le_bytes_u64(v: u64) -> Seq<u8> {
    seq![
        byte_of(v, 0),
        byte_of(v, 1),
        byte_of(v, 2),
        byte_of(v, 3),
        byte_of(v, 4),
        byte_of(v, 5),
        byte_of(v, 6),
        byte_of(v, 7),
    ]
}

/// The number that the bytes `s` encode in little-endian order.
pub open spec fn le_value(s: Seq<u8>) -> nat
    decreases s.len(),
{
    if s.len() == 0 {
        0
    } else {
        s[0] as nat + 256 * le_value(s.subrange(1, s.len() as int))
    }
}

/// The number of a sequence that starts with the byte `first` is `first` plus 256 times
/// the number of the rest.
pub proof fn lemma_le_value_first(first: u8, rest: Seq<u8>)
    ensures
        le_value(seq![first] + rest) == first as nat + 256 * le_value(rest),
{
    let s = seq![first] + rest;
    assert(s.subrange(1, s.len() as int) =~= rest);
}

/// The encodings are little-endian: the byte with index `i` weighs 256 to the power of
/// `i`, so that the number of the encoding of an integer is the integer.
pub proof fn lemma_le_bytes_value(a: u8, b: u16, c: u32, d: u64)
    ensures
        le_value(le_bytes_u8(a)) == a,
        le_value(le_bytes_u16(b)) == b,
        le_value(le_bytes_u32(c)) == c,
        le_value(le_bytes_u64(d)) == d,
{
    let empty = Seq::<u8>::empty();
    assert(le_value(empty) == 0);
    lemma_le_value_first(a, empty);
    assert(le_bytes_u8(a) =~= seq![a] + empty);

    let b0 = byte_of(b as u64, 0);
    let b1 = byte_of(b as u64, 1);
    lemma_le_value_first(b1, empty);
    lemma_le_value_first(b0, seq![b1] + empty);
    assert(le_bytes_u16(b) =~= seq![b0] + (seq![b1] + empty));
    assert(b == (((b as u64) >> 0u64) & 0xff) + 256 * (((b as u64) >> 8u64) & 0xff) && ((b as u64)
        >> 0u64) & 0xff < 256 && ((b as u64) >> 8u64) & 0xff < 256) by (bit_vector);

    let c0 = byte_of(c as u64, 0);
    let c1 = byte_of(c as u64, 1);
    let c2 = byte_of(c as u64, 2);
    let c3 = byte_of(c as u64, 3);
    lemma_le_value_first(c3, empty);
    lemma_le_value_first(c2, seq![c3] + empty);
    lemma_le_value_first(c1, seq![c2] + (seq![c3] + empty));
    lemma_le_value_first(c0, seq![c1] + (seq![c2] + (seq![c3] + empty)));
    assert(le_bytes_u32(c) =~= seq![c0] + (seq![c1] + (seq![c2] + (seq![c3] + empty))));
    assert(c == (((c as u64) >> 0u64) & 0xff) + 256 * ((((c as u64) >> 8u64) & 0xff) + 256 * ((((c
        as u64) >> 16u64) & 0xff) + 256 * (((c as u64) >> 24u64) & 0xff))) && ((c as u64) >> 0u64)
        & 0xff < 256 && ((c as u64) >> 8u64) & 0xff < 256 && ((c as u64) >> 16u64) & 0xff < 256 && ((c
        as u64) >> 24u64) & 0xff < 256) by (bit_vector);

    let d0 = byte_of(d, 0);
    let d1 = byte_of(d, 1);
    let d2 = byte_of(d, 2);
    let d3 = byte_of(d, 3);
    let d4 = byte_of(d, 4);
    let d5 = byte_of(d, 5);
    let d6 = byte_of(d, 6);
    let d7 = byte_of(d, 7);
    let t7 = seq![d7] + empty;
    let t6 = seq![d6] + t7;
    let t5 = seq![d5] + t6;
    let t4 = seq![d4] + t5;
    let t3 = seq![d3] + t4;
    let t2 = seq![d2] + t3;
    let t1 = seq![d1] + t2;
    lemma_le_value_first(d7, empty);
    lemma_le_value_first(d6, t7);
    lemma_le_value_first(d5, t6);
    lemma_le_value_first(d4, t5);
    lemma_le_value_first(d3, t4);
    lemma_le_value_first(d2, t3);
    lemma_le_value_first(d1, t2);
    lemma_le_value_first(d0, t1);
    assert(le_bytes_u64(d) =~= seq![d0] + t1);
    assert(d == ((d >> 0u64) & 0xff) + 256 * (((d >> 8u64) & 0xff) + 256 * (((d >> 16u64) & 0xff)
        + 256 * (((d >> 24u64) & 0xff) + 256 * (((d >> 32u64) & 0xff) + 256 * (((d >> 40u64) & 0xff)
        + 256 * (((d >> 48u64) & 0xff) + 256 * ((d >> 56u64) & 0xff))))))) && (d >> 0u64) & 0xff
        < 256 && (d >> 8u64) & 0xff < 256 && (d >> 16u64) & 0xff < 256 && (d >> 24u64) & 0xff < 256
        && (d >> 32u64) & 0xff < 256 && (d >> 40u64) & 0xff < 256 && (d >> 48u64) & 0xff < 256 && (d
        >> 56u64) & 0xff < 256) by (bit_vector);
}

/// Writing `a` and then `b` right behind it is writing `a + b`.
pub proof fn lemma_overwrite_twice(dest: Seq<u8>, offset: int, a: Seq<u8>, b: Seq<u8>)
    requires
        0 <= offset,
        offset + a.len() + b.len() <= dest.len(),
    ensures
        overwrite(overwrite(dest, offset, a), offset + a.len(), b) == overwrite(dest, offset, a + b),
        overwrite(dest, offset, a).len() == dest.len(),
{
    assert(overwrite(overwrite(dest, offset, a), offset + a.len(), b) =~= overwrite(
        dest,
        offset,
        a + b,
    ));
}

/// What a successful or failed write of `src` leaves behind.
pub open spec fn write_outcome(
    result: Result<(), Error>,
    old_dest: Seq<u8>,
    old_offset: usize,
    src: Seq<u8>,
    new_dest: Seq<u8>,
    new_offset: usize,
) -> bool {
    if has_space(old_dest.len() as int, old_offset as int, src.len() as int) {
        &&& result is Ok
        &&& new_offset == old_offset + src.len()
        &&& new_dest == overwrite(old_dest, old_offset as int, src)
    } else {
        &&& result == Err::<(), Error>(Error::Serialization)
        &&& new_offset == old_offset
        &&& new_dest == old_dest
    }
}

/// An integer that has a little-endian encoding of `N` bytes.
pub trait IntoLeBytes<const N: usize>: Sized {
    /// The little-endian encoding of the integer.
    spec fn le_bytes(self) -> Seq<u8>;

    /// Returns the little-endian encoding of the integer.
    fn to_le_bytes(self) -> (bytes: [u8; N])
        ensures
            bytes@ == self.le_bytes(),
    ;
}

impl IntoLeBytes<1> for u8 {
    open spec fn le_bytes(self) -> Seq<u8> {
        le_bytes_u8(self)
    }

    fn to_le_bytes(self) -> (bytes: [u8; 1]) {
        let bytes = [self];
        assert(bytes@ =~= le_bytes_u8(self));
        bytes
    }
}

impl IntoLeBytes<2> for u16 {
    open spec fn le_bytes(self) -> Seq<u8> {
        le_bytes_u16(self)
    }

    fn to_le_bytes(self) -> (bytes: [u8; 2]) {
        let v = self;
        assert(v & 0xff == ((v as u64) >> 0u64) & 0xff) by (bit_vector);
        assert((v >> 8) & 0xff == ((v as u64) >> 8u64) & 0xff) by (bit_vector);
        assert(v & 0xff < 0x100 && (v >> 8) & 0xff < 0x100) by (bit_vector);
        let bytes = [(v & 0xff) as u8, ((v >> 8) & 0xff) as u8];
        assert(bytes@ =~= le_bytes_u16(self));
        bytes
    }
}

impl IntoLeBytes<4> for u32 {
    open spec fn le_bytes(self) -> Seq<u8> {
        le_bytes_u32(self)
    }

    fn to_le_bytes(self) -> (bytes: [u8; 4]) {
        let v = self;
        assert(v & 0xff == ((v as u64) >> 0u64) & 0xff) by (bit_vector);
        assert((v >> 8) & 0xff == ((v as u64) >> 8u64) & 0xff) by (bit_vector);
        assert((v >> 16) & 0xff == ((v as u64) >> 16u64) & 0xff) by (bit_vector);
        assert((v >> 24) & 0xff == ((v as u64) >> 24u64) & 0xff) by (bit_vector);
        assert(v & 0xff < 0x100 && (v >> 8) & 0xff < 0x100 && (v >> 16) & 0xff < 0x100 && (v >> 24)
            & 0xff < 0x100) by (bit_vector);
        let bytes = [
            (v & 0xff) as u8,
            ((v >> 8) & 0xff) as u8,
            ((v >> 16) & 0xff) as u8,
            ((v >> 24) & 0xff) as u8,
        ];
        assert(bytes@ =~= le_bytes_u32(self));
        bytes
    }
}

impl IntoLeBytes<8> for u64 {
    open spec fn le_bytes(self) -> Seq<u8> {
        le_bytes_u64(self)
    }

    fn to_le_bytes(self) -> (bytes: [u8; 8]) {
        let v = self;
        assert(v & 0xff == (v >> 0u64) & 0xff) by (bit_vector);
        assert(v & 0xff < 0x100 && (v >> 8) & 0xff < 0x100 && (v >> 16) & 0xff < 0x100 && (v >> 24)
            & 0xff < 0x100) by (bit_vector);
        assert((v >> 32) & 0xff < 0x100 && (v >> 40) & 0xff < 0x100 && (v >> 48) & 0xff < 0x100 && (
        v >> 56) & 0xff < 0x100) by (bit_vector);
        let bytes = [
            (v & 0xff) as u8,
            ((v >> 8) & 0xff) as u8,
            ((v >> 16) & 0xff) as u8,
            ((v >> 24) & 0xff) as u8,
            ((v >> 32) & 0xff) as u8,
            ((v >> 40) & 0xff) as u8,
            ((v >> 48) & 0xff) as u8,
            ((v >> 56) & 0xff) as u8,
        ];
        assert(bytes@ =~= le_bytes_u64(self));
        bytes
    }
}

/// Checks that `needed` bytes fit into `buff` from `offset` on.
pub fn ensure_space(buff: &[u8], offset: usize, needed: usize) -> (result: Result<(), Error>)
    ensures
        has_space(buff@.len() as int, offset as int, needed as int) ==> result is Ok,
        !has_space(buff@.len() as int, offset as int, needed as int) ==> result == Err::<(), Error>(
            Error::Serialization,
        ),
{
    let len = buff.len();
    if offset > len || needed > len - offset {
        return Err(Error::Serialization);
    }
    Ok(())
}

/// Writes `src` into `dest` at `offset` and moves the offset past it.
pub fn write_bytes(dest: &mut [u8], offset: &mut usize, src: &[u8]) -> (result: Result<(), Error>)
    ensures
        write_outcome(result, old(dest)@, *old(offset), src@, final(dest)@, *final(offset)),
{
    if ensure_space(dest, *offset, src.len()).is_err() {
        return Err(Error::Serialization);
    }
    let start = *offset;
    let count = src.len();
    let len = dest.len();
    let mut i: usize = 0;
    while i < count
        invariant
            i <= count,
            len == dest@.len(),
            count == src@.len(),
            start + count <= dest@.len(),
            dest@.len() == old(dest)@.len(),
            *offset == start,
            start == *old(offset),
            forall|k: int| 0 <= k < start ==> dest@[k] == old(dest)@[k],
            forall|k: int| start <= k < start + i ==> dest@[k] == src@[k - start],
            forall|k: int| start + i <= k < dest@.len() ==> dest@[k] == old(dest)@[k],
        decreases count - i,
    {
        dest[start + i] = src[i];
        i += 1;
    }
    *offset = start + count;
    assert(dest@ =~= overwrite(old(dest)@, start as int, src@));
    Ok(())
}

/// Writes the little-endian encoding of `v` into `dest` at `offset` and moves the offset
/// past it.
pub fn write_uint<const N: usize, T: IntoLeBytes<N>>(dest: &mut [u8], offset: &mut usize, v: T) -> (result:
    Result<(), Error>)
    ensures
        write_outcome(result, old(dest)@, *old(offset), v.le_bytes(), final(dest)@, *final(offset)),
{
    let bytes = v.to_le_bytes();
    write_bytes(dest, offset, bytes.as_slice())
}

/// Writes one byte into `dest` at `offset` and moves the offset past it.
pub fn write_u8(dest: &mut [u8], offset: &mut usize, v: u8) -> (result: Result<(), Error>)
    ensures
        write_outcome(result, old(dest)@, *old(offset), le_bytes_u8(v), final(dest)@, *final(offset)),
{
    write_uint(dest, offset, v)
}

/// Writes a 16-bit integer in little-endian order into `dest` at `offset` and moves the
/// offset past it.
pub fn write_u16_le(dest: &mut [u8], offset: &mut usize, v: u16) -> (result: Result<(), Error>)
    ensures
        write_outcome(result, old(dest)@, *old(offset), le_bytes_u16(v), final(dest)@, *final(offset)),
{
    write_uint(dest, offset, v)
}

/// Writes a 32-bit integer in little-endian order into `dest` at `offset` and moves the
/// offset past it.
pub fn write_u32_le(dest: &mut [u8], offset: &mut usize, v: u32) -> (result: Result<(), Error>)
    ensures
        write_outcome(result, old(dest)@, *old(offset), le_bytes_u32(v), final(dest)@, *final(offset)),
{
    write_uint(dest, offset, v)
}

/// Writes a 64-bit integer in little-endian order into `dest` at `offset` and moves the
/// offset past it.
pub fn write_u64_le(dest: &mut [u8], offset: &mut usize, v: u64) -> (result: Result<(), Error>)
    ensures
        write_outcome(result, old(dest)@, *old(offset), le_bytes_u64(v), final(dest)@, *final(offset)),
{
    write_uint(dest, offset, v)
}

} // verus!
