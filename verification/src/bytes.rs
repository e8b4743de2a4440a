//! Byte images of 16- and 32-bit values, as laid out in memory.
//!
//! Buffers that go to the GPU hold values in the byte order of the machine.
//! The reinterpretation is done by `bytemuck`; this module states what it
//! yields and offers the two casts to the rest of the crate.

use vstd::prelude::*;

verus! {

/// The two orders in which a machine may lay out the bytes of a value.
#[derive(Clone, Copy, Debug, PartialEq, Eq, Structural)]
pub enum Endian {
    /// Least significant byte first.
    Little,
    /// Most significant byte first.
    Big,
}

/// The four bytes of a 32-bit word in the given order.
pub open spec fn word_bytes(w: u32, order: Endian) -> Seq<u8> {
    let b0 = (w % 0x100) as u8;
    let b1 = ((w / 0x100) % 0x100) as u8;
    let b2 = ((w / 0x1_0000) % 0x100) as u8;
    let b3 = (w / 0x100_0000) as u8;
    match order {
        Endian::Little => seq![b0, b1, b2, b3],
        Endian::Big => seq![b3, b2, b1, b0],
    }
}

/// The two bytes of a 16-bit value in the given order.
pub open spec fn half_bytes(h: u16, order: Endian) -> Seq<u8> {
    let b0 = (h % 0x100) as u8;
    let b1 = (h / 0x100) as u8;
    match order {
        Endian::Little => seq![b0, b1],
        Endian::Big => seq![b1, b0],
    }
}

/// The bytes of a sequence of words, each in the given order, one after the other.
pub open spec fn words_bytes(ws: Seq<u32>, order: Endian) -> Seq<u8> {
    Seq::new(4 * ws.len(), |i: int| word_bytes(ws[i / 4], order)[i % 4])
}

/// The bytes of a sequence of 16-bit values, each in the given order, one after the other.
pub open spec fn halves_bytes(hs: Seq<u16>, order: Endian) -> Seq<u8> {
    Seq::new(2 * hs.len(), |i: int| half_bytes(hs[i / 2], order)[i % 2])
}

/// `bytes` is the memory image of `ws` on a machine of one of the two byte orders.
pub open spec fn native_words(ws: Seq<u32>, bytes: Seq<u8>) -> bool {
    bytes == words_bytes(ws, Endian::Little) || bytes == words_bytes(ws, Endian::Big)
}

/// `bytes` is the memory image of `hs` on a machine of one of the two byte orders.
pub open spec fn native_halves(hs: Seq<u16>, bytes: Seq<u8>) -> bool {
    bytes == halves_bytes(hs, Endian::Little) || bytes == halves_bytes(hs, Endian::Big)
}

/// Views a slice of words as the bytes it occupies.
///
/// Calls `bytemuck::cast_slice` from `u32` to `u8`. Trusted: the result is
/// the same memory read bytewise, so it holds four bytes for each word, in
/// the order of the words, every word in the byte order of the machine. The
/// cast cannot fail, since bytes need no alignment and any length in bytes
/// is a whole number of them.
#[verifier::external_body]
pub(crate) fn words_as_bytes(words: &[u32]) -> (bytes: &[u8])
    ensures
        native_words(words@, bytes@),
{
    bytemuck::cast_slice(words)
}

/// Views a slice of 16-bit values as the bytes it occupies.
///
/// Calls `bytemuck::cast_slice` from `u16` to `u8`. Trusted: the result is
/// the same memory read bytewise, so it holds two bytes for each value, in
/// the order of the values, every value in the byte order of the machine.
/// The cast cannot fail, for the reasons given at [`words_as_bytes`].
#[verifier::external_body]
pub(crate) fn halves_as_bytes(halves: &[u16]) -> (bytes: &[u8])
    ensures
        native_halves(halves@, bytes@),
{
    bytemuck::cast_slice(halves)
}

/// Appends the bytes of `src` to `out`.
pub(crate) fn append_bytes(out: &mut Vec<u8>, src: &[u8])
    ensures
        final(out)@ == old(out)@ + src@,
{
    let mut i: usize = 0;
    while i < src.len()
        invariant
            i <= src@.len(),
            out@ == old(out)@ + src@.subrange(0, i as int),
        decreases src@.len() - i,
    {
        out.push(src[i]);
        i += 1;
    }
    assert(src@.subrange(0, i as int) == src@);
}

} // verus!
