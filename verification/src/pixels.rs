//! Packed pixels and the bytes they occupy in memory.
//!
//! A pixel is a `u32`; the raw form of a buffer is the same memory read byte by
//! byte, so the order of the four bytes of a pixel is the byte order of the
//! machine. Everything here is stated over that order.

use vstd::endian::{endianness, Endian};
use vstd::prelude::*;

verus! {

/// The weight of the byte at significance `rank`, 0 being the least significant.
pub open spec fn weight(rank: int) -> int {
    if rank == 0 {
        0x1
    } else if rank == 1 {
        0x100
    } else if rank == 2 {
        0x1_0000
    } else {
        0x100_0000
    }
}

/// The significance of the byte that lies at offset `k` of a pixel in memory.
pub open spec fn rank_at(k: int) -> int {
    match endianness() {
        Endian::Little => k,
        Endian::Big => 3 - k,
    }
}

/// The byte at offset `k` (0 to 3) of `pixel` in memory.
pub open spec fn memory_byte(pixel: u32, k: int) -> u8 {
    ((pixel as int / weight(rank_at(k))) % 0x100) as u8
}

/// The bytes that a run of pixels occupies in memory, four for each pixel.
pub open spec fn memory_bytes(pixels: Seq<u32>) -> Seq<u8> {
    Seq::new(4 * pixels.len(), |i: int| memory_byte(pixels[i / 4], i % 4))
}

/// The pixel whose four bytes in memory are `b0`, `b1`, `b2`, `b3`, in that order.
pub open spec fn pixel_of(b0: u8, b1: u8, b2: u8, b3: u8) -> u32 {
    (b0 as int * weight(rank_at(0)) + b1 as int * weight(rank_at(1)) + b2 as int * weight(
        rank_at(2),
    ) + b3 as int * weight(rank_at(3))) as u32
}

/// The pixels that a run of bytes spells in memory; bytes past the last whole
/// group of four are not read.
pub open spec fn pixels_of(bytes: Seq<u8>) -> Seq<u32> {
    Seq::new(
        (bytes.len() / 4) as nat,
        |i: int| pixel_of(bytes[4 * i], bytes[4 * i + 1], bytes[4 * i + 2], bytes[4 * i + 3]),
    )
}

/// Reading a pixel's bytes and putting them together again gives the pixel.
pub proof fn lemma_pixel_of_memory_bytes(pixel: u32)
    ensures
        pixel_of(
            memory_byte(pixel, 0),
            memory_byte(pixel, 1),
            memory_byte(pixel, 2),
            memory_byte(pixel, 3),
        ) == pixel,
{
}

/// A number written with four digits to the base 256 has those digits.
proof fn lemma_digits(d0: int, d1: int, d2: int, d3: int)
    requires
        0 <= d0 < 0x100,
        0 <= d1 < 0x100,
        0 <= d2 < 0x100,
        0 <= d3 < 0x100,
    ensures
        0 <= d0 + d1 * 0x100 + d2 * 0x1_0000 + d3 * 0x100_0000 < 0x1_0000_0000,
        (d0 + d1 * 0x100 + d2 * 0x1_0000 + d3 * 0x100_0000) % 0x100 == d0,
        ((d0 + d1 * 0x100 + d2 * 0x1_0000 + d3 * 0x100_0000) / 0x100) % 0x100 == d1,
        ((d0 + d1 * 0x100 + d2 * 0x1_0000 + d3 * 0x100_0000) / 0x1_0000) % 0x100 == d2,
        ((d0 + d1 * 0x100 + d2 * 0x1_0000 + d3 * 0x100_0000) / 0x100_0000) % 0x100 == d3,
{
    let n = d0 + d1 * 0x100 + d2 * 0x1_0000 + d3 * 0x100_0000;
    assert(n / 0x100 == d1 + d2 * 0x100 + d3 * 0x1_0000);
    assert(n / 0x1_0000 == d2 + d3 * 0x100);
    assert(n / 0x100_0000 == d3);
}

/// Putting four bytes together and reading them back gives the four bytes.
pub proof fn lemma_memory_bytes_of_pixel(b0: u8, b1: u8, b2: u8, b3: u8)
    ensures
        memory_byte(pixel_of(b0, b1, b2, b3), 0) == b0,
        memory_byte(pixel_of(b0, b1, b2, b3), 1) == b1,
        memory_byte(pixel_of(b0, b1, b2, b3), 2) == b2,
        memory_byte(pixel_of(b0, b1, b2, b3), 3) == b3,
{
    match endianness() {
        Endian::Little => lemma_digits(b0 as int, b1 as int, b2 as int, b3 as int),
        Endian::Big => lemma_digits(b3 as int, b2 as int, b1 as int, b0 as int),
    }
}

/// The pixels spelled by the bytes of `pixels` are `pixels`.
pub proof fn lemma_pixels_round_trip(pixels: Seq<u32>)
    ensures
        pixels_of(memory_bytes(pixels)) == pixels,
{
    let back = pixels_of(memory_bytes(pixels));
    assert(back.len() == pixels.len());
    assert forall|i: int| 0 <= i < pixels.len() implies back[i] == pixels[i] by {
        lemma_pixel_of_memory_bytes(pixels[i]);
    }
    assert(back =~= pixels);
}

/// The bytes of the pixels spelled by `bytes` are `bytes`, when `bytes` is made
/// of whole pixels.
pub proof fn lemma_bytes_round_trip(bytes: Seq<u8>)
    requires
        bytes.len() % 4 == 0,
    ensures
        memory_bytes(pixels_of(bytes)) == bytes,
{
    let back = memory_bytes(pixels_of(bytes));
    assert(back.len() == bytes.len());
    assert forall|i: int| 0 <= i < bytes.len() implies back[i] == bytes[i] by {
        let p = i / 4;
        lemma_memory_bytes_of_pixel(bytes[4 * p], bytes[4 * p + 1], bytes[4 * p + 2], bytes[4 * p + 3]);
    }
    assert(back =~= bytes);
}

/// The bytes of `pixels` as they lie in memory.
///
/// Calls `bytemuck::cast_slice`, which hands back the same memory as a slice of
/// bytes: four bytes for each pixel, in the byte order of the machine.
#[verifier::external_body]
pub(crate) fn cast_slice(pixels: &[u32]) -> (bytes: &[u8])
    ensures
        bytes@ == memory_bytes(pixels@),
{
    bytemuck::cast_slice(pixels)
}

/// The bytes of `pixels` as they lie in memory, open to writing.
///
/// Calls `bytemuck::cast_slice_mut`, which hands back the same memory as a
/// slice of bytes: what is read through it are the bytes of the pixels, and
/// what is written through it is what the pixels hold afterwards.
#[verifier::external_body]
pub(crate) fn cast_slice_mut(pixels: &mut [u32]) -> (bytes: &mut [u8])
    ensures
        bytes@ == memory_bytes(old(pixels)@),
        final(pixels)@ == pixels_of(final(bytes)@),
{
    bytemuck::cast_slice_mut(pixels)
}

/// Overwrites `dst` with `src`.
///
/// Calls `<[u8]>::copy_from_slice` of std, which panics unless the two are of
/// one length and otherwise copies every element of `src` into `dst`.
#[verifier::external_body]
pub(crate) fn copy_from_slice(dst: &mut [u8], src: &[u8])
    requires
        old(dst)@.len() == src@.len(),
    ensures
        final(dst)@ == src@,
{
    dst.copy_from_slice(src)
}

} // verus!
