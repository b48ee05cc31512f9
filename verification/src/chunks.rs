//! The walk over the chunks of an uploaded image that decides whether the
//! image may be handed to the optimisation engine.
//!
//! The engine reports a malformed image as a failure of its own, and the
//! walk leaves every such image to it. It follows the engine chunk by
//! chunk, checksums included, and stops where the engine stops. What it
//! turns down is what the engine cannot take on a 32-bit target: a chunk
//! whose declared end no 32-bit offset holds, an animation chunk too short
//! for its sequence number, and an image that the engine goes on to decode
//! although its header, or one of its animation frames, has an empty side,
//! a bit depth that its colour type does not allow, a row too long for the
//! sums that the engine keeps for each row, or more pixels than it can hold.

use vstd::prelude::*;

verus! {

/// The largest value of a 32-bit offset.
pub const OFFSET_LIMIT: u64 = 0xFFFF_FFFF;

/// The largest number of bytes in one row of pixels: below it the counts
/// that the engine keeps for a row stay within 32 bits.
pub const ROW_LIMIT: u64 = 0x1FF_FFFF;

/// The largest number of bytes that the pixels of an image or a frame may
/// take: the engine holds them in one allocation and triples their number.
pub const RAW_SIZE_LIMIT: u64 = 0x3FFF_FFFF;

/// The big-endian number in the four bytes of `bytes` from `at` on.
pub open spec fn be_u32(bytes: Seq<u8>, at: int) -> int
    recommends
        0 <= at,
        at + 4 <= bytes.len(),
{
    bytes[at] as int * 0x100_0000 + bytes[at + 1] as int * 0x1_0000 + bytes[at + 2] as int * 0x100
        + bytes[at + 3] as int
}

/// Whether the four bytes of `bytes` from `at` on are `a`, `b`, `c`, `d`.
pub open spec fn has_name(bytes: Seq<u8>, at: int, a: u8, b: u8, c: u8, d: u8) -> bool
    recommends
        0 <= at,
        at + 4 <= bytes.len(),
{
    bytes[at] == a && bytes[at + 1] == b && bytes[at + 2] == c && bytes[at + 3] == d
}

/// One bit of the checksum: the register moves right by one, and the
/// polynomial is mixed in where a one-bit fell off.
pub open spec fn crc_shift(register: u32) -> u32 {
    if register & 1 == 1 {
        (register >> 1) ^ 0xEDB8_8320
    } else {
        register >> 1
    }
}

/// The checksum register after one more byte.
pub open spec fn crc_byte(register: u32, byte: u8) -> u32 {
    crc_shift(
        crc_shift(
            crc_shift(
                crc_shift(crc_shift(crc_shift(crc_shift(crc_shift(register ^ (byte as u32)))))),
            ),
        ),
    )
}

/// The checksum register after all of `bytes`, from all ones at the start.
pub open spec fn crc_register(bytes: Seq<u8>) -> u32
    decreases bytes.len(),
{
    if bytes.len() == 0 {
        0xFFFF_FFFF
    } else {
        crc_byte(crc_register(bytes.drop_last()), bytes.last())
    }
}

/// The 32-bit cyclic redundancy checksum of `bytes` as the image format
/// defines it: the register after all bytes, inverted.
pub open spec fn checksum_of(bytes: Seq<u8>) -> u32 {
    crc_register(bytes) ^ 0xFFFF_FFFF
}

/// What the walk has seen of the header chunk.
#[derive(Clone, Copy, Debug, PartialEq, Eq, Structural)]
pub enum SeenHeader {
    /// No header chunk so far.
    Absent,
    /// A header chunk too short to hold its thirteen bytes.
    Short,
    /// A header chunk with these fields.
    Read { width: u32, height: u32, depth: u8, colour: u8, interlace: u8 },
}

/// The header that a chunk holds whose data of `length` bytes starts at `data`.
pub open spec fn header_at(image: Seq<u8>, data: int, length: int) -> SeenHeader
    recommends
        0 <= data,
        0 <= length,
        data + length <= image.len(),
{
    if length < 13 {
        SeenHeader::Short
    } else {
        SeenHeader::Read {
            width: be_u32(image, data) as u32,
            height: be_u32(image, data + 4) as u32,
            depth: image[data + 8],
            colour: image[data + 9],
            interlace: image[data + 12],
        }
    }
}

/// Whether the image format knows the colour type.
pub open spec fn known_colour(colour: u8) -> bool {
    colour == 0 || colour == 2 || colour == 3 || colour == 4 || colour == 6
}

/// Whether the image format knows the bit depth.
pub open spec fn known_depth(depth: u8) -> bool {
    depth == 1 || depth == 2 || depth == 4 || depth == 8 || depth == 16
}

/// Whether the colour type allows the bit depth: greyscale any depth, a
/// palette up to 8 bits, every other colour type 8 or 16 bits.
pub open spec fn legal_pair(colour: u8, depth: u8) -> bool {
    if colour == 0 {
        known_depth(depth)
    } else if colour == 3 {
        depth == 1 || depth == 2 || depth == 4 || depth == 8
    } else {
        known_colour(colour) && (depth == 8 || depth == 16)
    }
}

/// The widest pixel, in bytes, among the images that the engine builds from
/// a header: it widens a depth below 8 bits to 8, and it also tries a
/// palette image with four channels of 8 bits.
pub open spec fn widest_pixel(colour: u8, depth: u8) -> int {
    let wide: int = if depth == 16 {
        2
    } else {
        1
    };
    if colour == 0 {
        wide
    } else if colour == 2 {
        3 * wide
    } else if colour == 3 {
        4
    } else if colour == 4 {
        2 * wide
    } else {
        4 * wide
    }
}

/// Whether an image or a frame of the given sides can be held at `pixel`
/// bytes a pixel: both sides are above zero, one row stays within the row
/// limit, and the pixels of all rows, with up to two filter bytes a row and
/// seven more, which covers the interlaced layout too, stay within the size
/// limit.
pub open spec fn size_admitted(width: int, height: int, pixel: int) -> bool {
    width > 0 && height > 0 && width * pixel <= 0x1FF_FFFF && width * pixel * height + 2 * height
        + 7 <= 0x3FFF_FFFF
}

/// Whether a frame of the given sides can be held at `pixel` bytes a pixel.
pub open spec fn frame_admitted(frame: (u32, u32), pixel: int) -> bool {
    size_admitted(frame.0 as int, frame.1 as int, pixel)
}

/// Whether an image whose chunks end in an end chunk is admitted.
///
/// The engine answers by itself where no image data came, where no header
/// came, and where it refuses the header that came last: too short, an
/// unknown colour type or depth, or an interlace flag above 1. Otherwise
/// it decodes the image: then the header must pair colour type and depth
/// legally, and the image and every frame must be of a size that the
/// engine can hold at its widest pixel.
pub open spec fn end_admitted(image_data: bool, header: SeenHeader, frames: Seq<(u32, u32)>) -> bool {
    if !image_data {
        true
    } else {
        match header {
            SeenHeader::Absent => true,
            SeenHeader::Short => true,
            SeenHeader::Read { width, height, depth, colour, interlace } => {
                if !known_colour(colour) || !known_depth(depth) || interlace > 1 {
                    true
                } else {
                    &&& legal_pair(colour, depth)
                    &&& size_admitted(width as int, height as int, widest_pixel(colour, depth))
                    &&& forall|i: int|
                        0 <= i < frames.len() ==> #[trigger] frame_admitted(
                            frames[i],
                            widest_pixel(colour, depth),
                        )
                }
            },
        }
    }
}

/// Whether the chunks of `image` from offset `at` on are admitted, where
/// the walk so far has counted `sequence` animation chunks, has or has not
/// seen image data, has seen `header` last, and has seen a frame of each of
/// the sides in `frames`.
///
/// The engine answers by itself, and the walk ends, where fewer than four
/// bytes are left for a length, where a chunk runs past the end of the
/// buffer, where a checksum is wrong, where an animation chunk is out of
/// sequence, where a frame after the image data is too short to describe
/// itself, and where frame data comes before any frame. A chunk that runs
/// past the end is admitted only where its end still fits a 32-bit offset,
/// and an animation chunk only where it holds its sequence number.
pub open spec fn chunks_admitted(
    image: Seq<u8>,
    at: int,
    sequence: int,
    image_data: bool,
    header: SeenHeader,
    frames: Seq<(u32, u32)>,
) -> bool
    decreases image.len() - at,
{
    if at < 0 || at + 4 > image.len() {
        true
    } else {
        let length = be_u32(image, at);
        let data = at + 8;
        let next = at + 12 + length;
        let frame_control = has_name(image, at + 4, 0x66, 0x63, 0x54, 0x4C);
        let frame_data = has_name(image, at + 4, 0x66, 0x64, 0x41, 0x54);
        if next > image.len() {
            next <= 0xFFFF_FFFF
        } else if has_name(image, at + 4, 0x49, 0x45, 0x4E, 0x44) {
            end_admitted(image_data, header, frames)
        } else if checksum_of(image.subrange(at + 4, data + length)) != be_u32(
            image,
            data + length,
        ) {
            true
        } else if has_name(image, at + 4, 0x49, 0x44, 0x41, 0x54) {
            chunks_admitted(image, next, sequence, image_data || length > 0, header, frames)
        } else if has_name(image, at + 4, 0x49, 0x48, 0x44, 0x52) {
            chunks_admitted(
                image,
                next,
                sequence,
                image_data,
                header_at(image, data, length),
                frames,
            )
        } else if frame_control || frame_data {
            if length < 4 {
                false
            } else if be_u32(image, data) != sequence {
                true
            } else if sequence >= 0xFFFF_FFFF {
                false
            } else if frame_control && image_data {
                if length < 26 {
                    true
                } else {
                    chunks_admitted(
                        image,
                        next,
                        sequence + 1,
                        image_data,
                        header,
                        frames.push(
                            (be_u32(image, data + 4) as u32, be_u32(image, data + 8) as u32),
                        ),
                    )
                }
            } else if frame_data && frames.len() == 0 {
                true
            } else {
                chunks_admitted(image, next, sequence + 1, image_data, header, frames)
            }
        } else {
            chunks_admitted(image, next, sequence, image_data, header, frames)
        }
    }
}

/// Whether the engine may be given `image`: the walk over the chunks after
/// the eight bytes of the signature admits it.
pub open spec fn engine_admits(image: Seq<u8>) -> bool {
    chunks_admitted(image, 8, 0, false, SeenHeader::Absent, Seq::empty())
}

/// Reads the big-endian number in the four bytes from `at` on.
fn read_be_u32(image: &[u8], at: usize) -> (value: u32)
    requires
        at + 4 <= image.len(),
    ensures
        value == be_u32(image@, at as int),
{
    let a: u32 = image[at] as u32;
    let b: u32 = image[at + 1] as u32;
    let c: u32 = image[at + 2] as u32;
    let d: u32 = image[at + 3] as u32;
    a * 0x100_0000 + b * 0x1_0000 + c * 0x100 + d
}

/// Tests whether the four bytes from `at` on are `name`.
fn name_is(image: &[u8], at: usize, name: [u8; 4]) -> (same: bool)
    requires
        at + 4 <= image.len(),
    ensures
        same == has_name(image@, at as int, name[0], name[1], name[2], name[3]),
{
    image[at] == name[0] && image[at + 1] == name[1] && image[at + 2] == name[2] && image[at + 3]
        == name[3]
}

/// Moves the checksum register by one bit.
fn shift(register: u32) -> (moved: u32)
    ensures
        moved == crc_shift(register),
{
    if register & 1 == 1 {
        (register >> 1) ^ 0xEDB8_8320
    } else {
        register >> 1
    }
}

/// Computes the checksum of the bytes of `image` from `from` up to `to`.
fn checksum_between(image: &[u8], from: usize, to: usize) -> (sum: u32)
    requires
        from <= to <= image.len(),
    ensures
        sum == checksum_of(image@.subrange(from as int, to as int)),
{
    let mut register: u32 = 0xFFFF_FFFF;
    let mut i: usize = from;
    assert(image@.subrange(from as int, from as int) =~= Seq::<u8>::empty());
    while i < to
        invariant
            from <= i <= to <= image.len(),
            register == crc_register(image@.subrange(from as int, i as int)),
        decreases to - i,
    {
        let ghost before = image@.subrange(from as int, i as int);
        let ghost after = image@.subrange(from as int, i + 1);
        assert(after.drop_last() =~= before);
        assert(after.last() == image@[i as int]);
        let mixed: u32 = register ^ (image[i] as u32);
        register = shift(shift(shift(shift(shift(shift(shift(shift(mixed))))))));
        i += 1;
    }
    register ^ 0xFFFF_FFFF
}

/// Computes the 32-bit cyclic redundancy checksum of `bytes`.
pub fn checksum(bytes: &[u8]) -> (sum: u32)
    ensures
        sum == checksum_of(bytes@),
{
    assert(bytes@.subrange(0, bytes@.len() as int) =~= bytes@);
    checksum_between(bytes, 0, bytes.len())
}

/// The widest pixel, in bytes, that the engine builds from a header.
fn widest_pixel_of(colour: u8, depth: u8) -> (pixel: u64)
    ensures
        pixel == widest_pixel(colour, depth),
        1 <= pixel <= 8,
{
    let wide: u64 = if depth == 16 {
        2
    } else {
        1
    };
    if colour == 0 {
        wide
    } else if colour == 2 {
        3 * wide
    } else if colour == 3 {
        4
    } else if colour == 4 {
        2 * wide
    } else {
        4 * wide
    }
}

/// Tests whether an image or a frame of the given sides can be held at
/// `pixel` bytes a pixel.
pub fn size_is_admitted(width: u32, height: u32, pixel: u8) -> (ok: bool)
    requires
        1 <= pixel <= 8,
    ensures
        ok == size_admitted(width as int, height as int, pixel as int),
{
    if width == 0 || height == 0 {
        return false;
    }
    assert(width as int * pixel as int <= 0xFFFF_FFFF * 8) by (nonlinear_arith)
        requires
            0 <= width <= 0xFFFF_FFFF,
            1 <= pixel <= 8,
    ;
    let row: u64 = (width as u64) * (pixel as u64);
    if row > ROW_LIMIT {
        return false;
    }
    assert(row as int * height as int <= 0x1FF_FFFF * 0xFFFF_FFFF) by (nonlinear_arith)
        requires
            0 <= row <= 0x1FF_FFFF,
            0 <= height <= 0xFFFF_FFFF,
    ;
    let total: u64 = row * (height as u64) + 2 * (height as u64) + 7;
    total <= RAW_SIZE_LIMIT
}

/// Reads the header that a chunk holds.
fn read_header(image: &[u8], data: usize, length: usize) -> (header: SeenHeader)
    requires
        data + length <= image.len(),
    ensures
        header == header_at(image@, data as int, length as int),
{
    if length < 13 {
        SeenHeader::Short
    } else {
        SeenHeader::Read {
            width: read_be_u32(image, data),
            height: read_be_u32(image, data + 4),
            depth: image[data + 8],
            colour: image[data + 9],
            interlace: image[data + 12],
        }
    }
}

/// Tests whether an image whose chunks end in an end chunk is admitted.
#[verifier::loop_isolation(false)]
fn end_is_admitted(image_data: bool, header: SeenHeader, frames: &Vec<(u32, u32)>) -> (ok: bool)
    ensures
        ok == end_admitted(image_data, header, frames@),
{
    if !image_data {
        return true;
    }
    match header {
        SeenHeader::Absent => true,
        SeenHeader::Short => true,
        SeenHeader::Read { width, height, depth, colour, interlace } => {
            let colour_known = colour == 0 || colour == 2 || colour == 3 || colour == 4 || colour
                == 6;
            let depth_known = depth == 1 || depth == 2 || depth == 4 || depth == 8 || depth == 16;
            if !colour_known || !depth_known || interlace > 1 {
                return true;
            }
            let legal = if colour == 0 {
                true
            } else if colour == 3 {
                depth != 16
            } else {
                depth == 8 || depth == 16
            };
            let pixel: u8 = widest_pixel_of(colour, depth) as u8;
            if !legal || !size_is_admitted(width, height, pixel) {
                return false;
            }
            let mut i: usize = 0;
            while i < frames.len()
                invariant
                    i <= frames.len(),
                    1 <= pixel <= 8,
                    forall|k: int| 0 <= k < i ==> #[trigger] frame_admitted(frames@[k], pixel as int),
                decreases frames.len() - i,
            {
                let frame = frames[i];
                if !size_is_admitted(frame.0, frame.1, pixel) {
                    assert(!frame_admitted(frames@[i as int], pixel as int));
                    return false;
                }
                i += 1;
            }
            true
        },
    }
}

/// Decides whether the engine may be given `image`.
pub fn admits(image: &[u8]) -> (ok: bool)
    ensures
        ok == engine_admits(image@),
{
    if image.len() < 8 {
        return true;
    }
    let mut at: usize = 8;
    let mut sequence: u32 = 0;
    let mut image_data = false;
    let mut header = SeenHeader::Absent;
    let mut frames: Vec<(u32, u32)> = Vec::new();
    loop
        invariant
            8 <= at <= image.len(),
            engine_admits(image@) == chunks_admitted(
                image@,
                at as int,
                sequence as int,
                image_data,
                header,
                frames@,
            ),
        decreases image.len() - at,
    {
        let left: usize = image.len() - at;
        if left < 4 {
            return true;
        }
        let declared: u32 = read_be_u32(image, at);
        let length: usize = declared as usize;
        if left < 12 || left - 12 < length {
            return at as u64 <= OFFSET_LIMIT && at as u64 + 12 + declared as u64 <= OFFSET_LIMIT;
        }
        let data: usize = at + 8;
        let next: usize = at + 12 + length;
        if name_is(image, at + 4, [0x49, 0x45, 0x4E, 0x44]) {
            return end_is_admitted(image_data, header, &frames);
        }
        if checksum_between(image, at + 4, data + length) != read_be_u32(image, data + length) {
            return true;
        }
        let frame_control = name_is(image, at + 4, [0x66, 0x63, 0x54, 0x4C]);
        let frame_data = name_is(image, at + 4, [0x66, 0x64, 0x41, 0x54]);
        if name_is(image, at + 4, [0x49, 0x44, 0x41, 0x54]) {
            image_data = image_data || length > 0;
        } else if name_is(image, at + 4, [0x49, 0x48, 0x44, 0x52]) {
            header = read_header(image, data, length);
        } else if frame_control || frame_data {
            if length < 4 {
                return false;
            }
            if read_be_u32(image, data) != sequence {
                return true;
            }
            if sequence == 0xFFFF_FFFF {
                return false;
            }
            if frame_control && image_data {
                if length < 26 {
                    return true;
                }
                frames.push((read_be_u32(image, data + 4), read_be_u32(image, data + 8)));
            } else if frame_data && frames.len() == 0 {
                return true;
            }
            sequence = sequence + 1;
        }
        at = next;
    }
}

} // verus!
