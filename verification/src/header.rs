//! The two fixed metadata records of the container: the 14-byte file
//! header and the 40-byte image descriptor, with their byte layouts.

use vstd::prelude::*;

verus! {

use crate::bytes::{le_bytes_2, le_bytes_4, push_u16_le, push_u32_le, push_i32_le};

/// The 14-byte file header: signature, total file size, two reserved
/// fields, and the offset of the pixel data.
pub struct BmpHeader {
    pub bitmap_signature_bytes: [u8; 2],
    pub file_size: u32,
    pub creator_1: u16,
    pub creator_2: u16,
    pub pixel_offset: u32,
}

impl BmpHeader {
    /// Builds the file header for `size` bytes of pixel data: the stored
    /// total file size counts the 54 header bytes as well.
    pub fn new(size: u32) -> (h: BmpHeader)
        requires
            size + 54 <= u32::MAX,
        ensures
            h.bitmap_signature_bytes@ == seq![66u8, 77u8],
            h.file_size == 54 + size,
            h.creator_1 == 0,
            h.creator_2 == 0,
            h.pixel_offset == 54,
    {
        BmpHeader {
            bitmap_signature_bytes: [66, 77],
            file_size: 54 + size,
            creator_1: 0,
            creator_2: 0,
            pixel_offset: 54,
        }
    }
}

/// The byte image of a file header, fields in declaration order,
/// multi-byte fields little-endian.
pub open spec fn header_bytes(h: BmpHeader) -> Seq<u8> {
    h.bitmap_signature_bytes@ + le_bytes_4(h.file_size as int) + le_bytes_2(h.creator_1 as int)
        + le_bytes_2(h.creator_2 as int) + le_bytes_4(h.pixel_offset as int)
}

/// The byte image of the file header that `BmpHeader::new` builds for a
/// file of `total_size` bytes.
pub open spec fn file_header_bytes(total_size: int) -> Seq<u8>
    recommends
        0 <= total_size <= u32::MAX,
{
    seq![66u8, 77u8] + le_bytes_4(total_size) + le_bytes_2(0) + le_bytes_2(0) + le_bytes_4(54)
}

/// Appends the 14 bytes of the file header to `buf`.
pub fn encode_header(h: &BmpHeader, buf: &mut Vec<u8>)
    ensures
        final(buf)@ == old(buf)@ + header_bytes(*h),
{
    buf.push(h.bitmap_signature_bytes[0]);
    buf.push(h.bitmap_signature_bytes[1]);
    push_u32_le(buf, h.file_size);
    push_u16_le(buf, h.creator_1);
    push_u16_le(buf, h.creator_2);
    push_u32_le(buf, h.pixel_offset);
    proof {
        assert(buf@ =~= old(buf)@ + header_bytes(*h));
    }
}

/// The 40-byte image descriptor: pixel geometry, colour depth and the
/// constant bookkeeping fields of the uncompressed 24-bit format.
pub struct BmpDibHeader {
    pub header_size: u32,
    pub width: i32,
    pub height: i32,
    pub num_planes: u16,
    pub bits_per_pixel: u16,
    pub compress_type: u32,
    pub data_size: u32,
    pub h_res: i32,
    pub v_res: i32,
    pub num_colors: u32,
    pub num_imp_colors: u32,
}

impl BmpDibHeader {
    /// Builds the descriptor for a `width` by `height` image: one plane,
    /// 24 bits per pixel, no compression, 2835 pixels per metre.
    pub fn new(width: i32, height: i32) -> (d: BmpDibHeader)
        ensures
            d.header_size == 40,
            d.width == width,
            d.height == height,
            d.num_planes == 1,
            d.bits_per_pixel == 24,
            d.compress_type == 0,
            d.data_size == 0,
            d.h_res == 2835,
            d.v_res == 2835,
            d.num_colors == 0,
            d.num_imp_colors == 0,
    {
        BmpDibHeader {
            header_size: 40,
            width,
            height,
            num_planes: 1,
            bits_per_pixel: 24,
            compress_type: 0,
            data_size: 0,
            h_res: 2835,
            v_res: 2835,
            num_colors: 0,
            num_imp_colors: 0,
        }
    }
}

/// The byte image of an image descriptor, fields in declaration order,
/// every field little-endian; only non-negative dimensions are written,
/// so the signed fields encode like unsigned ones.
pub open spec fn dib_bytes(d: BmpDibHeader) -> Seq<u8>
    recommends
        d.width >= 0,
        d.height >= 0,
        d.h_res >= 0,
        d.v_res >= 0,
{
    le_bytes_4(d.header_size as int) + le_bytes_4(d.width as int) + le_bytes_4(d.height as int)
        + le_bytes_2(d.num_planes as int) + le_bytes_2(d.bits_per_pixel as int)
        + le_bytes_4(d.compress_type as int) + le_bytes_4(d.data_size as int)
        + le_bytes_4(d.h_res as int) + le_bytes_4(d.v_res as int)
        + le_bytes_4(d.num_colors as int) + le_bytes_4(d.num_imp_colors as int)
}

/// The byte image of the image descriptor that `BmpDibHeader::new`
/// builds for a `width` by `height` image.
pub open spec fn dib_header_bytes(width: int, height: int) -> Seq<u8>
    recommends
        0 <= width <= i32::MAX,
        0 <= height <= i32::MAX,
{
    le_bytes_4(40) + le_bytes_4(width) + le_bytes_4(height) + le_bytes_2(1) + le_bytes_2(24)
        + le_bytes_4(0) + le_bytes_4(0) + le_bytes_4(2835) + le_bytes_4(2835) + le_bytes_4(0)
        + le_bytes_4(0)
}

/// Appends the 40 bytes of the image descriptor to `buf`.
pub fn encode_dib_header(d: &BmpDibHeader, buf: &mut Vec<u8>)
    requires
        d.width >= 0,
        d.height >= 0,
        d.h_res >= 0,
        d.v_res >= 0,
    ensures
        final(buf)@ == old(buf)@ + dib_bytes(*d),
{
    push_u32_le(buf, d.header_size);
    push_i32_le(buf, d.width);
    push_i32_le(buf, d.height);
    push_u16_le(buf, d.num_planes);
    push_u16_le(buf, d.bits_per_pixel);
    push_u32_le(buf, d.compress_type);
    push_u32_le(buf, d.data_size);
    push_i32_le(buf, d.h_res);
    push_i32_le(buf, d.v_res);
    push_u32_le(buf, d.num_colors);
    push_u32_le(buf, d.num_imp_colors);
    proof {
        assert(buf@ =~= old(buf)@ + dib_bytes(*d));
    }
}

} // verus!
