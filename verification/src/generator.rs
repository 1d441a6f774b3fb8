//! The generator drives one full image pass: it lays down the two
//! metadata records once, then streams pixel records row by row, top to
//! bottom, and reports progress after each row. The pass moves strictly
//! forward: headers first, then rows, until every row is out.

use vstd::prelude::*;

verus! {

use vstd::arithmetic::div_mod::{
    lemma_div_is_ordered,
    lemma_div_multiples_vanish_fancy,
    lemma_div_pos_is_pos,
};
use vstd::arithmetic::mul::lemma_mul_inequality;
use crate::header::{
    BmpDibHeader,
    BmpHeader,
    dib_bytes,
    dib_header_bytes,
    encode_dib_header,
    encode_header,
    file_header_bytes,
    header_bytes,
};
use crate::pixel::{
    encode_pixel,
    gradient_pixel,
    gradient_pixel_bytes,
    lemma_channel_level_bounds,
    pixel_bytes,
};
use crate::layout::{
    file_bytes,
    file_size_of,
    lemma_file_len,
    row_prefix_bytes,
    rows_prefix_bytes,
};

/// The progress percentage after `rows` of `height` rows: the fraction
/// `rows / height` scaled to 100 and rounded to the nearest whole
/// number, ties upward.
pub open spec fn progress_level(rows: int, height: int) -> int
    recommends
        0 <= rows <= height,
        height >= 1,
{
    (200 * rows + height) / (2 * height)
}

/// Progress lies in `[0, 100]`: it starts at 0 and reaches exactly 100
/// when every row is out.
pub proof fn lemma_progress_level_bounds(rows: int, height: int)
    requires
        0 <= rows <= height,
        1 <= height,
    ensures
        0 <= progress_level(rows, height) <= 100,
        rows == 0 ==> progress_level(rows, height) == 0,
        rows == height ==> progress_level(rows, height) == 100,
{
    lemma_div_multiples_vanish_fancy(100, height, 2 * height);
    lemma_div_multiples_vanish_fancy(0, height, 2 * height);
    lemma_div_is_ordered(200 * rows + height, 200 * height + height, 2 * height);
    lemma_div_pos_is_pos(200 * rows + height, 2 * height);
}

/// Progress values reported across a run never fall: the level is
/// monotonically non-decreasing in the number of finished rows.
pub proof fn lemma_progress_monotonic(rows1: int, rows2: int, height: int)
    requires
        0 <= rows1 <= rows2,
        1 <= height,
    ensures
        progress_level(rows1, height) <= progress_level(rows2, height),
{
    lemma_div_is_ordered(200 * rows1 + height, 200 * rows2 + height, 2 * height);
}

/// One image-generation pass: the requested geometry, the number of
/// rows already streamed, and the bytes produced so far.
pub struct Generator {
    pub width: u32,
    pub height: u32,
    pub rows_done: u32,
    pub buf: Vec<u8>,
}

impl Generator {
    /// A well-formed pass: positive geometry that fits the signed
    /// 32-bit descriptor fields and the 32-bit size field, and a buffer
    /// holding exactly the headers followed by the finished rows.
    pub open spec fn wf(self) -> bool {
        &&& 1 <= self.width <= i32::MAX
        &&& 1 <= self.height <= i32::MAX
        &&& file_size_of(self.width as int, self.height as int) <= u32::MAX
        &&& self.rows_done <= self.height
        &&& self.buf@ == file_header_bytes(file_size_of(self.width as int, self.height as int))
            + dib_header_bytes(self.width as int, self.height as int)
            + rows_prefix_bytes(self.rows_done as int, self.width as int, self.height as int)
    }

    /// Opens a pass over a `width` by `height` image and lays down the
    /// 14-byte file header and the 40-byte image descriptor.
    pub fn new(width: u32, height: u32) -> (g: Generator)
        requires
            1 <= width <= 0x7fff_ffff,
            1 <= height <= 0x7fff_ffff,
            54 + 3 * (width as int) * (height as int) <= u32::MAX,
        ensures
            g.wf(),
            g.width == width,
            g.height == height,
            g.rows_done == 0,
    {
        proof {
            lemma_mul_inequality(1, height as int, 3 * width as int);
            assert(3 * (width as int) * 1 == 3 * (width as int)) by (nonlinear_arith);
            assert((3 * width as int) * (height as int) == 3 * (width as int) * (height as int))
                by (nonlinear_arith);
        }
        let data_size: u32 = 3 * width * height;
        let header = BmpHeader::new(data_size);
        let dib = BmpDibHeader::new(width as i32, height as i32);
        let mut buf: Vec<u8> = Vec::new();
        encode_header(&header, &mut buf);
        encode_dib_header(&dib, &mut buf);
        proof {
            assert(header_bytes(header)
                =~= file_header_bytes(file_size_of(width as int, height as int)));
            assert(dib_bytes(dib) =~= dib_header_bytes(width as int, height as int));
            assert(buf@ =~= file_header_bytes(file_size_of(width as int, height as int))
                + dib_header_bytes(width as int, height as int)
                + rows_prefix_bytes(0, width as int, height as int));
        }
        Generator { width, height, rows_done: 0, buf }
    }

    /// Whether every row has been streamed; `Complete` is terminal.
    pub fn is_complete(&self) -> (done: bool)
        ensures
            done == (self.rows_done == self.height),
    {
        self.rows_done == self.height
    }

    /// Streams the next row of pixel records, left to right.
    pub fn write_row(&mut self)
        requires
            old(self).wf(),
            old(self).rows_done < old(self).height,
        ensures
            final(self).wf(),
            final(self).width == old(self).width,
            final(self).height == old(self).height,
            final(self).rows_done == old(self).rows_done + 1,
    {
        let width = self.width;
        let height = self.height;
        let row = self.rows_done;
        let ghost base = self.buf@;
        let mut col: u32 = 0;
        while col < width
            invariant
                col <= width,
                1 <= width <= i32::MAX,
                1 <= height <= i32::MAX,
                row < height,
                self.width == width,
                self.height == height,
                self.rows_done == row,
                self.buf@ == base + row_prefix_bytes(
                    row as int,
                    col as int,
                    width as int,
                    height as int,
                ),
            decreases width - col,
        {
            let p = gradient_pixel(col, row, width, height);
            encode_pixel(&p, &mut self.buf);
            proof {
                lemma_channel_level_bounds(col as int, width as int);
                lemma_channel_level_bounds(row as int, height as int);
                assert(pixel_bytes(p)
                    =~= gradient_pixel_bytes(col as int, row as int, width as int, height as int));
                assert(self.buf@ =~= base + row_prefix_bytes(
                    row as int,
                    (col + 1) as int,
                    width as int,
                    height as int,
                ));
            }
            col = col + 1;
        }
        self.rows_done = row + 1;
        proof {
            assert(self.buf@ =~= file_header_bytes(
                file_size_of(width as int, height as int),
            ) + dib_header_bytes(width as int, height as int)
                + rows_prefix_bytes((row + 1) as int, width as int, height as int));
        }
    }

    /// The progress percentage of the pass so far.
    pub fn progress(&self) -> (pct: u8)
        requires
            self.wf(),
        ensures
            pct as int == progress_level(self.rows_done as int, self.height as int),
            pct <= 100,
    {
        proof {
            lemma_progress_level_bounds(self.rows_done as int, self.height as int);
        }
        ((200u64 * (self.rows_done as u64) + (self.height as u64))
            / (2u64 * (self.height as u64))) as u8
    }

    /// Hands the finished file over: exactly the byte image of the
    /// whole container.
    pub fn finish(self) -> (out: Vec<u8>)
        requires
            self.wf(),
            self.rows_done == self.height,
        ensures
            out@ == file_bytes(self.width as int, self.height as int),
            out@.len() == file_size_of(self.width as int, self.height as int),
    {
        proof {
            lemma_file_len(self.width as int, self.height as int);
            assert(self.buf@ =~= file_bytes(self.width as int, self.height as int));
        }
        self.buf
    }
}

/// Renders the complete file for a `width` by `height` image in one
/// call.
pub fn render(width: u32, height: u32) -> (out: Vec<u8>)
    requires
        1 <= width <= 0x7fff_ffff,
        1 <= height <= 0x7fff_ffff,
        54 + 3 * (width as int) * (height as int) <= u32::MAX,
    ensures
        out@ == file_bytes(width as int, height as int),
        out@.len() == file_size_of(width as int, height as int),
{
    let mut g = Generator::new(width, height);
    while g.rows_done < g.height
        invariant
            g.wf(),
            g.width == width,
            g.height == height,
        decreases g.height - g.rows_done,
    {
        g.write_row();
    }
    g.finish()
}

/// Two runs with identical parameters produce byte-identical files:
/// the byte image is a function of the geometry alone.
pub proof fn lemma_render_deterministic(first: Seq<u8>, second: Seq<u8>, width: int, height: int)
    requires
        first == file_bytes(width, height),
        second == file_bytes(width, height),
    ensures
        first == second,
{
}

} // verus!
