//! The byte image of a complete file, and the lemmas that pin the
//! layout down: total length, signature, size field, geometry fields,
//! colour-depth fields, and the position of each pixel record.

use vstd::prelude::*;

verus! {

use crate::bytes::{le_bytes_4, le_u16_at, le_u32_at, lemma_le_bytes_4_roundtrip};
use crate::header::{dib_header_bytes, file_header_bytes};
use crate::pixel::{
    channel_level,
    gradient_pixel_bytes,
    lemma_channel_level_bounds,
    lemma_channel_level_monotonic,
};

/// Total length of the file for a `width` by `height` image: 54 header
/// bytes, then three bytes for each pixel.
pub open spec fn file_size_of(width: int, height: int) -> int
    recommends
        width >= 1,
        height >= 1,
{
    54 + 3 * width * height
}

/// The first `cols` pixel records of row `row`, concatenated in column
/// order.
pub open spec fn row_prefix_bytes(row: int, cols: int, width: int, height: int) -> Seq<u8>
    decreases cols,
{
    if cols <= 0 {
        Seq::empty()
    } else {
        row_prefix_bytes(row, cols - 1, width, height)
            + gradient_pixel_bytes(cols - 1, row, width, height)
    }
}

/// One full row of pixel records.
pub open spec fn row_bytes(row: int, width: int, height: int) -> Seq<u8> {
    row_prefix_bytes(row, width, width, height)
}

/// The first `rows` full rows of pixel records, concatenated top to
/// bottom.
pub open spec fn rows_prefix_bytes(rows: int, width: int, height: int) -> Seq<u8>
    decreases rows,
{
    if rows <= 0 {
        Seq::empty()
    } else {
        rows_prefix_bytes(rows - 1, width, height) + row_bytes(rows - 1, width, height)
    }
}

/// The pixel data of the whole image: `height` rows in row-major order.
pub open spec fn pixel_data_bytes(width: int, height: int) -> Seq<u8> {
    rows_prefix_bytes(height, width, height)
}

/// The byte image of the complete file: file header, image descriptor,
/// pixel data.
pub open spec fn file_bytes(width: int, height: int) -> Seq<u8>
    recommends
        1 <= width <= i32::MAX,
        1 <= height <= i32::MAX,
        file_size_of(width, height) <= u32::MAX,
{
    file_header_bytes(file_size_of(width, height)) + dib_header_bytes(width, height)
        + pixel_data_bytes(width, height)
}

/// A row prefix holds three bytes per pixel record.
pub proof fn lemma_row_prefix_len(row: int, cols: int, width: int, height: int)
    requires
        cols >= 0,
    ensures
        row_prefix_bytes(row, cols, width, height).len() == 3 * cols,
    decreases cols,
{
    if cols > 0 {
        lemma_row_prefix_len(row, cols - 1, width, height);
    }
}

/// A prefix of rows holds `3 * width` bytes per row.
pub proof fn lemma_rows_prefix_len(rows: int, width: int, height: int)
    requires
        rows >= 0,
        width >= 0,
    ensures
        rows_prefix_bytes(rows, width, height).len() == 3 * width * rows,
    decreases rows,
{
    if rows > 0 {
        lemma_rows_prefix_len(rows - 1, width, height);
        lemma_row_prefix_len(rows - 1, width, width, height);
        assert(rows_prefix_bytes(rows, width, height).len() == 3 * width * (rows - 1) + 3 * width);
        assert(3 * width * (rows - 1) + 3 * width == 3 * width * rows) by (nonlinear_arith);
    } else {
        assert(3 * width * rows == 0) by (nonlinear_arith)
            requires
                rows == 0,
        ;
    }
}

/// The produced file's total byte length is exactly
/// `54 + 3 * width * height`.
pub proof fn lemma_file_len(width: int, height: int)
    requires
        width >= 1,
        height >= 1,
    ensures
        file_bytes(width, height).len() == file_size_of(width, height),
{
    lemma_rows_prefix_len(height, width, height);
}

/// The first two bytes of the produced file are the fixed signature,
/// the ASCII codes of `B` and `M`.
pub proof fn lemma_file_signature(width: int, height: int)
    ensures
        file_bytes(width, height)[0] == 66,
        file_bytes(width, height)[1] == 77,
{
}

/// Bytes 2..6 of the produced file, read as a little-endian 32-bit
/// value, equal the file's actual total length.
pub proof fn lemma_file_size_field(width: int, height: int)
    requires
        width >= 1,
        height >= 1,
        file_size_of(width, height) <= u32::MAX,
    ensures
        le_u32_at(file_bytes(width, height), 2) == file_bytes(width, height).len(),
{
    let size = file_size_of(width, height);
    assert(3 * width * height >= 0) by (nonlinear_arith)
        requires
            width >= 1,
            height >= 1,
    ;
    lemma_le_bytes_4_roundtrip(size);
    let file = file_bytes(width, height);
    assert(file[2] == le_bytes_4(size)[0]);
    assert(file[3] == le_bytes_4(size)[1]);
    assert(file[4] == le_bytes_4(size)[2]);
    assert(file[5] == le_bytes_4(size)[3]);
    lemma_file_len(width, height);
}

/// Bytes 14..18 of the produced file hold the descriptor size 40, and
/// bytes 18..22 and 22..26, read little-endian, hold the requested
/// width and height.
pub proof fn lemma_file_geometry_fields(width: int, height: int)
    requires
        1 <= width <= i32::MAX,
        1 <= height <= i32::MAX,
    ensures
        le_u32_at(file_bytes(width, height), 14) == 40,
        le_u32_at(file_bytes(width, height), 18) == width,
        le_u32_at(file_bytes(width, height), 22) == height,
{
    let file = file_bytes(width, height);
    lemma_le_bytes_4_roundtrip(40);
    lemma_le_bytes_4_roundtrip(width);
    lemma_le_bytes_4_roundtrip(height);
    assert(file[14] == le_bytes_4(40)[0]);
    assert(file[15] == le_bytes_4(40)[1]);
    assert(file[16] == le_bytes_4(40)[2]);
    assert(file[17] == le_bytes_4(40)[3]);
    assert(file[18] == le_bytes_4(width)[0]);
    assert(file[19] == le_bytes_4(width)[1]);
    assert(file[20] == le_bytes_4(width)[2]);
    assert(file[21] == le_bytes_4(width)[3]);
    assert(file[22] == le_bytes_4(height)[0]);
    assert(file[23] == le_bytes_4(height)[1]);
    assert(file[24] == le_bytes_4(height)[2]);
    assert(file[25] == le_bytes_4(height)[3]);
}

/// Within one row prefix the record of column `col` stands at byte
/// offset `3 * col`.
pub proof fn lemma_row_prefix_index(row: int, cols: int, col: int, width: int, height: int)
    requires
        0 <= col < cols,
    ensures
        row_prefix_bytes(row, cols, width, height).subrange(3 * col, 3 * col + 3)
            == gradient_pixel_bytes(col, row, width, height),
    decreases cols,
{
    lemma_row_prefix_len(row, cols, width, height);
    lemma_row_prefix_len(row, cols - 1, width, height);
    if col < cols - 1 {
        lemma_row_prefix_index(row, cols - 1, col, width, height);
        assert(row_prefix_bytes(row, cols, width, height).subrange(3 * col, 3 * col + 3)
            =~= row_prefix_bytes(row, cols - 1, width, height).subrange(3 * col, 3 * col + 3));
    } else {
        assert(row_prefix_bytes(row, cols, width, height).subrange(3 * col, 3 * col + 3)
            =~= gradient_pixel_bytes(col, row, width, height));
    }
}

/// Within the pixel data the record row `row` stands at byte offset
/// `3 * width * row`.
pub proof fn lemma_rows_prefix_index(rows: int, row: int, width: int, height: int)
    requires
        0 <= row < rows,
        width >= 0,
    ensures
        rows_prefix_bytes(rows, width, height).subrange(
            3 * width * row,
            3 * width * row + 3 * width,
        ) == row_bytes(row, width, height),
    decreases rows,
{
    lemma_rows_prefix_len(rows, width, height);
    lemma_rows_prefix_len(rows - 1, width, height);
    lemma_row_prefix_len(rows - 1, width, width, height);
    if row < rows - 1 {
        lemma_rows_prefix_index(rows - 1, row, width, height);
        assert(3 * width * row + 3 * width <= 3 * width * (rows - 1)) by (nonlinear_arith)
            requires
                0 <= row,
                row < rows - 1,
                width >= 0,
        ;
        assert(rows_prefix_bytes(rows, width, height).subrange(
            3 * width * row,
            3 * width * row + 3 * width,
        ) =~= rows_prefix_bytes(rows - 1, width, height).subrange(
            3 * width * row,
            3 * width * row + 3 * width,
        ));
    } else {
        assert(rows_prefix_bytes(rows, width, height).subrange(
            3 * width * row,
            3 * width * row + 3 * width,
        ) =~= row_bytes(rows - 1, width, height));
    }
}

/// The pixel record of column `col`, row `row` stands in the produced
/// file at byte offset `54 + 3 * (row * width + col)`: three bytes in
/// blue, green, red order.
#[verifier::rlimit(60)]
pub proof fn lemma_pixel_location(col: int, row: int, width: int, height: int)
    requires
        0 <= col < width,
        0 <= row < height,
    ensures
        file_bytes(width, height).subrange(
            54 + 3 * (row * width + col),
            54 + 3 * (row * width + col) + 3,
        ) == gradient_pixel_bytes(col, row, width, height),
{
    let data = pixel_data_bytes(width, height);
    let off = 3 * width * row;
    lemma_rows_prefix_len(height, width, height);
    lemma_rows_prefix_index(height, row, width, height);
    lemma_row_prefix_index(row, width, col, width, height);
    lemma_row_prefix_len(row, width, width, height);
    assert(3 * (row * width + col) == off + 3 * col) by (nonlinear_arith)
        requires
            off == 3 * width * row,
    ;
    assert(off + 3 * width <= 3 * width * height) by (nonlinear_arith)
        requires
            off == 3 * width * row,
            0 <= row,
            row < height,
            width >= 0,
    ;
    assert(data.subrange(off, off + 3 * width).subrange(3 * col, 3 * col + 3)
        =~= data.subrange(off + 3 * col, off + 3 * col + 3));
    assert(file_bytes(width, height).subrange(
        54 + off + 3 * col,
        54 + off + 3 * col + 3,
    ) =~= data.subrange(off + 3 * col, off + 3 * col + 3));
}

/// The red byte of the pixel record at column `col`, row `row` in the
/// produced file; the record's third byte.
pub open spec fn red_byte_at(col: int, row: int, width: int, height: int) -> u8
    recommends
        0 <= col < width,
        0 <= row < height,
{
    file_bytes(width, height)[54 + 3 * (row * width + col) + 2]
}

/// The green byte of the pixel record at column `col`, row `row` in the
/// produced file; the record's second byte.
pub open spec fn green_byte_at(col: int, row: int, width: int, height: int) -> u8
    recommends
        0 <= col < width,
        0 <= row < height,
{
    file_bytes(width, height)[54 + 3 * (row * width + col) + 1]
}

/// In the produced file the red channel never falls as the column grows
/// within a fixed row, and the green channel never falls as the row
/// grows within a fixed column.
pub proof fn lemma_file_gradient_monotonic(
    col1: int,
    col2: int,
    row1: int,
    row2: int,
    width: int,
    height: int,
)
    requires
        0 <= col1 <= col2 < width,
        0 <= row1 <= row2 < height,
    ensures
        red_byte_at(col1, row1, width, height) <= red_byte_at(col2, row1, width, height),
        green_byte_at(col1, row1, width, height) <= green_byte_at(col1, row2, width, height),
{
    lemma_pixel_record_channels(col1, row1, width, height);
    lemma_pixel_record_channels(col2, row1, width, height);
    lemma_pixel_record_channels(col1, row2, width, height);
    lemma_channel_level_monotonic(col1, col2, width);
    lemma_channel_level_monotonic(row1, row2, height);
}

/// The red and green bytes of a pixel record in the produced file are
/// the gradient levels of its column and row.
pub proof fn lemma_pixel_record_channels(col: int, row: int, width: int, height: int)
    requires
        0 <= col < width,
        0 <= row < height,
    ensures
        red_byte_at(col, row, width, height) == channel_level(col, width),
        green_byte_at(col, row, width, height) == channel_level(row, height),
{
    let off = 54 + 3 * (row * width + col);
    let file = file_bytes(width, height);
    lemma_pixel_location(col, row, width, height);
    lemma_channel_level_bounds(col, width);
    lemma_channel_level_bounds(row, height);
    lemma_file_len(width, height);
    assert(off + 3 <= file.len()) by (nonlinear_arith)
        requires
            0 <= col < width,
            0 <= row < height,
            off == 54 + 3 * (row * width + col),
            file.len() == 54 + 3 * width * height,
    ;
    assert(file[off + 1] == file.subrange(off, off + 3)[1]);
    assert(file[off + 2] == file.subrange(off, off + 3)[2]);
}

/// Bytes 28..30 of the produced file hold 24 bits per pixel, and bytes
/// 30..34 hold compression type 0.
pub proof fn lemma_file_format_fields(width: int, height: int)
    ensures
        le_u16_at(file_bytes(width, height), 28) == 24,
        le_u32_at(file_bytes(width, height), 30) == 0,
{
}

} // verus!
