//! A small library that renders a synthetic gradient raster image and
//! serialises it into an uncompressed 24-bit bitmap container: a 14-byte
//! file header, a 40-byte image descriptor, then packed blue-green-red
//! pixel triples in row-major order, every multi-byte field little-endian.
//!
//! A `width` by `height` image yields exactly `height` rows of `width`
//! pixel records each, so the file holds `54 + 3 * width * height` bytes,
//! and the declared height matches the rows actually written.

pub mod bytes;
pub mod header;
pub mod pixel;
pub mod layout;
pub mod generator;
