use bmpgen::bytes::{push_i32_le, push_u16_le, push_u32_le};
use bmpgen::generator::{render, Generator};
use bmpgen::header::{encode_dib_header, encode_header, BmpDibHeader, BmpHeader};
use bmpgen::pixel::{encode_pixel, Pixel};

#[test]
fn progress_monotone_and_bounded() {
    let mut g = Generator::new(16, 16);
    assert_eq!(g.progress(), 0);
    let mut last: u8 = 0;
    while !g.is_complete() {
        g.write_row();
        let pct = g.progress();
        assert!(pct >= last);
        assert!(pct <= 100);
        last = pct;
    }
    assert_eq!(last, 100);
    assert_eq!(g.finish(), render(16, 16));
}

#[test]
fn generator_starts_with_headers_only() {
    let g = Generator::new(8, 8);
    assert!(!g.is_complete());
    assert_eq!(g.buf.len(), 54);
}

#[test]
fn file_header_fields() {
    let h = BmpHeader::new(100);
    assert_eq!(h.bitmap_signature_bytes, [66, 77]);
    assert_eq!(h.file_size, 154);
    assert_eq!(h.creator_1, 0);
    assert_eq!(h.creator_2, 0);
    assert_eq!(h.pixel_offset, 54);
}

#[test]
fn image_descriptor_fields() {
    let d = BmpDibHeader::new(9, 8);
    assert_eq!(d.header_size, 40);
    assert_eq!(d.width, 9);
    assert_eq!(d.height, 8);
    assert_eq!(d.num_planes, 1);
    assert_eq!(d.bits_per_pixel, 24);
    assert_eq!(d.compress_type, 0);
    assert_eq!(d.data_size, 0);
    assert_eq!(d.h_res, 2835);
    assert_eq!(d.v_res, 2835);
    assert_eq!(d.num_colors, 0);
    assert_eq!(d.num_imp_colors, 0);
}

#[test]
fn little_endian_field_encoders() {
    let mut buf: Vec<u8> = Vec::new();
    push_u16_le(&mut buf, 0x1234);
    assert_eq!(buf, vec![0x34, 0x12]);
    buf.clear();
    push_u32_le(&mut buf, 0xdead_beef);
    assert_eq!(buf, vec![0xef, 0xbe, 0xad, 0xde]);
    buf.clear();
    push_i32_le(&mut buf, 2835);
    assert_eq!(buf, vec![0x13, 0x0b, 0x00, 0x00]);
}

#[test]
fn header_encoders_write_declared_layout() {
    let mut buf: Vec<u8> = Vec::new();
    encode_header(&BmpHeader::new(3), &mut buf);
    assert_eq!(
        buf,
        vec![66, 77, 57, 0, 0, 0, 0, 0, 0, 0, 54, 0, 0, 0]
    );
    let mut dib: Vec<u8> = Vec::new();
    encode_dib_header(&BmpDibHeader::new(1, 1), &mut dib);
    assert_eq!(dib.len(), 40);
    assert_eq!(&dib[0..4], &[40, 0, 0, 0]);
    let mut px: Vec<u8> = Vec::new();
    let p = Pixel { r: 1, g: 2, b: 3 };
    encode_pixel(&p, &mut px);
    assert_eq!(px, vec![3, 2, 1]);
}
