use bmpgen::generator::render;

fn le_u16(bytes: &[u8], at: usize) -> u32 {
    bytes[at] as u32 + 256 * bytes[at + 1] as u32
}

fn le_u32(bytes: &[u8], at: usize) -> u32 {
    bytes[at] as u32
        + 0x100 * bytes[at + 1] as u32
        + 0x10000 * bytes[at + 2] as u32
        + 0x100_0000 * bytes[at + 3] as u32
}

#[test]
fn file_length_matches_formula() {
    assert_eq!(render(3, 2).len(), 54 + 3 * 3 * 2);
    assert_eq!(render(1, 1).len(), 57);
    assert_eq!(render(512, 512).len(), 54 + 3 * 512 * 512);
}

#[test]
fn signature_bytes() {
    let out = render(5, 4);
    assert_eq!(out[0], 66);
    assert_eq!(out[1], 77);
    assert_eq!(&out[0..2], b"BM");
}

#[test]
fn size_field_matches_actual_length() {
    let out = render(7, 5);
    assert_eq!(le_u32(&out, 2), out.len() as u32);
    let out = render(1, 1);
    assert_eq!(le_u32(&out, 2), 57);
}

#[test]
fn reserved_fields_and_pixel_offset() {
    let out = render(7, 5);
    assert_eq!(le_u16(&out, 6), 0);
    assert_eq!(le_u16(&out, 8), 0);
    assert_eq!(le_u32(&out, 10), 54);
}

#[test]
fn geometry_fields() {
    let out = render(7, 5);
    assert_eq!(le_u32(&out, 14), 40);
    assert_eq!(le_u32(&out, 18), 7);
    assert_eq!(le_u32(&out, 22), 5);
    assert_eq!(le_u16(&out, 26), 1);
}

#[test]
fn format_fields() {
    let out = render(7, 5);
    assert_eq!(le_u16(&out, 28), 24);
    assert_eq!(le_u32(&out, 30), 0);
    assert_eq!(le_u32(&out, 34), 0);
    assert_eq!(le_u32(&out, 38), 2835);
    assert_eq!(le_u32(&out, 42), 2835);
    assert_eq!(le_u32(&out, 46), 0);
    assert_eq!(le_u32(&out, 50), 0);
}

#[test]
fn render_is_deterministic() {
    let first = render(33, 17);
    let second = render(33, 17);
    assert_eq!(first, second);
}
