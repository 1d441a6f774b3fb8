use bmpgen::generator::render;
use bmpgen::pixel::{gradient_channel, gradient_pixel, Pixel, BLUE_LEVEL};

fn pixel_at(out: &[u8], col: usize, row: usize, width: usize) -> (u8, u8, u8) {
    let at = 54 + 3 * (row * width + col);
    (out[at], out[at + 1], out[at + 2])
}

#[test]
fn corner_pixels_of_512_square() {
    let out = render(512, 512);
    let (b, g, r) = pixel_at(&out, 0, 0, 512);
    assert_eq!(r, 0);
    assert_eq!(g, 0);
    assert_eq!(b, 63);
    let (_, g, r) = pixel_at(&out, 511, 0, 512);
    assert_eq!(r, 255);
    assert_eq!(g, 0);
    let (_, g, r) = pixel_at(&out, 0, 511, 512);
    assert_eq!(r, 0);
    assert_eq!(g, 255);
}

#[test]
fn channel_formula_exact_values() {
    assert_eq!(gradient_channel(0, 512), 0);
    assert_eq!(gradient_channel(511, 512), 255);
    assert_eq!(gradient_channel(255, 512) as u64, 255999u64 * 255 / 511000);
    assert_eq!(gradient_channel(255, 512), 127);
    assert_eq!(gradient_channel(1, 2), 255);
}

#[test]
fn red_monotone_within_row() {
    let width: usize = 97;
    let out = render(width as u32, 3);
    let mut last: u8 = 0;
    for col in 0..width {
        let (_, _, r) = pixel_at(&out, col, 1, width);
        assert!(r >= last);
        last = r;
    }
    assert_eq!(last, 255);
}

#[test]
fn green_monotone_within_column() {
    let height: usize = 61;
    let out = render(5, height as u32);
    let mut last: u8 = 0;
    for row in 0..height {
        let (_, g, _) = pixel_at(&out, 3, row, 5);
        assert!(g >= last);
        last = g;
    }
    assert_eq!(last, 255);
}

#[test]
fn blue_is_constant_quarter_intensity() {
    assert_eq!(BLUE_LEVEL, 63);
    let out = render(6, 4);
    for p in 0..6 * 4 {
        assert_eq!(out[54 + 3 * p], 63);
    }
}

#[test]
fn extent_of_one_yields_zero_gradient() {
    assert_eq!(gradient_channel(0, 1), 0);
    let out = render(1, 1);
    assert_eq!(out.len(), 57);
    let (b, g, r) = pixel_at(&out, 0, 0, 1);
    assert_eq!((b, g, r), (63, 0, 0));
    let tall = render(1, 3);
    for row in 0..3 {
        let (_, _, r) = pixel_at(&tall, 0, row, 1);
        assert_eq!(r, 0);
    }
}

#[test]
fn gradient_pixel_channels() {
    let p = gradient_pixel(3, 2, 9, 8);
    assert_eq!(p.r, gradient_channel(3, 9));
    assert_eq!(p.g, gradient_channel(2, 8));
    assert_eq!(p.b, 63);
}

#[test]
fn default_pixel_colour() {
    let p = Pixel::new();
    assert_eq!(p.b, 192);
    assert_eq!(p.g, 107);
    assert_eq!(p.r, 92);
}
