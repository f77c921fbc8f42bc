use almost::color::{Rgb, CHANNEL_MAX};

#[test]
fn from_hex_splits_the_three_channels() {
    assert_eq!(Rgb::from_hex(0x11111b).components(), (0x11, 0x11, 0x1b));
    assert_eq!(Rgb::from_hex(0xeeeeee).components(), (0xee, 0xee, 0xee));
    assert_eq!(Rgb::from_hex(0x123456).components(), (0x12, 0x34, 0x56));
}

#[test]
fn from_hex_black_and_white() {
    assert_eq!(Rgb::from_hex(0x000000).components(), (0, 0, 0));
    assert_eq!(Rgb::from_hex(0xFFFFFF).components(), (255, 255, 255));
}

#[test]
fn from_hex_single_channels() {
    assert_eq!(Rgb::from_hex(0xFF0000).components(), (255, 0, 0));
    assert_eq!(Rgb::from_hex(0x00FF00).components(), (0, 255, 0));
    assert_eq!(Rgb::from_hex(0x0000FF).components(), (0, 0, 255));
}

#[test]
fn from_hex_ignores_bits_above_the_24th() {
    assert_eq!(Rgb::from_hex(0xFF123456).components(), (0x12, 0x34, 0x56));
    assert_eq!(Rgb::from_hex(0x01000000).components(), (0, 0, 0));
}

#[test]
fn from_hex_matches_shifts_on_every_24_bit_input() {
    let mut x: u32 = 0;
    while x <= 0xFF_FFFF {
        let (r, g, b) = Rgb::from_hex(x).components();
        assert_eq!(r as u32, (x >> 16) & 0xFF);
        assert_eq!(g as u32, (x >> 8) & 0xFF);
        assert_eq!(b as u32, x & 0xFF);
        x += 1;
    }
}

#[test]
fn components_over_channel_max_are_the_normalised_channels() {
    assert_eq!(CHANNEL_MAX, 255);
    let x: u32 = 0x11111b;
    let (r, g, b) = Rgb::from_hex(x).components();
    let scale = CHANNEL_MAX as f64;
    assert_eq!(r as f64 / scale, ((x >> 16) & 0xFF) as f64 / 255.);
    assert_eq!(g as f64 / scale, ((x >> 8) & 0xFF) as f64 / 255.);
    assert_eq!(b as f64 / scale, (x & 0xFF) as f64 / 255.);
    assert_eq!(b as f64 / scale, 27. / 255.);
    let (r, _, _) = Rgb::from_hex(0xFFFFFF).components();
    assert_eq!(r as f64 / scale, 1.0);
    let (r, _, _) = Rgb::from_hex(0).components();
    assert_eq!(r as f64 / scale, 0.0);
}

#[test]
fn new_keeps_the_channels() {
    assert_eq!(Rgb::new(1, 2, 3).components(), (1, 2, 3));
    assert_eq!(Rgb::new(0x12, 0x34, 0x56), Rgb::from_hex(0x123456));
}
