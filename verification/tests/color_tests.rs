use dot_capture::color::{random_color, Color};

#[test]
fn channels_are_the_draws_scaled_to_255() {
    assert_eq!(random_color(0, 0x8000_0000, 0xffff_ffff), Color { r: 0, g: 127, b: 254 });
    assert_eq!(random_color(0x4000_0000, 0xfa00_0000, 0xfb00_0000), Color { r: 63, g: 249, b: 250 });
}

#[test]
fn no_channel_reaches_255() {
    let mut draw: u32 = 0xffff_ffff;
    for _ in 0..1024 {
        let c = random_color(draw, draw.rotate_left(11), draw.rotate_left(23));
        assert!(c.r < 255 && c.g < 255 && c.b < 255);
        draw = draw.wrapping_mul(1_664_525).wrapping_add(1_013_904_223);
    }
}

#[test]
fn color_from_a_triple_keeps_the_channels() {
    assert_eq!(Color::from((1, 2, 3)), Color { r: 1, g: 2, b: 3 });
}

#[test]
fn hex_text_has_two_digits_per_channel() {
    assert_eq!(Color { r: 255, g: 171, b: 16 }.to_hex(), "#ffab10");
    assert_eq!(Color { r: 0, g: 10, b: 15 }.to_hex(), "#000a0f");
    assert_eq!(Color { r: 1, g: 35, b: 4 }.to_hex(), "#012304");
    assert_eq!(Color { r: 18, g: 3, b: 4 }.to_hex(), "#120304");
}

#[test]
fn hex_text_of_a_drawn_color() {
    assert_eq!(random_color(0, 0x8000_0000, 0xffff_ffff).to_hex(), "#007ffe");
}
