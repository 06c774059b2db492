use overlay::color::{
    blend_colors, color_black, color_blue, color_cyan, color_dark_gray, color_gray, color_green,
    color_light_gray, color_magenta, color_orange, color_pink, color_red, color_to_hex,
    color_to_rgb_hex, color_to_rgba, color_transparent, color_white, color_yellow, create_color,
    lerp_colors, Color, WEIGHT_ONE,
};

#[test]
fn test_color_creation() {
    let color = create_color(255, 128, 64, 255);
    assert_eq!(color.r, 255);
    assert_eq!(color.g, 128);
    assert_eq!(color.b, 64);
    assert_eq!(color.a, 255);

    let rgba = color.to_rgba();
    assert_eq!(rgba, [255, 128, 64, 255]);
}

#[test]
fn test_predefined_colors() {
    let red = color_red();
    assert_eq!(red.r, 255);
    assert_eq!(red.g, 0);
    assert_eq!(red.b, 0);
    assert_eq!(red.a, 255);

    let green = color_green();
    assert_eq!(green.r, 0);
    assert_eq!(green.g, 255);
    assert_eq!(green.b, 0);
    assert_eq!(green.a, 255);

    let blue = color_blue();
    assert_eq!(blue.r, 0);
    assert_eq!(blue.g, 0);
    assert_eq!(blue.b, 255);
    assert_eq!(blue.a, 255);

    let black = color_black();
    assert_eq!(black.r, 0);
    assert_eq!(black.g, 0);
    assert_eq!(black.b, 0);
    assert_eq!(black.a, 255);

    let white = color_white();
    assert_eq!(white.r, 255);
    assert_eq!(white.g, 255);
    assert_eq!(white.b, 255);
    assert_eq!(white.a, 255);

    let transparent = color_transparent();
    assert_eq!(transparent.r, 0);
    assert_eq!(transparent.g, 0);
    assert_eq!(transparent.b, 0);
    assert_eq!(transparent.a, 0);
}

#[test]
fn remaining_palette_colors() {
    assert_eq!(color_yellow(), Color::new(255, 255, 0, 255));
    assert_eq!(color_cyan(), Color::new(0, 255, 255, 255));
    assert_eq!(color_magenta(), Color::new(255, 0, 255, 255));
    assert_eq!(color_gray(), Color::new(128, 128, 128, 255));
    assert_eq!(color_dark_gray(), Color::new(64, 64, 64, 255));
    assert_eq!(color_light_gray(), Color::new(192, 192, 192, 255));
    assert_eq!(color_orange(), Color::new(255, 165, 0, 255));
    assert_eq!(color_pink(), Color::new(255, 192, 203, 255));
}

#[test]
fn color_bytes_are_in_buffer_order() {
    assert_eq!(color_to_rgba(Color::new(1, 2, 3, 4)), vec![1, 2, 3, 4]);
}

#[test]
fn hex_codes_are_upper_case_with_two_digits_per_channel() {
    let color = Color::new(255, 128, 10, 0);
    assert_eq!(color.to_hex(), "#FF800A00");
    assert_eq!(color.to_rgb_hex(), "#FF800A");
    assert_eq!(color_to_hex(Color::new(0, 1, 171, 205)), "#0001ABCD");
    assert_eq!(color_to_rgb_hex(Color::new(18, 52, 86, 120)), "#123456");
}

#[test]
fn opaque_self_blend_is_identity() {
    let colors = [
        Color::new(0, 0, 0, 255),
        Color::new(255, 255, 255, 255),
        Color::new(12, 200, 99, 255),
    ];
    for c in colors {
        assert_eq!(c.blend(&c), c);
    }
}

#[test]
fn self_blend_is_identity_for_every_alpha() {
    let c = Color::new(3, 3, 3, 65);
    assert_eq!(c.blend(&c), c);
}

#[test]
fn blend_truncates_each_channel() {
    let top = Color::new(200, 10, 128, 128);
    let under = Color::new(100, 250, 50, 255);
    let out = top.blend(&under);
    assert_eq!(out.r, 150);
    assert_eq!(out.g, 129);
    assert_eq!(out.b, 89);
    // alpha: (128 * 128 + 255 * 127) / 255 = 191.25..., truncated
    assert_eq!(out.a, 191);
    assert_eq!(blend_colors(top, under), out);
}

#[test]
fn blend_with_extreme_alpha() {
    let under = Color::new(9, 8, 7, 6);
    let opaque = Color::new(1, 2, 3, 255);
    assert_eq!(opaque.blend(&under), opaque);
    let clear = Color::new(1, 2, 3, 0);
    assert_eq!(clear.blend(&under), under);
    assert_eq!(Color::new(255, 0, 0, 1).blend(&Color::new(0, 0, 0, 0)).r, 1);
}

#[test]
fn lerp_ends_are_the_two_colors() {
    let a = Color::new(10, 20, 30, 40);
    let b = Color::new(250, 0, 30, 255);
    assert_eq!(a.lerp(&b, 0), a);
    assert_eq!(a.lerp(&b, WEIGHT_ONE), b);
}

#[test]
fn lerp_clamps_the_weight() {
    let a = Color::new(10, 20, 30, 40);
    let b = Color::new(250, 0, 30, 255);
    assert_eq!(a.lerp(&b, -5), a);
    assert_eq!(a.lerp(&b, i32::MIN), a);
    assert_eq!(a.lerp(&b, WEIGHT_ONE + 1), b);
    assert_eq!(a.lerp(&b, i32::MAX), b);
}

#[test]
fn lerp_truncates_each_channel() {
    let a = Color::new(0, 10, 100, 200);
    let b = Color::new(255, 0, 200, 100);
    let half = a.lerp(&b, WEIGHT_ONE / 2);
    assert_eq!(half, Color::new(127, 5, 150, 150));
    let quarter = a.lerp(&b, WEIGHT_ONE / 4);
    assert_eq!(quarter.b, 125);
    assert_eq!(quarter.a, 175);
    // one step below the weight one stays below the second color
    assert_eq!(a.lerp(&b, WEIGHT_ONE - 1).r, 254);
    // the smallest weight above zero already leaves a falling channel
    assert_eq!(a.lerp(&b, 1).g, 9);
    assert_eq!(lerp_colors(a, b, WEIGHT_ONE / 2), half);
}
