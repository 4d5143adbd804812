use d2b_clip_picker::pin_icon::{
    generated_pin_pixels, generated_pin_texture, parse_pin_color, PinIconSource, PIN_ICON_NAME,
    PIN_ICON_THEME,
};
use d2b_clip_picker::session::{
    KeyboardMode, PICKER_BOOTSTRAP_KEYBOARD_MODE, PICKER_STEADY_KEYBOARD_MODE,
};

#[test]
fn picker_bootstraps_focus_then_uses_on_demand_keyboard_interactivity() {
    assert_eq!(PICKER_BOOTSTRAP_KEYBOARD_MODE, KeyboardMode::Exclusive);
    assert_eq!(PICKER_STEADY_KEYBOARD_MODE, KeyboardMode::OnDemand);
    assert_eq!(PIN_ICON_NAME, "view-pin-symbolic");
    assert_eq!(PIN_ICON_THEME, "Adwaita");
    assert_eq!(parse_pin_color("#f8f8f2"), [0xf8, 0xf8, 0xf2]);
    assert_eq!(parse_pin_color("currentColor"), [0xf8, 0xf8, 0xf2]);
}

#[test]
fn generated_pin_fallback_is_deterministic_and_monochrome() {
    let mask = ["#.", ".#"];
    let pixels = generated_pin_pixels(&mask, [10, 20, 30]);

    assert_eq!(pixels.len(), 16);
    assert_eq!(&pixels[0..4], &[10, 20, 30, 255]);
    assert_eq!(&pixels[4..8], &[0, 0, 0, 0]);
    assert_eq!(&pixels[8..12], &[0, 0, 0, 0]);
    assert_eq!(&pixels[12..16], &[10, 20, 30, 255]);
}

#[test]
fn pin_colors_are_read_as_numbers() {
    assert_eq!(parse_pin_color("#0A1b2C"), [0x0a, 0x1b, 0x2c]);
    assert_eq!(parse_pin_color("#+a+b+c"), [0x0a, 0x0b, 0x0c]);
    assert_eq!(parse_pin_color("#-a1b2c"), [0xf8, 0xf8, 0xf2]);
    assert_eq!(parse_pin_color("#12345g"), [0xf8, 0xf8, 0xf2]);
    assert_eq!(parse_pin_color("#12345"), [0xf8, 0xf8, 0xf2]);
    assert_eq!(parse_pin_color("#éèà"), [0xf8, 0xf8, 0xf2]);
    assert_eq!(parse_pin_color("alpha(#313233, 0.14)"), [0xf8, 0xf8, 0xf2]);
}

#[test]
fn the_drawn_pin_has_sixteen_rows_of_sixteen_pixels() {
    let pixels = generated_pin_texture("#010203");
    assert_eq!(pixels.len(), 16 * 16 * 4);
    assert_eq!(&pixels[0..4], &[0, 0, 0, 0]);
    assert_eq!(&pixels[(16 + 4) * 4..(16 + 5) * 4], &[1, 2, 3, 255]);
    assert_eq!(pixels.chunks(4).filter(|pixel| pixel[3] == 255).count(), 58);
}

#[test]
fn the_icon_theme_goes_first() {
    assert_eq!(PinIconSource::choose_from(true), PinIconSource::ThemeSymbolic);
    assert_eq!(
        PinIconSource::choose_from(false),
        PinIconSource::GeneratedMonochrome
    );
}
