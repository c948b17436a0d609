use sigil::brand;
use sigil::{Color, ColorError};

#[test]
fn test_fg_codes() {
    assert_eq!(Color::Red.fg_code(), "31");
    assert_eq!(Color::BrightBlue.fg_code(), "94");
    assert_eq!(Color::Ansi256(42).fg_code(), "38;5;42");
    assert_eq!(Color::rgb(255, 128, 0).fg_code(), "38;2;255;128;0");
}

#[test]
fn test_from_hex() {
    let color = Color::from_hex("#F97316");
    assert_eq!(color, Ok(Color::Rgb { r: 249, g: 115, b: 22 }));
}

#[test]
fn from_hex_without_marker() {
    assert_eq!(Color::from_hex("F97316"), Ok(Color::Rgb { r: 249, g: 115, b: 22 }));
    assert_eq!(Color::from_hex("000000"), Ok(Color::Rgb { r: 0, g: 0, b: 0 }));
    assert_eq!(Color::from_hex("ffffff"), Ok(Color::Rgb { r: 255, g: 255, b: 255 }));
    assert_eq!(Color::from_hex("#0a1B2c"), Ok(Color::Rgb { r: 10, g: 27, b: 44 }));
}

#[test]
fn from_hex_refuses_wrong_length() {
    assert_eq!(Color::from_hex(""), Err(ColorError::InvalidColorLiteral));
    assert_eq!(Color::from_hex("#"), Err(ColorError::InvalidColorLiteral));
    assert_eq!(Color::from_hex("#F9731"), Err(ColorError::InvalidColorLiteral));
    assert_eq!(Color::from_hex("F973167"), Err(ColorError::InvalidColorLiteral));
    assert_eq!(Color::from_hex("#F97316FF"), Err(ColorError::InvalidColorLiteral));
    assert_eq!(Color::from_hex("F97316#"), Err(ColorError::InvalidColorLiteral));
}

#[test]
fn from_hex_refuses_a_second_marker() {
    assert_eq!(Color::from_hex("##F97316"), Err(ColorError::InvalidColorLiteral));
    assert_eq!(Color::from_hex("###000000"), Err(ColorError::InvalidColorLiteral));
    assert_eq!(Color::from_hex("##97316"), Err(ColorError::InvalidColorLiteral));
    assert_eq!(Color::from_hex("#F9731#"), Err(ColorError::InvalidColorLiteral));
}

#[test]
fn from_hex_refuses_other_characters() {
    assert_eq!(Color::from_hex("#G97316"), Err(ColorError::InvalidColorLiteral));
    assert_eq!(Color::from_hex("+F+F+F"), Err(ColorError::InvalidColorLiteral));
    assert_eq!(Color::from_hex("F9 316"), Err(ColorError::InvalidColorLiteral));
    assert_eq!(Color::from_hex("F9731\u{e9}"), Err(ColorError::InvalidColorLiteral));
    assert_eq!(Color::from_hex("\u{ff26}97316"), Err(ColorError::InvalidColorLiteral));
}

#[test]
fn constructors_build_the_variant() {
    assert_eq!(Color::rgb(1, 2, 3), Color::Rgb { r: 1, g: 2, b: 3 });
    assert_eq!(Color::ansi256(200), Color::Ansi256(200));
}

#[test]
fn fg_codes_of_every_named_color() {
    let named = [
        (Color::Default, "39"),
        (Color::Black, "30"),
        (Color::Red, "31"),
        (Color::Green, "32"),
        (Color::Yellow, "33"),
        (Color::Blue, "34"),
        (Color::Magenta, "35"),
        (Color::Cyan, "36"),
        (Color::White, "37"),
        (Color::BrightBlack, "90"),
        (Color::BrightRed, "91"),
        (Color::BrightGreen, "92"),
        (Color::BrightYellow, "93"),
        (Color::BrightBlue, "94"),
        (Color::BrightMagenta, "95"),
        (Color::BrightCyan, "96"),
        (Color::BrightWhite, "97"),
    ];
    for (color, code) in named {
        assert_eq!(color.fg_code(), code);
    }
}

#[test]
fn bg_codes_of_every_named_color() {
    let named = [
        (Color::Default, "49"),
        (Color::Black, "40"),
        (Color::Red, "41"),
        (Color::Green, "42"),
        (Color::Yellow, "43"),
        (Color::Blue, "44"),
        (Color::Magenta, "45"),
        (Color::Cyan, "46"),
        (Color::White, "47"),
        (Color::BrightBlack, "100"),
        (Color::BrightRed, "101"),
        (Color::BrightGreen, "102"),
        (Color::BrightYellow, "103"),
        (Color::BrightBlue, "104"),
        (Color::BrightMagenta, "105"),
        (Color::BrightCyan, "106"),
        (Color::BrightWhite, "107"),
    ];
    for (color, code) in named {
        assert_eq!(color.bg_code(), code);
    }
}

#[test]
fn extended_codes() {
    assert_eq!(Color::Ansi256(0).fg_code(), "38;5;0");
    assert_eq!(Color::Ansi256(255).bg_code(), "48;5;255");
    assert_eq!(Color::rgb(0, 9, 10).bg_code(), "48;2;0;9;10");
    assert_eq!(Color::rgb(99, 100, 255).fg_code(), "38;2;99;100;255");
}

#[test]
fn params_are_the_numbers_of_the_code() {
    assert_eq!(Color::Red.fg_params(), vec![31]);
    assert_eq!(Color::BrightWhite.bg_params(), vec![107]);
    assert_eq!(Color::Default.fg_params(), vec![39]);
    assert_eq!(Color::Ansi256(7).fg_params(), vec![38, 5, 7]);
    assert_eq!(Color::rgb(1, 2, 3).bg_params(), vec![48, 2, 1, 2, 3]);
}

#[test]
fn names() {
    assert_eq!(Color::Default.name(), "default");
    assert_eq!(Color::Black.name(), "black");
    assert_eq!(Color::Red.name(), "red");
    assert_eq!(Color::Green.name(), "green");
    assert_eq!(Color::Yellow.name(), "yellow");
    assert_eq!(Color::Blue.name(), "blue");
    assert_eq!(Color::Magenta.name(), "magenta");
    assert_eq!(Color::Cyan.name(), "cyan");
    assert_eq!(Color::White.name(), "white");
    assert_eq!(Color::BrightBlack.name(), "bright black");
    assert_eq!(Color::BrightRed.name(), "bright red");
    assert_eq!(Color::BrightGreen.name(), "bright green");
    assert_eq!(Color::BrightYellow.name(), "bright yellow");
    assert_eq!(Color::BrightBlue.name(), "bright blue");
    assert_eq!(Color::BrightMagenta.name(), "bright magenta");
    assert_eq!(Color::BrightCyan.name(), "bright cyan");
    assert_eq!(Color::BrightWhite.name(), "bright white");
    assert_eq!(Color::Ansi256(42).name(), "color 42");
    assert_eq!(Color::rgb(255, 128, 0).name(), "rgb(255, 128, 0)");
}

#[test]
fn brand_rgb_becomes_true_color() {
    let rgb = molten_brand::Rgb::new(249, 115, 22);
    assert_eq!(Color::from(rgb), Color::Rgb { r: 249, g: 115, b: 22 });
}

#[test]
fn brand_color_becomes_true_color() {
    let solid = molten_brand::Color::rgb(124, 58, 237);
    assert_eq!(Color::from(solid), Color::Rgb { r: 124, g: 58, b: 237 });
    let faded = molten_brand::Color::rgba(59, 130, 246, 40);
    assert_eq!(Color::from(faded), Color::Rgb { r: 59, g: 130, b: 246 });
}

#[test]
fn brand_presets() {
    assert_eq!(brand::molten(), Color::Rgb { r: 249, g: 115, b: 22 });
    assert_eq!(brand::goblin(), Color::Rgb { r: 124, g: 58, b: 237 });
    assert_eq!(brand::iron(), Color::Rgb { r: 59, g: 130, b: 246 });
    assert_eq!(brand::forge_black(), Color::Rgb { r: 10, g: 10, b: 10 });
    assert_eq!(brand::success(), Color::Rgb { r: 16, g: 185, b: 129 });
    assert_eq!(brand::warning(), Color::Rgb { r: 245, g: 158, b: 11 });
    assert_eq!(brand::error(), Color::Rgb { r: 239, g: 68, b: 68 });
}

#[test]
fn brand_presets_match_the_brand_system() {
    assert_eq!(Color::from(molten_brand::colors::molten::PRIMARY), brand::molten());
}
