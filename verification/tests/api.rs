use sigil::cursor;
use sigil::prelude;
use sigil::sequences;
use sigil::{style, Color, CSI, OSC, RESET, SGR_SUFFIX};

#[test]
fn test_style_basic() {
    let s = style("test").fg(Color::Red).render();
    assert!(s.contains("\x1b["));
    assert!(s.contains("test"));
    assert!(s.ends_with(RESET));
}

#[test]
fn test_cursor_movement() {
    assert_eq!(cursor::up(5), "\x1b[5A");
    assert_eq!(cursor::goto(10, 20), "\x1b[10;20H");
}

#[test]
fn cursor_helpers() {
    assert_eq!(cursor::down(1), "\x1b[1B");
    assert_eq!(cursor::right(12), "\x1b[12C");
    assert_eq!(cursor::left(0), "\x1b[0D");
    assert_eq!(cursor::column(80), "\x1b[80G");
    assert_eq!(cursor::up(65535), "\x1b[65535A");
    assert_eq!(cursor::goto(1, 1), "\x1b[1;1H");
}

#[test]
fn prefixes_and_reset() {
    assert_eq!(CSI, "\x1b[");
    assert_eq!(OSC, "\x1b]");
    assert_eq!(SGR_SUFFIX, "m");
    assert_eq!(RESET, "\x1b[0m");
}

#[test]
fn named_sequences() {
    assert_eq!(sequences::CLEAR_SCREEN, "\x1b[2J");
    assert_eq!(sequences::CLEAR_TO_END, "\x1b[0J");
    assert_eq!(sequences::CLEAR_TO_START, "\x1b[1J");
    assert_eq!(sequences::CLEAR_LINE, "\x1b[2K");
    assert_eq!(sequences::CLEAR_LINE_TO_END, "\x1b[0K");
    assert_eq!(sequences::CLEAR_LINE_TO_START, "\x1b[1K");
    assert_eq!(sequences::CURSOR_HOME, "\x1b[H");
    assert_eq!(sequences::CURSOR_HIDE, "\x1b[?25l");
    assert_eq!(sequences::CURSOR_SHOW, "\x1b[?25h");
    assert_eq!(sequences::CURSOR_SAVE, "\x1b[s");
    assert_eq!(sequences::CURSOR_RESTORE, "\x1b[u");
    assert_eq!(sequences::ALT_SCREEN_ENTER, "\x1b[?1049h");
    assert_eq!(sequences::ALT_SCREEN_EXIT, "\x1b[?1049l");
    assert_eq!(sequences::MOUSE_ENABLE, "\x1b[?1000h");
    assert_eq!(sequences::MOUSE_DISABLE, "\x1b[?1000l");
    assert_eq!(sequences::BRACKETED_PASTE_ENABLE, "\x1b[?2004h");
    assert_eq!(sequences::BRACKETED_PASTE_DISABLE, "\x1b[?2004l");
}

#[test]
fn prelude_offers_the_styling_names() {
    assert_eq!(prelude::style("a").fg(prelude::Color::Green).render(), "\x1b[32ma\x1b[0m");
    assert_eq!(
        prelude::Style::new().modifier(prelude::Modifier::Bold).apply("a"),
        "\x1b[1ma\x1b[0m"
    );
    assert_eq!(prelude::Styled::new("a".to_string()).render(), "a");
    assert_eq!(prelude::cursor::up(2), "\x1b[2A");
    assert_eq!(prelude::sequences::CURSOR_HOME, "\x1b[H");
    assert_eq!(prelude::RESET, "\x1b[0m");
}
