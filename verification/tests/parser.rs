use sigil::{parse, parse_csi, strip_ansi, visible_len, EscapeKind, ParsedSequence};

fn escape(segment: &ParsedSequence) -> (&str, EscapeKind, &str, Vec<u16>) {
    let e = segment.as_escape().expect("an escape");
    (e.raw.as_str(), e.kind, e.description.as_str(), e.params.clone())
}

#[test]
fn test_parse_simple() {
    let segments = parse("\x1b[31mRed\x1b[0m");
    assert_eq!(segments.len(), 3);

    assert!(matches!(&segments[0], ParsedSequence::Escape(e) if e.kind == EscapeKind::Sgr));
    assert!(matches!(&segments[1], ParsedSequence::Text(t) if t == "Red"));
    assert!(matches!(&segments[2], ParsedSequence::Escape(e) if e.kind == EscapeKind::Sgr));
}

#[test]
fn test_strip_ansi() {
    let stripped = strip_ansi("\x1b[1;31mBold Red\x1b[0m Text");
    assert_eq!(stripped, "Bold Red Text");
}

#[test]
fn test_visible_len() {
    let len = visible_len("\x1b[31mHello\x1b[0m");
    assert_eq!(len, 5);
}

#[test]
fn parse_simple_in_full() {
    let segments = parse("\x1b[31mRed\x1b[0m");
    assert_eq!(segments.len(), 3);
    assert_eq!(escape(&segments[0]), ("\x1b[31m", EscapeKind::Sgr, "red fg", vec![31]));
    assert_eq!(segments[1].as_text(), Some("Red"));
    assert_eq!(escape(&segments[2]), ("\x1b[0m", EscapeKind::Sgr, "reset", vec![0]));
}

#[test]
fn as_text_and_as_escape_exclude_each_other() {
    let segments = parse("a\x1b[0m");
    assert_eq!(segments.len(), 2);
    assert_eq!(segments[0].as_text(), Some("a"));
    assert!(segments[0].as_escape().is_none());
    assert!(segments[1].as_text().is_none());
    assert!(segments[1].as_escape().is_some());
}

#[test]
fn plain_text_is_one_segment() {
    let segments = parse("hello, world");
    assert_eq!(segments.len(), 1);
    assert_eq!(segments[0].as_text(), Some("hello, world"));
    let segments = parse("caf\u{e9} \u{4e2d}\u{6587} [0m ;;");
    assert_eq!(segments.len(), 1);
    assert_eq!(segments[0].as_text(), Some("caf\u{e9} \u{4e2d}\u{6587} [0m ;;"));
}

#[test]
fn empty_input_has_no_segment() {
    assert!(parse("").is_empty());
    assert_eq!(strip_ansi(""), "");
    assert_eq!(visible_len(""), 0);
}

#[test]
fn lone_introducer_at_the_end_is_dropped() {
    assert!(parse("\x1b").is_empty());
    let segments = parse("abc\x1b");
    assert_eq!(segments.len(), 1);
    assert_eq!(segments[0].as_text(), Some("abc"));
}

#[test]
fn control_sequence_without_last_character_is_dropped() {
    assert!(parse("\x1b[").is_empty());
    assert!(parse("\x1b[12;3").is_empty());
    let segments = parse("ab\x1b[1;");
    assert_eq!(segments.len(), 1);
    assert_eq!(segments[0].as_text(), Some("ab"));
    assert_eq!(strip_ansi("ab\x1b[1;"), "ab");
}

#[test]
fn unknown_escape_takes_two_characters() {
    let segments = parse("\x1b7rest");
    assert_eq!(segments.len(), 2);
    assert_eq!(escape(&segments[0]), ("\x1b7", EscapeKind::Unknown, "unknown", vec![]));
    assert_eq!(segments[1].as_text(), Some("rest"));
    let segments = parse("\x1b\x1b[0m");
    assert_eq!(segments.len(), 2);
    assert_eq!(escape(&segments[0]), ("\x1b\x1b", EscapeKind::Unknown, "unknown", vec![]));
    assert_eq!(segments[1].as_text(), Some("[0m"));
}

#[test]
fn operating_system_command_ends_at_the_bell() {
    let segments = parse("\x1b]0;title\x07after");
    assert_eq!(segments.len(), 2);
    assert_eq!(
        escape(&segments[0]),
        ("\x1b]0;title\x07", EscapeKind::Osc, "operating system command", vec![])
    );
    assert_eq!(segments[1].as_text(), Some("after"));
}

#[test]
fn operating_system_command_ends_at_the_string_terminator() {
    let segments = parse("\x1b]8;;http://x\x1b\\after");
    assert_eq!(segments.len(), 2);
    assert_eq!(
        escape(&segments[0]),
        ("\x1b]8;;http://x\x1b\\", EscapeKind::Osc, "operating system command", vec![])
    );
    assert_eq!(segments[1].as_text(), Some("after"));
}

#[test]
fn backslash_alone_does_not_end_an_operating_system_command() {
    let segments = parse("\x1b]a\\b\x07c");
    assert_eq!(segments.len(), 2);
    assert_eq!(
        escape(&segments[0]),
        ("\x1b]a\\b\x07", EscapeKind::Osc, "operating system command", vec![])
    );
    assert_eq!(segments[1].as_text(), Some("c"));
    let segments = parse("\x1b]\\\x07");
    assert_eq!(segments.len(), 1);
    assert_eq!(
        escape(&segments[0]),
        ("\x1b]\\\x07", EscapeKind::Osc, "operating system command", vec![])
    );
}

#[test]
fn operating_system_command_without_terminator_is_dropped() {
    assert!(parse("\x1b]").is_empty());
    assert!(parse("\x1b]0;title").is_empty());
    let segments = parse("ab\x1b]0;title\x1b[0m");
    assert_eq!(segments.len(), 1);
    assert_eq!(segments[0].as_text(), Some("ab"));
}

#[test]
fn cursor_up_five() {
    let segments = parse("\x1b[5A");
    assert_eq!(segments.len(), 1);
    let e = segments[0].as_escape().unwrap();
    assert_eq!(e.kind, EscapeKind::Cursor);
    assert!(e.description.contains("cursor up 5"));
    assert_eq!(e.description, "cursor up 5");
    assert_eq!(e.params, vec![5]);
}

#[test]
fn cursor_to_row_and_column() {
    let segments = parse("\x1b[10;20H");
    assert_eq!(segments.len(), 1);
    let e = segments[0].as_escape().unwrap();
    assert_eq!(e.kind, EscapeKind::Cursor);
    assert!(e.description.contains("(10, 20)"));
    assert_eq!(e.description, "cursor to (10, 20)");
    assert_eq!(e.params, vec![10, 20]);
}

#[test]
fn cursor_built_then_decoded() {
    let segments = parse(&sigil::cursor::up(5));
    assert_eq!(escape(&segments[0]), ("\x1b[5A", EscapeKind::Cursor, "cursor up 5", vec![5]));
    let segments = parse(&sigil::cursor::goto(10, 20));
    assert_eq!(
        escape(&segments[0]),
        ("\x1b[10;20H", EscapeKind::Cursor, "cursor to (10, 20)", vec![10, 20])
    );
}

#[test]
fn cursor_movements() {
    assert_eq!(parse_csi("", 'A', "\x1b[A").description, "cursor up 1");
    assert_eq!(parse_csi("3", 'B', "\x1b[3B").description, "cursor down 3");
    assert_eq!(parse_csi("", 'B', "\x1b[B").description, "cursor down 1");
    assert_eq!(parse_csi("4", 'C', "\x1b[4C").description, "cursor right 4");
    assert_eq!(parse_csi("", 'C', "\x1b[C").description, "cursor right 1");
    assert_eq!(parse_csi("12", 'D', "\x1b[12D").description, "cursor left 12");
    assert_eq!(parse_csi("", 'D', "\x1b[D").description, "cursor left 1");
    assert_eq!(parse_csi("0", 'A', "\x1b[0A").description, "cursor up 0");
    assert_eq!(parse_csi("", 'H', "\x1b[H").description, "cursor to (1, 1)");
    assert_eq!(parse_csi("7", 'H', "\x1b[7H").description, "cursor to (7, 1)");
    assert_eq!(parse_csi(";7", 'f', "\x1b[;7f").description, "cursor to (7, 1)");
    assert_eq!(parse_csi("2;3", 'f', "\x1b[2;3f").description, "cursor to (2, 3)");
    assert_eq!(parse_csi("", 's', "\x1b[s").description, "save cursor position");
    assert_eq!(parse_csi("", 'u', "\x1b[u").description, "restore cursor position");
    for c in ['A', 'B', 'C', 'D', 'H', 'f', 's', 'u'] {
        assert_eq!(parse_csi("1", c, "").kind, EscapeKind::Cursor);
    }
}

#[test]
fn erase_screen_modes() {
    assert_eq!(parse_csi("", 'J', "").description, "clear to end of screen");
    assert_eq!(parse_csi("0", 'J', "").description, "clear to end of screen");
    assert_eq!(parse_csi("1", 'J', "").description, "clear to start of screen");
    assert_eq!(parse_csi("2", 'J', "").description, "clear entire screen");
    assert_eq!(parse_csi("3", 'J', "").description, "clear screen and scrollback");
    assert_eq!(parse_csi("4", 'J', "").description, "clear screen (unknown mode)");
    assert_eq!(parse_csi("2", 'J', "").kind, EscapeKind::Erase);
}

#[test]
fn erase_line_modes() {
    assert_eq!(parse_csi("", 'K', "").description, "clear to end of line");
    assert_eq!(parse_csi("0", 'K', "").description, "clear to end of line");
    assert_eq!(parse_csi("1", 'K', "").description, "clear to start of line");
    assert_eq!(parse_csi("2", 'K', "").description, "clear entire line");
    assert_eq!(parse_csi("3", 'K', "").description, "clear line (unknown mode)");
    assert_eq!(parse_csi("2", 'K', "").kind, EscapeKind::Erase);
}

#[test]
fn private_modes() {
    assert_eq!(parse_csi("?25", 'h', "").description, "enable cursor visibility");
    assert_eq!(parse_csi("?25", 'l', "").description, "disable cursor visibility");
    assert_eq!(parse_csi("?1049", 'h', "").description, "enable alternate screen");
    assert_eq!(parse_csi("?1049", 'l', "").description, "disable alternate screen");
    assert_eq!(parse_csi("?1000", 'h', "").description, "enable mouse tracking");
    assert_eq!(parse_csi("?1000", 'l', "").description, "disable mouse tracking");
    assert_eq!(parse_csi("?2004", 'h', "").description, "enable bracketed paste");
    assert_eq!(parse_csi("?2004", 'l', "").description, "disable bracketed paste");
    assert_eq!(parse_csi("?7", 'h', "").description, "enable mode 7");
    assert_eq!(parse_csi("?025", 'l', "").description, "disable mode 025");
    assert_eq!(parse_csi("??25", 'h', "").description, "enable mode ?25");
    assert_eq!(parse_csi("??", 'l', "").description, "disable mode ?");
    assert_eq!(parse_csi("?25?", 'h', "").description, "enable mode 25?");
    assert_eq!(parse_csi("?", 'h', "").description, "enable mode ");
    assert_eq!(parse_csi("?25", 'h', "").kind, EscapeKind::Mode);
    assert!(parse_csi("?25", 'h', "").params.is_empty());
}

#[test]
fn public_modes() {
    assert_eq!(parse_csi("4", 'h', "").description, "enable mode 4");
    assert_eq!(parse_csi("4", 'l', "").description, "disable mode 4");
    assert_eq!(parse_csi("25", 'h', "").description, "enable mode 25");
    assert_eq!(parse_csi("", 'l', "").description, "disable mode ");
    assert_eq!(parse_csi("4;20", 'h', "").description, "enable mode 4;20");
    assert_eq!(parse_csi("4;20", 'h', "").params, vec![4, 20]);
}

#[test]
fn mode_sequences_in_a_stream() {
    let segments = parse("\x1b[4h\x1b[20l");
    assert_eq!(segments.len(), 2);
    assert_eq!(escape(&segments[0]), ("\x1b[4h", EscapeKind::Mode, "enable mode 4", vec![4]));
    assert_eq!(escape(&segments[1]), ("\x1b[20l", EscapeKind::Mode, "disable mode 20", vec![20]));
}

#[test]
fn question_mark_ends_the_parameter_text() {
    let segments = parse("\x1b[?25h");
    assert_eq!(segments.len(), 2);
    assert_eq!(
        escape(&segments[0]),
        ("\x1b[?", EscapeKind::Unknown, "CSI sequence ending with '?'", vec![])
    );
    assert_eq!(segments[1].as_text(), Some("25h"));
}

#[test]
fn unknown_last_character() {
    let e = parse_csi("1;2", 'z', "\x1b[1;2z");
    assert_eq!(e.kind, EscapeKind::Unknown);
    assert_eq!(e.description, "CSI sequence ending with 'z'");
    assert_eq!(e.params, vec![1, 2]);
    assert_eq!(e.raw, "\x1b[1;2z");
    assert_eq!(parse_csi("", '\u{e9}', "").description, "CSI sequence ending with '\u{e9}'");
    assert_eq!(parse_csi("", '\'', "").description, "CSI sequence ending with '''");
}

#[test]
fn style_sequences() {
    let e = parse_csi("1;31", 'm', "\x1b[1;31m");
    assert_eq!(e.kind, EscapeKind::Sgr);
    assert_eq!(e.description, "bold, red fg");
    assert_eq!(e.params, vec![1, 31]);
    let e = parse_csi("", 'm', "\x1b[m");
    assert_eq!(e.description, "reset");
    assert!(e.params.is_empty());
    let e = parse_csi("38;2;255;128;0", 'm', "");
    assert_eq!(e.description, "fg: rgb(255, 128, 0)");
    assert_eq!(e.params, vec![38, 2, 255, 128, 0]);
}

#[test]
fn empty_fields_are_passed_over() {
    assert_eq!(parse_csi(";;5;;6;", 'm', "").params, vec![5, 6]);
    assert!(parse_csi(";", 'm', "").params.is_empty());
    assert!(parse_csi(";;;", 'm', "").params.is_empty());
    let segments = parse("\x1b[;1;;31;m");
    assert_eq!(escape(&segments[0]), ("\x1b[;1;;31;m", EscapeKind::Sgr, "bold, red fg", vec![1, 31]));
}

#[test]
fn fields_that_write_no_number_are_passed_over() {
    assert_eq!(parse_csi("1;x;2", 'm', "").params, vec![1, 2]);
    assert_eq!(parse_csi("1;65536;2", 'm', "").params, vec![1, 2]);
    assert_eq!(parse_csi("1;99999999999999999999999;2", 'm', "").params, vec![1, 2]);
    assert_eq!(parse_csi("1; 2;3", 'm', "").params, vec![1, 3]);
    assert_eq!(parse_csi("1;-2;3", 'm', "").params, vec![1, 3]);
    assert_eq!(parse_csi("1;+;3", 'm', "").params, vec![1, 3]);
    assert_eq!(parse_csi("1;2+;3", 'm', "").params, vec![1, 3]);
    assert_eq!(parse_csi("1;++2;3", 'm', "").params, vec![1, 3]);
    assert_eq!(parse_csi("\u{661}", 'm', "").params, Vec::<u16>::new());
}

#[test]
fn fields_at_the_limits() {
    assert_eq!(parse_csi("65535", 'm', "").params, vec![65535]);
    assert_eq!(parse_csi("0", 'm', "").params, vec![0]);
    assert_eq!(parse_csi("007", 'm', "").params, vec![7]);
    assert_eq!(parse_csi("000000000000000000000000065535", 'm', "").params, vec![65535]);
    assert_eq!(parse_csi("+5", 'm', "").params, vec![5]);
    assert_eq!(parse_csi("+0065535;+65536", 'm', "").params, vec![65535]);
    let segments = parse("\x1b[65536;65535A");
    assert_eq!(
        escape(&segments[0]),
        ("\x1b[65536;65535A", EscapeKind::Cursor, "cursor up 65535", vec![65535])
    );
}

#[test]
fn fields_agree_with_the_standard_parser() {
    let fields = [
        "", "0", "1", "9", "10", "99", "255", "256", "1000", "65535", "65536", "70000", "655350",
        "000", "0065535", "0065536", "+", "+1", "+65535", "+65536", "-1", "-0", "1a", "a1", " 1",
        "1 ", "++1", "1+", "\u{661}", "4294967296", "18446744073709551616",
    ];
    for field in fields {
        let wanted: Vec<u16> = field.parse::<u16>().ok().into_iter().collect();
        assert_eq!(parse_csi(field, 'm', "").params, wanted, "field {field:?}");
    }
}

#[test]
fn strip_keeps_only_the_text() {
    assert_eq!(strip_ansi("plain"), "plain");
    assert_eq!(strip_ansi("\x1b[2J\x1b[H"), "");
    assert_eq!(strip_ansi("a\x1b7b\x1b]0;t\x07c\x1b[1md"), "abcd");
    assert_eq!(strip_ansi("caf\u{e9}\x1b[0m"), "caf\u{e9}");
}

#[test]
fn visible_len_counts_characters() {
    assert_eq!(visible_len("plain"), 5);
    assert_eq!(visible_len("\x1b[1m\u{4e2d}\u{6587}\x1b[0m"), 2);
    assert_eq!(visible_len("caf\u{e9}"), 4);
    assert_eq!(visible_len("\x1b[2J"), 0);
}

#[test]
fn string_terminator_directly_behind_the_lead_in() {
    let segments = parse("\x1b]\x1b\\x");
    assert_eq!(segments.len(), 2);
    assert_eq!(
        escape(&segments[0]),
        ("\x1b]\x1b\\", EscapeKind::Osc, "operating system command", vec![])
    );
    assert_eq!(segments[1].as_text(), Some("x"));
}

#[test]
fn introducer_inside_an_operating_system_command_starts_nothing() {
    let segments = parse("\x1b]0;a\x1b[31mb\x07c");
    assert_eq!(segments.len(), 2);
    assert_eq!(
        escape(&segments[0]),
        ("\x1b]0;a\x1b[31mb\x07", EscapeKind::Osc, "operating system command", vec![])
    );
    assert_eq!(segments[1].as_text(), Some("c"));
}
