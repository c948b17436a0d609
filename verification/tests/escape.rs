use sigil::{describe_sgr, Escape, EscapeKind};

#[test]
fn test_describe_sgr() {
    assert_eq!(describe_sgr(&[0]), "reset");
    assert_eq!(describe_sgr(&[1]), "bold");
    assert_eq!(describe_sgr(&[31]), "red fg");
    assert_eq!(describe_sgr(&[1, 31]), "bold, red fg");
    assert_eq!(describe_sgr(&[38, 2, 255, 128, 0]), "fg: rgb(255, 128, 0)");
}

#[test]
fn describe_sgr_of_nothing_is_reset() {
    assert_eq!(describe_sgr(&[]), "reset");
}

#[test]
fn describe_sgr_palette_color() {
    assert_eq!(describe_sgr(&[38, 5, 200]), "fg: color 200");
    assert_eq!(describe_sgr(&[48, 5, 17]), "bg: color 17");
}

#[test]
fn describe_sgr_true_color_background() {
    assert_eq!(describe_sgr(&[48, 2, 1, 2, 3]), "bg: rgb(1, 2, 3)");
}

#[test]
fn describe_sgr_extended_without_enough_parameters() {
    assert_eq!(describe_sgr(&[38]), "extended fg");
    assert_eq!(describe_sgr(&[48]), "extended bg");
    assert_eq!(describe_sgr(&[38, 5]), "extended fg, blink");
    assert_eq!(describe_sgr(&[38, 2, 10, 20]), "extended fg, dim, code 10, code 20");
    assert_eq!(describe_sgr(&[48, 2, 10]), "extended bg, dim, code 10");
    assert_eq!(describe_sgr(&[38, 7, 1]), "extended fg, reverse, bold");
}

#[test]
fn describe_sgr_palette_form_comes_before_true_color() {
    assert_eq!(describe_sgr(&[38, 5, 2, 3, 4]), "fg: color 2, italic, underline");
}

#[test]
fn describe_sgr_extended_then_more() {
    assert_eq!(
        describe_sgr(&[1, 38, 5, 200, 48, 2, 0, 0, 0, 4]),
        "bold, fg: color 200, bg: rgb(0, 0, 0), underline"
    );
}

#[test]
fn describe_sgr_attributes() {
    assert_eq!(describe_sgr(&[2]), "dim");
    assert_eq!(describe_sgr(&[3]), "italic");
    assert_eq!(describe_sgr(&[4]), "underline");
    assert_eq!(describe_sgr(&[5]), "blink");
    assert_eq!(describe_sgr(&[7]), "reverse");
    assert_eq!(describe_sgr(&[8]), "hidden");
    assert_eq!(describe_sgr(&[9]), "strikethrough");
    assert_eq!(describe_sgr(&[22]), "normal intensity");
    assert_eq!(describe_sgr(&[23]), "not italic");
    assert_eq!(describe_sgr(&[24]), "not underlined");
    assert_eq!(describe_sgr(&[25]), "not blinking");
    assert_eq!(describe_sgr(&[27]), "not reversed");
    assert_eq!(describe_sgr(&[28]), "not hidden");
    assert_eq!(describe_sgr(&[29]), "not strikethrough");
    assert_eq!(describe_sgr(&[39]), "default fg");
    assert_eq!(describe_sgr(&[49]), "default bg");
}

#[test]
fn describe_sgr_named_colors() {
    let names = ["black", "red", "green", "yellow", "blue", "magenta", "cyan", "white"];
    for (i, name) in names.iter().enumerate() {
        let i = i as u16;
        assert_eq!(describe_sgr(&[30 + i]), format!("{name} fg"));
        assert_eq!(describe_sgr(&[40 + i]), format!("{name} bg"));
        assert_eq!(describe_sgr(&[90 + i]), format!("bright {name} fg"));
        assert_eq!(describe_sgr(&[100 + i]), format!("bright {name} bg"));
    }
}

#[test]
fn describe_sgr_other_codes() {
    assert_eq!(describe_sgr(&[6]), "code 6");
    assert_eq!(describe_sgr(&[26]), "code 26");
    assert_eq!(describe_sgr(&[53]), "code 53");
    assert_eq!(describe_sgr(&[98]), "code 98");
    assert_eq!(describe_sgr(&[108]), "code 108");
    assert_eq!(describe_sgr(&[65535]), "code 65535");
    assert_eq!(describe_sgr(&[10, 1000]), "code 10, code 1000");
}

#[test]
fn describe_sgr_reset_among_others() {
    assert_eq!(describe_sgr(&[0, 1]), "reset, bold");
    assert_eq!(describe_sgr(&[0, 0]), "reset, reset");
}

#[test]
fn escape_new_has_no_params() {
    let e = Escape::new("\x1b[2J".to_string(), EscapeKind::Erase, "clear entire screen".to_string());
    assert_eq!(e.raw, "\x1b[2J");
    assert_eq!(e.kind, EscapeKind::Erase);
    assert_eq!(e.description, "clear entire screen");
    assert!(e.params.is_empty());
}

#[test]
fn escape_with_params_keeps_the_rest() {
    let e = Escape::new("\x1b[1;31m".to_string(), EscapeKind::Sgr, "bold, red fg".to_string())
        .with_params(vec![1, 31]);
    assert_eq!(e.raw, "\x1b[1;31m");
    assert_eq!(e.kind, EscapeKind::Sgr);
    assert_eq!(e.description, "bold, red fg");
    assert_eq!(e.params, vec![1, 31]);
}

#[test]
fn escape_human_readable() {
    let e = Escape::new("\x1b[5A".to_string(), EscapeKind::Cursor, "cursor up 5".to_string());
    assert_eq!(e.human_readable(), "[cursor] cursor up 5");
    let e = Escape::new("\x1b[0m".to_string(), EscapeKind::Sgr, "reset".to_string());
    assert_eq!(e.human_readable(), "[SGR (style)] reset");
}

#[test]
fn escape_kind_labels() {
    assert_eq!(EscapeKind::Sgr.label(), "SGR (style)");
    assert_eq!(EscapeKind::Cursor.label(), "cursor");
    assert_eq!(EscapeKind::Erase.label(), "erase");
    assert_eq!(EscapeKind::Mode.label(), "mode");
    assert_eq!(EscapeKind::Osc.label(), "OSC");
    assert_eq!(EscapeKind::Unknown.label(), "unknown");
}
