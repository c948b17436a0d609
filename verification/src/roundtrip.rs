//! What the decoder finds in what the encoder wrote.

use crate::escape::{lemma_describe_reset, spec_describe_sgr, EscapeKind, EscapeView};
use crate::modifier::{all_modifiers, member_codes, members, Modifier};
use crate::parser::{decode, decode_from, escape_at, escape_len, is_param_char,
    lemma_csi_params_of_number_list, lemma_decode_plain_text, lemma_param_run,
    lemma_raw_text_first, lemma_text_run, spec_parse_csi, spec_strip_ansi, visible_text, Segment,
    ESC};
use crate::sequence::spec_csi;
use crate::style::{spec_reset, StyleView};
use crate::text::{decimal, decimals, joined, lemma_joined_add, lemma_number_list_add,
    lemma_number_list_chars, number_list};
use vstd::prelude::*;

verus! {

/// The escape sequence that the decoder finds in the control sequence
/// written from the parameters `ns` and the last character `final_char`.
pub open spec fn written_escape(ns: Seq<u16>, final_char: char) -> EscapeView {
    spec_parse_csi(number_list(ns), final_char, spec_csi(ns, final_char))
}

/// A control sequence written from a list of numbers, wherever it stands in
/// the input, is decoded as one escape sequence, and its parameters are
/// those numbers. The last character must be none that parameter text is
/// made of.
pub proof fn lemma_decode_written_csi(s: Seq<char>, i: int, ns: Seq<u16>, final_char: char)
    requires
        !is_param_char(final_char),
        0 <= i,
        i + spec_csi(ns, final_char).len() <= s.len(),
        s.subrange(i, i + spec_csi(ns, final_char).len()) == spec_csi(ns, final_char),
    ensures
        s[i] == ESC,
        escape_len(s, i) == Some(spec_csi(ns, final_char).len()),
        escape_at(s, i, i + spec_csi(ns, final_char).len()) == written_escape(ns, final_char),
        written_escape(ns, final_char).params == ns,
{
    let w = spec_csi(ns, final_char);
    let p = number_list(ns);
    assert(w.len() == p.len() + 3);
    assert forall|k: int| 0 <= k < w.len() implies s[i + k] == w[k] by {
        assert(s.subrange(i, i + w.len())[k] == s[i + k]);
    }
    assert(w[0] == ESC);
    assert(w[1] == '[');
    assert(w[p.len() as int + 2] == final_char);
    lemma_number_list_chars(ns);
    assert forall|k: int| i + 2 <= k < i + 2 + p.len() implies is_param_char(#[trigger] s[k]) by {
        assert(s[k] == w[k - i]);
        assert(w[k - i] == p[k - i - 2]);
    }
    assert(s[i + 2 + p.len()] == final_char);
    lemma_param_run(s, i + 2, p.len());
    assert forall|k: int| 0 <= k < p.len() implies s[i + 2 + k] == p[k] by {
        assert(s[i + 2 + k] == w[k + 2]);
    }
    assert(s.subrange(i + 2, i + w.len() - 1) =~= p);
    lemma_csi_params_of_number_list(ns);
}

/// A control sequence written from a list of numbers decodes to one escape
/// sequence with those numbers as its parameters.
pub proof fn lemma_decode_csi_alone(ns: Seq<u16>, final_char: char)
    requires
        !is_param_char(final_char),
    ensures
        decode(spec_csi(ns, final_char)) == seq![Segment::Escape(written_escape(ns, final_char))],
        written_escape(ns, final_char).params == ns,
{
    let s = spec_csi(ns, final_char);
    assert(s.subrange(0, s.len() as int) == s);
    lemma_decode_written_csi(s, 0, ns, final_char);
    assert(decode_from(s, s.len() as int) == Seq::<Segment>::empty());
    assert(decode(s) =~= seq![Segment::Escape(written_escape(ns, final_char))]);
}

/// The sequence that moves the cursor up by `n` rows decodes to one cursor
/// movement that names the direction and `n`.
pub proof fn lemma_decode_cursor_up(n: u16)
    ensures
        decode(spec_csi(seq![n], 'A')) == seq![
            Segment::Escape(
                EscapeView {
                    raw: spec_csi(seq![n], 'A'),
                    kind: EscapeKind::Cursor,
                    description: "cursor up "@ + decimal(n as nat),
                    params: seq![n],
                },
            ),
        ],
{
    lemma_decode_csi_alone(seq![n], 'A');
}

/// The sequence that moves the cursor to a row and a column decodes to one
/// cursor movement that names both, the row first.
pub proof fn lemma_decode_cursor_goto(row: u16, col: u16)
    ensures
        decode(spec_csi(seq![row, col], 'H')) == seq![
            Segment::Escape(
                EscapeView {
                    raw: spec_csi(seq![row, col], 'H'),
                    kind: EscapeKind::Cursor,
                    description: "cursor to ("@ + decimal(row as nat) + ", "@ + decimal(col as nat)
                        + ")"@,
                    params: seq![row, col],
                },
            ),
        ],
{
    lemma_decode_csi_alone(seq![row, col], 'H');
}

/// The codes of a style, joined by `;`, are its parameters written as
/// parameter text; and the style has a code exactly where it has a
/// parameter.
pub proof fn lemma_codes_write_params(style: StyleView)
    ensures
        style.codes().len() == 0 <==> style.params().len() == 0,
        joined(style.codes(), seq![';']) == number_list(style.params()),
{
    let sep = seq![';'];
    let on = member_codes(style.modifiers);
    let a = on.map_values(|code: u8| code as u16);
    let a_codes = on.map_values(|code: u8| decimal(code as nat));
    assert(decimals(a) =~= a_codes);
    let f = match style.foreground {
        Some(color) => color.spec_fg_params(),
        None => Seq::empty(),
    };
    let f_codes = match style.foreground {
        Some(color) => seq![color.spec_fg_code()],
        None => Seq::empty(),
    };
    let b = match style.background {
        Some(color) => color.spec_bg_params(),
        None => Seq::empty(),
    };
    let b_codes = match style.background {
        Some(color) => seq![color.spec_bg_code()],
        None => Seq::empty(),
    };
    assert(style.foreground is Some ==> f.len() > 0);
    assert(style.background is Some ==> b.len() > 0);
    assert(joined(f_codes, sep) == number_list(f));
    assert(joined(b_codes, sep) == number_list(b));
    lemma_joined_add(a_codes, f_codes, sep);
    lemma_joined_add(a_codes + f_codes, b_codes, sep);
    lemma_number_list_add(a, f);
    lemma_number_list_add(a + f, b);
}

/// The escape sequence that sets `style`, as the decoder reads it.
pub open spec fn style_escape(style: StyleView) -> EscapeView {
    EscapeView {
        raw: spec_csi(style.params(), 'm'),
        kind: EscapeKind::Sgr,
        description: spec_describe_sgr(style.params()),
        params: style.params(),
    }
}

/// The escape sequence that resets all attributes, as the decoder reads it.
pub open spec fn reset_escape() -> EscapeView {
    EscapeView {
        raw: spec_reset(),
        kind: EscapeKind::Sgr,
        description: "reset"@,
        params: seq![0u16],
    }
}

/// The segments of a styled text: the sequence that sets the style, the
/// text where there is any, and the reset.
pub open spec fn styled_segments(style: StyleView, text: Seq<char>) -> Seq<Segment> {
    seq![Segment::Escape(style_escape(style))] + (if text.len() > 0 {
        seq![Segment::Text(text)]
    } else {
        Seq::empty()
    }) + seq![Segment::Escape(reset_escape())]
}

proof fn lemma_reset_is_written()
    ensures
        spec_csi(seq![0u16], 'm') == spec_reset(),
        written_escape(seq![0u16], 'm') == reset_escape(),
{
    let zero = seq![0u16];
    assert(decimals(zero) =~= seq![decimal(0)]);
    assert(number_list(zero) == decimal(0));
    assert(decimal(0) =~= seq!['0']);
    assert(spec_csi(zero, 'm') =~= spec_reset());
    lemma_csi_params_of_number_list(zero);
    lemma_describe_reset();
}

/// Styled text decodes to what was put in: where the style has a code, one
/// style sequence whose parameters are the style's, then the text, then one
/// reset whose only parameter is 0. The text must hold no introducer of its
/// own.
pub proof fn lemma_decode_styled(style: StyleView, text: Seq<char>)
    requires
        forall|k: int| 0 <= k < text.len() ==> text[k] != ESC,
        style.codes().len() > 0,
    ensures
        decode(style.apply(text)) == styled_segments(style, text),
{
    lemma_codes_write_params(style);
    lemma_reset_is_written();
    let ns = style.params();
    let set = spec_csi(ns, 'm');
    let reset = spec_csi(seq![0u16], 'm');
    let s = style.apply(text);
    assert(s =~= set + text + reset);
    let t = set.len() as int;
    let r = t + text.len();
    assert(s.subrange(0, t) =~= set);
    assert(s.subrange(r, r + reset.len()) =~= reset);
    lemma_decode_written_csi(s, 0, ns, 'm');
    lemma_decode_written_csi(s, r, seq![0u16], 'm');
    assert(written_escape(ns, 'm') == style_escape(style));
    assert(decode_from(s, s.len() as int) == Seq::<Segment>::empty());
    assert(decode_from(s, r) =~= seq![Segment::Escape(reset_escape())]);
    if text.len() > 0 {
        assert forall|k: int| t <= k < r implies s[k] != ESC by {
            assert(s[k] == text[k - t]);
        }
        lemma_text_run(s, t, text.len());
        assert(s.subrange(t, r) =~= text);
        assert(decode_from(s, t) =~= seq![Segment::Text(text)] + decode_from(s, r));
    }
    assert(decode(s) =~= styled_segments(style, text));
}

/// Stripping styled text gives the text back, whatever the style, where the
/// text holds no introducer of its own.
pub proof fn lemma_strip_styled(style: StyleView, text: Seq<char>)
    requires
        forall|k: int| 0 <= k < text.len() ==> text[k] != ESC,
    ensures
        spec_strip_ansi(style.apply(text)) == text,
{
    if style.codes().len() == 0 {
        lemma_decode_plain_text(text);
    } else {
        lemma_decode_styled(style, text);
        let last = seq![Segment::Escape(reset_escape())];
        let middle = if text.len() > 0 {
            seq![Segment::Text(text)]
        } else {
            Seq::<Segment>::empty()
        };
        assert(styled_segments(style, text) =~= seq![Segment::Escape(style_escape(style))] + (
        middle + last));
        lemma_raw_text_first(Segment::Escape(style_escape(style)), middle + last);
        lemma_raw_text_first(Segment::Escape(reset_escape()), Seq::empty());
        assert(last + Seq::<Segment>::empty() =~= last);
        assert(visible_text(Seq::<Segment>::empty()) =~= Seq::<char>::empty());
        assert(visible_text(last) =~= Seq::<char>::empty());
        if text.len() > 0 {
            lemma_raw_text_first(Segment::Text(text), last);
            assert(visible_text(middle + last) =~= text);
        } else {
            assert(middle + last =~= last);
            assert(visible_text(middle + last) =~= text);
        }
        assert(spec_strip_ansi(style.apply(text)) =~= text);
    }
}

/// The visible length of styled text is the length of the text, however
/// many codes the style has, where the text holds no introducer of its own.
pub proof fn lemma_visible_len_styled(style: StyleView, text: Seq<char>)
    requires
        forall|k: int| 0 <= k < text.len() ==> text[k] != ESC,
    ensures
        spec_strip_ansi(style.apply(text)).len() == text.len(),
{
    lemma_strip_styled(style, text);
}

/// The parameters of a style hold the code of each of its modifiers and
/// every parameter of its colors.
pub proof fn lemma_params_hold_codes(style: StyleView)
    ensures
        forall|m: Modifier|
            style.modifiers.contains(m) ==> style.params().contains(
                #[trigger] m.spec_on_code() as u16,
            ),
        style.foreground is Some ==> forall|k: int|
            0 <= k < style.foreground->0.spec_fg_params().len() ==> style.params().contains(
                #[trigger] style.foreground->0.spec_fg_params()[k],
            ),
        style.background is Some ==> forall|k: int|
            0 <= k < style.background->0.spec_bg_params().len() ==> style.params().contains(
                #[trigger] style.background->0.spec_bg_params()[k],
            ),
{
    let on = member_codes(style.modifiers);
    let a = on.map_values(|code: u8| code as u16);
    let f = match style.foreground {
        Some(color) => color.spec_fg_params(),
        None => Seq::empty(),
    };
    let b = match style.background {
        Some(color) => color.spec_bg_params(),
        None => Seq::empty(),
    };
    let ps = style.params();
    assert(ps == a + f + b);
    let pred = |m: Modifier| style.modifiers.contains(m);
    let all = all_modifiers();
    broadcast use vstd::seq_lib::group_filter_ensures;

    assert forall|m: Modifier| style.modifiers.contains(m) implies ps.contains(
        #[trigger] m.spec_on_code() as u16,
    ) by {
        let i = m.spec_index();
        assert(all[i] == m);
        assert(pred(all[i]));
        assert(members(style.modifiers).contains(m));
        let j = choose|j: int|
            0 <= j < members(style.modifiers).len() && members(style.modifiers)[j] == m;
        assert(on[j] == m.spec_on_code());
        assert(a[j] == m.spec_on_code() as u16);
        assert(ps[j] == a[j]);
    }
    if style.foreground is Some {
        assert forall|k: int| 0 <= k < f.len() implies ps.contains(#[trigger] f[k]) by {
            assert(ps[a.len() + k] == f[k]);
        }
    }
    if style.background is Some {
        assert forall|k: int| 0 <= k < b.len() implies ps.contains(#[trigger] b[k]) by {
            assert(ps[a.len() + f.len() + k] == b[k]);
        }
    }
}

} // verus!
