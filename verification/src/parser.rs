//! The decoder: splits text into plain runs and escape sequences, and says
//! what each sequence means.

use crate::escape::{describe_sgr, spec_describe_sgr, Escape, EscapeKind, EscapeView};
use crate::text::{all_digits, chars_of, concat, decimal, decimals, digit_value, digits_value,
    is_digit, lemma_concat_add, lemma_decimal_digits, lemma_decimal_value, lemma_number_list_add,
    number_list, push_decimal, push_range, string_of};
use vstd::prelude::*;
use vstd::string::StrSliceExecFns;

verus! {

/// The character that introduces every escape sequence.
pub const ESC: char = '\x1b';

/// The bell character, which ends an operating system command.
pub const BEL: char = '\x07';

/// A parsed segment of text (either plain text or an escape sequence).
#[derive(Debug, Clone)]
pub enum ParsedSequence {
    /// Plain text without escape sequences.
    Text(String),
    /// An escape sequence.
    Escape(Escape),
}

/// What a [`ParsedSequence`] holds, as plain values.
pub enum Segment {
    /// Plain text without escape sequences.
    Text(Seq<char>),
    /// An escape sequence.
    Escape(EscapeView),
}

impl View for ParsedSequence {
    type V = Segment;

    open spec fn view(&self) -> Segment {
        match self {
            ParsedSequence::Text(t) => Segment::Text(t@),
            ParsedSequence::Escape(e) => Segment::Escape(e@),
        }
    }
}

impl Segment {
    /// The characters of the input that this segment stands for.
    pub open spec fn raw(self) -> Seq<char> {
        match self {
            Segment::Text(t) => t,
            Segment::Escape(e) => e.raw,
        }
    }

    /// The characters that this segment shows: its text, and nothing for an
    /// escape sequence.
    pub open spec fn visible(self) -> Seq<char> {
        match self {
            Segment::Text(t) => t,
            Segment::Escape(_) => Seq::empty(),
        }
    }
}

impl ParsedSequence {
    /// Get as text, or None if this is an escape.
    #[must_use]
    pub fn as_text(&self) -> (out: Option<&str>)
        ensures
            match self@ {
                Segment::Text(t) => out is Some && out->0@ == t,
                Segment::Escape(_) => out is None,
            },
    {
        match self {
            ParsedSequence::Text(t) => Some(t.as_str()),
            ParsedSequence::Escape(_) => None,
        }
    }

    /// Get as escape, or None if this is text.
    #[must_use]
    pub fn as_escape(&self) -> (out: Option<&Escape>)
        ensures
            match self@ {
                Segment::Text(_) => out is None,
                Segment::Escape(e) => out is Some && out->0@ == e,
            },
    {
        match self {
            ParsedSequence::Text(_) => None,
            ParsedSequence::Escape(e) => Some(e),
        }
    }
}

/// What each segment of `v` holds.
pub open spec fn segments(v: Seq<ParsedSequence>) -> Seq<Segment> {
    Seq::new(v.len(), |k: int| v[k]@)
}

/// The input characters that the segments stand for, put together in order.
pub open spec fn raw_text(segs: Seq<Segment>) -> Seq<char> {
    concat(Seq::new(segs.len(), |k: int| segs[k].raw()))
}

/// The characters that the segments show, put together in order.
pub open spec fn visible_text(segs: Seq<Segment>) -> Seq<char> {
    concat(Seq::new(segs.len(), |k: int| segs[k].visible()))
}

// ----------------------------------------------------------------------
// Parameters of a control sequence
// ----------------------------------------------------------------------

/// The number that one parameter field writes: decimal digits, with or
/// without one `+` in front, that stay within sixteen bits. `None` for every
/// other field, the empty one among them.
pub open spec fn spec_parse_field(field: Seq<char>) -> Option<u16> {
    let digits = if field.len() > 1 && field[0] == '+' {
        field.drop_first()
    } else {
        field
    };
    if digits.len() > 0 && all_digits(digits) && digits_value(digits) <= u16::MAX {
        Some(digits_value(digits) as u16)
    } else {
        None
    }
}

/// The length of the field that starts at position `i`: the characters up to
/// the next `;` or the end of `s`.
pub open spec fn field_run(s: Seq<char>, i: int) -> nat
    decreases s.len() - i,
{
    if 0 <= i < s.len() && s[i] != ';' {
        1 + field_run(s, i + 1)
    } else {
        0
    }
}

/// The numbers of the fields of `s` from position `i` on. Fields are
/// separated by `;`; one that writes no number is passed over.
pub open spec fn params_from(s: Seq<char>, i: int) -> Seq<u16>
    decreases s.len() - i,
{
    if 0 <= i <= s.len() {
        let n = field_run(s, i);
        let head = match spec_parse_field(s.subrange(i, i + n)) {
            Some(value) => seq![value],
            None => Seq::empty(),
        };
        if i + n < s.len() {
            head + params_from(s, i + n + 1)
        } else {
            head
        }
    } else {
        Seq::empty()
    }
}

/// The numeric parameters that the parameter text `s` holds.
pub open spec fn spec_csi_params(s: Seq<char>) -> Seq<u16> {
    params_from(s, 0)
}

/// The parameter at position `k`, or `default` where there is none.
pub open spec fn param_or(params: Seq<u16>, k: int, default: u16) -> u16 {
    if 0 <= k < params.len() {
        params[k]
    } else {
        default
    }
}

proof fn lemma_digits_value_grows(s: Seq<char>, k: int)
    requires
        all_digits(s),
        0 <= k <= s.len(),
    ensures
        digits_value(s.take(k)) <= digits_value(s),
    decreases s.len(),
{
    if k < s.len() {
        assert(s.drop_last().take(k) == s.take(k));
        lemma_digits_value_grows(s.drop_last(), k);
    } else {
        assert(s.take(k) == s);
    }
}

fn parse_field(v: &Vec<char>, from: usize, to: usize) -> (out: Option<u16>)
    requires
        from <= to <= v.len(),
    ensures
        out == spec_parse_field(v@.subrange(from as int, to as int)),
{
    let ghost field = v@.subrange(from as int, to as int);
    let start: usize = if to - from > 1 && v[from] == '+' {
        from + 1
    } else {
        from
    };
    let ghost digits = v@.subrange(start as int, to as int);
    if start == to {
        return None;
    }
    let mut value: u32 = 0;
    let mut k: usize = start;
    while k < to
        invariant
            start <= k <= to <= v.len(),
            start < to,
            field == v@.subrange(from as int, to as int),
            digits == v@.subrange(start as int, to as int),
            digits == if field.len() > 1 && field[0] == '+' {
                field.drop_first()
            } else {
                field
            },
            all_digits(digits.take(k - start)),
            value == digits_value(digits.take(k - start)),
            value <= u16::MAX,
        decreases to - k,
    {
        let c = v[k];
        let ghost next = digits.take(k - start + 1);
        assert(next.drop_last() == digits.take(k - start));
        assert(next.last() == c);
        if !('0' <= c && c <= '9') {
            return None;
        }
        let d: u32 = c as u32 - 48;
        value = value * 10 + d;
        if value > 65535 {
            proof {
                if all_digits(digits) {
                    lemma_digits_value_grows(digits, k - start + 1);
                }
            }
            return None;
        }
        assert(all_digits(next));
        k = k + 1;
    }
    assert(digits.take(k - start) == digits);
    Some(value as u16)
}

/// The numeric parameters that the parameter text `v` holds.
fn csi_params(v: &Vec<char>) -> (out: Vec<u16>)
    ensures
        out@ == spec_csi_params(v@),
{
    let mut out: Vec<u16> = Vec::new();
    let mut i: usize = 0;
    loop
        invariant_except_break
            i <= v.len(),
            out@ + params_from(v@, i as int) == spec_csi_params(v@),
        ensures
            out@ == spec_csi_params(v@),
        decreases v.len() - i,
    {
        let mut j: usize = i;
        while j < v.len() && v[j] != ';'
            invariant
                i <= j <= v.len(),
                field_run(v@, i as int) == (j - i) + field_run(v@, j as int),
            decreases v.len() - j,
        {
            j = j + 1;
        }
        if let Some(value) = parse_field(v, i, j) {
            out.push(value);
        }
        if j < v.len() {
            i = j + 1;
        } else {
            break;
        }
    }
    out
}

// ----------------------------------------------------------------------
// Meaning of a control sequence
// ----------------------------------------------------------------------

/// The kind of the control sequence that ends in `final_char`.
pub open spec fn csi_kind(final_char: char) -> EscapeKind {
    if final_char == 'm' {
        EscapeKind::Sgr
    } else if final_char == 'A' || final_char == 'B' || final_char == 'C' || final_char == 'D'
        || final_char == 'H' || final_char == 'f' || final_char == 's' || final_char == 'u' {
        EscapeKind::Cursor
    } else if final_char == 'J' || final_char == 'K' {
        EscapeKind::Erase
    } else if final_char == 'h' || final_char == 'l' {
        EscapeKind::Mode
    } else {
        EscapeKind::Unknown
    }
}

/// What erasing the screen in the given mode does.
pub open spec fn erase_screen_description(mode: u16) -> Seq<char> {
    if mode == 0 {
        "clear to end of screen"@
    } else if mode == 1 {
        "clear to start of screen"@
    } else if mode == 2 {
        "clear entire screen"@
    } else if mode == 3 {
        "clear screen and scrollback"@
    } else {
        "clear screen (unknown mode)"@
    }
}

/// What erasing the line in the given mode does.
pub open spec fn erase_line_description(mode: u16) -> Seq<char> {
    if mode == 0 {
        "clear to end of line"@
    } else if mode == 1 {
        "clear to start of line"@
    } else if mode == 2 {
        "clear entire line"@
    } else {
        "clear line (unknown mode)"@
    }
}

/// `enable` or `disable`.
pub open spec fn mode_action(enable: bool) -> Seq<char> {
    if enable {
        "enable"@
    } else {
        "disable"@
    }
}

/// What setting or resetting the mode named by the parameter text does. A
/// text that starts with `?` names a private mode by what follows that one
/// character; four of those are known by name.
pub open spec fn mode_description(text: Seq<char>, enable: bool) -> Seq<char> {
    let action = mode_action(enable);
    if text.len() > 0 && text[0] == '?' {
        let mode = text.drop_first();
        if mode == "25"@ {
            action + " cursor visibility"@
        } else if mode == "1049"@ {
            action + " alternate screen"@
        } else if mode == "1000"@ {
            action + " mouse tracking"@
        } else if mode == "2004"@ {
            action + " bracketed paste"@
        } else {
            action + " mode "@ + mode
        }
    } else {
        action + " mode "@ + text
    }
}

/// The description of the control sequence with parameter text `text`,
/// numeric parameters `params` and last character `final_char`.
pub open spec fn csi_description(text: Seq<char>, params: Seq<u16>, final_char: char) -> Seq<
    char,
> {
    if final_char == 'm' {
        spec_describe_sgr(params)
    } else if final_char == 'A' {
        "cursor up "@ + decimal(param_or(params, 0, 1) as nat)
    } else if final_char == 'B' {
        "cursor down "@ + decimal(param_or(params, 0, 1) as nat)
    } else if final_char == 'C' {
        "cursor right "@ + decimal(param_or(params, 0, 1) as nat)
    } else if final_char == 'D' {
        "cursor left "@ + decimal(param_or(params, 0, 1) as nat)
    } else if final_char == 'H' || final_char == 'f' {
        "cursor to ("@ + decimal(param_or(params, 0, 1) as nat) + ", "@ + decimal(
            param_or(params, 1, 1) as nat,
        ) + ")"@
    } else if final_char == 'J' {
        erase_screen_description(param_or(params, 0, 0))
    } else if final_char == 'K' {
        erase_line_description(param_or(params, 0, 0))
    } else if final_char == 'h' || final_char == 'l' {
        mode_description(text, final_char == 'h')
    } else if final_char == 's' {
        "save cursor position"@
    } else if final_char == 'u' {
        "restore cursor position"@
    } else {
        "CSI sequence ending with '"@ + seq![final_char] + "'"@
    }
}

/// The control sequence with parameter text `text` and last character
/// `final_char`, whose characters are `raw`.
pub open spec fn spec_parse_csi(text: Seq<char>, final_char: char, raw: Seq<char>) -> EscapeView {
    let params = spec_csi_params(text);
    EscapeView {
        raw,
        kind: csi_kind(final_char),
        description: csi_description(text, params, final_char),
        params,
    }
}

fn first_or(params: &Vec<u16>, k: usize, default: u16) -> (out: u16)
    ensures
        out == param_or(params@, k as int, default),
{
    if k < params.len() {
        params[k]
    } else {
        default
    }
}

fn counted(phrase: &str, params: &Vec<u16>) -> (out: String)
    ensures
        out@ == phrase@ + decimal(param_or(params@, 0, 1) as nat),
{
    let mut out = phrase.to_owned();
    push_decimal(&mut out, first_or(params, 0, 1));
    out
}

fn describe_mode(text: &Vec<char>, enable: bool) -> (out: String)
    ensures
        out@ == mode_description(text@, enable),
{
    let mut out = if enable {
        "enable".to_owned()
    } else {
        "disable".to_owned()
    };
    if text.len() > 0 && text[0] == '?' {
        let mode = string_of(text, 1, text.len());
        if mode == "25".to_owned() {
            out.append(" cursor visibility");
        } else if mode == "1049".to_owned() {
            out.append(" alternate screen");
        } else if mode == "1000".to_owned() {
            out.append(" mouse tracking");
        } else if mode == "2004".to_owned() {
            out.append(" bracketed paste");
        } else {
            out.append(" mode ");
            out.append(mode.as_str());
        }
    } else {
        out.append(" mode ");
        push_range(&mut out, text, 0, text.len());
    }
    out
}

/// Reads the control sequence with parameter text `params` and last
/// character `final_char`; `raw` is the whole sequence as it stood in the
/// input.
#[must_use]
pub fn parse_csi(params: &str, final_char: char, raw: &str) -> (out: Escape)
    ensures
        out@ == spec_parse_csi(params@, final_char, raw@),
{
    let text = chars_of(params);
    let param_values = csi_params(&text);
    let (kind, description) = match final_char {
        'm' => (EscapeKind::Sgr, describe_sgr(param_values.as_slice())),
        'A' => (EscapeKind::Cursor, counted("cursor up ", &param_values)),
        'B' => (EscapeKind::Cursor, counted("cursor down ", &param_values)),
        'C' => (EscapeKind::Cursor, counted("cursor right ", &param_values)),
        'D' => (EscapeKind::Cursor, counted("cursor left ", &param_values)),
        'H' | 'f' => {
            let mut d = "cursor to (".to_owned();
            push_decimal(&mut d, first_or(&param_values, 0, 1));
            d.append(", ");
            push_decimal(&mut d, first_or(&param_values, 1, 1));
            d.append(")");
            (EscapeKind::Cursor, d)
        },
        'J' => {
            let d = match first_or(&param_values, 0, 0) {
                0 => "clear to end of screen",
                1 => "clear to start of screen",
                2 => "clear entire screen",
                3 => "clear screen and scrollback",
                _ => "clear screen (unknown mode)",
            };
            (EscapeKind::Erase, d.to_owned())
        },
        'K' => {
            let d = match first_or(&param_values, 0, 0) {
                0 => "clear to end of line",
                1 => "clear to start of line",
                2 => "clear entire line",
                _ => "clear line (unknown mode)",
            };
            (EscapeKind::Erase, d.to_owned())
        },
        'h' | 'l' => (EscapeKind::Mode, describe_mode(&text, final_char == 'h')),
        's' => (EscapeKind::Cursor, "save cursor position".to_owned()),
        'u' => (EscapeKind::Cursor, "restore cursor position".to_owned()),
        _ => {
            let mut d = "CSI sequence ending with '".to_owned();
            d.push(final_char);
            d.append("'");
            (EscapeKind::Unknown, d)
        },
    };
    assert(description@ =~= csi_description(text@, param_values@, final_char));
    Escape::new(raw.to_owned(), kind, description).with_params(param_values)
}

// ----------------------------------------------------------------------
// Splitting the input
// ----------------------------------------------------------------------

/// Whether `c` belongs to the parameter text of a control sequence.
pub open spec fn is_param_char(c: char) -> bool {
    is_digit(c) || c == ';'
}

/// The length of the plain text that starts at position `i`: the characters
/// up to the next introducer or the end of `s`.
pub open spec fn text_run(s: Seq<char>, i: int) -> nat
    decreases s.len() - i,
{
    if 0 <= i < s.len() && s[i] != ESC {
        1 + text_run(s, i + 1)
    } else {
        0
    }
}

/// The length of the parameter text that starts at position `i`: the digits
/// and semicolons up to the first other character or the end of `s`.
pub open spec fn param_run(s: Seq<char>, i: int) -> nat
    decreases s.len() - i,
{
    if 0 <= i < s.len() && is_param_char(s[i]) {
        1 + param_run(s, i + 1)
    } else {
        0
    }
}

/// Whether the character at position `j` ends an operating system command:
/// the bell, or a backslash that stands directly behind an introducer.
pub open spec fn is_osc_terminator(s: Seq<char>, j: int) -> bool {
    s[j] == BEL || (s[j] == '\\' && j > 0 && s[j - 1] == ESC)
}

/// The number of characters from position `i` on that come before the
/// terminator of an operating system command, or before the end of `s` where
/// none follows.
pub open spec fn osc_run(s: Seq<char>, i: int) -> nat
    decreases s.len() - i,
{
    if 0 <= i < s.len() && !is_osc_terminator(s, i) {
        1 + osc_run(s, i + 1)
    } else {
        0
    }
}

/// The length of the escape sequence whose introducer stands at position
/// `i`, or `None` where the input ends before the sequence does.
///
/// A control sequence is the introducer, `[`, parameter text and one more
/// character; an operating system command is the introducer, `]` and all up
/// to and with its terminator; any other sequence is the introducer and the
/// character behind it.
pub open spec fn escape_len(s: Seq<char>, i: int) -> Option<nat> {
    if i + 1 >= s.len() {
        None
    } else if s[i + 1] == '[' {
        let n = param_run(s, i + 2);
        if i + 2 + n < s.len() {
            Some(n + 3)
        } else {
            None
        }
    } else if s[i + 1] == ']' {
        let n = osc_run(s, i + 2);
        if i + 2 + n < s.len() {
            Some(n + 3)
        } else {
            None
        }
    } else {
        Some(2)
    }
}

/// What the escape sequence `s[i..end]` is.
pub open spec fn escape_at(s: Seq<char>, i: int, end: int) -> EscapeView {
    let raw = s.subrange(i, end);
    if s[i + 1] == '[' {
        spec_parse_csi(s.subrange(i + 2, end - 1), s[end - 1], raw)
    } else if s[i + 1] == ']' {
        EscapeView {
            raw,
            kind: EscapeKind::Osc,
            description: "operating system command"@,
            params: Seq::empty(),
        }
    } else {
        EscapeView { raw, kind: EscapeKind::Unknown, description: "unknown"@, params: Seq::empty() }
    }
}

/// The segments of `s` from position `i` on. A run of plain text is one
/// segment, and so is each complete escape sequence; an escape sequence that
/// the input ends in the middle of gives none, and nothing follows it.
pub open spec fn decode_from(s: Seq<char>, i: int) -> Seq<Segment>
    decreases s.len() - i,
    via decode_from_advances
{
    if 0 <= i < s.len() {
        if s[i] != ESC {
            let n = text_run(s, i);
            seq![Segment::Text(s.subrange(i, i + n))] + decode_from(s, i + n)
        } else {
            match escape_len(s, i) {
                Some(n) => seq![Segment::Escape(escape_at(s, i, i + n))] + decode_from(s, i + n),
                None => Seq::empty(),
            }
        }
    } else {
        Seq::empty()
    }
}

/// A run of plain text stays within the input.
pub proof fn lemma_text_run_bound(s: Seq<char>, i: int)
    requires
        0 <= i <= s.len(),
    ensures
        i + text_run(s, i) <= s.len(),
        forall|k: int| i <= k < i + text_run(s, i) ==> s[k] != ESC,
        i + text_run(s, i) < s.len() ==> s[i + text_run(s, i)] == ESC,
    decreases s.len() - i,
{
    if i < s.len() && s[i] != ESC {
        lemma_text_run_bound(s, i + 1);
    }
}

#[via_fn]
proof fn decode_from_advances(s: Seq<char>, i: int) {
    if 0 <= i < s.len() && s[i] != ESC {
        lemma_text_run_bound(s, i);
    }
}

/// The segments of `s`.
pub open spec fn decode(s: Seq<char>) -> Seq<Segment> {
    decode_from(s, 0)
}

/// `s` without its escape sequences.
pub open spec fn spec_strip_ansi(s: Seq<char>) -> Seq<char> {
    visible_text(decode(s))
}

fn text_stop(v: &Vec<char>, i: usize) -> (j: usize)
    requires
        i <= v.len(),
    ensures
        j == i + text_run(v@, i as int),
        j <= v.len(),
{
    let mut j: usize = i;
    while j < v.len() && v[j] != ESC
        invariant
            i <= j <= v.len(),
            text_run(v@, i as int) == (j - i) + text_run(v@, j as int),
        decreases v.len() - j,
    {
        j = j + 1;
    }
    j
}

fn param_stop(v: &Vec<char>, i: usize) -> (j: usize)
    requires
        i <= v.len(),
    ensures
        j == i + param_run(v@, i as int),
        j <= v.len(),
{
    let mut j: usize = i;
    while j < v.len() && (('0' <= v[j] && v[j] <= '9') || v[j] == ';')
        invariant
            i <= j <= v.len(),
            param_run(v@, i as int) == (j - i) + param_run(v@, j as int),
        decreases v.len() - j,
    {
        j = j + 1;
    }
    j
}

fn osc_stop(v: &Vec<char>, i: usize) -> (j: usize)
    requires
        0 < i <= v.len(),
    ensures
        j == i + osc_run(v@, i as int),
        j <= v.len(),
{
    let mut j: usize = i;
    while j < v.len() && !(v[j] == BEL || (v[j] == '\\' && v[j - 1] == ESC))
        invariant
            0 < i <= j <= v.len(),
            osc_run(v@, i as int) == (j - i) + osc_run(v@, j as int),
        decreases v.len() - j,
    {
        j = j + 1;
    }
    j
}

/// Where the escape sequence that starts at position `i` ends, if the input
/// holds all of it.
fn escape_stop(v: &Vec<char>, i: usize) -> (out: Option<usize>)
    requires
        i < v.len(),
    ensures
        match escape_len(v@, i as int) {
            Some(n) => out == Some((i + n) as usize) && i + n <= v.len(),
            None => out is None,
        },
{
    if v.len() - i < 2 {
        return None;
    }
    let lead = v[i + 1];
    if lead == '[' {
        let j = param_stop(v, i + 2);
        if j < v.len() {
            Some(j + 1)
        } else {
            None
        }
    } else if lead == ']' {
        let j = osc_stop(v, i + 2);
        if j < v.len() {
            Some(j + 1)
        } else {
            None
        }
    } else {
        Some(i + 2)
    }
}

/// Reads the complete escape sequence `v[i..end]`.
fn read_escape(v: &Vec<char>, i: usize, end: usize) -> (out: Escape)
    requires
        i < end <= v.len(),
        escape_len(v@, i as int) == Some((end - i) as nat),
    ensures
        out@ == escape_at(v@, i as int, end as int),
{
    let raw = string_of(v, i, end);
    let lead = v[i + 1];
    if lead == '[' {
        let params = string_of(v, i + 2, end - 1);
        parse_csi(params.as_str(), v[end - 1], raw.as_str())
    } else if lead == ']' {
        Escape::new(raw, EscapeKind::Osc, "operating system command".to_owned())
    } else {
        Escape::new(raw, EscapeKind::Unknown, "unknown".to_owned())
    }
}

/// Parse a string containing ANSI escape sequences.
///
/// Returns a vector of parsed segments, alternating between plain text and
/// escapes. Malformed input is never refused: a parameter that writes no
/// number is passed over, and an escape sequence that the input ends in the
/// middle of is dropped.
#[must_use]
pub fn parse(input: &str) -> (out: Vec<ParsedSequence>)
    ensures
        segments(out@) == decode(input@),
{
    let v = chars_of(input);
    let mut result: Vec<ParsedSequence> = Vec::new();
    let mut i: usize = 0;
    while i < v.len()
        invariant_except_break
            i <= v.len(),
            segments(result@) + decode_from(v@, i as int) == decode(v@),
        ensures
            segments(result@) == decode(v@),
        decreases v.len() - i,
    {
        if v[i] != ESC {
            let j = text_stop(&v, i);
            result.push(ParsedSequence::Text(string_of(&v, i, j)));
            i = j;
        } else {
            match escape_stop(&v, i) {
                Some(end) => {
                    result.push(ParsedSequence::Escape(read_escape(&v, i, end)));
                    i = end;
                },
                None => {
                    break;
                },
            }
        }
    }
    result
}

/// Strip all ANSI escape sequences from a string.
#[must_use]
pub fn strip_ansi(input: &str) -> (out: String)
    ensures
        out@ == spec_strip_ansi(input@),
{
    let parsed = parse(input);
    let ghost segs = segments(parsed@);
    let ghost parts = Seq::new(segs.len(), |k: int| segs[k].visible());
    let mut out = String::new();
    let mut i: usize = 0;
    while i < parsed.len()
        invariant
            i <= parsed.len(),
            segs == segments(parsed@),
            parts == Seq::new(segs.len(), |k: int| segs[k].visible()),
            out@ == concat(parts.take(i as int)),
        decreases parsed.len() - i,
    {
        assert(parts.take(i + 1).drop_last() == parts.take(i as int));
        if let Some(t) = parsed[i].as_text() {
            out.append(t);
        }
        i = i + 1;
    }
    assert(parts.take(i as int) == parts);
    out
}

/// Get the visible length of a string (excluding ANSI codes), counted in
/// characters.
#[must_use]
pub fn visible_len(input: &str) -> (out: usize)
    ensures
        out == spec_strip_ansi(input@).len(),
{
    strip_ansi(input).as_str().unicode_len()
}

// ----------------------------------------------------------------------
// What holds of every input
// ----------------------------------------------------------------------

/// A stretch of characters other than the introducer, which ends at the end
/// of the input or before an introducer, is one run of plain text.
pub proof fn lemma_text_run(s: Seq<char>, i: int, n: nat)
    requires
        0 <= i,
        i + n <= s.len(),
        forall|k: int| i <= k < i + n ==> s[k] != ESC,
        i + n == s.len() || s[i + n] == ESC,
    ensures
        text_run(s, i) == n,
    decreases n,
{
    if n > 0 {
        lemma_text_run(s, i + 1, (n - 1) as nat);
    }
}

/// A stretch of digits and semicolons, which ends at the end of the input or
/// before another character, is one parameter text.
pub proof fn lemma_param_run(s: Seq<char>, i: int, n: nat)
    requires
        0 <= i,
        i + n <= s.len(),
        forall|k: int| i <= k < i + n ==> is_param_char(#[trigger] s[k]),
        i + n == s.len() || !is_param_char(s[i + n]),
    ensures
        param_run(s, i) == n,
    decreases n,
{
    if n > 0 {
        lemma_param_run(s, i + 1, (n - 1) as nat);
    }
}

/// A stretch of characters other than `;`, which ends at the end of the text
/// or before a `;`, is one field.
pub proof fn lemma_field_run(s: Seq<char>, i: int, n: nat)
    requires
        0 <= i,
        i + n <= s.len(),
        forall|k: int| i <= k < i + n ==> s[k] != ';',
        i + n == s.len() || s[i + n] == ';',
    ensures
        field_run(s, i) == n,
    decreases n,
{
    if n > 0 {
        lemma_field_run(s, i + 1, (n - 1) as nat);
    }
}

/// Text without an introducer decodes to itself: one text segment that holds
/// all of it, and no segment where the text is empty.
pub proof fn lemma_decode_plain_text(s: Seq<char>)
    requires
        forall|k: int| 0 <= k < s.len() ==> s[k] != ESC,
    ensures
        decode(s) == if s.len() == 0 {
            Seq::<Segment>::empty()
        } else {
            seq![Segment::Text(s)]
        },
        spec_strip_ansi(s) == s,
{
    if s.len() > 0 {
        lemma_text_run(s, 0, s.len());
        assert(s.subrange(0, s.len() as int) == s);
        assert(decode_from(s, s.len() as int) == Seq::<Segment>::empty());
        let parts = Seq::new(decode(s).len(), |k: int| decode(s)[k].visible());
        assert(concat(parts.drop_last()) == Seq::<char>::empty());
    }
}

/// The position from `i` on at which the decoder stops: the place of the
/// escape sequence that the input ends in the middle of, or the end of the
/// input where there is none.
pub open spec fn decoded_until(s: Seq<char>, i: int) -> int
    decreases s.len() - i,
    via decoded_until_advances
{
    if 0 <= i < s.len() {
        if s[i] != ESC {
            decoded_until(s, i + text_run(s, i))
        } else {
            match escape_len(s, i) {
                Some(n) => decoded_until(s, i + n),
                None => i,
            }
        }
    } else {
        i
    }
}

#[via_fn]
proof fn decoded_until_advances(s: Seq<char>, i: int) {
    if 0 <= i < s.len() && s[i] != ESC {
        lemma_text_run_bound(s, i);
    }
}

/// Whether the input ends in the middle of an escape sequence: behind a lone
/// introducer, in a control sequence that lacks its last character, or in an
/// operating system command that lacks its terminator.
pub open spec fn ends_in_escape(s: Seq<char>) -> bool {
    decoded_until(s, 0) < s.len()
}

/// A run of parameter text stays within the input.
pub proof fn lemma_param_run_bound(s: Seq<char>, i: int)
    requires
        0 <= i <= s.len(),
    ensures
        i + param_run(s, i) <= s.len(),
    decreases s.len() - i,
{
    if i < s.len() && is_param_char(s[i]) {
        lemma_param_run_bound(s, i + 1);
    }
}

/// The segment at the front stands for its own characters, and the rest for
/// theirs.
pub proof fn lemma_raw_text_first(first: Segment, rest: Seq<Segment>)
    ensures
        raw_text(seq![first] + rest) == first.raw() + raw_text(rest),
        visible_text(seq![first] + rest) == first.visible() + visible_text(rest),
{
    let all = seq![first] + rest;
    let raws = Seq::new(all.len(), |k: int| all[k].raw());
    let rest_raws = Seq::new(rest.len(), |k: int| rest[k].raw());
    assert(raws =~= seq![first.raw()] + rest_raws);
    lemma_concat_add(seq![first.raw()], rest_raws);
    assert(seq![first.raw()].drop_last() == Seq::<Seq<char>>::empty());
    assert(concat(Seq::<Seq<char>>::empty()) == Seq::<char>::empty());
    let shown = Seq::new(all.len(), |k: int| all[k].visible());
    let rest_shown = Seq::new(rest.len(), |k: int| rest[k].visible());
    assert(shown =~= seq![first.visible()] + rest_shown);
    lemma_concat_add(seq![first.visible()], rest_shown);
    assert(seq![first.visible()].drop_last() == Seq::<Seq<char>>::empty());
}

/// From any position on, the segments stand for exactly the characters up to
/// where the decoder stops.
pub proof fn lemma_decode_from_lossless(s: Seq<char>, i: int)
    requires
        0 <= i <= s.len(),
    ensures
        i <= decoded_until(s, i) <= s.len(),
        raw_text(decode_from(s, i)) == s.subrange(i, decoded_until(s, i)),
    decreases s.len() - i,
{
    if i < s.len() && s[i] != ESC {
        let n = text_run(s, i);
        lemma_text_run_bound(s, i);
        lemma_decode_from_lossless(s, i + n);
        lemma_raw_text_first(Segment::Text(s.subrange(i, i + n)), decode_from(s, i + n));
    } else if i < s.len() && escape_len(s, i) is Some {
        let n = escape_len(s, i)->0;
        if s[i + 1] == '[' {
            lemma_param_run_bound(s, i + 2);
        }
        lemma_decode_from_lossless(s, i + n);
        lemma_raw_text_first(Segment::Escape(escape_at(s, i, i + n)), decode_from(s, i + n));
    }
}

/// Decoding loses nothing: the segments of `s`, put together again, are `s`
/// up to the escape sequence that `s` ends in the middle of, and all of `s`
/// where it ends in none.
pub proof fn lemma_decode_lossless(s: Seq<char>)
    ensures
        raw_text(decode(s)) == s.subrange(0, decoded_until(s, 0)),
        !ends_in_escape(s) ==> raw_text(decode(s)) == s,
{
    lemma_decode_from_lossless(s, 0);
}

/// Decimal notation of a sixteen-bit number is a field that writes that
/// number.
pub proof fn lemma_parse_decimal(n: u16)
    ensures
        spec_parse_field(decimal(n as nat)) == Some(n),
{
    lemma_decimal_digits(n as nat);
    lemma_decimal_value(n as nat);
}

/// The parameter text written from a list of numbers reads back as that
/// list, wherever in a longer text it ends.
pub proof fn lemma_params_of_number_list(prefix: Seq<char>, ns: Seq<u16>)
    ensures
        params_from(prefix + number_list(ns), prefix.len() as int) == ns,
    decreases ns.len(),
{
    let s = prefix + number_list(ns);
    let i = prefix.len() as int;
    if ns.len() > 0 {
        let first = seq![ns[0]];
        let rest = ns.drop_first();
        let d = decimal(ns[0] as nat);
        assert(ns == first + rest);
        lemma_number_list_add(first, rest);
        lemma_decimal_digits(ns[0] as nat);
        lemma_parse_decimal(ns[0]);
        assert forall|k: int| i <= k < i + d.len() implies s[k] != ';' by {
            assert(s[k] == d[k - i]);
        }
        if rest.len() > 0 {
            assert(s =~= prefix + d + seq![';'] + number_list(rest));
            lemma_params_of_number_list(prefix + d + seq![';'], rest);
        }
        lemma_field_run(s, i, d.len());
        assert(s.subrange(i, i + d.len()) =~= d);
    }
}

/// The parameter text written from a list of numbers reads back as that
/// list.
pub proof fn lemma_csi_params_of_number_list(ns: Seq<u16>)
    ensures
        spec_csi_params(number_list(ns)) == ns,
{
    lemma_params_of_number_list(Seq::empty(), ns);
}

} // verus!
