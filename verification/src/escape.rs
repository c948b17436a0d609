//! Escape sequence types, and the reading of style parameters.

use crate::color::{basic_color_name, spec_basic_color_name};
use crate::text::{decimal, join, joined, push_decimal, views};
use vstd::prelude::*;

verus! {

/// Kind of escape sequence.
#[derive(Debug, Clone, Copy, PartialEq, Eq, Structural)]
pub enum EscapeKind {
    /// SGR (Select Graphic Rendition) - colors and text styling.
    Sgr,
    /// Cursor movement.
    Cursor,
    /// Screen/line clearing.
    Erase,
    /// Mode setting (e.g., alternate screen).
    Mode,
    /// OSC (Operating System Command).
    Osc,
    /// Unknown/other escape.
    Unknown,
}

impl EscapeKind {
    /// The short label under which this kind is shown.
    pub open spec fn spec_label(self) -> Seq<char> {
        match self {
            EscapeKind::Sgr => "SGR (style)"@,
            EscapeKind::Cursor => "cursor"@,
            EscapeKind::Erase => "erase"@,
            EscapeKind::Mode => "mode"@,
            EscapeKind::Osc => "OSC"@,
            EscapeKind::Unknown => "unknown"@,
        }
    }

    /// The short label under which this kind is shown.
    #[must_use]
    pub fn label(&self) -> (out: &'static str)
        ensures
            out@ == self.spec_label(),
    {
        match self {
            EscapeKind::Sgr => "SGR (style)",
            EscapeKind::Cursor => "cursor",
            EscapeKind::Erase => "erase",
            EscapeKind::Mode => "mode",
            EscapeKind::Osc => "OSC",
            EscapeKind::Unknown => "unknown",
        }
    }
}

/// A parsed escape sequence.
#[derive(Debug, Clone)]
pub struct Escape {
    /// The raw sequence string.
    pub raw: String,
    /// The kind of escape.
    pub kind: EscapeKind,
    /// Human-readable description.
    pub description: String,
    /// Parameters (if any).
    pub params: Vec<u16>,
}

/// What an [`Escape`] holds, as plain values.
pub struct EscapeView {
    /// The exact characters of the sequence.
    pub raw: Seq<char>,
    /// The kind of escape.
    pub kind: EscapeKind,
    /// Human-readable description.
    pub description: Seq<char>,
    /// The numeric parameters, in order.
    pub params: Seq<u16>,
}

impl View for Escape {
    type V = EscapeView;

    open spec fn view(&self) -> EscapeView {
        EscapeView {
            raw: self.raw@,
            kind: self.kind,
            description: self.description@,
            params: self.params@,
        }
    }
}

impl EscapeView {
    /// The kind's label in square brackets, a space, and the description.
    pub open spec fn human_readable(self) -> Seq<char> {
        "["@ + self.kind.spec_label() + "] "@ + self.description
    }
}

impl Escape {
    /// Create a new escape sequence, without parameters.
    #[must_use]
    pub fn new(raw: String, kind: EscapeKind, description: String) -> (out: Self)
        ensures
            out@ == (EscapeView {
                raw: raw@,
                kind,
                description: description@,
                params: Seq::<u16>::empty(),
            }),
    {
        Escape { raw, kind, description, params: Vec::new() }
    }

    /// Create with parameters.
    #[must_use]
    pub fn with_params(self, params: Vec<u16>) -> (out: Self)
        ensures
            out@ == (EscapeView { params: params@, ..self@ }),
    {
        let mut out = self;
        out.params = params;
        out
    }

    /// Get a human-readable representation.
    #[must_use]
    pub fn human_readable(&self) -> (out: String)
        ensures
            out@ == self@.human_readable(),
    {
        let mut out = "[".to_owned();
        out.append(self.kind.label());
        out.append("] ");
        out.append(self.description.as_str());
        out
    }
}

/// What the single style parameter `code` means.
pub open spec fn spec_sgr_attribute(code: u16) -> Seq<char> {
    if code == 0 {
        "reset"@
    } else if code == 1 {
        "bold"@
    } else if code == 2 {
        "dim"@
    } else if code == 3 {
        "italic"@
    } else if code == 4 {
        "underline"@
    } else if code == 5 {
        "blink"@
    } else if code == 7 {
        "reverse"@
    } else if code == 8 {
        "hidden"@
    } else if code == 9 {
        "strikethrough"@
    } else if code == 22 {
        "normal intensity"@
    } else if code == 23 {
        "not italic"@
    } else if code == 24 {
        "not underlined"@
    } else if code == 25 {
        "not blinking"@
    } else if code == 27 {
        "not reversed"@
    } else if code == 28 {
        "not hidden"@
    } else if code == 29 {
        "not strikethrough"@
    } else if 30 <= code <= 37 {
        spec_basic_color_name(code - 30) + " fg"@
    } else if code == 38 {
        "extended fg"@
    } else if code == 39 {
        "default fg"@
    } else if 40 <= code <= 47 {
        spec_basic_color_name(code - 40) + " bg"@
    } else if code == 48 {
        "extended bg"@
    } else if code == 49 {
        "default bg"@
    } else if 90 <= code <= 97 {
        "bright "@ + spec_basic_color_name(code - 90) + " fg"@
    } else if 100 <= code <= 107 {
        "bright "@ + spec_basic_color_name(code - 100) + " bg"@
    } else {
        "code "@ + decimal(code as nat)
    }
}

/// Whether a palette color starts at position `i` of `params`: an extended
/// selector, then 5, then the palette index.
pub open spec fn sgr_palette_at(params: Seq<u16>, i: int) -> bool {
    &&& (params[i] == 38 || params[i] == 48)
    &&& i + 2 < params.len()
    &&& params[i + 1] == 5
}

/// Whether a true color starts at position `i` of `params`: an extended
/// selector, then 2, then red, green and blue. A palette color comes first
/// where both could be read.
pub open spec fn sgr_rgb_at(params: Seq<u16>, i: int) -> bool {
    &&& (params[i] == 38 || params[i] == 48)
    &&& !sgr_palette_at(params, i)
    &&& i + 4 < params.len()
    &&& params[i + 1] == 2
}

/// How many parameters the phrase that starts at position `i` takes up.
pub open spec fn sgr_width(params: Seq<u16>, i: int) -> int {
    if sgr_palette_at(params, i) {
        3
    } else if sgr_rgb_at(params, i) {
        5
    } else {
        1
    }
}

/// `fg` for the foreground selector 38, `bg` for any other.
pub open spec fn sgr_ground(selector: u16) -> Seq<char> {
    if selector == 38 {
        "fg"@
    } else {
        "bg"@
    }
}

/// The phrase for the parameters that start at position `i`.
pub open spec fn sgr_phrase(params: Seq<u16>, i: int) -> Seq<char> {
    if sgr_palette_at(params, i) {
        sgr_ground(params[i]) + ": color "@ + decimal(params[i + 2] as nat)
    } else if sgr_rgb_at(params, i) {
        sgr_ground(params[i]) + ": rgb("@ + decimal(params[i + 2] as nat) + ", "@ + decimal(
            params[i + 3] as nat,
        ) + ", "@ + decimal(params[i + 4] as nat) + ")"@
    } else {
        spec_sgr_attribute(params[i])
    }
}

/// The phrases for the parameters from position `i` on, in order.
pub open spec fn sgr_phrases(params: Seq<u16>, i: int) -> Seq<Seq<char>>
    decreases params.len() - i,
{
    if 0 <= i < params.len() {
        seq![sgr_phrase(params, i)] + sgr_phrases(params, i + sgr_width(params, i))
    } else {
        Seq::empty()
    }
}

/// The description of a list of style parameters: `reset` for the empty
/// list, else the phrases read from left to right, joined by a comma and a
/// space.
pub open spec fn spec_describe_sgr(params: Seq<u16>) -> Seq<char> {
    if params.len() == 0 {
        "reset"@
    } else {
        joined(sgr_phrases(params, 0), ", "@)
    }
}

/// No parameter at all and the single parameter 0 both read `reset`.
pub proof fn lemma_describe_reset()
    ensures
        spec_describe_sgr(Seq::empty()) == "reset"@,
        spec_describe_sgr(seq![0u16]) == "reset"@,
{
    let zero = seq![0u16];
    assert(sgr_phrases(zero, 1) == Seq::<Seq<char>>::empty());
    assert(sgr_phrases(zero, 0) =~= seq!["reset"@]);
}

fn colored(bright: bool, index: u16, suffix: &str) -> (out: String)
    requires
        index < 8,
    ensures
        out@ == if bright {
            "bright "@ + spec_basic_color_name(index as int) + suffix@
        } else {
            spec_basic_color_name(index as int) + suffix@
        },
{
    let mut out = String::new();
    if bright {
        out.append("bright ");
    }
    out.append(basic_color_name(index));
    out.append(suffix);
    out
}

fn sgr_attribute(code: u16) -> (out: String)
    ensures
        out@ == spec_sgr_attribute(code),
{
    match code {
        0 => "reset".to_owned(),
        1 => "bold".to_owned(),
        2 => "dim".to_owned(),
        3 => "italic".to_owned(),
        4 => "underline".to_owned(),
        5 => "blink".to_owned(),
        7 => "reverse".to_owned(),
        8 => "hidden".to_owned(),
        9 => "strikethrough".to_owned(),
        22 => "normal intensity".to_owned(),
        23 => "not italic".to_owned(),
        24 => "not underlined".to_owned(),
        25 => "not blinking".to_owned(),
        27 => "not reversed".to_owned(),
        28 => "not hidden".to_owned(),
        29 => "not strikethrough".to_owned(),
        38 => "extended fg".to_owned(),
        39 => "default fg".to_owned(),
        48 => "extended bg".to_owned(),
        49 => "default bg".to_owned(),
        _ => {
            if 30 <= code && code <= 37 {
                colored(false, code - 30, " fg")
            } else if 40 <= code && code <= 47 {
                colored(false, code - 40, " bg")
            } else if 90 <= code && code <= 97 {
                colored(true, code - 90, " fg")
            } else if 100 <= code && code <= 107 {
                colored(true, code - 100, " bg")
            } else {
                let mut out = "code ".to_owned();
                push_decimal(&mut out, code);
                out
            }
        },
    }
}

fn sgr_ground_name(selector: u16) -> (out: &'static str)
    ensures
        out@ == sgr_ground(selector),
{
    if selector == 38 {
        "fg"
    } else {
        "bg"
    }
}

/// Parse SGR (style) parameters into a description.
#[must_use]
pub fn describe_sgr(params: &[u16]) -> (out: String)
    ensures
        out@ == spec_describe_sgr(params@),
{
    if params.len() == 0 {
        return "reset".to_owned();
    }
    let mut descriptions: Vec<String> = Vec::new();
    let mut i: usize = 0;
    while i < params.len()
        invariant
            i <= params.len(),
            views(descriptions@) + sgr_phrases(params@, i as int) == sgr_phrases(params@, 0),
        decreases params.len() - i,
    {
        let code = params[i];
        let extended = code == 38 || code == 48;
        let phrase: String;
        let width: usize;
        if extended && params.len() - i > 2 && params[i + 1] == 5 {
            let mut p = sgr_ground_name(code).to_owned();
            p.append(": color ");
            push_decimal(&mut p, params[i + 2]);
            phrase = p;
            width = 3;
        } else if extended && params.len() - i > 4 && params[i + 1] == 2 {
            let mut p = sgr_ground_name(code).to_owned();
            p.append(": rgb(");
            push_decimal(&mut p, params[i + 2]);
            p.append(", ");
            push_decimal(&mut p, params[i + 3]);
            p.append(", ");
            push_decimal(&mut p, params[i + 4]);
            p.append(")");
            phrase = p;
            width = 5;
        } else {
            phrase = sgr_attribute(code);
            width = 1;
        }
        descriptions.push(phrase);
        i = i + width;
    }
    join(&descriptions, ", ")
}

} // verus!
