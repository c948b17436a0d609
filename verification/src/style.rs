//! Text styling API.

use crate::color::Color;
use crate::modifier::{member_codes, members, Modifier, ModifierSet};
use crate::parser::ESC;
use crate::text::{decimal, join, joined, push_decimal, views};
use crate::{CSI, RESET, SGR_SUFFIX};
use vstd::prelude::*;

verus! {

/// What a [`Style`] holds, as plain values.
pub struct StyleView {
    /// Foreground color.
    pub foreground: Option<Color>,
    /// Background color.
    pub background: Option<Color>,
    /// Text modifiers.
    pub modifiers: Set<Modifier>,
}

/// The sequence that resets all attributes.
pub open spec fn spec_reset() -> Seq<char> {
    seq![ESC, '[', '0', 'm']
}

impl StyleView {
    /// The style without colors and modifiers.
    pub open spec fn plain() -> StyleView {
        StyleView { foreground: None, background: None, modifiers: Set::empty() }
    }

    /// The code of each part of the style as text: first the modifiers in
    /// their fixed order, then the foreground, then the background.
    pub open spec fn codes(self) -> Seq<Seq<char>> {
        member_codes(self.modifiers).map_values(|code: u8| decimal(code as nat)) + (match self.foreground {
            Some(color) => seq![color.spec_fg_code()],
            None => Seq::empty(),
        }) + (match self.background {
            Some(color) => seq![color.spec_bg_code()],
            None => Seq::empty(),
        })
    }

    /// The style parameters as numbers, in the order of [`Self::codes`].
    pub open spec fn params(self) -> Seq<u16> {
        member_codes(self.modifiers).map_values(|code: u8| code as u16) + (match self.foreground {
            Some(color) => color.spec_fg_params(),
            None => Seq::empty(),
        }) + (match self.background {
            Some(color) => color.spec_bg_params(),
            None => Seq::empty(),
        })
    }

    /// `text` in this style: unchanged where the style has no code, else
    /// behind the sequence that sets the style and before the one that
    /// resets it.
    pub open spec fn apply(self, text: Seq<char>) -> Seq<char> {
        let codes = self.codes();
        if codes.len() == 0 {
            text
        } else {
            seq![ESC, '['] + joined(codes, seq![';']) + seq!['m'] + text + spec_reset()
        }
    }

    /// The name of each part of the style: first the modifiers in their
    /// fixed order, then the foreground, then the background.
    pub open spec fn parts(self) -> Seq<Seq<char>> {
        members(self.modifiers).map_values(|m: Modifier| m.spec_name()) + (match self.foreground {
            Some(color) => seq!["fg: "@ + color.spec_name()],
            None => Seq::empty(),
        }) + (match self.background {
            Some(color) => seq!["bg: "@ + color.spec_name()],
            None => Seq::empty(),
        })
    }

    /// The style in words: its parts joined by a comma and a space, or
    /// `no style` where it has none.
    pub open spec fn describe(self) -> Seq<char> {
        let parts = self.parts();
        if parts.len() == 0 {
            "no style"@
        } else {
            joined(parts, ", "@)
        }
    }
}

/// A style definition (without text).
#[derive(Debug, Clone)]
pub struct Style {
    /// Foreground color.
    pub foreground: Option<Color>,
    /// Background color.
    pub background: Option<Color>,
    /// Text modifiers.
    pub modifiers: ModifierSet,
}

impl View for Style {
    type V = StyleView;

    open spec fn view(&self) -> StyleView {
        StyleView {
            foreground: self.foreground,
            background: self.background,
            modifiers: self.modifiers@,
        }
    }
}

impl Default for Style {
    fn default() -> (out: Self)
        ensures
            out@ == StyleView::plain(),
    {
        Style::new()
    }
}

impl Style {
    /// Create a new empty style.
    #[must_use]
    pub fn new() -> (out: Self)
        ensures
            out@ == StyleView::plain(),
    {
        Style { foreground: None, background: None, modifiers: ModifierSet::empty() }
    }

    /// Set the foreground color.
    #[must_use]
    pub fn fg(self, color: Color) -> (out: Self)
        ensures
            out@ == (StyleView { foreground: Some(color), ..self@ }),
    {
        Style { foreground: Some(color), background: self.background, modifiers: self.modifiers }
    }

    /// Set the background color.
    #[must_use]
    pub fn bg(self, color: Color) -> (out: Self)
        ensures
            out@ == (StyleView { background: Some(color), ..self@ }),
    {
        Style { foreground: self.foreground, background: Some(color), modifiers: self.modifiers }
    }

    /// Add a modifier.
    #[must_use]
    pub fn modifier(self, modifier: Modifier) -> (out: Self)
        ensures
            out@ == (StyleView { modifiers: self@.modifiers.insert(modifier), ..self@ }),
    {
        Style {
            foreground: self.foreground,
            background: self.background,
            modifiers: self.modifiers.with(modifier),
        }
    }

    /// Get the ANSI codes for this style.
    #[must_use]
    pub fn codes(&self) -> (out: Vec<String>)
        ensures
            views(out@) == self@.codes(),
    {
        let mut codes: Vec<String> = Vec::new();
        let on_codes = self.modifiers.codes();
        let ghost wanted = on_codes@.map_values(|code: u8| decimal(code as nat));
        let mut i: usize = 0;
        while i < on_codes.len()
            invariant
                i <= on_codes.len(),
                wanted == on_codes@.map_values(|code: u8| decimal(code as nat)),
                views(codes@) == wanted.take(i as int),
            decreases on_codes.len() - i,
        {
            let ghost before = views(codes@);
            let mut code = String::new();
            push_decimal(&mut code, on_codes[i] as u16);
            assert(code@ =~= wanted[i as int]);
            codes.push(code);
            assert(views(codes@) =~= before.push(wanted[i as int]));
            i = i + 1;
            assert(views(codes@) =~= wanted.take(i as int));
        }
        assert(wanted.take(i as int) == wanted);
        if let Some(fg) = &self.foreground {
            let ghost before = views(codes@);
            codes.push(fg.fg_code());
            assert(views(codes@) =~= before + seq![fg.spec_fg_code()]);
        }
        if let Some(bg) = &self.background {
            let ghost before = views(codes@);
            codes.push(bg.bg_code());
            assert(views(codes@) =~= before + seq![bg.spec_bg_code()]);
        }
        assert(views(codes@) =~= self@.codes());
        codes
    }

    /// Apply this style to a string.
    #[must_use]
    pub fn apply(&self, text: &str) -> (out: String)
        ensures
            out@ == self@.apply(text@),
    {
        let codes = self.codes();
        if codes.len() == 0 {
            return text.to_owned();
        }
        let codes_str = join(&codes, ";");
        let mut out = CSI.to_owned();
        out.append(codes_str.as_str());
        out.append(SGR_SUFFIX);
        out.append(text);
        out.append(RESET);
        proof {
            reveal_strlit("\x1b[");
            reveal_strlit("m");
            reveal_strlit(";");
            reveal_strlit("\x1b[0m");
            assert(";"@ =~= seq![';']);
            assert(out@ =~= self@.apply(text@));
        }
        out
    }

    /// Get a human-readable description of this style.
    #[must_use]
    pub fn describe(&self) -> (out: String)
        ensures
            out@ == self@.describe(),
    {
        let mut parts: Vec<String> = Vec::new();
        let set = self.modifiers.modifiers();
        let ghost wanted = set@.map_values(|m: Modifier| m.spec_name());
        let mut i: usize = 0;
        while i < set.len()
            invariant
                i <= set.len(),
                wanted == set@.map_values(|m: Modifier| m.spec_name()),
                views(parts@) == wanted.take(i as int),
            decreases set.len() - i,
        {
            let ghost before = views(parts@);
            let part = set[i].name().to_owned();
            assert(part@ == wanted[i as int]);
            parts.push(part);
            assert(views(parts@) =~= before.push(wanted[i as int]));
            i = i + 1;
            assert(views(parts@) =~= wanted.take(i as int));
        }
        assert(wanted.take(i as int) == wanted);
        if let Some(fg) = &self.foreground {
            let ghost before = views(parts@);
            let mut part = "fg: ".to_owned();
            part.append(fg.name().as_str());
            parts.push(part);
            assert(views(parts@) =~= before + seq!["fg: "@ + fg.spec_name()]);
        }
        if let Some(bg) = &self.background {
            let ghost before = views(parts@);
            let mut part = "bg: ".to_owned();
            part.append(bg.name().as_str());
            parts.push(part);
            assert(views(parts@) =~= before + seq!["bg: "@ + bg.spec_name()]);
        }
        assert(views(parts@) =~= self@.parts());
        if parts.len() == 0 {
            "no style".to_owned()
        } else {
            join(&parts, ", ")
        }
    }
}

/// What a [`Styled`] holds, as plain values.
pub struct StyledView {
    /// The text to show.
    pub text: Seq<char>,
    /// The style to show it in.
    pub style: StyleView,
}

/// A styled string with colors and modifiers.
#[derive(Debug, Clone)]
pub struct Styled {
    text: String,
    style: Style,
}

impl View for Styled {
    type V = StyledView;

    closed spec fn view(&self) -> StyledView {
        StyledView { text: self.text@, style: self.style@ }
    }
}

impl StyledView {
    /// This value with `modifier` added to its style.
    pub open spec fn with(self, modifier: Modifier) -> StyledView {
        StyledView {
            style: StyleView { modifiers: self.style.modifiers.insert(modifier), ..self.style },
            ..self
        }
    }
}

/// Create a styled string.
#[must_use]
pub fn style(text: &str) -> (out: Styled)
    ensures
        out@.text == text@,
        out@.style == StyleView::plain(),
{
    Styled::new(text.to_owned())
}

impl Styled {
    /// Create a new styled string.
    #[must_use]
    pub fn new(text: String) -> (out: Self)
        ensures
            out@.text == text@,
            out@.style == StyleView::plain(),
    {
        Styled { text, style: Style::new() }
    }

    fn with(self, modifier: Modifier) -> (out: Self)
        ensures
            out@ == self@.with(modifier),
    {
        Styled { text: self.text, style: self.style.modifier(modifier) }
    }

    /// Set the foreground color.
    #[must_use]
    pub fn fg(self, color: Color) -> (out: Self)
        ensures
            out@ == (StyledView {
                style: StyleView { foreground: Some(color), ..self@.style },
                ..self@
            }),
    {
        Styled { text: self.text, style: self.style.fg(color) }
    }

    /// Set the background color.
    #[must_use]
    pub fn bg(self, color: Color) -> (out: Self)
        ensures
            out@ == (StyledView {
                style: StyleView { background: Some(color), ..self@.style },
                ..self@
            }),
    {
        Styled { text: self.text, style: self.style.bg(color) }
    }

    /// Make the text bold.
    #[must_use]
    pub fn bold(self) -> (out: Self)
        ensures
            out@ == self@.with(Modifier::Bold),
    {
        self.with(Modifier::Bold)
    }

    /// Make the text dim.
    #[must_use]
    pub fn dim(self) -> (out: Self)
        ensures
            out@ == self@.with(Modifier::Dim),
    {
        self.with(Modifier::Dim)
    }

    /// Make the text italic.
    #[must_use]
    pub fn italic(self) -> (out: Self)
        ensures
            out@ == self@.with(Modifier::Italic),
    {
        self.with(Modifier::Italic)
    }

    /// Underline the text.
    #[must_use]
    pub fn underline(self) -> (out: Self)
        ensures
            out@ == self@.with(Modifier::Underline),
    {
        self.with(Modifier::Underline)
    }

    /// Make the text blink.
    #[must_use]
    pub fn blink(self) -> (out: Self)
        ensures
            out@ == self@.with(Modifier::Blink),
    {
        self.with(Modifier::Blink)
    }

    /// Reverse/invert the colors.
    #[must_use]
    pub fn reverse(self) -> (out: Self)
        ensures
            out@ == self@.with(Modifier::Reverse),
    {
        self.with(Modifier::Reverse)
    }

    /// Hide the text.
    #[must_use]
    pub fn hidden(self) -> (out: Self)
        ensures
            out@ == self@.with(Modifier::Hidden),
    {
        self.with(Modifier::Hidden)
    }

    /// Strikethrough the text.
    #[must_use]
    pub fn strikethrough(self) -> (out: Self)
        ensures
            out@ == self@.with(Modifier::Strikethrough),
    {
        self.with(Modifier::Strikethrough)
    }

    /// Add an overline.
    #[must_use]
    pub fn overline(self) -> (out: Self)
        ensures
            out@ == self@.with(Modifier::Overline),
    {
        self.with(Modifier::Overline)
    }

    /// Get the underlying text.
    #[must_use]
    pub fn text(&self) -> (out: &str)
        ensures
            out@ == self@.text,
    {
        self.text.as_str()
    }

    /// Get the style.
    #[must_use]
    pub fn get_style(&self) -> (out: &Style)
        ensures
            out@ == self@.style,
    {
        &self.style
    }

    /// Render to a string with ANSI codes.
    #[must_use]
    pub fn render(&self) -> (out: String)
        ensures
            out@ == self@.style.apply(self@.text),
    {
        self.style.apply(self.text.as_str())
    }
}

} // verus!
