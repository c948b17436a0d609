//! Sequence building utilities.

use crate::parser::ESC;
use crate::sequences::CLEAR_SCREEN;
use crate::text::{concat, number_list, push_number_list, views};
use vstd::prelude::*;
use vstd::std_specs::convert::FromSpecImpl;

verus! {

/// The control sequence with the given parameters and last character: the
/// introducer, `[`, the parameters in decimal separated by `;`, and the last
/// character.
pub open spec fn spec_csi(params: Seq<u16>, final_char: char) -> Seq<char> {
    seq![ESC, '['] + number_list(params) + seq![final_char]
}

/// The sequence that clears the entire screen.
pub open spec fn spec_clear_screen() -> Seq<char> {
    seq![ESC, '[', '2', 'J']
}

/// A builder for constructing ANSI escape sequences.
#[derive(Debug, Clone)]
pub struct SequenceBuilder {
    sequences: Vec<String>,
}

impl View for SequenceBuilder {
    type V = Seq<Seq<char>>;

    /// The fragments added so far, in the order of the calls.
    closed spec fn view(&self) -> Seq<Seq<char>> {
        views(self.sequences@)
    }
}

impl Default for SequenceBuilder {
    fn default() -> (out: Self)
        ensures
            out@ == Seq::<Seq<char>>::empty(),
    {
        SequenceBuilder::new()
    }
}

impl SequenceBuilder {
    /// Create a new sequence builder.
    #[must_use]
    pub fn new() -> (out: Self)
        ensures
            out@ == Seq::<Seq<char>>::empty(),
    {
        let out = SequenceBuilder { sequences: Vec::new() };
        out
    }

    fn add(self, fragment: String) -> (out: Self)
        ensures
            out@ == self@.push(fragment@),
    {
        let mut out = self;
        out.sequences.push(fragment);
        out
    }

    /// Add a raw sequence.
    #[must_use]
    pub fn raw(self, seq: &str) -> (out: Self)
        ensures
            out@ == self@.push(seq@),
    {
        self.add(seq.to_owned())
    }

    /// Add a CSI sequence with the given parameters and final character.
    #[must_use]
    pub fn csi(self, params: &[u16], final_char: char) -> (out: Self)
        ensures
            out@ == self@.push(spec_csi(params@, final_char)),
    {
        let mut fragment = String::new();
        fragment.push(ESC);
        fragment.push('[');
        push_number_list(&mut fragment, params);
        fragment.push(final_char);
        assert(fragment@ =~= spec_csi(params@, final_char));
        self.add(fragment)
    }

    /// Add an SGR (style) sequence.
    #[must_use]
    pub fn sgr(self, params: &[u16]) -> (out: Self)
        ensures
            out@ == self@.push(spec_csi(params@, 'm')),
    {
        self.csi(params, 'm')
    }

    /// Add a reset sequence.
    #[must_use]
    pub fn reset(self) -> (out: Self)
        ensures
            out@ == self@.push(spec_csi(seq![0u16], 'm')),
    {
        let zero: [u16; 1] = [0];
        self.sgr(zero.as_slice())
    }

    /// Clear the screen.
    #[must_use]
    pub fn clear_screen(self) -> (out: Self)
        ensures
            out@ == self@.push(spec_clear_screen()),
    {
        proof {
            reveal_strlit("\x1b[2J");
            assert(CLEAR_SCREEN@ =~= spec_clear_screen());
        }
        self.add(CLEAR_SCREEN.to_owned())
    }

    /// Move cursor to position.
    #[must_use]
    pub fn cursor_to(self, row: u16, col: u16) -> (out: Self)
        ensures
            out@ == self@.push(spec_csi(seq![row, col], 'H')),
    {
        let position: [u16; 2] = [row, col];
        self.csi(position.as_slice(), 'H')
    }

    /// Build the final sequence string.
    #[must_use]
    pub fn build(self) -> (out: String)
        ensures
            out@ == concat(self@),
    {
        let mut out = String::new();
        let mut i: usize = 0;
        while i < self.sequences.len()
            invariant
                i <= self.sequences.len(),
                out@ == concat(self@.take(i as int)),
            decreases self.sequences.len() - i,
        {
            assert(self@.take(i + 1).drop_last() == self@.take(i as int));
            out.append(self.sequences[i].as_str());
            i = i + 1;
        }
        assert(self@.take(i as int) == self@);
        out
    }
}

/// A complete ANSI sequence that can be written to a terminal.
#[derive(Debug, Clone)]
pub struct Sequence {
    data: String,
}

impl View for Sequence {
    type V = Seq<char>;

    /// The characters of the sequence.
    closed spec fn view(&self) -> Seq<char> {
        self.data@
    }
}

impl Sequence {
    /// Create from a raw string.
    #[must_use]
    pub fn new(data: String) -> (out: Self)
        ensures
            out@ == data@,
    {
        Sequence { data }
    }

    /// Create from a builder.
    #[must_use]
    pub fn from_builder(builder: SequenceBuilder) -> (out: Self)
        ensures
            out@ == concat(builder@),
    {
        Sequence { data: builder.build() }
    }

    /// Get the raw sequence data.
    #[must_use]
    pub fn as_str(&self) -> (out: &str)
        ensures
            out@ == self@,
    {
        self.data.as_str()
    }

    /// Get the byte length of the sequence.
    #[must_use]
    pub fn len(&self) -> (out: usize)
        ensures
            out == vstd::utf8::encode_utf8(self@).len() as usize,
    {
        self.data.as_str().len()
    }

    /// Check if the sequence is empty.
    #[must_use]
    pub fn is_empty(&self) -> (out: bool)
        ensures
            out == (self@.len() == 0),
    {
        self.data.as_str().is_empty()
    }
}

/// A sequence can stand where its characters are asked for.
impl AsRef<str> for Sequence {
    fn as_ref(&self) -> (out: &str)
        ensures
            out@ == self@,
    {
        self.data.as_str()
    }
}

/// Building a builder gives a sequence; `from` says of its result what
/// [`Sequence::from_builder`] says.
impl From<SequenceBuilder> for Sequence {
    fn from(builder: SequenceBuilder) -> (out: Sequence)
        ensures
            out@ == concat(builder@),
    {
        Sequence::from_builder(builder)
    }
}

/// A sequence is known to contracts by its characters alone, so the
/// conversion is stated on `from` itself and not as a value here.
impl FromSpecImpl<SequenceBuilder> for Sequence {
    open spec fn obeys_from_spec() -> bool {
        false
    }

    open spec fn from_spec(builder: SequenceBuilder) -> Sequence {
        arbitrary()
    }
}

} // verus!
