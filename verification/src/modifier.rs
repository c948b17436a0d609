//! Text modifiers (bold, italic, underline, etc.).

use vstd::prelude::*;
use vstd::std_specs::cmp::PartialEqSpecImpl;

verus! {

/// Text style modifiers.
#[derive(Debug, Clone, Copy, PartialEq, Eq, Hash, Structural)]
pub enum Modifier {
    /// Bold text.
    Bold,
    /// Dim/faint text.
    Dim,
    /// Italic text.
    Italic,
    /// Underlined text.
    Underline,
    /// Blinking text (slow).
    Blink,
    /// Rapidly blinking text.
    RapidBlink,
    /// Reversed/inverted colors.
    Reverse,
    /// Hidden/invisible text.
    Hidden,
    /// Strikethrough text.
    Strikethrough,
    /// Double underline.
    DoubleUnderline,
    /// Overlined text.
    Overline,
}

impl Modifier {
    /// The style parameter that switches this modifier on.
    pub open spec fn spec_on_code(self) -> u8 {
        match self {
            Modifier::Bold => 1,
            Modifier::Dim => 2,
            Modifier::Italic => 3,
            Modifier::Underline => 4,
            Modifier::Blink => 5,
            Modifier::RapidBlink => 6,
            Modifier::Reverse => 7,
            Modifier::Hidden => 8,
            Modifier::Strikethrough => 9,
            Modifier::DoubleUnderline => 21,
            Modifier::Overline => 53,
        }
    }

    /// The style parameter that switches this modifier off. Modifiers that
    /// change the same attribute share it.
    pub open spec fn spec_off_code(self) -> u8 {
        match self {
            Modifier::Bold | Modifier::Dim => 22,
            Modifier::Italic => 23,
            Modifier::Underline | Modifier::DoubleUnderline => 24,
            Modifier::Blink | Modifier::RapidBlink => 25,
            Modifier::Reverse => 27,
            Modifier::Hidden => 28,
            Modifier::Strikethrough => 29,
            Modifier::Overline => 55,
        }
    }

    /// The human-readable name of this modifier.
    pub open spec fn spec_name(self) -> Seq<char> {
        match self {
            Modifier::Bold => "bold"@,
            Modifier::Dim => "dim"@,
            Modifier::Italic => "italic"@,
            Modifier::Underline => "underline"@,
            Modifier::Blink => "blink"@,
            Modifier::RapidBlink => "rapid blink"@,
            Modifier::Reverse => "reverse"@,
            Modifier::Hidden => "hidden"@,
            Modifier::Strikethrough => "strikethrough"@,
            Modifier::DoubleUnderline => "double underline"@,
            Modifier::Overline => "overline"@,
        }
    }

    /// The position of this modifier in the fixed order of all modifiers,
    /// which is also its bit in a [`ModifierSet`].
    pub open spec fn spec_index(self) -> int {
        match self {
            Modifier::Bold => 0,
            Modifier::Dim => 1,
            Modifier::Italic => 2,
            Modifier::Underline => 3,
            Modifier::Blink => 4,
            Modifier::RapidBlink => 5,
            Modifier::Reverse => 6,
            Modifier::Hidden => 7,
            Modifier::Strikethrough => 8,
            Modifier::DoubleUnderline => 9,
            Modifier::Overline => 10,
        }
    }

    /// Get the ANSI SGR code to enable this modifier.
    #[must_use]
    pub fn on_code(&self) -> (out: u8)
        ensures
            out == self.spec_on_code(),
    {
        match self {
            Modifier::Bold => 1,
            Modifier::Dim => 2,
            Modifier::Italic => 3,
            Modifier::Underline => 4,
            Modifier::Blink => 5,
            Modifier::RapidBlink => 6,
            Modifier::Reverse => 7,
            Modifier::Hidden => 8,
            Modifier::Strikethrough => 9,
            Modifier::DoubleUnderline => 21,
            Modifier::Overline => 53,
        }
    }

    /// Get the ANSI SGR code to disable this modifier.
    #[must_use]
    pub fn off_code(&self) -> (out: u8)
        ensures
            out == self.spec_off_code(),
    {
        match self {
            Modifier::Bold | Modifier::Dim => 22,
            Modifier::Italic => 23,
            Modifier::Underline | Modifier::DoubleUnderline => 24,
            Modifier::Blink | Modifier::RapidBlink => 25,
            Modifier::Reverse => 27,
            Modifier::Hidden => 28,
            Modifier::Strikethrough => 29,
            Modifier::Overline => 55,
        }
    }

    /// Get a human-readable name for this modifier.
    #[must_use]
    pub fn name(&self) -> (out: &'static str)
        ensures
            out@ == self.spec_name(),
    {
        match self {
            Modifier::Bold => "bold",
            Modifier::Dim => "dim",
            Modifier::Italic => "italic",
            Modifier::Underline => "underline",
            Modifier::Blink => "blink",
            Modifier::RapidBlink => "rapid blink",
            Modifier::Reverse => "reverse",
            Modifier::Hidden => "hidden",
            Modifier::Strikethrough => "strikethrough",
            Modifier::DoubleUnderline => "double underline",
            Modifier::Overline => "overline",
        }
    }
}

/// Every modifier, in the fixed order in which a set lists its members.
pub open spec fn all_modifiers() -> Seq<Modifier> {
    seq![
        Modifier::Bold,
        Modifier::Dim,
        Modifier::Italic,
        Modifier::Underline,
        Modifier::Blink,
        Modifier::RapidBlink,
        Modifier::Reverse,
        Modifier::Hidden,
        Modifier::Strikethrough,
        Modifier::DoubleUnderline,
        Modifier::Overline,
    ]
}

/// The modifiers of `set`, in the fixed order of all modifiers.
pub open spec fn members(set: Set<Modifier>) -> Seq<Modifier> {
    all_modifiers().filter(|m: Modifier| set.contains(m))
}

/// The codes that switch the modifiers of `set` on, in the fixed order of
/// all modifiers.
pub open spec fn member_codes(set: Set<Modifier>) -> Seq<u8> {
    members(set).map_values(|m: Modifier| m.spec_on_code())
}

/// A set of modifiers, held as one bit for each modifier.
#[derive(Debug, Clone, Copy, Eq)]
pub struct ModifierSet {
    bits: u16,
}

impl View for ModifierSet {
    type V = Set<Modifier>;

    /// The modifiers in the set: those whose bit is set.
    closed spec fn view(&self) -> Set<Modifier> {
        Set::new(|m: Modifier| self.bits & (1u16 << (m.spec_index() as u16)) != 0)
    }
}

proof fn lemma_bit_insert(bits: u16, i: u16, j: u16)
    requires
        i < 16,
        j < 16,
    ensures
        ((bits | (1u16 << i)) & (1u16 << j) != 0) == ((bits & (1u16 << j) != 0) || i == j),
{
    assert(i < 16 && j < 16 ==> (((bits | (1u16 << i)) & (1u16 << j) != 0) == ((bits & (1u16
        << j) != 0) || i == j))) by (bit_vector);
}

proof fn lemma_bit_stays_low(bits: u16, i: u16)
    requires
        bits < 2048,
        i <= 10,
    ensures
        (bits | (1u16 << i)) < 2048,
{
    assert(bits < 2048 && i <= 10 ==> (bits | (1u16 << i)) < 2048) by (bit_vector);
}

proof fn lemma_low_bits_decide(a: u16, b: u16)
    requires
        a < 2048,
        b < 2048,
        forall|j: u16| j <= 10 ==> (a & (1u16 << j) != 0) == (b & (1u16 << j) != 0),
    ensures
        a == b,
{
    assert(a < 2048 && b < 2048 && ((a & (1u16 << 0u16) != 0) == (b & (1u16 << 0u16) != 0)) && ((a
        & (1u16 << 1u16) != 0) == (b & (1u16 << 1u16) != 0)) && ((a & (1u16 << 2u16) != 0) == (b
        & (1u16 << 2u16) != 0)) && ((a & (1u16 << 3u16) != 0) == (b & (1u16 << 3u16) != 0)) && ((a
        & (1u16 << 4u16) != 0) == (b & (1u16 << 4u16) != 0)) && ((a & (1u16 << 5u16) != 0) == (b
        & (1u16 << 5u16) != 0)) && ((a & (1u16 << 6u16) != 0) == (b & (1u16 << 6u16) != 0)) && ((a
        & (1u16 << 7u16) != 0) == (b & (1u16 << 7u16) != 0)) && ((a & (1u16 << 8u16) != 0) == (b
        & (1u16 << 8u16) != 0)) && ((a & (1u16 << 9u16) != 0) == (b & (1u16 << 9u16) != 0)) && ((a
        & (1u16 << 10u16) != 0) == (b & (1u16 << 10u16) != 0)) ==> a == b) by (bit_vector);
}

proof fn lemma_bit_empty(j: u16)
    requires
        j < 16,
    ensures
        0u16 & (1u16 << j) == 0,
{
    assert(0u16 & (1u16 << j) == 0) by (bit_vector);
}

impl PartialEq for ModifierSet {
    fn eq(&self, other: &Self) -> (out: bool) {
        proof {
            use_type_invariant(self);
            use_type_invariant(other);
            if self@ == other@ {
                assert forall|j: u16| j <= 10 implies (self.bits & (1u16 << j) != 0) == (other.bits
                    & (1u16 << j) != 0) by {
                    let m = all_modifiers()[j as int];
                    assert(self@.contains(m) == other@.contains(m));
                }
                lemma_low_bits_decide(self.bits, other.bits);
            }
        }
        self.bits == other.bits
    }
}

impl PartialEqSpecImpl for ModifierSet {
    open spec fn obeys_eq_spec() -> bool {
        true
    }

    /// Two sets are equal where they have the same members.
    open spec fn eq_spec(&self, other: &Self) -> bool {
        self@ == other@
    }
}

impl Default for ModifierSet {
    fn default() -> (out: Self)
        ensures
            out@ == Set::<Modifier>::empty(),
    {
        ModifierSet::empty()
    }
}

impl ModifierSet {
    /// Only the bits of the eleven modifiers are ever set.
    #[verifier::type_invariant]
    spec fn low_bits_only(self) -> bool {
        self.bits < 2048
    }

    fn bit_for(modifier: Modifier) -> (out: u16)
        ensures
            out == modifier.spec_index(),
            out <= 10,
    {
        match modifier {
            Modifier::Bold => 0,
            Modifier::Dim => 1,
            Modifier::Italic => 2,
            Modifier::Underline => 3,
            Modifier::Blink => 4,
            Modifier::RapidBlink => 5,
            Modifier::Reverse => 6,
            Modifier::Hidden => 7,
            Modifier::Strikethrough => 8,
            Modifier::DoubleUnderline => 9,
            Modifier::Overline => 10,
        }
    }

    /// Create an empty modifier set.
    #[must_use]
    pub fn empty() -> (out: Self)
        ensures
            out@ == Set::<Modifier>::empty(),
    {
        let out = ModifierSet { bits: 0 };
        proof {
            assert forall|m: Modifier| !out@.contains(m) by {
                lemma_bit_empty(m.spec_index() as u16);
            }
        }
        out
    }

    /// Add a modifier to the set.
    #[must_use]
    pub fn with(self, modifier: Modifier) -> (out: Self)
        ensures
            out@ == self@.insert(modifier),
    {
        let bit = Self::bit_for(modifier);
        proof {
            use_type_invariant(self);
            lemma_bit_stays_low(self.bits, bit);
        }
        let out = ModifierSet { bits: self.bits | (1u16 << bit) };
        proof {
            assert forall|m: Modifier| out@.contains(m) == self@.insert(modifier).contains(m) by {
                lemma_bit_insert(self.bits, bit, m.spec_index() as u16);
            }
        }
        out
    }

    /// Check if a modifier is in the set.
    #[must_use]
    pub fn contains(self, modifier: Modifier) -> (out: bool)
        ensures
            out == self@.contains(modifier),
    {
        (self.bits & (1u16 << Self::bit_for(modifier))) != 0
    }

    /// Get all enabled modifiers.
    #[must_use]
    pub fn modifiers(self) -> (out: Vec<Modifier>)
        ensures
            out@ == members(self@),
    {
        let all = [
            Modifier::Bold,
            Modifier::Dim,
            Modifier::Italic,
            Modifier::Underline,
            Modifier::Blink,
            Modifier::RapidBlink,
            Modifier::Reverse,
            Modifier::Hidden,
            Modifier::Strikethrough,
            Modifier::DoubleUnderline,
            Modifier::Overline,
        ];
        let ghost pred = |m: Modifier| self@.contains(m);
        let mut out: Vec<Modifier> = Vec::new();
        let mut i: usize = 0;
        assert(all@.take(0).filter(pred) == Seq::<Modifier>::empty()) by {
            reveal(Seq::filter);
        }
        while i < 11
            invariant
                i <= 11,
                all@ == all_modifiers(),
                pred == |m: Modifier| self@.contains(m),
                out@ == all@.take(i as int).filter(pred),
            decreases 11 - i,
        {
            let m = all[i];
            proof {
                reveal(Seq::filter);
                assert(all@.take(i + 1).drop_last() == all@.take(i as int));
            }
            if self.contains(m) {
                out.push(m);
            }
            i = i + 1;
        }
        assert(all@.take(11) == all@);
        out
    }

    /// Get the ANSI codes for all enabled modifiers.
    #[must_use]
    pub fn codes(self) -> (out: Vec<u8>)
        ensures
            out@ == member_codes(self@),
    {
        let members = self.modifiers();
        let mut out: Vec<u8> = Vec::new();
        let mut i: usize = 0;
        while i < members.len()
            invariant
                i <= members.len(),
                out@ == members@.take(i as int).map_values(|m: Modifier| m.spec_on_code()),
            decreases members.len() - i,
        {
            out.push(members[i].on_code());
            i = i + 1;
        }
        out
    }
}

} // verus!
