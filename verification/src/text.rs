//! Character-level building blocks shared by the encoder and the decoder:
//! decimal notation, joining with a separator, and copying characters in and
//! out of strings.

use vstd::prelude::*;

verus! {

/// `String::push` appends one character at the end and leaves the rest of the
/// string as it was.
pub assume_specification[ String::push ](s: &mut String, c: char)
    ensures
        final(s)@ == old(s)@.push(c),
;

/// The character that writes the decimal digit `d`.
pub open spec fn digit_char(d: int) -> char {
    (d + 48) as u8 as char
}

/// Whether `c` is one of the ten ASCII decimal digits.
pub open spec fn is_digit(c: char) -> bool {
    '0' <= c <= '9'
}

/// The value of the decimal digit `c`.
pub open spec fn digit_value(c: char) -> int {
    c as int - 48
}

/// Whether every character of `s` is a decimal digit.
pub open spec fn all_digits(s: Seq<char>) -> bool {
    forall|i: int| 0 <= i < s.len() ==> is_digit(#[trigger] s[i])
}

/// The number that the digit string `s` writes in base ten; leading zeros
/// count for nothing and the empty string writes zero.
pub open spec fn digits_value(s: Seq<char>) -> nat
    decreases s.len(),
{
    if s.len() == 0 {
        0
    } else {
        (digits_value(s.drop_last()) * 10 + digit_value(s.last())) as nat
    }
}

/// The decimal notation of `n`, without sign or leading zeros.
pub open spec fn decimal(n: nat) -> Seq<char>
    decreases n,
{
    if n < 10 {
        seq![digit_char(n as int)]
    } else {
        decimal(n / 10).push(digit_char((n % 10) as int))
    }
}

/// The parts in order, with `sep` between each two neighbours.
pub open spec fn joined(parts: Seq<Seq<char>>, sep: Seq<char>) -> Seq<char>
    decreases parts.len(),
{
    if parts.len() == 0 {
        Seq::empty()
    } else if parts.len() == 1 {
        parts[0]
    } else {
        joined(parts.drop_last(), sep) + sep + parts.last()
    }
}

/// The parts in order, with nothing between them.
pub open spec fn concat(parts: Seq<Seq<char>>) -> Seq<char>
    decreases parts.len(),
{
    if parts.len() == 0 {
        Seq::empty()
    } else {
        concat(parts.drop_last()) + parts.last()
    }
}

/// The decimal notation of each number of `ns`.
pub open spec fn decimals(ns: Seq<u16>) -> Seq<Seq<char>> {
    Seq::new(ns.len(), |i: int| decimal(ns[i] as nat))
}

/// The numbers of `ns` in decimal, separated by semicolons: the parameter
/// text of a control sequence.
pub open spec fn number_list(ns: Seq<u16>) -> Seq<char> {
    joined(decimals(ns), seq![';'])
}

/// What each string of `v` holds.
pub open spec fn views(v: Seq<String>) -> Seq<Seq<char>> {
    Seq::new(v.len(), |i: int| v[i]@)
}

/// The characters of `s`, in order.
pub(crate) fn chars_of(s: &str) -> (out: Vec<char>)
    ensures
        out@ == s@,
{
    let mut out: Vec<char> = Vec::new();
    for c in it: s.chars()
        invariant
            it.seq() == s@,
            out@ == s@.subrange(0, it.index() as int),
    {
        out.push(c);
    }
    out
}

/// Appends the characters `v[from..to]` to `s`.
pub(crate) fn push_range(s: &mut String, v: &Vec<char>, from: usize, to: usize)
    requires
        from <= to <= v.len(),
    ensures
        final(s)@ == old(s)@ + v@.subrange(from as int, to as int),
{
    let mut i: usize = from;
    while i < to
        invariant
            from <= i <= to <= v.len(),
            s@ == old(s)@ + v@.subrange(from as int, i as int),
        decreases to - i,
    {
        s.push(v[i]);
        i = i + 1;
    }
}

/// A string that holds the characters `v[from..to]`.
pub(crate) fn string_of(v: &Vec<char>, from: usize, to: usize) -> (out: String)
    requires
        from <= to <= v.len(),
    ensures
        out@ == v@.subrange(from as int, to as int),
{
    let mut out = String::new();
    push_range(&mut out, v, from, to);
    out
}

fn digit(d: u16) -> (c: char)
    requires
        d < 10,
    ensures
        c == digit_char(d as int),
{
    let b: u8 = 48u8 + (d as u8);
    b as char
}

/// Appends the decimal notation of `n` to `s`.
pub(crate) fn push_decimal(s: &mut String, n: u16)
    ensures
        final(s)@ == old(s)@ + decimal(n as nat),
    decreases n,
{
    if n >= 10 {
        push_decimal(s, n / 10);
    }
    s.push(digit(n % 10));
}

/// Appends the numbers of `ns` in decimal, separated by semicolons.
pub(crate) fn push_number_list(s: &mut String, ns: &[u16])
    ensures
        final(s)@ == old(s)@ + number_list(ns@),
{
    let mut i: usize = 0;
    while i < ns.len()
        invariant
            i <= ns.len(),
            s@ == old(s)@ + number_list(ns@.take(i as int)),
        decreases ns.len() - i,
    {
        let ghost before = decimals(ns@.take(i as int));
        let ghost after = decimals(ns@.take(i + 1));
        assert(after.drop_last() == before);
        if i > 0 {
            s.push(';');
        }
        push_decimal(s, ns[i]);
        i = i + 1;
    }
    assert(ns@.take(i as int) == ns@);
}

/// The strings of `parts` in order, with `sep` between each two neighbours.
pub(crate) fn join(parts: &Vec<String>, sep: &str) -> (out: String)
    ensures
        out@ == joined(views(parts@), sep@),
{
    let mut out = String::new();
    let mut i: usize = 0;
    while i < parts.len()
        invariant
            i <= parts.len(),
            out@ == joined(views(parts@.take(i as int)), sep@),
        decreases parts.len() - i,
    {
        let ghost before = views(parts@.take(i as int));
        let ghost after = views(parts@.take(i + 1));
        assert(after.drop_last() == before);
        if i > 0 {
            out.append(sep);
        }
        out.append(parts[i].as_str());
        i = i + 1;
    }
    assert(parts@.take(i as int) == parts@);
    out
}

/// Decimal notation is one digit or more, and digits only.
pub proof fn lemma_decimal_digits(n: nat)
    ensures
        decimal(n).len() > 0,
        all_digits(decimal(n)),
    decreases n,
{
    if n >= 10 {
        lemma_decimal_digits(n / 10);
    }
}

/// Reading decimal notation gives the number back.
pub proof fn lemma_decimal_value(n: nat)
    ensures
        digits_value(decimal(n)) == n,
    decreases n,
{
    if n >= 10 {
        lemma_decimal_value(n / 10);
        assert(decimal(n).drop_last() == decimal(n / 10));
    } else {
        assert(digits_value(decimal(n).drop_last()) == 0);
    }
}

/// Joining two lists one after the other joins each, with one separator in
/// between where neither is empty.
pub proof fn lemma_joined_add(a: Seq<Seq<char>>, b: Seq<Seq<char>>, sep: Seq<char>)
    ensures
        joined(a + b, sep) == if a.len() == 0 {
            joined(b, sep)
        } else if b.len() == 0 {
            joined(a, sep)
        } else {
            joined(a, sep) + sep + joined(b, sep)
        },
    decreases b.len(),
{
    if a.len() > 0 && b.len() > 0 {
        assert((a + b).drop_last() == a + b.drop_last());
        lemma_joined_add(a, b.drop_last(), sep);
    }
}

/// Putting two lists together one after the other puts each together.
pub proof fn lemma_concat_add(a: Seq<Seq<char>>, b: Seq<Seq<char>>)
    ensures
        concat(a + b) == concat(a) + concat(b),
    decreases b.len(),
{
    if b.len() > 0 {
        assert((a + b).drop_last() == a + b.drop_last());
        lemma_concat_add(a, b.drop_last());
    }
}

/// The parameter text of two lists of numbers, one after the other.
pub proof fn lemma_number_list_add(a: Seq<u16>, b: Seq<u16>)
    ensures
        number_list(a + b) == if a.len() == 0 {
            number_list(b)
        } else if b.len() == 0 {
            number_list(a)
        } else {
            number_list(a) + seq![';'] + number_list(b)
        },
{
    assert(decimals(a + b) =~= decimals(a) + decimals(b));
    lemma_joined_add(decimals(a), decimals(b), seq![';']);
}

/// Parameter text holds digits and semicolons only.
pub proof fn lemma_number_list_chars(ns: Seq<u16>)
    ensures
        forall|k: int|
            0 <= k < number_list(ns).len() ==> is_digit(#[trigger] number_list(ns)[k])
                || number_list(ns)[k] == ';',
    decreases ns.len(),
{
    if ns.len() > 0 {
        let front = ns.drop_last();
        let last = seq![ns.last()];
        assert(ns == front + last);
        lemma_number_list_add(front, last);
        lemma_number_list_chars(front);
        lemma_decimal_digits(ns.last() as nat);
    }
}

} // verus!
