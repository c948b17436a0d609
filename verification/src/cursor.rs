//! Cursor movement helpers.

use crate::sequence::spec_csi;
use crate::text::push_number_list;
use crate::parser::ESC;
use vstd::prelude::*;

verus! {

fn csi(params: &[u16], final_char: char) -> (out: String)
    ensures
        out@ == spec_csi(params@, final_char),
{
    let mut out = String::new();
    out.push(ESC);
    out.push('[');
    push_number_list(&mut out, params);
    out.push(final_char);
    out
}

fn counted(n: u16, final_char: char) -> (out: String)
    ensures
        out@ == spec_csi(seq![n], final_char),
{
    let count: [u16; 1] = [n];
    csi(count.as_slice(), final_char)
}

/// Move cursor up by n rows.
#[must_use]
pub fn up(n: u16) -> (out: String)
    ensures
        out@ == spec_csi(seq![n], 'A'),
{
    counted(n, 'A')
}

/// Move cursor down by n rows.
#[must_use]
pub fn down(n: u16) -> (out: String)
    ensures
        out@ == spec_csi(seq![n], 'B'),
{
    counted(n, 'B')
}

/// Move cursor right by n columns.
#[must_use]
pub fn right(n: u16) -> (out: String)
    ensures
        out@ == spec_csi(seq![n], 'C'),
{
    counted(n, 'C')
}

/// Move cursor left by n columns.
#[must_use]
pub fn left(n: u16) -> (out: String)
    ensures
        out@ == spec_csi(seq![n], 'D'),
{
    counted(n, 'D')
}

/// Move cursor to specific position (1-indexed).
#[must_use]
pub fn goto(row: u16, col: u16) -> (out: String)
    ensures
        out@ == spec_csi(seq![row, col], 'H'),
{
    let position: [u16; 2] = [row, col];
    csi(position.as_slice(), 'H')
}

/// Move cursor to specific column (1-indexed).
#[must_use]
pub fn column(col: u16) -> (out: String)
    ensures
        out@ == spec_csi(seq![col], 'G'),
{
    counted(col, 'G')
}

} // verus!
