//! Human-readable ANSI escape sequences for terminal styling.
//!
//! The encoder builds style requests (color, boldness, underline and so on)
//! into the character sequences a terminal understands. The decoder splits
//! any text into plain runs and escape sequences, and describes each sequence
//! in words.

use vstd::prelude::*;

pub mod brand;
pub mod color;
pub mod cursor;
pub mod escape;
pub mod modifier;
pub mod parser;
pub mod prelude;
pub mod roundtrip;
pub mod sequence;
pub mod sequences;
pub mod style;
pub mod text;

pub use color::{Color, ColorError};
pub use escape::{describe_sgr, Escape, EscapeKind};
pub use modifier::{Modifier, ModifierSet};
pub use parser::{parse, parse_csi, strip_ansi, visible_len, ParsedSequence};
pub use sequence::{Sequence, SequenceBuilder};
pub use style::{style, Style, Styled};

verus! {

/// CSI (Control Sequence Introducer) prefix.
pub const CSI: &'static str = "\x1b[";

/// OSC (Operating System Command) prefix.
pub const OSC: &'static str = "\x1b]";

/// SGR (Select Graphic Rendition) suffix.
pub const SGR_SUFFIX: &'static str = "m";

/// Reset all attributes.
pub const RESET: &'static str = "\x1b[0m";

} // verus!
