//! Prelude for convenient imports.

pub use crate::color::Color;
pub use crate::modifier::Modifier;
pub use crate::style::{style, Style, Styled};
pub use crate::{cursor, sequences, RESET};
