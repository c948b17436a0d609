//! Common escape sequences.

use vstd::prelude::*;

verus! {

/// Clear the entire screen.
pub const CLEAR_SCREEN: &'static str = "\x1b[2J";

/// Clear from cursor to end of screen.
pub const CLEAR_TO_END: &'static str = "\x1b[0J";

/// Clear from cursor to start of screen.
pub const CLEAR_TO_START: &'static str = "\x1b[1J";

/// Clear the entire line.
pub const CLEAR_LINE: &'static str = "\x1b[2K";

/// Clear from cursor to end of line.
pub const CLEAR_LINE_TO_END: &'static str = "\x1b[0K";

/// Clear from cursor to start of line.
pub const CLEAR_LINE_TO_START: &'static str = "\x1b[1K";

/// Move cursor to home position (0, 0).
pub const CURSOR_HOME: &'static str = "\x1b[H";

/// Hide cursor.
pub const CURSOR_HIDE: &'static str = "\x1b[?25l";

/// Show cursor.
pub const CURSOR_SHOW: &'static str = "\x1b[?25h";

/// Save cursor position.
pub const CURSOR_SAVE: &'static str = "\x1b[s";

/// Restore cursor position.
pub const CURSOR_RESTORE: &'static str = "\x1b[u";

/// Enter alternate screen buffer.
pub const ALT_SCREEN_ENTER: &'static str = "\x1b[?1049h";

/// Exit alternate screen buffer.
pub const ALT_SCREEN_EXIT: &'static str = "\x1b[?1049l";

/// Enable mouse tracking.
pub const MOUSE_ENABLE: &'static str = "\x1b[?1000h";

/// Disable mouse tracking.
pub const MOUSE_DISABLE: &'static str = "\x1b[?1000l";

/// Enable bracketed paste mode.
pub const BRACKETED_PASTE_ENABLE: &'static str = "\x1b[?2004h";

/// Disable bracketed paste mode.
pub const BRACKETED_PASTE_DISABLE: &'static str = "\x1b[?2004l";

} // verus!
