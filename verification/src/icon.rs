//! The glyphs of the icon font that the window uses.

use vstd::prelude::*;

verus! {

/// The name under which the icon font is installed.
pub const FONT_NAME: &'static str = "phosphor";

pub const SPARKLE: &'static str = "\u{E6A2}";

pub const X: &'static str = "\u{E4F6}";

pub const GEAR: &'static str = "\u{E270}";

pub const TEXT_ALIGN_LEFT: &'static str = "\u{E484}";

pub const CARET_RIGHT: &'static str = "\u{E13A}";

pub const ARROW_CLOCKWISE: &'static str = "\u{E036}";

pub const COPY: &'static str = "\u{E1CA}";

pub const CHECK: &'static str = "\u{E182}";

pub const WARNING: &'static str = "\u{E4E0}";

pub const LIGHTNING: &'static str = "\u{E2DE}";

} // verus!
