//! The extended window style that turns a normal window into an overlay.

use vstd::prelude::*;

verus! {

/// The platform's extended-style flag bits that overlay styling touches.
#[derive(Debug, Clone, Copy, PartialEq, Eq, Structural)]
pub struct StyleBits {
    /// Forces a taskbar entry; cleared.
    pub app_window: u32,
    /// Small caption, no taskbar or task-switcher entry; set.
    pub tool_window: u32,
    /// Stays above all non-topmost windows; set.
    pub topmost: u32,
    /// Layered window, needed for transparency; set.
    pub layered: u32,
    /// Passes input through to what lies beneath; set.
    pub transparent: u32,
}

/// The bits that overlay styling turns on.
pub open spec fn set_mask(b: StyleBits) -> u32 {
    b.tool_window | b.topmost | b.layered | b.transparent
}

/// The overlay style derived from `current`: the application-window bit
/// cleared, then the tool-window, topmost, layered and transparent bits set.
pub open spec fn overlay_style(current: u32, b: StyleBits) -> u32 {
    (current & !b.app_window) | set_mask(b)
}

/// The extended style to write back for a window whose extended style is
/// currently `current`.
pub fn overlay_ex_style(current: u32, b: StyleBits) -> (r: u32)
    ensures
        r == overlay_style(current, b),
{
    let mut style = current;
    style &= !b.app_window;
    style |= b.tool_window | b.topmost | b.layered | b.transparent;
    style
}

/// Overlay styling is idempotent: styling an already styled window changes
/// nothing.
pub proof fn lemma_overlay_style_idempotent(current: u32, b: StyleBits)
    ensures
        overlay_style(overlay_style(current, b), b) == overlay_style(current, b),
{
    let a = b.app_window;
    let m = set_mask(b);
    assert(((((current & !a) | m) & !a) | m) == ((current & !a) | m)) by (bit_vector);
}

/// What overlay styling does bit by bit: every bit it sets is on, the
/// application-window bits that it does not also set are off, and every
/// other bit keeps its value.
pub proof fn lemma_overlay_style_bits(current: u32, b: StyleBits)
    ensures
        overlay_style(current, b) & set_mask(b) == set_mask(b),
        overlay_style(current, b) & (b.app_window & !set_mask(b)) == 0,
        overlay_style(current, b) & !(b.app_window | set_mask(b)) == current & !(b.app_window
            | set_mask(b)),
{
    let a = b.app_window;
    let m = set_mask(b);
    assert((((current & !a) | m) & m) == m) by (bit_vector);
    assert((((current & !a) | m) & (a & !m)) == 0) by (bit_vector);
    assert((((current & !a) | m) & !(a | m)) == (current & !(a | m))) by (bit_vector);
}

} // verus!
