//! Color-conditional display wrapping: a wrapped value renders as itself
//! when color output is enabled and as nothing when it is disabled, so
//! callers never branch on the color mode at the call site.

use vstd::prelude::*;

verus! {

/// Whether colored fragments are rendered or suppressed.
#[derive(Clone, Copy, PartialEq, Eq, Structural, Debug)]
pub enum Color {
    /// Color output is disabled: wrapped values render as the empty string.
    Disabled,
    /// Color output goes to a terminal: wrapped values render as themselves.
    Terminal,
}

/// A displayable value paired with the color mode that decides whether
/// rendering it produces its own text or nothing at all.
pub struct DisplayColor<C> {
    pub kind: Color,
    pub color: C,
}

impl Color {
    /// Wrap a displayable value so that its rendering is governed by this mode.
    pub fn display<C>(&self, color: C) -> (d: DisplayColor<C>)
        ensures
            d.kind == *self,
            d.color == color,
    {
        DisplayColor { kind: *self, color }
    }
}

impl<C> DisplayColor<C> {
    /// Select the text this wrapper renders, given the text the wrapped
    /// value renders on its own: nothing when color is disabled, the
    /// value's own text when it is enabled. The choice depends only on
    /// the mode, so repeated calls with the same argument agree.
    pub fn render(&self, rendered: String) -> (r: String)
        ensures
            self.kind is Disabled ==> r@ == Seq::<char>::empty(),
            self.kind is Terminal ==> r@ == rendered@,
    {
        match self.kind {
            Color::Disabled => String::new(),
            Color::Terminal => rendered,
        }
    }
}

} // verus!
