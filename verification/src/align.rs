//! The alignment policy: where a source sits inside the target width.

use vstd::prelude::*;

use crate::model::{leading_fill, trailing_fill};

verus! {

/// The three ways to align a source within the target width.
#[derive(Debug, Default, Clone, Copy, PartialEq, Eq, Structural)]
pub enum Alignment {
    Left,
    #[default]
    Right,
    Center,
}

impl Alignment {
    /// Split a width surplus `diff` into the number of fill elements that
    /// go before and after the source.  Centering puts the smaller half in
    /// front, so an odd surplus favours the trailing side.
    pub fn left_right_padding(&self, diff: usize) -> (counts: (usize, usize))
        ensures
            counts.0 == leading_fill(*self, diff as nat),
            counts.1 == trailing_fill(*self, diff as nat),
            counts.0 + counts.1 == diff,
    {
        match self {
            Self::Left => (0, diff),
            Self::Right => (diff, 0),
            Self::Center => (diff / 2, diff - diff / 2),
        }
    }
}

} // verus!
