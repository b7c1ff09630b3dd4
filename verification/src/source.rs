//! The source abstraction: one padding contract shared by every backing
//! container the engine supports.

use vstd::prelude::*;

use crate::align::Alignment;
use crate::model::{padded, truncated};
use crate::symbol::{symbol_char, Symbol};

verus! {

/// An element type the engine can pad with: a capability interface that
/// maps every fill symbol to an element of this type.
pub trait PadElement: Copy {
    /// The element a fill symbol stands for.
    spec fn fill_of(symbol: Symbol) -> Self;

    /// Produce the element a fill symbol stands for.
    fn from_symbol(symbol: Symbol) -> (element: Self)
        ensures
            element == Self::fill_of(symbol),
    ;
}

impl PadElement for char {
    open spec fn fill_of(symbol: Symbol) -> char {
        symbol_char(symbol)
    }

    fn from_symbol(symbol: Symbol) -> (element: char) {
        char::from(symbol)
    }
}

impl PadElement for u8 {
    open spec fn fill_of(symbol: Symbol) -> u8 {
        crate::symbol::symbol_byte(symbol)
    }

    fn from_symbol(symbol: Symbol) -> (element: u8) {
        u8::from(symbol)
    }
}

/// The padding and truncation contract that every backing container
/// implements, specified against [`padded`] and [`truncated`].
pub trait Source {
    /// The element the container holds.
    type Elem;

    /// The caller-owned growable container that padded output can be
    /// appended into.
    type Buffer;

    /// The freshly allocated result of a pad or truncate operation.
    type Output;

    /// The source as the sequence of its elements.
    spec fn elems(&self) -> Seq<Self::Elem>;

    /// An output as the sequence of its elements.
    spec fn output_elems(output: &Self::Output) -> Seq<Self::Elem>;

    /// A buffer as the sequence of its elements.
    spec fn buffer_elems(buffer: &Self::Buffer) -> Seq<Self::Elem>;

    /// The fill element a symbol stands for in this container family.
    spec fn fill_elem(symbol: Symbol) -> Self::Elem;

    /// Cut the source down to exactly `width` elements, keeping the
    /// contiguous window that `mode` selects and discarding the rest.
    fn slice_to_fit(&self, width: usize, mode: Alignment) -> (output: Self::Output)
        requires
            width <= self.elems().len(),
        ensures
            Self::output_elems(&output) == truncated(self.elems(), width as nat, mode),
    ;

    /// Produce a freshly allocated copy of the source brought to exactly
    /// `width` elements: filled up with the symbol's element according to
    /// `mode` when the source is short enough, and truncated to the
    /// window that `mode` selects when it is too long.
    fn pad(&self, width: usize, mode: Alignment, symbol: Symbol) -> (output: Self::Output)
        ensures
            Self::output_elems(&output) == padded(
                self.elems(),
                width as nat,
                mode,
                Self::fill_elem(symbol),
            ),
    ;

    /// Compute the same output as [`Source::pad`] and append it to the
    /// end of the caller-supplied buffer, which is never truncated or
    /// otherwise disturbed.
    fn pad_and_push_to_buffer(
        &self,
        width: usize,
        mode: Alignment,
        symbol: Symbol,
        buffer: &mut Self::Buffer,
    )
        ensures
            Self::buffer_elems(final(buffer)) == Self::buffer_elems(old(buffer)) + padded(
                self.elems(),
                width as nat,
                mode,
                Self::fill_elem(symbol),
            ),
    ;
}

} // verus!
