//! A padding and alignment engine for text and element sequences.
//!
//! Given a source sequence (a string slice, an element slice, or an owned
//! vector), a target width, an [`Alignment`] and a fill [`Symbol`], the
//! engine produces a new sequence of exactly the target width.  When the
//! source is longer than the target width it is truncated to a contiguous
//! window instead; no input is ever an error.
//!
//! The behaviour of every operation is pinned down by the spec function
//! [`model::padded`], and the [`Source`] trait carries that contract for
//! each of the three backing containers.

use vstd::prelude::*;

mod align;
mod elems;
pub mod laws;
pub mod model;
mod source;
mod symbol;
mod text;

pub use align::Alignment;
pub use source::{PadElement, Source};
pub use symbol::{symbol_byte, symbol_char, Symbol};

use crate::model::padded;

verus! {

/// Pad `source` to exactly `width` elements: the container-agnostic
/// entry point that forwards to the [`Source`] realization.
pub fn pad<S: Source>(source: S, width: usize, mode: Alignment, symbol: Symbol) -> (output:
    S::Output)
    ensures
        S::output_elems(&output) == padded(
            source.elems(),
            width as nat,
            mode,
            S::fill_elem(symbol),
        ),
{
    source.pad(width, mode, symbol)
}

/// Compute the same output as [`pad`] and append it to the end of the
/// caller-supplied buffer: the container-agnostic entry point that
/// forwards to the [`Source`] realization.
pub fn pad_and_push_to_buffer<S: Source>(
    source: S,
    width: usize,
    mode: Alignment,
    symbol: Symbol,
    buffer: &mut S::Buffer,
)
    ensures
        S::buffer_elems(final(buffer)) == S::buffer_elems(old(buffer)) + padded(
            source.elems(),
            width as nat,
            mode,
            S::fill_elem(symbol),
        ),
{
    source.pad_and_push_to_buffer(width, mode, symbol, buffer);
}

} // verus!
