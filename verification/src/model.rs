//! The mathematical model of padding and truncation.
//!
//! Every executable operation of the crate is specified against the spec
//! functions in this module: [`padded`] says what any pad operation
//! returns, and [`truncated`] says which window survives when the target
//! width is smaller than the source.

use vstd::prelude::*;

use crate::align::Alignment;

verus! {

/// How many fill elements go in front of the source when a width surplus
/// of `diff` is split according to `mode`.
pub open spec fn leading_fill(mode: Alignment, diff: nat) -> nat {
    match mode {
        Alignment::Left => 0,
        Alignment::Right => diff,
        Alignment::Center => diff / 2,
    }
}

/// How many fill elements go after the source; together with
/// [`leading_fill`] this always accounts for the whole surplus.
pub open spec fn trailing_fill(mode: Alignment, diff: nat) -> nat {
    (diff - leading_fill(mode, diff)) as nat
}

/// A run of `count` copies of the fill element.
pub open spec fn fill_run<E>(fill: E, count: nat) -> Seq<E> {
    Seq::new(count, |i: int| fill)
}

/// The first index of the window that truncation keeps, for a source of
/// length `len` cut down to `width` elements (`width <= len`).
pub open spec fn window_low(len: nat, width: nat, mode: Alignment) -> nat {
    match mode {
        Alignment::Left => 0,
        Alignment::Right => (len - width) as nat,
        Alignment::Center => (len / 2 - width / 2) as nat,
    }
}

/// The contiguous window of exactly `width` elements that truncation
/// keeps (`width <= s.len()`).
pub open spec fn truncated<E>(s: Seq<E>, width: nat, mode: Alignment) -> Seq<E> {
    s.subrange(
        window_low(s.len(), width, mode) as int,
        window_low(s.len(), width, mode) + width as int,
    )
}

/// What any pad operation returns: the truncation window when the width
/// falls short of the source, and otherwise the source surrounded by
/// leading and trailing runs of the fill element.
pub open spec fn padded<E>(s: Seq<E>, width: nat, mode: Alignment, fill: E) -> Seq<E> {
    if width < s.len() {
        truncated(s, width, mode)
    } else {
        let diff = (width - s.len()) as nat;
        fill_run(fill, leading_fill(mode, diff)) + s + fill_run(fill, trailing_fill(mode, diff))
    }
}

/// The truncation window always lies inside the source and has exactly
/// `width` elements.
pub proof fn lemma_window_in_bounds(len: nat, width: nat, mode: Alignment)
    requires
        width <= len,
    ensures
        window_low(len, width, mode) + width <= len,
{
}

} // verus!
