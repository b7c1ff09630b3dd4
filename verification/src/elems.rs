//! The padding engine for element containers, and the [`Source`]
//! realizations for borrowed slices and owned vectors.

use vstd::prelude::*;
use vstd::slice::slice_to_vec;

use crate::align::Alignment;
use crate::model::{fill_run, lemma_window_in_bounds, padded, truncated, window_low};
use crate::source::{PadElement, Source};
use crate::symbol::Symbol;

verus! {

/// Append `count` copies of `fill` to the end of `out`.
fn push_fill<T: PadElement>(out: &mut Vec<T>, fill: T, count: usize)
    ensures
        final(out)@ == old(out)@ + fill_run(fill, count as nat),
{
    let mut i: usize = 0;
    while i < count
        invariant
            i <= count,
            out@ == old(out)@ + fill_run(fill, i as nat),
        decreases count - i,
    {
        out.push(fill);
        i = i + 1;
        proof {
            assert(out@ =~= old(out)@ + fill_run(fill, i as nat));
        }
    }
    proof {
        assert(out@ =~= old(out)@ + fill_run(fill, count as nat));
    }
}

/// Append every element of `source` to the end of `out`, in order.
fn push_all<T: PadElement>(out: &mut Vec<T>, source: &[T])
    ensures
        final(out)@ == old(out)@ + source@,
{
    let n = source.len();
    let mut i: usize = 0;
    while i < n
        invariant
            i <= n,
            n == source@.len(),
            out@ == old(out)@ + source@.subrange(0, i as int),
        decreases n - i,
    {
        out.push(source[i]);
        i = i + 1;
        proof {
            assert(out@ =~= old(out)@ + source@.subrange(0, i as int));
        }
    }
    proof {
        assert(out@ =~= old(out)@ + source@);
    }
}

/// The truncation engine for element slices: copy the window that `mode`
/// selects into a fresh vector of exactly `width` elements.
pub fn truncate_elems<T: PadElement>(source: &[T], width: usize, mode: Alignment) -> (out: Vec<T>)
    requires
        width <= source@.len(),
    ensures
        out@ == truncated(source@, width as nat, mode),
{
    let n = source.len();
    let low: usize = match mode {
        Alignment::Left => 0,
        Alignment::Right => n - width,
        Alignment::Center => n / 2 - width / 2,
    };
    proof {
        lemma_window_in_bounds(source@.len(), width as nat, mode);
        assert(low as nat == window_low(source@.len(), width as nat, mode));
    }
    let window = &source[low..low + width];
    slice_to_vec(window)
}

/// The padding engine for element slices: a fresh vector of exactly
/// `width` elements, allocated once, holding the source surrounded by
/// fill, or the truncation window when the width falls short.
pub fn pad_elems<T: PadElement>(
    source: &[T],
    width: usize,
    mode: Alignment,
    symbol: Symbol,
) -> (out: Vec<T>)
    ensures
        out@ == padded(source@, width as nat, mode, T::fill_of(symbol)),
{
    let n = source.len();
    if width < n {
        return truncate_elems(source, width, mode);
    }
    let diff = width - n;
    if diff == 0 {
        let out = slice_to_vec(source);
        proof {
            assert(padded(source@, width as nat, mode, T::fill_of(symbol)) =~= source@);
        }
        return out;
    }
    let (lpad, rpad) = mode.left_right_padding(diff);
    let fill = T::from_symbol(symbol);
    let mut out: Vec<T> = Vec::with_capacity(width);
    push_fill(&mut out, fill, lpad);
    push_all(&mut out, source);
    push_fill(&mut out, fill, rpad);
    proof {
        assert(out@ =~= padded(source@, width as nat, mode, T::fill_of(symbol)));
    }
    out
}

/// The [`Source`] realization for a borrowed element slice.
impl<'a, T: PadElement> Source for &'a [T] {
    type Elem = T;

    type Buffer = Vec<T>;

    type Output = Vec<T>;

    open spec fn elems(&self) -> Seq<T> {
        self@
    }

    open spec fn output_elems(output: &Vec<T>) -> Seq<T> {
        output@
    }

    open spec fn buffer_elems(buffer: &Vec<T>) -> Seq<T> {
        buffer@
    }

    open spec fn fill_elem(symbol: Symbol) -> T {
        T::fill_of(symbol)
    }

    fn slice_to_fit(&self, width: usize, mode: Alignment) -> (output: Vec<T>) {
        truncate_elems(*self, width, mode)
    }

    fn pad(&self, width: usize, mode: Alignment, symbol: Symbol) -> (output: Vec<T>) {
        pad_elems(*self, width, mode, symbol)
    }

    fn pad_and_push_to_buffer(
        &self,
        width: usize,
        mode: Alignment,
        symbol: Symbol,
        buffer: &mut Vec<T>,
    ) {
        let mut output = pad_elems(*self, width, mode, symbol);
        buffer.append(&mut output);
    }
}

/// The [`Source`] realization for an owned element vector.
impl<T: PadElement> Source for Vec<T> {
    type Elem = T;

    type Buffer = Vec<T>;

    type Output = Vec<T>;

    open spec fn elems(&self) -> Seq<T> {
        self@
    }

    open spec fn output_elems(output: &Vec<T>) -> Seq<T> {
        output@
    }

    open spec fn buffer_elems(buffer: &Vec<T>) -> Seq<T> {
        buffer@
    }

    open spec fn fill_elem(symbol: Symbol) -> T {
        T::fill_of(symbol)
    }

    fn slice_to_fit(&self, width: usize, mode: Alignment) -> (output: Vec<T>) {
        truncate_elems(self.as_slice(), width, mode)
    }

    fn pad(&self, width: usize, mode: Alignment, symbol: Symbol) -> (output: Vec<T>) {
        pad_elems(self.as_slice(), width, mode, symbol)
    }

    fn pad_and_push_to_buffer(
        &self,
        width: usize,
        mode: Alignment,
        symbol: Symbol,
        buffer: &mut Vec<T>,
    ) {
        let mut output = pad_elems(self.as_slice(), width, mode, symbol);
        buffer.append(&mut output);
    }
}

} // verus!
