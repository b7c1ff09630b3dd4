//! The laws of the padding model: properties that hold of every source,
//! width, alignment and fill element, proved once against the spec
//! functions that every operation's contract is stated over.

use vstd::prelude::*;

use crate::align::Alignment;
use crate::model::{leading_fill, lemma_window_in_bounds, padded, trailing_fill, window_low};

verus! {

/// Every pad operation yields exactly the requested width, whatever the
/// source, alignment and fill: there is no failing input.
pub proof fn lemma_padded_len<E>(s: Seq<E>, width: nat, mode: Alignment, fill: E)
    ensures
        padded(s, width, mode, fill).len() == width,
{
    if width < s.len() {
        lemma_window_in_bounds(s.len(), width, mode);
    }
}

/// Padding to a width at least the source length yields exactly `width`
/// elements; the source sits unchanged at the position the alignment
/// implies, and everything before and after it is the fill element.
pub proof fn lemma_pad_embeds_source<E>(s: Seq<E>, width: nat, mode: Alignment, fill: E)
    requires
        width >= s.len(),
    ensures
        padded(s, width, mode, fill).len() == width,
        ({
            let lead = leading_fill(mode, (width - s.len()) as nat);
            &&& padded(s, width, mode, fill).subrange(lead as int, lead + s.len() as int) =~= s
            &&& forall|i: int| 0 <= i < lead ==> padded(s, width, mode, fill)[i] == fill
            &&& forall|i: int|
                lead + s.len() <= i < width ==> padded(s, width, mode, fill)[i] == fill
        }),
{
}

/// Padding to a width at most the source length yields exactly `width`
/// elements, and the result is the contiguous window of the source that
/// starts at [`window_low`].
pub proof fn lemma_pad_truncates_to_window<E>(s: Seq<E>, width: nat, mode: Alignment, fill: E)
    requires
        width <= s.len(),
    ensures
        padded(s, width, mode, fill).len() == width,
        window_low(s.len(), width, mode) + width <= s.len(),
        padded(s, width, mode, fill) =~= s.subrange(
            window_low(s.len(), width, mode) as int,
            window_low(s.len(), width, mode) + width as int,
        ),
{
}

/// Padding a source to its own length returns the source unchanged, for
/// every alignment and every fill symbol.
pub proof fn lemma_pad_exact_width_is_identity<E>(s: Seq<E>, mode: Alignment, fill: E)
    ensures
        padded(s, s.len(), mode, fill) =~= s,
{
}

/// Centered padding splits an even surplus evenly; an odd surplus puts
/// exactly one more fill element on the trailing side than the leading
/// side.
pub proof fn lemma_center_split_balance(diff: nat)
    ensures
        leading_fill(Alignment::Center, diff) + trailing_fill(Alignment::Center, diff) == diff,
        diff % 2 == 0 ==> leading_fill(Alignment::Center, diff) == trailing_fill(
            Alignment::Center,
            diff,
        ),
        diff % 2 == 1 ==> trailing_fill(Alignment::Center, diff) == leading_fill(
            Alignment::Center,
            diff,
        ) + 1,
{
}

/// The centered truncation window reaches `width / 2` elements before
/// the source midpoint and `width / 2 + width % 2` from the midpoint on,
/// so an odd width keeps exactly one more element on the trailing side,
/// mirroring the padding split's own odd-surplus rule.
pub proof fn lemma_center_window_balance(len: nat, width: nat)
    requires
        width <= len,
    ensures
        len / 2 - window_low(len, width, Alignment::Center) == width / 2,
        window_low(len, width, Alignment::Center) + width - len / 2 == width / 2 + width % 2,
        width % 2 == 1 ==> window_low(len, width, Alignment::Center) + width - len / 2 == (len / 2
            - window_low(len, width, Alignment::Center)) + 1,
{
}

/// Pushing padded output onto an empty buffer leaves the buffer equal to
/// the padded output itself; onto a non-empty buffer, equal to the prior
/// contents followed by the padded output.
pub proof fn lemma_push_to_buffer_contents<E>(
    buffer: Seq<E>,
    s: Seq<E>,
    width: nat,
    mode: Alignment,
    fill: E,
)
    ensures
        buffer.len() == 0 ==> buffer + padded(s, width, mode, fill) =~= padded(
            s,
            width,
            mode,
            fill,
        ),
        (buffer + padded(s, width, mode, fill)).subrange(0, buffer.len() as int) =~= buffer,
        (buffer + padded(s, width, mode, fill)).subrange(
            buffer.len() as int,
            buffer.len() + padded(s, width, mode, fill).len() as int,
        ) =~= padded(s, width, mode, fill),
{
}

} // verus!
