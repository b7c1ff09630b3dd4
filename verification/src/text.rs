//! The padding engine for text, and the [`Source`] realization for
//! string slices.  Widths and positions count characters, not bytes.

use vstd::prelude::*;
use vstd::string::{StrSliceExecFns, StringExecFns};

use crate::align::Alignment;
use crate::model::{fill_run, lemma_window_in_bounds, padded, truncated, window_low};
use crate::source::Source;
use crate::symbol::{symbol_char, Symbol};

verus! {

/// Relies on `String::with_capacity`: a freshly allocated empty string
/// able to hold `capacity` bytes before it grows.
#[verifier::external_body]
fn text_with_capacity(capacity: usize) -> (out: String)
    ensures
        out@ == Seq::<char>::empty(),
{
    String::with_capacity(capacity)
}

/// The one-character text a symbol stands for.
fn symbol_text(symbol: Symbol) -> (text: &'static str)
    ensures
        text@ =~= seq![symbol_char(symbol)],
{
    match symbol {
        Symbol::Hyphen => {
            proof {
                reveal_strlit("-");
            }
            "-"
        },
        Symbol::Underscore => {
            proof {
                reveal_strlit("_");
            }
            "_"
        },
        Symbol::Dot => {
            proof {
                reveal_strlit(".");
            }
            "."
        },
        Symbol::Comma => {
            proof {
                reveal_strlit(",");
            }
            ","
        },
        Symbol::Colon => {
            proof {
                reveal_strlit(":");
            }
            ":"
        },
        Symbol::Semicolon => {
            proof {
                reveal_strlit(";");
            }
            ";"
        },
        Symbol::Hashtag => {
            proof {
                reveal_strlit("#");
            }
            "#"
        },
        Symbol::Backslash => {
            proof {
                reveal_strlit("\\");
            }
            "\\"
        },
        Symbol::Forwardslash => {
            proof {
                reveal_strlit("/");
            }
            "/"
        },
        Symbol::Asterisk => {
            proof {
                reveal_strlit("*");
            }
            "*"
        },
        Symbol::Whitespace => {
            proof {
                reveal_strlit(" ");
            }
            " "
        },
        Symbol::Zero => {
            proof {
                reveal_strlit("0");
            }
            "0"
        },
        Symbol::One => {
            proof {
                reveal_strlit("1");
            }
            "1"
        },
        Symbol::Two => {
            proof {
                reveal_strlit("2");
            }
            "2"
        },
        Symbol::Three => {
            proof {
                reveal_strlit("3");
            }
            "3"
        },
        Symbol::Four => {
            proof {
                reveal_strlit("4");
            }
            "4"
        },
        Symbol::Five => {
            proof {
                reveal_strlit("5");
            }
            "5"
        },
        Symbol::Six => {
            proof {
                reveal_strlit("6");
            }
            "6"
        },
        Symbol::Seven => {
            proof {
                reveal_strlit("7");
            }
            "7"
        },
        Symbol::Eight => {
            proof {
                reveal_strlit("8");
            }
            "8"
        },
        Symbol::Nine => {
            proof {
                reveal_strlit("9");
            }
            "9"
        },
    }
}

/// Append `count` copies of the symbol's character to the end of `out`.
fn push_fill_text(out: &mut String, symbol: Symbol, count: usize)
    ensures
        final(out)@ == old(out)@ + fill_run(symbol_char(symbol), count as nat),
{
    let fill = symbol_text(symbol);
    let mut i: usize = 0;
    while i < count
        invariant
            i <= count,
            fill@ =~= seq![symbol_char(symbol)],
            out@ == old(out)@ + fill_run(symbol_char(symbol), i as nat),
        decreases count - i,
    {
        out.append(fill);
        i = i + 1;
        proof {
            assert(out@ =~= old(out)@ + fill_run(symbol_char(symbol), i as nat));
        }
    }
    proof {
        assert(out@ =~= old(out)@ + fill_run(symbol_char(symbol), count as nat));
    }
}

/// The truncation engine for text: copy the character window that `mode`
/// selects into a fresh string of exactly `width` characters.
pub fn truncate_text(source: &str, width: usize, mode: Alignment) -> (out: String)
    requires
        width <= source@.len(),
    ensures
        out@ == truncated(source@, width as nat, mode),
{
    let n = source.unicode_len();
    let low: usize = match mode {
        Alignment::Left => 0,
        Alignment::Right => n - width,
        Alignment::Center => n / 2 - width / 2,
    };
    proof {
        lemma_window_in_bounds(source@.len(), width as nat, mode);
        assert(low as nat == window_low(source@.len(), width as nat, mode));
    }
    let window = source.substring_char(low, low + width);
    window.to_owned()
}

/// The padding engine for text: a fresh string of exactly `width`
/// characters, allocated once, holding the source surrounded by fill, or
/// the truncation window when the width falls short.
pub fn pad_text(source: &str, width: usize, mode: Alignment, symbol: Symbol) -> (out: String)
    ensures
        out@ == padded(source@, width as nat, mode, symbol_char(symbol)),
{
    let n = source.unicode_len();
    if width < n {
        return truncate_text(source, width, mode);
    }
    let diff = width - n;
    if diff == 0 {
        let out = source.to_owned();
        proof {
            assert(padded(source@, width as nat, mode, symbol_char(symbol)) =~= source@);
        }
        return out;
    }
    let (lpad, rpad) = mode.left_right_padding(diff);
    let mut out = text_with_capacity(width);
    push_fill_text(&mut out, symbol, lpad);
    out.append(source);
    push_fill_text(&mut out, symbol, rpad);
    proof {
        assert(out@ =~= padded(source@, width as nat, mode, symbol_char(symbol)));
    }
    out
}

/// The [`Source`] realization for a string slice.
impl<'a> Source for &'a str {
    type Elem = char;

    type Buffer = String;

    type Output = String;

    open spec fn elems(&self) -> Seq<char> {
        self@
    }

    open spec fn output_elems(output: &String) -> Seq<char> {
        output@
    }

    open spec fn buffer_elems(buffer: &String) -> Seq<char> {
        buffer@
    }

    open spec fn fill_elem(symbol: Symbol) -> char {
        symbol_char(symbol)
    }

    fn slice_to_fit(&self, width: usize, mode: Alignment) -> (output: String) {
        truncate_text(*self, width, mode)
    }

    fn pad(&self, width: usize, mode: Alignment, symbol: Symbol) -> (output: String) {
        pad_text(*self, width, mode, symbol)
    }

    fn pad_and_push_to_buffer(
        &self,
        width: usize,
        mode: Alignment,
        symbol: Symbol,
        buffer: &mut String,
    ) {
        let output = pad_text(*self, width, mode, symbol);
        buffer.append(output.as_str());
    }
}

} // verus!
