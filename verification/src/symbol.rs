//! The symbol catalog: the closed set of fill symbols and their total,
//! lossless conversions into the element representations the engine pads
//! with.

use vstd::prelude::*;

verus! {

/// The closed set of fill symbols.
#[derive(Debug, Default, Clone, Copy, PartialEq, Eq, Structural)]
pub enum Symbol {
    Hyphen,
    Underscore,
    Dot,
    Comma,
    Colon,
    Semicolon,
    Hashtag,
    Backslash,
    Forwardslash,
    Asterisk,
    #[default]
    Whitespace,
    Zero,
    One,
    Two,
    Three,
    Four,
    Five,
    Six,
    Seven,
    Eight,
    Nine,
}

/// The character a symbol stands for.
pub open spec fn symbol_char(symbol: Symbol) -> char {
    match symbol {
        Symbol::Hyphen => '-',
        Symbol::Underscore => '_',
        Symbol::Dot => '.',
        Symbol::Comma => ',',
        Symbol::Colon => ':',
        Symbol::Semicolon => ';',
        Symbol::Hashtag => '#',
        Symbol::Backslash => '\\',
        Symbol::Forwardslash => '/',
        Symbol::Asterisk => '*',
        Symbol::Whitespace => ' ',
        Symbol::Zero => '0',
        Symbol::One => '1',
        Symbol::Two => '2',
        Symbol::Three => '3',
        Symbol::Four => '4',
        Symbol::Five => '5',
        Symbol::Six => '6',
        Symbol::Seven => '7',
        Symbol::Eight => '8',
        Symbol::Nine => '9',
    }
}

/// The byte a symbol stands for; every symbol is a single ASCII
/// character, so this is the UTF-8 encoding of [`symbol_char`].
pub open spec fn symbol_byte(symbol: Symbol) -> u8 {
    match symbol {
        Symbol::Hyphen => 45u8,
        Symbol::Underscore => 95u8,
        Symbol::Dot => 46u8,
        Symbol::Comma => 44u8,
        Symbol::Colon => 58u8,
        Symbol::Semicolon => 59u8,
        Symbol::Hashtag => 35u8,
        Symbol::Backslash => 92u8,
        Symbol::Forwardslash => 47u8,
        Symbol::Asterisk => 42u8,
        Symbol::Whitespace => 32u8,
        Symbol::Zero => 48u8,
        Symbol::One => 49u8,
        Symbol::Two => 50u8,
        Symbol::Three => 51u8,
        Symbol::Four => 52u8,
        Symbol::Five => 53u8,
        Symbol::Six => 54u8,
        Symbol::Seven => 55u8,
        Symbol::Eight => 56u8,
        Symbol::Nine => 57u8,
    }
}

/// Convert a symbol into its character representation.
impl From<Symbol> for char {
    fn from(symbol: Symbol) -> (c: char)
        ensures
            c == symbol_char(symbol),
    {
        match symbol {
            Symbol::Hyphen => '-',
            Symbol::Underscore => '_',
            Symbol::Dot => '.',
            Symbol::Comma => ',',
            Symbol::Colon => ':',
            Symbol::Semicolon => ';',
            Symbol::Hashtag => '#',
            Symbol::Backslash => '\\',
            Symbol::Forwardslash => '/',
            Symbol::Asterisk => '*',
            Symbol::Whitespace => ' ',
            Symbol::Zero => '0',
            Symbol::One => '1',
            Symbol::Two => '2',
            Symbol::Three => '3',
            Symbol::Four => '4',
            Symbol::Five => '5',
            Symbol::Six => '6',
            Symbol::Seven => '7',
            Symbol::Eight => '8',
            Symbol::Nine => '9',
        }
    }
}

impl vstd::std_specs::convert::FromSpecImpl<Symbol> for char {
    open spec fn obeys_from_spec() -> bool {
        true
    }

    open spec fn from_spec(v: Symbol) -> char {
        symbol_char(v)
    }
}

/// Convert a symbol into its byte representation.
impl From<Symbol> for u8 {
    fn from(symbol: Symbol) -> (b: u8)
        ensures
            b == symbol_byte(symbol),
    {
        match symbol {
            Symbol::Hyphen => 45u8,
            Symbol::Underscore => 95u8,
            Symbol::Dot => 46u8,
            Symbol::Comma => 44u8,
            Symbol::Colon => 58u8,
            Symbol::Semicolon => 59u8,
            Symbol::Hashtag => 35u8,
            Symbol::Backslash => 92u8,
            Symbol::Forwardslash => 47u8,
            Symbol::Asterisk => 42u8,
            Symbol::Whitespace => 32u8,
            Symbol::Zero => 48u8,
            Symbol::One => 49u8,
            Symbol::Two => 50u8,
            Symbol::Three => 51u8,
            Symbol::Four => 52u8,
            Symbol::Five => 53u8,
            Symbol::Six => 54u8,
            Symbol::Seven => 55u8,
            Symbol::Eight => 56u8,
            Symbol::Nine => 57u8,
        }
    }
}

impl vstd::std_specs::convert::FromSpecImpl<Symbol> for u8 {
    open spec fn obeys_from_spec() -> bool {
        true
    }

    open spec fn from_spec(v: Symbol) -> u8 {
        symbol_byte(v)
    }
}

/// Convert a symbol into its one-element character-slice representation.
impl<'a> From<Symbol> for &'a [char] {
    fn from(symbol: Symbol) -> (s: &'a [char])
        ensures
            s@ =~= seq![symbol_char(symbol)],
    {
        match symbol {
            Symbol::Hyphen => &['-'],
            Symbol::Underscore => &['_'],
            Symbol::Dot => &['.'],
            Symbol::Comma => &[','],
            Symbol::Colon => &[':'],
            Symbol::Semicolon => &[';'],
            Symbol::Hashtag => &['#'],
            Symbol::Backslash => &['\\'],
            Symbol::Forwardslash => &['/'],
            Symbol::Asterisk => &['*'],
            Symbol::Whitespace => &[' '],
            Symbol::Zero => &['0'],
            Symbol::One => &['1'],
            Symbol::Two => &['2'],
            Symbol::Three => &['3'],
            Symbol::Four => &['4'],
            Symbol::Five => &['5'],
            Symbol::Six => &['6'],
            Symbol::Seven => &['7'],
            Symbol::Eight => &['8'],
            Symbol::Nine => &['9'],
        }
    }
}

impl<'a> vstd::std_specs::convert::FromSpecImpl<Symbol> for &'a [char] {
    open spec fn obeys_from_spec() -> bool {
        false
    }

    open spec fn from_spec(v: Symbol) -> &'a [char] {
        arbitrary()
    }
}

/// Convert a symbol into its one-element byte-slice representation.
impl<'a> From<Symbol> for &'a [u8] {
    fn from(symbol: Symbol) -> (s: &'a [u8])
        ensures
            s@ =~= seq![symbol_byte(symbol)],
    {
        match symbol {
            Symbol::Hyphen => &[45u8],
            Symbol::Underscore => &[95u8],
            Symbol::Dot => &[46u8],
            Symbol::Comma => &[44u8],
            Symbol::Colon => &[58u8],
            Symbol::Semicolon => &[59u8],
            Symbol::Hashtag => &[35u8],
            Symbol::Backslash => &[92u8],
            Symbol::Forwardslash => &[47u8],
            Symbol::Asterisk => &[42u8],
            Symbol::Whitespace => &[32u8],
            Symbol::Zero => &[48u8],
            Symbol::One => &[49u8],
            Symbol::Two => &[50u8],
            Symbol::Three => &[51u8],
            Symbol::Four => &[52u8],
            Symbol::Five => &[53u8],
            Symbol::Six => &[54u8],
            Symbol::Seven => &[55u8],
            Symbol::Eight => &[56u8],
            Symbol::Nine => &[57u8],
        }
    }
}

impl<'a> vstd::std_specs::convert::FromSpecImpl<Symbol> for &'a [u8] {
    open spec fn obeys_from_spec() -> bool {
        false
    }

    open spec fn from_spec(v: Symbol) -> &'a [u8] {
        arbitrary()
    }
}

} // verus!
