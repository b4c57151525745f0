//! The four fixed character pools that random generation draws from.

use vstd::prelude::*;

verus! {

/// The kinds of character pool: uppercase letters, lowercase letters,
/// decimal digits, and punctuation symbols.
pub enum CharSetKind {
    Uppercase,
    Lowercase,
    Digits,
    Symbols,
}

/// The 26 uppercase letters, in order.
pub open spec fn uppercase_chars() -> Seq<char> {
    seq![
        'A', 'B', 'C', 'D', 'E', 'F', 'G', 'H', 'I', 'J', 'K', 'L', 'M', 'N', 'O', 'P', 'Q', 'R',
        'S', 'T', 'U', 'V', 'W', 'X', 'Y', 'Z',
    ]
}

/// The 26 lowercase letters, in order.
pub open spec fn lowercase_chars() -> Seq<char> {
    seq![
        'a', 'b', 'c', 'd', 'e', 'f', 'g', 'h', 'i', 'j', 'k', 'l', 'm', 'n', 'o', 'p', 'q', 'r',
        's', 't', 'u', 'v', 'w', 'x', 'y', 'z',
    ]
}

/// The 10 decimal digits, in order.
pub open spec fn digit_chars() -> Seq<char> {
    seq!['0', '1', '2', '3', '4', '5', '6', '7', '8', '9']
}

/// The 26 punctuation symbols, in order.
pub open spec fn symbol_chars() -> Seq<char> {
    seq![
        '!', '@', '#', '$', '%', '^', '&', '*', '(', ')', '_', '+', '=', '?', '>', '<', ',', '.',
        ':', ';', '"', '[', ']', '{', '}', '|',
    ]
}

/// A character that may appear in a generated file name: it belongs to the
/// uppercase, lowercase or digit pool (symbols are excluded to keep names
/// filesystem-safe).
pub open spec fn is_name_char(c: char) -> bool {
    ||| uppercase_chars().contains(c)
    ||| lowercase_chars().contains(c)
    ||| digit_chars().contains(c)
}

/// A character that may appear in generated file content: it belongs to the
/// union of all four pools.
pub open spec fn is_content_char(c: char) -> bool {
    ||| uppercase_chars().contains(c)
    ||| lowercase_chars().contains(c)
    ||| digit_chars().contains(c)
    ||| symbol_chars().contains(c)
}

impl CharSetKind {
    /// The ordered character sequence of this pool.
    pub open spec fn charset(self) -> Seq<char> {
        match self {
            CharSetKind::Uppercase => uppercase_chars(),
            CharSetKind::Lowercase => lowercase_chars(),
            CharSetKind::Digits => digit_chars(),
            CharSetKind::Symbols => symbol_chars(),
        }
    }

    /// The characters of this pool, as a vector.  Every pool is non-empty.
    pub fn chars(&self) -> (r: Vec<char>)
        ensures
            r@ == self.charset(),
            r@.len() > 0,
    {
        match self {
            CharSetKind::Uppercase => {
                let v = vec![
                    'A', 'B', 'C', 'D', 'E', 'F', 'G', 'H', 'I', 'J', 'K', 'L', 'M', 'N', 'O',
                    'P', 'Q', 'R', 'S', 'T', 'U', 'V', 'W', 'X', 'Y', 'Z',
                ];
                assert(v@ =~= uppercase_chars());
                v
            },
            CharSetKind::Lowercase => {
                let v = vec![
                    'a', 'b', 'c', 'd', 'e', 'f', 'g', 'h', 'i', 'j', 'k', 'l', 'm', 'n', 'o',
                    'p', 'q', 'r', 's', 't', 'u', 'v', 'w', 'x', 'y', 'z',
                ];
                assert(v@ =~= lowercase_chars());
                v
            },
            CharSetKind::Digits => {
                let v = vec!['0', '1', '2', '3', '4', '5', '6', '7', '8', '9'];
                assert(v@ =~= digit_chars());
                v
            },
            CharSetKind::Symbols => {
                let v = vec![
                    '!', '@', '#', '$', '%', '^', '&', '*', '(', ')', '_', '+', '=', '?', '>',
                    '<', ',', '.', ':', ';', '"', '[', ']', '{', '}', '|',
                ];
                assert(v@ =~= symbol_chars());
                v
            },
        }
    }
}

} // verus!
