//! Random string generation: file content and file names.

use vstd::prelude::*;
use crate::charset::{CharSetKind, is_content_char, is_name_char};
use crate::random::{choose_char, random_in_range};

verus! {

/// The fixed length of every generated file name.
pub const FILE_NAME_LENGTH: u32 = 6;

/// A sequence fit for generated file content: every character comes from
/// the union of the four pools.
pub open spec fn is_content(s: Seq<char>) -> bool {
    forall|i: int| 0 <= i < s.len() ==> is_content_char(#[trigger] s[i])
}

/// A sequence fit for a generated file name: exactly six characters, each
/// from the uppercase, lowercase or digit pool.
pub open spec fn is_file_name(s: Seq<char>) -> bool {
    &&& s.len() == FILE_NAME_LENGTH
    &&& forall|i: int| 0 <= i < s.len() ==> is_name_char(#[trigger] s[i])
}

/// Relies on `String::push`: appends the character at the end of the string.
#[verifier::external_body]
fn push_char(s: &mut String, c: char)
    ensures
        final(s)@ == old(s)@.push(c),
{
    s.push(c);
}

/// Generates a string of exactly `length` characters.  Each position picks
/// one of the four pools at random and then one character of that pool at
/// random.
pub fn generate_data(length: u32) -> (r: String)
    ensures
        r@.len() == length,
        is_content(r@),
{
    let mut text_string = String::new();
    let mut produced: u32 = 0;
    while produced < length
        invariant
            produced <= length,
            text_string@.len() == produced,
            is_content(text_string@),
        decreases length - produced,
    {
        let selection = random_in_range(1, 4);
        let charset = match selection {
            1 => CharSetKind::Uppercase,
            2 => CharSetKind::Lowercase,
            3 => CharSetKind::Digits,
            _ => CharSetKind::Symbols,
        };

        let pool = charset.chars();
        if let Some(c) = choose_char(&pool) {
            push_char(&mut text_string, c);
        }
        produced = produced + 1;
    }

    text_string
}

/// Generates a random file name of exactly six characters, drawn from the
/// uppercase, lowercase and digit pools only.
pub fn generate_file_name() -> (r: String)
    ensures
        is_file_name(r@),
{
    let name_len: u32 = FILE_NAME_LENGTH;
    let mut file_name = String::new();
    let mut produced: u32 = 0;

    while produced < name_len
        invariant
            produced <= name_len,
            file_name@.len() == produced,
            forall|i: int| 0 <= i < file_name@.len() ==> is_name_char(#[trigger] file_name@[i]),
        decreases name_len - produced,
    {
        let selection = random_in_range(1, 3);
        let charset = match selection {
            1 => CharSetKind::Uppercase,
            2 => CharSetKind::Lowercase,
            _ => CharSetKind::Digits,
        };

        let pool = charset.chars();
        if let Some(c) = choose_char(&pool) {
            push_char(&mut file_name, c);
        }
        produced = produced + 1;
    }

    file_name
}

} // verus!
