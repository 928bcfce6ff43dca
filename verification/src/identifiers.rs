//! Random identifiers and the texts that denote one.
use vstd::prelude::*;

verus! {

pub open spec fn is_hex_digit(c: char) -> bool {
    ('0' <= c && c <= '9') || ('a' <= c && c <= 'f') || ('A' <= c && c <= 'F')
}

pub open spec fn is_lower_hex_digit(c: char) -> bool {
    ('0' <= c && c <= '9') || ('a' <= c && c <= 'f')
}

pub open spec fn is_hyphen_place(index: int) -> bool {
    index == 8 || index == 13 || index == 18 || index == 23
}

/// Thirty-two hexadecimal digits in groups of 8, 4, 4, 4 and 12.
pub open spec fn is_hyphenated(text: Seq<char>) -> bool {
    &&& text.len() == 36
    &&& forall|i: int|
        0 <= i < 36 ==> if is_hyphen_place(i) {
            #[trigger] text[i] == '-'
        } else {
            is_hex_digit(text[i])
        }
}

pub open spec fn is_urn_prefix(text: Seq<char>) -> bool {
    &&& text.len() == 9
    &&& (text[0] == 'u' || text[0] == 'U')
    &&& (text[1] == 'r' || text[1] == 'R')
    &&& (text[2] == 'n' || text[2] == 'N')
    &&& text[3] == ':'
    &&& (text[4] == 'u' || text[4] == 'U')
    &&& (text[5] == 'u' || text[5] == 'U')
    &&& (text[6] == 'i' || text[6] == 'I')
    &&& (text[7] == 'd' || text[7] == 'D')
    &&& text[8] == ':'
}

/// Whether a text denotes an identifier in one of the usual notations: plain
/// digits, hyphenated, hyphenated in braces, or as a URN.
pub open spec fn denotes_identifier(text: Seq<char>) -> bool {
    ||| (text.len() == 32 && forall|i: int| 0 <= i < 32 ==> is_hex_digit(#[trigger] text[i]))
    ||| is_hyphenated(text)
    ||| (text.len() == 38 && text[0] == '{' && text[37] == '}' && is_hyphenated(
        text.subrange(1, 37),
    ))
    ||| (text.len() == 45 && is_urn_prefix(text.subrange(0, 9)) && is_hyphenated(
        text.subrange(9, 45),
    ))
}

/// The form of a random identifier: hyphenated, in lower case, with the marks
/// of a random one at the thirteenth and seventeenth digit.
pub open spec fn is_random_identifier(text: Seq<char>) -> bool {
    &&& is_hyphenated(text)
    &&& forall|i: int|
        0 <= i < 36 && !is_hyphen_place(i) ==> is_lower_hex_digit(#[trigger] text[i])
    &&& text[14] == '4'
    &&& (text[19] == '8' || text[19] == '9' || text[19] == 'a' || text[19] == 'b')
}

/// Calls `uuid::Uuid::new_v4` and writes the result with its `Display`. The
/// identifier is random; only its form is claimed.
#[verifier::external_body]
pub(crate) fn random_identifier() -> (id: String)
    ensures
        is_random_identifier(id@),
{
    uuid::Uuid::new_v4().to_string()
}

/// The part of a notation that holds the digits.
pub open spec fn identifier_body(text: Seq<char>) -> Seq<char> {
    if text.len() == 38 {
        text.subrange(1, 37)
    } else if text.len() == 45 {
        text.subrange(9, 45)
    } else {
        text
    }
}

pub open spec fn lower_hex(c: char) -> char {
    if c == 'A' {
        'a'
    } else if c == 'B' {
        'b'
    } else if c == 'C' {
        'c'
    } else if c == 'D' {
        'd'
    } else if c == 'E' {
        'e'
    } else if c == 'F' {
        'f'
    } else {
        c
    }
}

/// The hexadecimal digits of an identifier, in lower case.
pub open spec fn identifier_digits(text: Seq<char>) -> Seq<char> {
    identifier_body(text).filter(|c: char| c != '-').map_values(|c: char| lower_hex(c))
}

/// Thirty-two digits in groups of 8, 4, 4, 4 and 12.
pub open spec fn hyphenated(digits: Seq<char>) -> Seq<char> {
    digits.subrange(0, 8) + seq!['-'] + digits.subrange(8, 12) + seq!['-'] + digits.subrange(12, 16)
        + seq!['-'] + digits.subrange(16, 20) + seq!['-'] + digits.subrange(20, 32)
}

/// Calls `uuid::Uuid::parse_str` and writes what it read with its `Display`.
/// It is claimed to accept exactly the notations of `denotes_identifier`, and
/// to write the same digits hyphenated and in lower case.
#[verifier::external_body]
pub(crate) fn canonical_identifier(text: &str) -> (id: Option<String>)
    ensures
        id is Some <==> denotes_identifier(text@),
        id matches Some(id) ==> id@ == hyphenated(identifier_digits(text@)),
{
    uuid::Uuid::parse_str(text).ok().map(|id| id.to_string())
}

} // verus!
