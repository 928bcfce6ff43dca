//! Verified helpers on text.
use vstd::prelude::*;
use vstd::utf8::*;

verus! {

/// The text of an optional owned string.
pub open spec fn text_of(value: Option<String>) -> Option<Seq<char>> {
    match value {
        Some(text) => Some(text@),
        None => None,
    }
}

/// The texts of a list of owned strings, in order.
pub open spec fn texts_of(values: Seq<String>) -> Seq<Seq<char>> {
    Seq::new(values.len(), |i: int| values[i]@)
}

/// The number of bytes of a text in UTF-8.
pub open spec fn byte_len(text: Seq<char>) -> usize {
    encode_utf8(text).len() as usize
}

/// Two texts are equal exactly when their UTF-8 encodings are.
pub proof fn lemma_encoding_is_injective(left: Seq<char>, right: Seq<char>)
    requires
        encode_utf8(left) == encode_utf8(right),
    ensures
        left == right,
{
    encode_utf8_decode_utf8(left);
    encode_utf8_decode_utf8(right);
}

/// Whether two byte slices hold the same bytes.
pub fn same_bytes(left: &[u8], right: &[u8]) -> (same: bool)
    ensures
        same == (left@ == right@),
{
    if left.len() != right.len() {
        return false;
    }
    let mut index: usize = 0;
    while index < left.len()
        invariant
            index <= left.len(),
            left@.len() == right@.len(),
            forall|i: int| 0 <= i < index ==> left@[i] == right@[i],
        decreases left.len() - index,
    {
        if left[index] != right[index] {
            return false;
        }
        index += 1;
    }
    assert(left@ =~= right@);
    true
}

/// Whether two texts are the same.
pub fn same_text(left: &str, right: &str) -> (same: bool)
    ensures
        same == (left@ == right@),
{
    let same = same_bytes(left.as_bytes(), right.as_bytes());
    proof {
        if same {
            lemma_encoding_is_injective(left@, right@);
        }
    }
    same
}

/// Whether two optional texts are the same.
pub fn same_optional_text(left: &Option<String>, right: &Option<String>) -> (same: bool)
    ensures
        same == (text_of(*left) == text_of(*right)),
{
    match (left, right) {
        (Some(left), Some(right)) => same_text(left.as_str(), right.as_str()),
        (None, None) => true,
        _ => false,
    }
}

/// The characters of a text.
pub fn chars_of(text: &str) -> (chars: Vec<char>)
    ensures
        chars@ == text@,
{
    let mut chars: Vec<char> = Vec::new();
    for c in iter: text.chars()
        invariant
            iter.seq() == text@,
            chars@ == text@.take(iter.index() as int),
    {
        chars.push(c);
        assert(text@.take(iter.index() + 1) =~= text@.take(iter.index() as int).push(c));
    }
    assert(text@.take(text@.len() as int) =~= text@);
    chars
}

/// The parts of a text between separators: always one more than separators.
pub open spec fn split_at_each(text: Seq<char>, separator: char) -> Seq<Seq<char>>
    decreases text.len(),
{
    if text.len() == 0 {
        seq![Seq::empty()]
    } else {
        let parts = split_at_each(text.drop_last(), separator);
        if text.last() == separator {
            parts.push(Seq::empty())
        } else {
            parts.update(parts.len() - 1, parts.last().push(text.last()))
        }
    }
}

/// Splits a text at every separator.
pub fn split_text(text: &str, separator: char) -> (parts: Vec<String>)
    ensures
        texts_of(parts@) == split_at_each(text@, separator),
        parts@.len() > 0,
{
    let chars = chars_of(text);
    let mut parts: Vec<String> = Vec::new();
    let mut start: usize = 0;
    let mut index: usize = 0;
    assert(text@.subrange(0, 0) =~= Seq::<char>::empty());
    assert(texts_of(parts@).push(text@.subrange(0, 0)) =~= split_at_each(text@.take(0), separator));
    while index < chars.len()
        invariant
            start <= index <= chars@.len(),
            chars@ == text@,
            texts_of(parts@).push(text@.subrange(start as int, index as int)) == split_at_each(
                text@.take(index as int),
                separator,
            ),
        decreases chars.len() - index,
    {
        let ghost before = parts@;
        let ghost open = text@.subrange(start as int, index as int);
        assert(text@.take(index + 1).drop_last() =~= text@.take(index as int));
        if chars[index] == separator {
            parts.push(text.substring_char(start, index).to_owned());
            start = index + 1;
            assert(texts_of(parts@) =~= texts_of(before).push(open));
            assert(text@.subrange(start as int, index + 1) =~= Seq::empty());
        } else {
            assert(text@.subrange(start as int, index + 1) =~= open.push(text@[index as int]));
            assert(texts_of(before).push(open).update(
                texts_of(before).len() as int,
                open.push(text@[index as int]),
            ) =~= texts_of(before).push(open.push(text@[index as int])));
        }
        index += 1;
    }
    let ghost before = parts@;
    parts.push(text.substring_char(start, chars.len()).to_owned());
    assert(texts_of(parts@) =~= texts_of(before).push(
        text@.subrange(start as int, text@.len() as int),
    ));
    assert(text@.take(text@.len() as int) =~= text@);
    parts
}

/// Whether one byte string comes before another in a dictionary.
pub open spec fn bytes_before(left: Seq<u8>, right: Seq<u8>) -> bool
    decreases left.len(),
{
    if right.len() == 0 {
        false
    } else if left.len() == 0 {
        true
    } else if left[0] != right[0] {
        left[0] < right[0]
    } else {
        bytes_before(left.drop_first(), right.drop_first())
    }
}

/// Texts are ordered by their bytes in UTF-8.
pub open spec fn text_before(left: Seq<char>, right: Seq<char>) -> bool {
    bytes_before(encode_utf8(left), encode_utf8(right))
}

pub fn is_text_before(left: &str, right: &str) -> (before: bool)
    ensures
        before == text_before(left@, right@),
{
    let l = left.as_bytes();
    let r = right.as_bytes();
    let mut index: usize = 0;
    assert(l@.skip(0) =~= l@);
    assert(r@.skip(0) =~= r@);
    while index < l.len() && index < r.len() && l[index] == r[index]
        invariant
            index <= l@.len(),
            index <= r@.len(),
            bytes_before(l@, r@) == bytes_before(l@.skip(index as int), r@.skip(index as int)),
        decreases l.len() - index,
    {
        assert(l@.skip(index as int).drop_first() =~= l@.skip(index + 1));
        assert(r@.skip(index as int).drop_first() =~= r@.skip(index + 1));
        index += 1;
    }
    if index >= r.len() {
        false
    } else if index >= l.len() {
        true
    } else {
        l[index] < r[index]
    }
}

pub open spec fn digit_char(digit: int) -> char {
    if digit == 0 {
        '0'
    } else if digit == 1 {
        '1'
    } else if digit == 2 {
        '2'
    } else if digit == 3 {
        '3'
    } else if digit == 4 {
        '4'
    } else if digit == 5 {
        '5'
    } else if digit == 6 {
        '6'
    } else if digit == 7 {
        '7'
    } else if digit == 8 {
        '8'
    } else {
        '9'
    }
}

/// The last `width` decimal digits of a number.
pub open spec fn decimal_digits(value: nat, width: nat) -> Seq<char>
    decreases width,
{
    if width == 0 {
        Seq::empty()
    } else {
        decimal_digits(value / 10, (width - 1) as nat).push(digit_char((value % 10) as int))
    }
}

/// The decimal notation of a number.
pub open spec fn decimal(value: nat) -> Seq<char>
    decreases value,
{
    if value < 10 {
        seq![digit_char(value as int)]
    } else {
        decimal(value / 10).push(digit_char((value % 10) as int))
    }
}

fn digit_text(digit: u64) -> (text: &'static str)
    requires
        digit < 10,
    ensures
        text@ == seq![digit_char(digit as int)],
{
    proof {
        reveal_strlit("0");
        reveal_strlit("1");
        reveal_strlit("2");
        reveal_strlit("3");
        reveal_strlit("4");
        reveal_strlit("5");
        reveal_strlit("6");
        reveal_strlit("7");
        reveal_strlit("8");
        reveal_strlit("9");
    }
    let text = if digit == 0 {
        "0"
    } else if digit == 1 {
        "1"
    } else if digit == 2 {
        "2"
    } else if digit == 3 {
        "3"
    } else if digit == 4 {
        "4"
    } else if digit == 5 {
        "5"
    } else if digit == 6 {
        "6"
    } else if digit == 7 {
        "7"
    } else if digit == 8 {
        "8"
    } else {
        "9"
    };
    assert(text@ =~= seq![digit_char(digit as int)]);
    text
}

/// The last `width` decimal digits of a number, with leading zeros.
pub fn padded_decimal(value: u64, width: u64) -> (text: String)
    ensures
        text@ == decimal_digits(value as nat, width as nat),
    decreases width,
{
    if width == 0 {
        return String::new();
    }
    let mut text = padded_decimal(value / 10, width - 1);
    text.append(digit_text(value % 10));
    assert(text@ =~= decimal_digits(value as nat, width as nat));
    text
}

/// The decimal notation of a number.
pub fn decimal_text(value: u64) -> (text: String)
    ensures
        text@ == decimal(value as nat),
    decreases value,
{
    if value < 10 {
        return digit_text(value).to_owned();
    }
    let mut text = decimal_text(value / 10);
    text.append(digit_text(value % 10));
    assert(text@ =~= decimal(value as nat));
    text
}

/// Whether a text occurs in another from a place on.
pub open spec fn occurs_at(text: Seq<char>, part: Seq<char>, place: int) -> bool {
    0 <= place && place + part.len() <= text.len() && text.subrange(place, place + part.len())
        == part
}

/// Whether a text occurs in another.
pub open spec fn occurs_in(text: Seq<char>, part: Seq<char>) -> bool {
    exists|place: int| #[trigger] occurs_at(text, part, place)
}

/// Whether `part` occurs in `text`.
pub fn contains_text(text: &str, part: &str) -> (found: bool)
    ensures
        found == occurs_in(text@, part@),
{
    let chars = chars_of(text);
    let wanted = chars_of(part);
    if wanted.len() > chars.len() {
        return false;
    }
    let last: usize = chars.len() - wanted.len();
    let mut place: usize = 0;
    loop
        invariant
            place <= last,
            last + wanted.len() == chars.len(),
            chars@ == text@,
            wanted@ == part@,
            forall|i: int| 0 <= i < place ==> !#[trigger] occurs_at(text@, part@, i),
        decreases last - place,
    {
        let mut matched: usize = 0;
        while matched < wanted.len() && chars[place + matched] == wanted[matched]
            invariant
                matched <= wanted.len(),
                place + wanted.len() <= chars.len(),
                chars@ == text@,
                wanted@ == part@,
                forall|k: int| 0 <= k < matched ==> text@[place + k] == part@[k],
            decreases wanted.len() - matched,
        {
            matched += 1;
        }
        if matched == wanted.len() {
            assert(text@.subrange(place as int, place + part@.len()) =~= part@);
            assert(occurs_at(text@, part@, place as int));
            return true;
        }
        assert(!occurs_at(text@, part@, place as int)) by {
            assert(text@.subrange(place as int, place + part@.len())[matched as int]
                == text@[place + matched]);
        }
        if place == last {
            assert(!occurs_in(text@, part@)) by {
                assert forall|i: int| !#[trigger] occurs_at(text@, part@, i) by {}
            }
            return false;
        }
        place += 1;
    }
}

/// The characters with the Unicode property `White_Space`.
pub open spec fn is_white_space(c: char) -> bool {
    ||| '\u{9}' <= c <= '\u{d}'
    ||| c == ' '
    ||| c == '\u{85}'
    ||| c == '\u{a0}'
    ||| c == '\u{1680}'
    ||| '\u{2000}' <= c <= '\u{200a}'
    ||| c == '\u{2028}'
    ||| c == '\u{2029}'
    ||| c == '\u{202f}'
    ||| c == '\u{205f}'
    ||| c == '\u{3000}'
}

pub fn white_space(c: char) -> (result: bool)
    ensures
        result == is_white_space(c),
{
    ('\u{9}' <= c && c <= '\u{d}') || c == ' ' || c == '\u{85}' || c == '\u{a0}' || c
        == '\u{1680}' || ('\u{2000}' <= c && c <= '\u{200a}') || c == '\u{2028}' || c
        == '\u{2029}' || c == '\u{202f}' || c == '\u{205f}' || c == '\u{3000}'
}

/// Whether a text is nothing but white space.
pub open spec fn is_blank(text: Seq<char>) -> bool {
    forall|i: int| 0 <= i < text.len() ==> is_white_space(#[trigger] text[i])
}

pub fn blank(text: &str) -> (result: bool)
    ensures
        result == is_blank(text@),
{
    let chars = chars_of(text);
    let mut index: usize = 0;
    while index < chars.len()
        invariant
            index <= chars@.len(),
            chars@ == text@,
            forall|i: int| 0 <= i < index ==> is_white_space(#[trigger] text@[i]),
        decreases chars@.len() - index,
    {
        if !white_space(chars[index]) {
            return false;
        }
        index += 1;
    }
    true
}

/// Where the first character of a kind stands at or after a place, or the
/// length of the text.
pub open spec fn first_from(text: Seq<char>, white: bool, place: int) -> int
    decreases text.len() - place,
{
    if place >= text.len() || is_white_space(text[place]) == white {
        place
    } else {
        first_from(text, white, place + 1)
    }
}

/// The first word of a text, where it has one: words are parted by white
/// space.
pub open spec fn first_word(text: Seq<char>) -> Option<Seq<char>> {
    let start = first_from(text, false, 0);
    if start < text.len() {
        Some(text.subrange(start, first_from(text, true, start)))
    } else {
        None
    }
}

pub open spec fn is_decimal_digit(c: char) -> bool {
    '0' <= c && c <= '9'
}

pub open spec fn digit_value(c: char) -> int {
    c as int - '0' as int
}

/// The number that decimal digits denote.
pub open spec fn number_of(digits: Seq<char>) -> int
    decreases digits.len(),
{
    if digits.len() == 0 {
        0
    } else {
        number_of(digits.drop_last()) * 10 + digit_value(digits.last())
    }
}

pub open spec fn are_digits(text: Seq<char>) -> bool {
    text.len() > 0 && forall|i: int| 0 <= i < text.len() ==> is_decimal_digit(#[trigger] text[i])
}

/// A text without one plus sign before it.
pub open spec fn unsigned_part(text: Seq<char>) -> Seq<char> {
    if text.len() > 0 && text[0] == '+' {
        text.skip(1)
    } else {
        text
    }
}

/// The number that a text denotes, where it denotes one of 64 bits.
pub open spec fn number_in(text: Seq<char>) -> Option<u64> {
    let digits = unsigned_part(text);
    if are_digits(digits) && number_of(digits) <= u64::MAX {
        Some(number_of(digits) as u64)
    } else {
        None
    }
}

proof fn lemma_number_is_positive(digits: Seq<char>)
    requires
        forall|i: int| 0 <= i < digits.len() ==> is_decimal_digit(#[trigger] digits[i]),
    ensures
        number_of(digits) >= 0,
    decreases digits.len(),
{
    if digits.len() > 0 {
        assert(is_decimal_digit(digits[digits.len() - 1]));
        assert forall|i: int| 0 <= i < digits.drop_last().len() implies is_decimal_digit(
            #[trigger] digits.drop_last()[i],
        ) by {
            assert(is_decimal_digit(digits[i]));
        }
        lemma_number_is_positive(digits.drop_last());
    }
}

fn digit_of(c: char) -> (digit: Option<u64>)
    ensures
        digit is Some == is_decimal_digit(c),
        digit matches Some(digit) ==> digit == digit_value(c) && digit < 10,
{
    if c == '0' {
        Some(0)
    } else if c == '1' {
        Some(1)
    } else if c == '2' {
        Some(2)
    } else if c == '3' {
        Some(3)
    } else if c == '4' {
        Some(4)
    } else if c == '5' {
        Some(5)
    } else if c == '6' {
        Some(6)
    } else if c == '7' {
        Some(7)
    } else if c == '8' {
        Some(8)
    } else if c == '9' {
        Some(9)
    } else {
        None
    }
}

/// The number that the characters from `start` up to `end` denote.
pub fn parse_number(chars: &Vec<char>, start: usize, end: usize) -> (number: Option<u64>)
    requires
        start <= end <= chars@.len(),
    ensures
        number == number_in(chars@.subrange(start as int, end as int)),
{
    let ghost text = chars@.subrange(start as int, end as int);
    let first: usize = if start < end && chars[start] == '+' {
        start + 1
    } else {
        start
    };
    let ghost digits = unsigned_part(text);
    assert(digits =~= chars@.subrange(first as int, end as int));
    if first == end {
        return None;
    }
    let mut place: usize = first;
    let mut value: u64 = 0;
    let mut overflow = false;
    while place < end
        invariant
            start <= first <= place <= end <= chars@.len(),
            digits == chars@.subrange(first as int, end as int),
            digits == unsigned_part(chars@.subrange(start as int, end as int)),
            forall|i: int| 0 <= i < place - first ==> is_decimal_digit(#[trigger] digits[i]),
            !overflow ==> value == number_of(digits.take(place - first)),
            overflow ==> number_of(digits.take(place - first)) > u64::MAX,
        decreases end - place,
    {
        let ghost seen = digits.take(place - first);
        let ghost longer = digits.take(place - first + 1);
        assert(longer.drop_last() =~= seen);
        assert(longer.last() == digits[place - first]);
        assert(digits[place - first] == chars@[place as int]);
        match digit_of(chars[place]) {
            None => {
                assert(!is_decimal_digit(digits[place - first]));
                return None;
            },
            Some(digit) => {
                proof {
                    lemma_number_is_positive(seen);
                }
                if !overflow {
                    match value.checked_mul(10) {
                        Some(tens) => match tens.checked_add(digit) {
                            Some(sum) => {
                                value = sum;
                            },
                            None => {
                                overflow = true;
                            },
                        },
                        None => {
                            overflow = true;
                        },
                    }
                }
            },
        }
        place += 1;
    }
    assert(digits.take(place - first) =~= digits);
    if overflow {
        None
    } else {
        Some(value)
    }
}

} // verus!
