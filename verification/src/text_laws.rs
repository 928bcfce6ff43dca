//! What holds of text: numbers are read back from how they are written, parts
//! join to the text that was split, and words have no white space.
use crate::text::{
    are_digits, bytes_before, decimal, decimal_digits, digit_char, digit_value, first_from,
    first_word, is_blank, is_decimal_digit, is_white_space, number_in, number_of, split_at_each,
};
use vstd::prelude::*;

verus! {

proof fn lemma_digit_is_read_back(digit: int)
    requires
        0 <= digit < 10,
    ensures
        is_decimal_digit(digit_char(digit)),
        digit_value(digit_char(digit)) == digit,
        digit_char(digit) != '+',
{
}

proof fn lemma_decimal_is_read_back(value: nat)
    ensures
        are_digits(decimal(value)),
        number_of(decimal(value)) == value,
        decimal(value)[0] != '+',
        value > 0 ==> decimal(value)[0] != '0',
    decreases value,
{
    reveal_with_fuel(number_of, 2);
    lemma_digit_is_read_back((value % 10) as int);
    let text = decimal(value);
    if value < 10 {
        assert(text.drop_last() =~= Seq::<char>::empty());
        lemma_digit_is_read_back(value as int);
    } else {
        lemma_decimal_is_read_back(value / 10);
        assert(text.drop_last() =~= decimal(value / 10));
        assert forall|i: int| 0 <= i < text.len() implies is_decimal_digit(#[trigger] text[i]) by {
            if i < text.len() - 1 {
                assert(text[i] == decimal(value / 10)[i]);
            }
        }
    }
}

/// A number is read back from how it is written, with or without a sign, and is
/// written without leading zeros; so two numbers are never written alike.
pub proof fn law_written_number_is_read_back(value: u64, other: u64)
    ensures
        number_in(decimal(value as nat)) == Some(value),
        number_in(seq!['+'] + decimal(value as nat)) == Some(value),
        value > 0 ==> decimal(value as nat)[0] != '0',
        decimal(value as nat) == decimal(other as nat) <==> value == other,
{
    lemma_decimal_is_read_back(value as nat);
    lemma_decimal_is_read_back(other as nat);
    assert((seq!['+'] + decimal(value as nat)).skip(1) =~= decimal(value as nat));
}

proof fn lemma_padded_number(value: nat, width: nat)
    ensures
        decimal_digits(value, width).len() == width,
        forall|i: int|
            0 <= i < width ==> is_decimal_digit(#[trigger] decimal_digits(value, width)[i]),
        0 <= number_of(decimal_digits(value, width)),
        number_of(decimal_digits(value, width)) <= value,
        (value - number_of(decimal_digits(value, width))) % 10 == 0 || width == 0,
    decreases width,
{
    if width > 0 {
        let text = decimal_digits(value, width);
        lemma_padded_number(value / 10, (width - 1) as nat);
        lemma_digit_is_read_back((value % 10) as int);
        assert(text.drop_last() =~= decimal_digits(value / 10, (width - 1) as nat));
        assert forall|i: int| 0 <= i < width implies is_decimal_digit(#[trigger] text[i]) by {
            if i < width - 1 {
                assert(text[i] == decimal_digits(value / 10, (width - 1) as nat)[i]);
            }
        }
    }
}

/// The number of tens, hundreds and so on that has as many zeros as `width`.
pub open spec fn power_of_ten(width: nat) -> nat
    decreases width,
{
    if width == 0 {
        1
    } else {
        10 * power_of_ten((width - 1) as nat)
    }
}

/// A number that is written to a width has exactly that many digits, and is
/// read back where it has no more of its own.
pub proof fn law_padded_number_is_read_back(value: nat, width: nat)
    ensures
        decimal_digits(value, width).len() == width,
        value < power_of_ten(width) ==> number_of(decimal_digits(value, width)) == value,
    decreases width,
{
    lemma_padded_number(value, width);
    if width > 0 {
        law_padded_number_is_read_back(value / 10, (width - 1) as nat);
        lemma_digit_is_read_back((value % 10) as int);
        let text = decimal_digits(value, width);
        assert(text.drop_last() =~= decimal_digits(value / 10, (width - 1) as nat));
    }
}

/// A text is read as a number only where it is made of digits, behind a sign at
/// most: nothing else is taken for one.
pub proof fn law_only_digits_are_a_number(text: Seq<char>, place: int)
    requires
        0 <= place < text.len(),
        !('0' <= text[place] <= '9'),
        text[place] == '+' ==> place > 0,
    ensures
        number_in(text) is None,
        number_in(Seq::empty()) is None,
        number_in(seq!['+']) is None,
{
    assert(seq!['+'].skip(1) =~= Seq::<char>::empty());
    if text[0] == '+' {
        assert(text.skip(1)[place - 1] == text[place]);
    }
}

/// The parts with the separator between them.
pub open spec fn joined(parts: Seq<Seq<char>>, separator: char) -> Seq<char>
    decreases parts.len(),
{
    if parts.len() == 0 {
        Seq::empty()
    } else if parts.len() == 1 {
        parts[0]
    } else {
        joined(parts.drop_last(), separator).push(separator) + parts.last()
    }
}

/// The parts of a text, joined again, are the text; none of them holds the
/// separator.
pub proof fn law_parts_join_to_the_text(text: Seq<char>, separator: char)
    ensures
        split_at_each(text, separator).len() > 0,
        joined(split_at_each(text, separator), separator) == text,
        forall|i: int|
            0 <= i < split_at_each(text, separator).len() ==> !(#[trigger] split_at_each(
                text,
                separator,
            )[i]).contains(separator),
    decreases text.len(),
{
    let parts = split_at_each(text, separator);
    if text.len() == 0 {
        assert(parts[0] == Seq::<char>::empty());
        assert(joined(parts, separator) =~= text);
    } else {
        let rest = text.drop_last();
        let before = split_at_each(rest, separator);
        law_parts_join_to_the_text(rest, separator);
        if text.last() == separator {
            assert(parts.drop_last() =~= before);
            assert(joined(parts, separator) =~= joined(before, separator).push(separator));
            assert(joined(parts, separator) =~= text);
            assert forall|i: int| 0 <= i < parts.len() implies !(#[trigger] parts[i]).contains(
                separator,
            ) by {
                if i < before.len() {
                    assert(parts[i] == before[i]);
                }
            }
        } else {
            let last = before.last().push(text.last());
            assert(parts.drop_last() =~= before.drop_last());
            assert(parts.last() == last);
            if before.len() == 1 {
                assert(joined(before, separator) == before[0]);
                assert(joined(parts, separator) == last);
            } else {
                assert(joined(parts, separator) =~= joined(before, separator).push(text.last()));
            }
            assert(joined(parts, separator) =~= text);
            assert forall|i: int| 0 <= i < parts.len() implies !(#[trigger] parts[i]).contains(
                separator,
            ) by {
                if i < before.len() - 1 {
                    assert(parts[i] == before[i]);
                } else {
                    assert(parts[i] == last);
                    assert(!before[before.len() - 1].contains(separator));
                    if last.contains(separator) {
                        let k = choose|k: int| 0 <= k < last.len() && last[k] == separator;
                        if k < last.len() - 1 {
                            assert(before.last()[k] == separator);
                        }
                    }
                }
            }
        }
    }
}

proof fn lemma_first_from(text: Seq<char>, white: bool, place: int)
    requires
        0 <= place <= text.len(),
    ensures
        ({
            let found = first_from(text, white, place);
            &&& place <= found <= text.len()
            &&& found < text.len() ==> is_white_space(text[found]) == white
            &&& forall|i: int| place <= i < found ==> is_white_space(#[trigger] text[i]) != white
        }),
    decreases text.len() - place,
{
    if place < text.len() && is_white_space(text[place]) != white {
        lemma_first_from(text, white, place + 1);
    }
}

/// Whether the word stands at that place, between white space, with nothing
/// but white space before it.
pub open spec fn is_first_word_at(text: Seq<char>, word: Seq<char>, start: int) -> bool {
    let end = start + word.len();
    &&& 0 <= start < end <= text.len()
    &&& word == text.subrange(start, end)
    &&& forall|i: int| 0 <= i < start ==> is_white_space(#[trigger] text[i])
    &&& forall|i: int| start <= i < end ==> !is_white_space(#[trigger] text[i])
    &&& end < text.len() ==> is_white_space(text[end])
}

/// The first word has no white space in it; only white space stands before it,
/// and white space, if anything, follows it. There is none only in white space.
pub proof fn law_first_word_stands_between_white_space(text: Seq<char>)
    ensures
        first_word(text) is None <==> (forall|i: int|
            0 <= i < text.len() ==> is_white_space(#[trigger] text[i])),
        first_word(text) is Some ==> exists|start: int| #[trigger]
            is_first_word_at(text, first_word(text)->0, start),
{
    lemma_first_from(text, false, 0);
    let start = first_from(text, false, 0);
    if start < text.len() {
        lemma_first_from(text, true, start);
        let end = first_from(text, true, start);
        assert(end > start);
        let word = text.subrange(start, end);
        assert(is_first_word_at(text, word, start));
        assert(first_word(text) == Some(word));
        assert(is_first_word_at(text, first_word(text)->0, start));
    }
}

/// One text comes before another where it is the beginning of it, or where it
/// is smaller at the first place at which they differ; never both ways.
pub proof fn law_order_is_that_of_the_first_difference(left: Seq<u8>, right: Seq<u8>, place: int)
    requires
        0 <= place <= left.len(),
        place <= right.len(),
        forall|i: int| 0 <= i < place ==> left[i] == right[i],
    ensures
        place == left.len() ==> (bytes_before(left, right) <==> place < right.len()),
        place == right.len() ==> !bytes_before(left, right),
        place < left.len() && place < right.len() && left[place] < right[place] ==> bytes_before(
            left,
            right,
        ) && !bytes_before(right, left),
        !bytes_before(left, left),
    decreases place,
{
    if place > 0 {
        law_order_is_that_of_the_first_difference(
            left.drop_first(),
            right.drop_first(),
            place - 1,
        );
    }
    lemma_not_before_itself(left);
}

proof fn lemma_not_before_itself(text: Seq<u8>)
    ensures
        !bytes_before(text, text),
    decreases text.len(),
{
    if text.len() > 0 {
        lemma_not_before_itself(text.drop_first());
    }
}

/// White space is what Unicode says it is: 25 characters.
pub proof fn law_white_space_is_that_of_unicode(c: char)
    ensures
        is_white_space(c) <==> seq![
            0x9int,
            0xa,
            0xb,
            0xc,
            0xd,
            0x20,
            0x85,
            0xa0,
            0x1680,
            0x2000,
            0x2001,
            0x2002,
            0x2003,
            0x2004,
            0x2005,
            0x2006,
            0x2007,
            0x2008,
            0x2009,
            0x200a,
            0x2028,
            0x2029,
            0x202f,
            0x205f,
            0x3000,
        ].contains(c as int),
{
    let codes = seq![
        0x9int,
        0xa,
        0xb,
        0xc,
        0xd,
        0x20,
        0x85,
        0xa0,
        0x1680,
        0x2000,
        0x2001,
        0x2002,
        0x2003,
        0x2004,
        0x2005,
        0x2006,
        0x2007,
        0x2008,
        0x2009,
        0x200a,
        0x2028,
        0x2029,
        0x202f,
        0x205f,
        0x3000,
    ];
    assert(codes[0] == 0x9 && codes[1] == 0xa && codes[2] == 0xb && codes[3] == 0xc && codes[4]
        == 0xd && codes[5] == 0x20 && codes[6] == 0x85 && codes[7] == 0xa0 && codes[8] == 0x1680
        && codes[9] == 0x2000 && codes[10] == 0x2001 && codes[11] == 0x2002 && codes[12] == 0x2003
        && codes[13] == 0x2004 && codes[14] == 0x2005 && codes[15] == 0x2006 && codes[16] == 0x2007
        && codes[17] == 0x2008 && codes[18] == 0x2009 && codes[19] == 0x200a && codes[20] == 0x2028
        && codes[21] == 0x2029 && codes[22] == 0x202f && codes[23] == 0x205f && codes[24]
        == 0x3000);
}

/// A text is blank exactly where it has no word.
pub proof fn law_blank_text_has_no_word(text: Seq<char>)
    ensures
        is_blank(text) <==> first_word(text) is None,
{
    law_first_word_stands_between_white_space(text);
}

} // verus!
