//! Versions of the client and of its parts, in the notation of Semantic
//! Versioning.
use vstd::prelude::*;

verus! {

/// Three numbers with dots in between.
pub open spec fn plain_version(major: u64, minor: u64, patch: u64) -> Seq<char> {
    crate::text::decimal(major as nat) + seq!['.'] + crate::text::decimal(minor as nat) + seq![
        '.',
    ] + crate::text::decimal(patch as nat)
}

pub open spec fn is_digit(c: char) -> bool {
    '0' <= c && c <= '9'
}

pub open spec fn is_identifier_char(c: char) -> bool {
    is_digit(c) || ('A' <= c && c <= 'Z') || ('a' <= c && c <= 'z') || c == '-'
}

/// One part of a pre-release or of build metadata.
pub open spec fn is_identifier(part: Seq<char>) -> bool {
    part.len() > 0 && forall|i: int| 0 <= i < part.len() ==> is_identifier_char(#[trigger] part[i])
}

pub open spec fn is_number_with_leading_zero(part: Seq<char>) -> bool {
    part.len() > 1 && part[0] == '0' && forall|i: int|
        0 <= i < part.len() ==> is_digit(#[trigger] part[i])
}

/// Parts with dots in between; the numbers among those of a pre-release have
/// no leading zeros.
pub open spec fn is_suffix(suffix: Seq<char>, pre_release: bool) -> bool {
    let parts = crate::text::split_at_each(suffix, '.');
    forall|i: int|
        0 <= i < parts.len() ==> is_identifier(#[trigger] parts[i]) && !(pre_release
            && is_number_with_leading_zero(parts[i]))
}

/// A suffix behind its mark, or nothing.
pub open spec fn marked(mark: char, suffix: Option<Seq<char>>) -> Seq<char> {
    match suffix {
        Some(suffix) => seq![mark] + suffix,
        None => Seq::empty(),
    }
}

pub open spec fn is_version_of(
    text: Seq<char>,
    major: u64,
    minor: u64,
    patch: u64,
    pre_release: Option<Seq<char>>,
    build: Option<Seq<char>>,
) -> bool {
    &&& text == plain_version(major, minor, patch) + marked('-', pre_release) + marked('+', build)
    &&& pre_release matches Some(suffix) ==> is_suffix(suffix, true)
    &&& build matches Some(suffix) ==> is_suffix(suffix, false)
}

/// Whether a text is a version.
pub open spec fn is_version(text: Seq<char>) -> bool {
    exists|
        major: u64,
        minor: u64,
        patch: u64,
        pre_release: Option<Seq<char>>,
        build: Option<Seq<char>>,
    | #[trigger]
        is_version_of(text, major, minor, patch, pre_release, build)
}

/// Whether the first three numbers come after the second three.
pub open spec fn numbers_after(left: (u64, u64, u64), right: (u64, u64, u64)) -> bool {
    ||| left.0 > right.0
    ||| left.0 == right.0 && left.1 > right.1
    ||| left.0 == right.0 && left.1 == right.1 && left.2 > right.2
}

/// Whether the first version has the higher precedence.
pub uninterp spec fn version_after(left: Seq<char>, right: Seq<char>) -> bool;

/// Calls `semver::Version::parse`: it accepts exactly the texts of the grammar
/// of Semantic Versioning whose three numbers fit in 64 bits.
#[verifier::external_body]
fn parses_as_version(text: &str) -> (valid: bool)
    ensures
        valid == is_version(text@),
{
    semver::Version::parse(text).is_ok()
}

/// Compares two `semver::Version`s with `>`, the total order by numbers,
/// pre-release and build metadata that `semver` documents. Between versions
/// without suffixes the numbers alone decide; of two different versions at
/// most one comes after the other. How suffixes compare is left unsaid.
#[verifier::external_body]
fn parsed_version_is_after(left: &str, right: &str) -> (after: bool)
    requires
        is_version(left@),
        is_version(right@),
    ensures
        after == version_after(left@, right@),
        after ==> !version_after(right@, left@),
        forall|a: u64, b: u64, c: u64, d: u64, e: u64, f: u64|
            left@ == #[trigger] plain_version(a, b, c) && right@ == #[trigger] plain_version(
                d,
                e,
                f,
            ) ==> after == numbers_after((a, b, c), (d, e, f)),
{
    match (semver::Version::parse(left), semver::Version::parse(right)) {
        (Ok(left), Ok(right)) => left > right,
        _ => false,
    }
}

/// Whether a text is a version.
pub fn is_version_text(text: &str) -> (valid: bool)
    ensures
        valid == is_version(text@),
{
    parses_as_version(text)
}

/// Whether one version comes after another; none where one of the texts is no
/// version.
pub fn version_is_after(left: &str, right: &str) -> (after: Option<bool>)
    ensures
        after == (if is_version(left@) && is_version(right@) {
            Some(version_after(left@, right@))
        } else {
            None
        }),
        after == Some(true) ==> !version_after(right@, left@),
        forall|a: u64, b: u64, c: u64, d: u64, e: u64, f: u64|
            left@ == #[trigger] plain_version(a, b, c) && right@ == #[trigger] plain_version(
                d,
                e,
                f,
            ) ==> after == Some(numbers_after((a, b, c), (d, e, f))),
{
    proof {
        lemma_plain_version_is_version();
    }
    if !parses_as_version(left) || !parses_as_version(right) {
        return None;
    }
    Some(parsed_version_is_after(left, right))
}

/// Three numbers with dots in between are a version.
pub proof fn lemma_plain_version_is_version()
    ensures
        forall|major: u64, minor: u64, patch: u64|
            is_version(#[trigger] plain_version(major, minor, patch)),
{
    assert forall|major: u64, minor: u64, patch: u64| is_version(
        #[trigger] plain_version(major, minor, patch),
    ) by {
        let text = plain_version(major, minor, patch);
        assert(text =~= text + marked('-', None) + marked('+', None));
        assert(is_version_of(text, major, minor, patch, None, None));
    }
}

} // verus!
