//! The logs that go into a report, each cut to what a report can hold.
use crate::text::chars_of;
use vstd::prelude::*;

verus! {

/// A log file is put away when a record would make it larger than this.
pub const ROTATE_AT_BYTES: u64 = 262_144;

pub const MAX_APPLICATION_REPORT_BYTES: usize = 327_680;

pub const MAX_ANDROID_STARTUP_REPORT_BYTES: usize = 16_384;

pub const MAX_HELPER_REPORT_BYTES: usize = 65_536;

pub const MAX_ANDROID_PREVIOUS_REPORT_BYTES: usize = 16_384;

pub const MAX_ANDROID_CURRENT_REPORT_BYTES: usize = 24_576;

pub const MAX_ANDROID_LOGCAT_REPORT_BYTES: usize = 20_480;

/// The number of bytes of a text in UTF-8.
pub open spec fn bytes_of(text: Seq<char>) -> nat {
    vstd::utf8::encode_utf8(text).len()
}

/// The longest end of a text that has no more than so many bytes.
pub open spec fn tail_of(text: Seq<char>, maximum: nat) -> Seq<char>
    decreases text.len(),
{
    if bytes_of(text) <= maximum || text.len() == 0 {
        text
    } else {
        tail_of(text.drop_first(), maximum)
    }
}

fn bytes_in(text: &str) -> (bytes: usize)
    ensures
        bytes == bytes_of(text@),
{
    text.as_bytes().len()
}

fn char_width(c: char) -> (width: usize)
    ensures
        width == vstd::utf8::encode_scalar(c as u32).len(),
        1 <= width <= 4,
{
    let scalar: u32 = c as u32;
    if scalar <= 0x7f {
        1
    } else if scalar <= 0x7ff {
        2
    } else if scalar <= 0xffff {
        3
    } else {
        4
    }
}

/// The end of a text, as much of it as fits in so many bytes.
pub fn tail_string(value: &str, maximum: usize) -> (tail: String)
    ensures
        tail@ == tail_of(value@, maximum as nat),
{
    let chars = chars_of(value);
    let mut bytes: usize = bytes_in(value);
    let mut start: usize = 0;
    assert(value@.skip(0) =~= value@);
    while bytes > maximum
        invariant
            start <= chars.len(),
            chars@ == value@,
            bytes == bytes_of(value@.skip(start as int)),
            tail_of(value@, maximum as nat) == tail_of(value@.skip(start as int), maximum as nat),
        decreases chars@.len() - start,
    {
        let ghost rest = value@.skip(start as int);
        assert(rest.len() > 0) by {
            if rest.len() == 0 {
                assert(vstd::utf8::encode_utf8(rest).len() == 0);
            }
        }
        assert(rest[0] == chars@[start as int]);
        assert(rest.drop_first() =~= value@.skip(start + 1));
        bytes = bytes - char_width(chars[start]);
        start += 1;
    }
    let tail = value.substring_char(start, chars.len());
    assert(tail@ =~= value@.skip(start as int));
    tail.to_owned()
}

/// The encoding of two texts one after the other.
pub proof fn lemma_bytes_of_concatenation(left: Seq<char>, right: Seq<char>)
    ensures
        bytes_of(left + right) == bytes_of(left) + bytes_of(right),
    decreases left.len(),
{
    if left.len() == 0 {
        assert(left + right =~= right);
    } else {
        lemma_bytes_of_concatenation(left.drop_first(), right);
        assert((left + right).drop_first() =~= left.drop_first() + right);
        assert((left + right)[0] == left[0]);
    }
}

/// A character has at most four bytes.
proof fn lemma_bytes_are_bounded(text: Seq<char>)
    ensures
        bytes_of(text) <= 4 * text.len(),
    decreases text.len(),
{
    if text.len() > 0 {
        lemma_bytes_are_bounded(text.drop_first());
    }
}

/// The tail of a text is an end of it, fits, and is no shorter than it has to
/// be.
pub proof fn law_tail_is_the_longest_end_that_fits(text: Seq<char>, maximum: nat)
    ensures
        ({
            let tail = tail_of(text, maximum);
            let cut = text.len() - tail.len();
            &&& 0 <= cut
            &&& tail == text.skip(cut)
            &&& bytes_of(tail) <= maximum
            &&& forall|longer: int|
                0 <= longer < cut ==> bytes_of(#[trigger] text.skip(longer)) > maximum
        }),
    decreases text.len(),
{
    assert(text.skip(0) =~= text);
    if text.len() == 0 {
        assert(vstd::utf8::encode_utf8(text).len() == 0);
    } else if bytes_of(text) > maximum {
        let rest = text.drop_first();
        law_tail_is_the_longest_end_that_fits(rest, maximum);
        let tail = tail_of(rest, maximum);
        let cut = text.len() - tail.len();
        assert(rest.skip(cut - 1) =~= text.skip(cut));
        assert forall|longer: int| 0 <= longer < cut implies bytes_of(#[trigger] text.skip(longer))
            > maximum by {
            if longer > 0 {
                assert(rest.skip(longer - 1) =~= text.skip(longer));
            }
        }
    }
}

/// Whether a log is put away before a record of so many bytes is written to
/// it; none where its size is not known.
pub fn rotation_due(current_bytes: Option<u64>, record_bytes: u64) -> (due: bool)
    ensures
        due == (current_bytes matches Some(current) && current + record_bytes > ROTATE_AT_BYTES),
{
    match current_bytes {
        Some(current) => current.saturating_add(record_bytes) > ROTATE_AT_BYTES,
        None => false,
    }
}

/// Which part of a file of `length` bytes is read so that no more than so many
/// come: from where, and how many.
pub fn tail_range(length: u64, maximum: u64) -> (range: (u64, u64))
    ensures
        range.1 == if length < maximum {
            length
        } else {
            maximum
        },
        range.0 + range.1 == length,
{
    let read: u64 = if length < maximum {
        length
    } else {
        maximum
    };
    (length - read, read)
}

/// The log of the application with that of the start of Android behind it.
pub fn combine_application_and_startup_logs(application_log: String, native_log: String) -> (combined:
    String)
    ensures
        combined@ == application_log@ + native_log@,
{
    let mut combined = application_log;
    combined.append(native_log.as_str());
    combined
}

/// The log of the application in a report: the file that was put away, the
/// one in use, and that of the start of Android where there is one.
pub open spec fn application_log_of(
    previous: Seq<char>,
    current: Seq<char>,
    startup: Seq<char>,
) -> Seq<char> {
    tail_of(previous + current + startup, MAX_APPLICATION_REPORT_BYTES as nat)
}

pub fn application_log(previous: String, current: &str, startup: String) -> (log: String)
    ensures
        log@ == application_log_of(previous@, current@, startup@),
{
    let mut log = previous;
    log.append(current);
    let combined = combine_application_and_startup_logs(log, startup);
    tail_string(combined.as_str(), MAX_APPLICATION_REPORT_BYTES)
}

pub open spec fn helper_log_of(value: Option<Seq<char>>) -> Option<Seq<char>> {
    match value {
        Some(text) => if text.len() == 0 {
            None
        } else {
            Some(tail_of(text, MAX_HELPER_REPORT_BYTES as nat))
        },
        None => None,
    }
}

/// The log of the tunnel service in a report; an empty one is left out.
pub fn bounded_helper_log(value: Option<String>) -> (log: Option<String>)
    ensures
        crate::text::text_of(log) == helper_log_of(crate::text::text_of(value)),
{
    match value {
        Some(text) => {
            if text.as_str().is_empty() {
                return None;
            }
            Some(tail_string(text.as_str(), MAX_HELPER_REPORT_BYTES))
        },
        None => None,
    }
}

pub open spec fn android_log_prefix(previous: Seq<char>, current: Seq<char>) -> Seq<char> {
    "[persistent.previous]\n"@ + tail_of(previous, MAX_ANDROID_PREVIOUS_REPORT_BYTES as nat)
        + "\n[persistent.current]\n"@ + tail_of(current, MAX_ANDROID_CURRENT_REPORT_BYTES as nat)
        + "\n[logcat]\n"@
}

/// How many bytes are left for the log of the system.
pub open spec fn logcat_budget(prefix: Seq<char>) -> nat {
    let left = MAX_HELPER_REPORT_BYTES - bytes_of(prefix);
    if left < 0 {
        0
    } else if left < MAX_ANDROID_LOGCAT_REPORT_BYTES {
        left as nat
    } else {
        MAX_ANDROID_LOGCAT_REPORT_BYTES as nat
    }
}

pub open spec fn android_logs_of(
    previous: Seq<char>,
    current: Seq<char>,
    logcat: Seq<char>,
) -> Seq<char> {
    let prefix = android_log_prefix(previous, current);
    prefix + tail_of(logcat, logcat_budget(prefix))
}

/// The logs of the tunnel service on Android. What the service has kept comes
/// first, and is not pushed out by the log of the system.
pub fn combine_android_logs(previous: &str, current: &str, logcat: &str) -> (combined: String)
    ensures
        combined@ == android_logs_of(previous@, current@, logcat@),
{
    let previous = tail_string(previous, MAX_ANDROID_PREVIOUS_REPORT_BYTES);
    let current = tail_string(current, MAX_ANDROID_CURRENT_REPORT_BYTES);
    let mut combined = "[persistent.previous]\n".to_owned();
    combined.append(previous.as_str());
    combined.append("\n[persistent.current]\n");
    combined.append(current.as_str());
    combined.append("\n[logcat]\n");
    let left: usize = MAX_HELPER_REPORT_BYTES.saturating_sub(bytes_in(combined.as_str()));
    let budget: usize = if left < MAX_ANDROID_LOGCAT_REPORT_BYTES {
        left
    } else {
        MAX_ANDROID_LOGCAT_REPORT_BYTES
    };
    let logcat = tail_string(logcat, budget);
    combined.append(logcat.as_str());
    combined
}

/// The logs of Android never have more bytes than a report can hold, and those
/// that the service has kept are in it as far as their own bounds allow.
pub proof fn law_android_logs_fit_and_keep_the_persistent_part(
    previous: Seq<char>,
    current: Seq<char>,
    logcat: Seq<char>,
)
    ensures
        bytes_of(android_logs_of(previous, current, logcat)) <= MAX_HELPER_REPORT_BYTES,
        logcat_budget(android_log_prefix(previous, current)) == MAX_ANDROID_LOGCAT_REPORT_BYTES,
        android_log_prefix(previous, current).is_prefix_of(
            android_logs_of(previous, current, logcat),
        ),
{
    let first = "[persistent.previous]\n"@;
    let kept_previous = tail_of(previous, MAX_ANDROID_PREVIOUS_REPORT_BYTES as nat);
    let second = "\n[persistent.current]\n"@;
    let kept_current = tail_of(current, MAX_ANDROID_CURRENT_REPORT_BYTES as nat);
    let third = "\n[logcat]\n"@;
    reveal_strlit("[persistent.previous]\n");
    reveal_strlit("\n[persistent.current]\n");
    reveal_strlit("\n[logcat]\n");
    lemma_bytes_are_bounded(first);
    lemma_bytes_are_bounded(second);
    lemma_bytes_are_bounded(third);
    law_tail_is_the_longest_end_that_fits(previous, MAX_ANDROID_PREVIOUS_REPORT_BYTES as nat);
    law_tail_is_the_longest_end_that_fits(current, MAX_ANDROID_CURRENT_REPORT_BYTES as nat);
    lemma_bytes_of_concatenation(first, kept_previous);
    lemma_bytes_of_concatenation(first + kept_previous, second);
    lemma_bytes_of_concatenation(first + kept_previous + second, kept_current);
    lemma_bytes_of_concatenation(first + kept_previous + second + kept_current, third);
    let prefix = android_log_prefix(previous, current);
    assert(bytes_of(prefix) <= 41_200);
    let budget = logcat_budget(prefix);
    law_tail_is_the_longest_end_that_fits(logcat, budget);
    lemma_bytes_of_concatenation(prefix, tail_of(logcat, budget));
    assert(prefix.is_prefix_of(prefix + tail_of(logcat, budget)));
}

} // verus!
