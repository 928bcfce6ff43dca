//! What holds of automatic reports as a whole: intervals follow each other
//! without a gap, a stop is reported once, and no report is starved.
use crate::automatic_diagnostics::{
    belongs_to, candidate_begun, chosen_report, completion_error, initial_state, is_scope,
    is_scope_char, lemma_not_after_is_total, lemma_text_order, next_report, not_after,
    observation_outcome, place_after, report_file_name, reports_of, retry_delay, scope_of_name,
    state_after_choice, state_after_completion, state_after_failure, state_after_observation,
    state_after_success, upload_allowed, AutomaticError, AutomaticSessionView, AutomaticStateView,
    DesktopAutomaticDiagnostics, SealView, CHECKPOINT_SECONDS,
};
use vstd::prelude::*;

verus! {

/// While a report is sealed but not written, looking at the tunnel changes
/// nothing.
pub proof fn law_sealed_report_is_not_disturbed(
    state: AutomaticStateView,
    connection: Option<Seq<char>>,
    tunnel_may_be_running: bool,
    now: i64,
    id: Seq<char>,
)
    requires
        state.pending_seal is Some,
    ensures
        crate::automatic_diagnostics::state_after_observation(
            state,
            connection,
            tunnel_may_be_running,
            now,
            id,
        ) == state,
{
}

/// A stop is reported once: when its report was written, a tunnel that is
/// still stopped calls for nothing more, and one that runs again starts a new
/// session.
pub proof fn law_stop_is_reported_once(
    state: AutomaticStateView,
    seal: SealView,
    connection: Seq<char>,
    now: i64,
)
    requires
        crate::automatic_diagnostics::completion_error(state, seal) is None,
        !seal.tunnel_running,
    ensures
        ({
            let after = crate::automatic_diagnostics::state_after_completion(state, seal);
            &&& crate::automatic_diagnostics::observation_outcome(after, None, false, now)
                is Unchanged
            &&& state.current_device_id is Some
                ==> crate::automatic_diagnostics::observation_outcome(
                after,
                Some(connection),
                true,
                now,
            ) is Started
        }),
{
}

/// A checkpoint ends no session: the next interval starts where the reported
/// one ended and its report is the next in number.
pub proof fn law_intervals_follow_each_other(
    state: AutomaticStateView,
    seal: SealView,
    connection: Option<Seq<char>>,
    tunnel_may_be_running: bool,
    now: i64,
    id: Seq<char>,
)
    requires
        crate::automatic_diagnostics::completion_error(state, seal) is None,
        seal.tunnel_running,
        seal.sequence < u64::MAX,
        crate::automatic_diagnostics::state_after_observation(
            crate::automatic_diagnostics::state_after_completion(state, seal),
            connection,
            tunnel_may_be_running,
            now,
            id,
        ).pending_seal is Some,
    ensures
        ({
            let next = crate::automatic_diagnostics::state_after_observation(
                crate::automatic_diagnostics::state_after_completion(state, seal),
                connection,
                tunnel_may_be_running,
                now,
                id,
            ).pending_seal->0;
            &&& next.started_at == seal.ended_at
            &&& next.sequence == seal.sequence + 1
            &&& next.session_id == state.session->0.session_id
            &&& next.ended_at >= next.started_at
        }),
{
}

/// A checkpoint that was just reported is not due again within six hours.
pub proof fn law_checkpoint_is_not_repeated(
    state: AutomaticStateView,
    seal: SealView,
    now: i64,
)
    requires
        crate::automatic_diagnostics::completion_error(state, seal) is None,
        seal.tunnel_running,
        state.session is Some,
        now - seal.ended_at < CHECKPOINT_SECONDS,
    ensures
        crate::automatic_diagnostics::observation_outcome(
            crate::automatic_diagnostics::state_after_completion(state, seal),
            Some(state.session->0.connection_id),
            true,
            now,
        ) is Unchanged,
{
}

/// Names in strictly ascending order.
pub open spec fn ascending_names(reports: Seq<Seq<char>>) -> bool {
    forall|i: int, j: int|
        0 <= i < j < reports.len() ==> crate::text::text_before(
            #[trigger] reports[i],
            #[trigger] reports[j],
        )
}

proof fn lemma_place_after(reports: Seq<Seq<char>>, current: int, from: int)
    requires
        ascending_names(reports),
        0 <= current < reports.len(),
        0 <= from <= current + 1,
    ensures
        crate::automatic_diagnostics::place_after(reports, reports[current], from) == current + 1,
    decreases current + 1 - from,
{
    crate::automatic_diagnostics::lemma_text_order(
        reports[current],
        reports[current],
        reports[current],
    );
    if from <= current {
        if from < current {
            crate::automatic_diagnostics::lemma_text_order(
                reports[from],
                reports[current],
                reports[from],
            );
        }
        lemma_place_after(reports, current, from + 1);
    } else if from < reports.len() {
        assert(crate::text::text_before(reports[current], reports[from]));
    }
}

/// Whatever becomes of the attempts, the reports of a queue are tried in turn:
/// after each comes the next one, and after the last the first. So one that
/// cannot be read or delivered starves no other.
pub proof fn law_every_report_is_tried_in_turn(reports: Seq<Seq<char>>, current: int)
    requires
        ascending_names(reports),
        0 <= current < reports.len(),
    ensures
        crate::automatic_diagnostics::next_report(reports, Some(reports[current])) == Some(
            reports[(current + 1) % (reports.len() as int)],
        ),
{
    lemma_place_after(reports, current, 0);
    if current + 1 < reports.len() {
        assert((current + 1) % (reports.len() as int) == current + 1) by (nonlinear_arith)
            requires
                0 <= current,
                current + 1 < reports.len(),
        ;
    } else {
        assert((current + 1) % (reports.len() as int) == 0) by (nonlinear_arith)
            requires
                current + 1 == reports.len(),
                reports.len() > 0,
        ;
    }
}

proof fn lemma_split_without_separator(text: Seq<char>, separator: char)
    requires
        !text.contains(separator),
    ensures
        crate::text::split_at_each(text, separator) == seq![text],
    decreases text.len(),
{
    if text.len() > 0 {
        assert(text[text.len() - 1] == text.last());
        assert forall|i: int| 0 <= i < text.drop_last().len() implies text.drop_last()[i]
            != separator by {
            assert(text[i] == text.drop_last()[i]);
        }
        lemma_split_without_separator(text.drop_last(), separator);
        let parts = seq![text.drop_last()];
        assert(text.drop_last().push(text.last()) =~= text);
        assert(parts.update(0, text) =~= seq![text]);
    } else {
        assert(text =~= Seq::empty());
    }
}

/// A part without separators after a separator is a part of its own.
proof fn lemma_split_after_separator(head: Seq<char>, tail: Seq<char>, separator: char)
    requires
        !tail.contains(separator),
    ensures
        crate::text::split_at_each(head.push(separator) + tail, separator)
            == crate::text::split_at_each(head, separator).push(tail),
    decreases tail.len(),
{
    let whole = head.push(separator) + tail;
    let parts = crate::text::split_at_each(head, separator);
    if tail.len() == 0 {
        assert(whole =~= head.push(separator));
        assert(whole.drop_last() =~= head);
        assert(tail =~= Seq::empty());
    } else {
        let shorter = tail.drop_last();
        assert forall|i: int| 0 <= i < shorter.len() implies shorter[i] != separator by {
            assert(tail[i] == shorter[i]);
        }
        lemma_split_after_separator(head, shorter, separator);
        assert(whole.drop_last() =~= head.push(separator) + shorter);
        assert(tail[tail.len() - 1] == tail.last());
        assert(whole.last() == tail.last());
        assert(shorter.push(tail.last()) =~= tail);
        assert(parts.push(shorter).update(parts.len() as int, tail) =~= parts.push(tail));
    }
}

proof fn lemma_digits_have_no_dot(value: nat, width: nat)
    ensures
        crate::text::decimal_digits(value, width).len() == width,
        !crate::text::decimal_digits(value, width).contains('.'),
        forall|i: int|
            0 <= i < width ==> '0' <= #[trigger] crate::text::decimal_digits(value, width)[i]
                && crate::text::decimal_digits(value, width)[i] <= '9',
    decreases width,
{
    if width > 0 {
        lemma_digits_have_no_dot(value / 10, (width - 1) as nat);
    }
}

proof fn lemma_filter_all<A>(items: Seq<A>, keep: spec_fn(A) -> bool)
    requires
        forall|i: int| 0 <= i < items.len() ==> keep(#[trigger] items[i]),
    ensures
        items.filter(keep) == items,
    decreases items.len(),
{
    reveal(Seq::filter);
    if items.len() > 0 {
        lemma_filter_all(items.drop_last(), keep);
        assert(items.drop_last().push(items.last()) =~= items);
    }
}

/// A hyphenated identifier without its hyphens.
proof fn lemma_digits_of_hyphenated(text: Seq<char>)
    requires
        crate::identifiers::is_hyphenated(text),
    ensures
        text.filter(|c: char| c != '-') == text.subrange(0, 8) + text.subrange(9, 13)
            + text.subrange(14, 18) + text.subrange(19, 23) + text.subrange(24, 36),
{
    let keep = |c: char| c != '-';
    let hyphen = seq!['-'];
    let a = text.subrange(0, 8);
    let b = text.subrange(9, 13);
    let c = text.subrange(14, 18);
    let d = text.subrange(19, 23);
    let e = text.subrange(24, 36);
    assert(text =~= a + hyphen + b + hyphen + c + hyphen + d + hyphen + e);
    assert forall|i: int| 0 <= i < a.len() implies keep(#[trigger] a[i]) by {
        assert(a[i] == text[i]);
    }
    assert forall|i: int| 0 <= i < b.len() implies keep(#[trigger] b[i]) by {
        assert(b[i] == text[i + 9]);
    }
    assert forall|i: int| 0 <= i < c.len() implies keep(#[trigger] c[i]) by {
        assert(c[i] == text[i + 14]);
    }
    assert forall|i: int| 0 <= i < d.len() implies keep(#[trigger] d[i]) by {
        assert(d[i] == text[i + 19]);
    }
    assert forall|i: int| 0 <= i < e.len() implies keep(#[trigger] e[i]) by {
        assert(e[i] == text[i + 24]);
    }
    lemma_filter_all(a, keep);
    lemma_filter_all(b, keep);
    lemma_filter_all(c, keep);
    lemma_filter_all(d, keep);
    lemma_filter_all(e, keep);
    assert(hyphen.filter(keep) =~= Seq::empty()) by {
        hyphen.lemma_all_neg_filter_empty(keep);
    }
    broadcast use Seq::filter_distributes_over_add;

    assert(text.filter(keep) =~= a + b + c + d + e);
}

proof fn lemma_identifier_digits(text: Seq<char>)
    requires
        crate::identifiers::denotes_identifier(text),
    ensures
        crate::identifiers::identifier_digits(text).len() == 32,
        forall|i: int|
            0 <= i < 32 ==> crate::identifiers::is_lower_hex_digit(
                #[trigger] crate::identifiers::identifier_digits(text)[i],
            ),
{
    let keep = |c: char| c != '-';
    let lower = |c: char| crate::identifiers::lower_hex(c);
    let body = crate::identifiers::identifier_body(text);
    let digits = body.filter(keep);
    if body.len() == 32 {
        assert forall|i: int| 0 <= i < body.len() implies keep(#[trigger] body[i]) by {
            assert(crate::identifiers::is_hex_digit(text[i]));
        }
        lemma_filter_all(body, keep);
        assert forall|i: int| 0 <= i < 32 implies crate::identifiers::is_hex_digit(
            #[trigger] digits[i],
        ) by {
            assert(crate::identifiers::is_hex_digit(text[i]));
        }
    } else {
        assert(crate::identifiers::is_hyphenated(body));
        lemma_digits_of_hyphenated(body);
        assert forall|i: int| 0 <= i < 32 implies crate::identifiers::is_hex_digit(
            #[trigger] digits[i],
        ) by {
            let place = if i < 8 {
                i
            } else if i < 12 {
                i + 1
            } else if i < 16 {
                i + 2
            } else if i < 20 {
                i + 3
            } else {
                i + 4
            };
            assert(digits[i] == body[place]);
            assert(crate::identifiers::is_hex_digit(body[place]));
        }
    }
    assert forall|i: int| 0 <= i < 32 implies crate::identifiers::is_lower_hex_digit(
        #[trigger] crate::identifiers::identifier_digits(text)[i],
    ) by {
        assert(crate::identifiers::is_hex_digit(digits[i]));
    }
}

proof fn lemma_hyphenated_form(digits: Seq<char>)
    requires
        digits.len() == 32,
        forall|i: int| 0 <= i < 32 ==> crate::identifiers::is_lower_hex_digit(#[trigger] digits[i]),
    ensures
        crate::identifiers::is_hyphenated(crate::identifiers::hyphenated(digits)),
        !crate::identifiers::hyphenated(digits).contains('.'),
{
    let text = crate::identifiers::hyphenated(digits);
    assert(text.len() == 36);
    assert forall|i: int| 0 <= i < 36 implies if crate::identifiers::is_hyphen_place(i) {
        #[trigger] text[i] == '-'
    } else {
        crate::identifiers::is_hex_digit(text[i])
    } by {
        if !crate::identifiers::is_hyphen_place(i) {
            let place = if i < 8 {
                i
            } else if i < 13 {
                i - 1
            } else if i < 18 {
                i - 2
            } else if i < 23 {
                i - 3
            } else {
                i - 4
            };
            assert(text[i] == digits[place]);
        }
    }
}

/// A sealed report is found again: its file belongs to the device it was
/// sealed for.
pub proof fn law_report_belongs_to_its_device(seal: SealView)
    requires
        crate::automatic_diagnostics::is_scope(seal.device_id),
        crate::identifiers::denotes_identifier(seal.report_id),
    ensures
        crate::automatic_diagnostics::scope_of_name(
            crate::automatic_diagnostics::report_file_name(seal),
        ) == Some(seal.device_id),
{
    reveal_strlit(".");
    reveal_strlit(".json");
    reveal_strlit("json");
    let time = crate::text::decimal_digits(
        crate::automatic_diagnostics::not_negative(seal.ended_at),
        20,
    );
    let device = seal.device_id;
    let digits = crate::identifiers::identifier_digits(seal.report_id);
    let id = crate::identifiers::hyphenated(digits);
    lemma_identifier_digits(seal.report_id);
    lemma_hyphenated_form(digits);
    lemma_digits_have_no_dot(crate::automatic_diagnostics::not_negative(seal.ended_at), 20);
    assert(!device.contains('.')) by {
        if device.contains('.') {
            let place = choose|i: int| 0 <= i < device.len() && device[i] == '.';
            assert(crate::automatic_diagnostics::is_scope_char(device[place]));
        }
    }
    let suffix = "json"@;
    assert(!suffix.contains('.'));
    assert("."@ =~= seq!['.']);
    assert(".json"@ =~= seq!['.'] + suffix);
    let name = crate::automatic_diagnostics::report_file_name(seal);
    let two = time.push('.') + device;
    let three = two.push('.') + id;
    assert(name =~= three.push('.') + suffix);
    lemma_split_without_separator(time, '.');
    lemma_split_after_separator(time, device, '.');
    lemma_split_after_separator(two, id, '.');
    lemma_split_after_separator(three, suffix, '.');
    let parts = crate::text::split_at_each(name, '.');
    assert(parts =~= seq![time, device, id, suffix]);
}

proof fn lemma_first_difference(left: Seq<u8>, right: Seq<u8>, place: int)
    requires
        0 <= place < left.len(),
        place < right.len(),
        forall|i: int| 0 <= i < place ==> #[trigger] left[i] == right[i],
        left[place] < right[place],
    ensures
        crate::text::bytes_before(left, right),
    decreases place,
{
    if place > 0 {
        assert(left[0] == right[0]);
        assert forall|i: int| 0 <= i < place - 1 implies #[trigger] left.drop_first()[i]
            == right.drop_first()[i] by {
            assert(left[i + 1] == right[i + 1]);
        }
        lemma_first_difference(left.drop_first(), right.drop_first(), place - 1);
    }
}

/// Of two numbers of the same width the smaller has the smaller digit where
/// they first differ.
proof fn lemma_digits_are_ordered(left: nat, right: nat, width: nat) -> (place: int)
    requires
        left < right,
        right < vstd::arithmetic::power::pow(10, width),
    ensures
        0 <= place < width,
        forall|i: int|
            0 <= i < place ==> #[trigger] crate::text::decimal_digits(left, width)[i]
                == crate::text::decimal_digits(right, width)[i],
        crate::text::decimal_digits(left, width)[place] < crate::text::decimal_digits(
            right,
            width,
        )[place],
    decreases width,
{
    reveal(vstd::arithmetic::power::pow);
    lemma_digits_have_no_dot(left, width);
    lemma_digits_have_no_dot(right, width);
    let shorter = (width - 1) as nat;
    lemma_digits_have_no_dot(left / 10, shorter);
    lemma_digits_have_no_dot(right / 10, shorter);
    if left / 10 == right / 10 {
        assert(left % 10 < right % 10);
        width - 1
    } else {
        assert(left / 10 < right / 10);
        assert(right / 10 < vstd::arithmetic::power::pow(10, shorter)) by {
            assert(vstd::arithmetic::power::pow(10, width) == 10 * vstd::arithmetic::power::pow(
                10,
                shorter,
            ));
        }
        lemma_digits_are_ordered(left / 10, right / 10, shorter)
    }
}

proof fn lemma_name_is_ascii(seal: SealView)
    requires
        crate::automatic_diagnostics::is_scope(seal.device_id),
        crate::identifiers::denotes_identifier(seal.report_id),
    ensures
        vstd::utf8::is_ascii_chars(crate::automatic_diagnostics::report_file_name(seal)),
{
    reveal_strlit(".");
    reveal_strlit(".json");
    let time = crate::text::decimal_digits(
        crate::automatic_diagnostics::not_negative(seal.ended_at),
        20,
    );
    lemma_digits_have_no_dot(crate::automatic_diagnostics::not_negative(seal.ended_at), 20);
    let digits = crate::identifiers::identifier_digits(seal.report_id);
    lemma_identifier_digits(seal.report_id);
    lemma_hyphenated_form(digits);
    let id = crate::identifiers::hyphenated(digits);
    let name = crate::automatic_diagnostics::report_file_name(seal);
    let device = seal.device_id;
    assert forall|i: int| 0 <= i < name.len() implies '\0' <= #[trigger] name[i] <= '\u{7f}' by {
        if i < 20 {
            assert(name[i] == time[i]);
        } else if 21 <= i < 21 + device.len() {
            assert(name[i] == device[i - 21]);
            assert(crate::automatic_diagnostics::is_scope_char(device[i - 21]));
        } else if 22 + device.len() <= i < 58 + device.len() {
            assert(name[i] == id[i - 22 - device.len()]);
        }
    }
}

/// The queue is in order of time: a report that was sealed earlier comes
/// before one that was sealed later.
pub proof fn law_reports_are_queued_by_time(earlier: SealView, later: SealView)
    requires
        crate::automatic_diagnostics::is_scope(earlier.device_id),
        crate::identifiers::denotes_identifier(earlier.report_id),
        crate::automatic_diagnostics::is_scope(later.device_id),
        crate::identifiers::denotes_identifier(later.report_id),
        0 <= earlier.ended_at < later.ended_at,
    ensures
        crate::text::text_before(
            crate::automatic_diagnostics::report_file_name(earlier),
            crate::automatic_diagnostics::report_file_name(later),
        ),
{
    let left = crate::automatic_diagnostics::report_file_name(earlier);
    let right = crate::automatic_diagnostics::report_file_name(later);
    let l = earlier.ended_at as nat;
    let r = later.ended_at as nat;
    assert(vstd::arithmetic::power::pow(10, 20) == 100_000_000_000_000_000_000) by {
        reveal_with_fuel(vstd::arithmetic::power::pow, 21);
    }
    let place = lemma_digits_are_ordered(l, r, 20);
    lemma_digits_have_no_dot(l, 20);
    lemma_digits_have_no_dot(r, 20);
    lemma_name_is_ascii(earlier);
    lemma_name_is_ascii(later);
    vstd::utf8::is_ascii_chars_encode_utf8(left);
    vstd::utf8::is_ascii_chars_encode_utf8(right);
    let left_bytes = vstd::utf8::encode_utf8(left);
    let right_bytes = vstd::utf8::encode_utf8(right);
    let left_digits = crate::text::decimal_digits(l, 20);
    let right_digits = crate::text::decimal_digits(r, 20);
    assert forall|i: int| 0 <= i < 20 implies left_bytes[i] == left_digits[i] as u8
        && right_bytes[i] == right_digits[i] as u8 by {
        assert(left[i] == left_digits[i]);
        assert(right[i] == right_digits[i]);
    }
    assert forall|i: int| 0 <= i < place implies #[trigger] left_bytes[i] == right_bytes[i] by {
        assert(left_digits[i] == right_digits[i]);
    }
    assert((left_digits[place] as u8) < (right_digits[place] as u8));
    lemma_first_difference(left_bytes, right_bytes, place);
}

/// Whether a seal is on the interval of a session that ends now, as the next
/// report of that session and under the given name.
pub open spec fn reports_interval(
    seal: SealView,
    session: AutomaticSessionView,
    id: Seq<char>,
    now: i64,
) -> bool {
    &&& seal.report_id == id
    &&& seal.session_id == session.session_id
    &&& seal.device_id == session.device_id
    &&& seal.connection_id == Some(session.connection_id)
    &&& session.sequence < u64::MAX ==> seal.sequence == session.sequence + 1
    &&& seal.started_at == session.interval_started_at
    &&& seal.ended_at == (if session.interval_started_at <= now {
        now
    } else {
        session.interval_started_at
    })
}

/// A session whose connection is gone is reported as stopped: where another
/// connection took its place between two looks, or where none is left and the
/// tunnel is known not to run.
pub proof fn law_connection_that_is_gone_is_reported(
    state: AutomaticStateView,
    session: AutomaticSessionView,
    connection: Option<Seq<char>>,
    tunnel_may_be_running: bool,
    now: i64,
    id: Seq<char>,
)
    requires
        state.pending_seal is None,
        state.session == Some(session),
        match connection {
            Some(other) => other != session.connection_id,
            None => !tunnel_may_be_running,
        },
    ensures
        ({
            let after = state_after_observation(
                state,
                connection,
                tunnel_may_be_running,
                now,
                id,
            );
            &&& after.pending_seal matches Some(seal)
            &&& seal.trigger == "tunnel_stopped"@
            &&& !seal.tunnel_running
            &&& reports_interval(seal, session, id, now)
            &&& after == (AutomaticStateView { pending_seal: after.pending_seal, ..state })
        }),
{
}

/// A connection that goes on is reported every six hours, as running, and not
/// before; one that cannot be seen while the tunnel may run is not reported.
pub proof fn law_running_connection_is_reported_every_six_hours(
    state: AutomaticStateView,
    session: AutomaticSessionView,
    tunnel_may_be_running: bool,
    now: i64,
    id: Seq<char>,
)
    requires
        state.pending_seal is None,
        state.session == Some(session),
    ensures
        ({
            let after = state_after_observation(
                state,
                Some(session.connection_id),
                tunnel_may_be_running,
                now,
                id,
            );
            if now - session.interval_started_at >= 21_600 {
                &&& after.pending_seal matches Some(seal)
                &&& seal.trigger == "six_hour_checkpoint"@
                &&& seal.tunnel_running
                &&& reports_interval(seal, session, id, now)
                &&& after == (AutomaticStateView { pending_seal: after.pending_seal, ..state })
            } else {
                after == state
            }
        }),
        state_after_observation(state, None, true, now, id) == state,
{
}

/// A checkpoint is sealed only for the connection of the session that is seen,
/// a stop only where that connection is not.
pub proof fn law_checkpoint_is_of_the_connection_that_is_seen(
    state: AutomaticStateView,
    connection: Option<Seq<char>>,
    tunnel_may_be_running: bool,
    now: i64,
    id: Seq<char>,
)
    requires
        state.pending_seal is None,
    ensures
        ({
            let after = state_after_observation(
                state,
                connection,
                tunnel_may_be_running,
                now,
                id,
            );
            after.pending_seal matches Some(seal) ==> {
                &&& state.session matches Some(session)
                &&& seal.tunnel_running <==> connection == Some(session.connection_id)
                &&& seal.connection_id == Some(session.connection_id)
            }
        }),
{
}

/// A connection that is seen while nothing is reported on begins a session of
/// the current device, under a name of its own and with nothing reported yet;
/// without a device, or without a connection, nothing begins.
pub proof fn law_session_begins_with_its_connection(
    state: AutomaticStateView,
    connection: Option<Seq<char>>,
    tunnel_may_be_running: bool,
    now: i64,
    id: Seq<char>,
)
    requires
        state.pending_seal is None,
        state.session is None,
    ensures
        ({
            let after = state_after_observation(
                state,
                connection,
                tunnel_may_be_running,
                now,
                id,
            );
            match (connection, state.current_device_id) {
                (Some(lease), Some(device)) => {
                    &&& after.session matches Some(session)
                    &&& session.connection_id == lease
                    &&& session.session_id == id
                    &&& session.device_id == device
                    &&& session.sequence == 0
                    &&& session.interval_started_at == now
                    &&& after == (AutomaticStateView { session: after.session, ..state })
                },
                _ => after == state,
            }
        }),
{
}

/// What looking at the tunnel came to says whether the state has changed: a
/// session began, a report was sealed, or nothing happened.
pub proof fn law_outcome_tells_what_has_changed(
    state: AutomaticStateView,
    connection: Option<Seq<char>>,
    tunnel_may_be_running: bool,
    now: i64,
    id: Seq<char>,
)
    ensures
        ({
            let after = state_after_observation(
                state,
                connection,
                tunnel_may_be_running,
                now,
                id,
            );
            let outcome = observation_outcome(state, connection, tunnel_may_be_running, now);
            &&& outcome is Started <==> state.session is None && after.session is Some
            &&& outcome is Stopped || outcome is Checkpoint <==> state.pending_seal is None
                && after.pending_seal is Some
            &&& outcome is Unchanged || outcome is SealPending ==> after == state
            &&& outcome is SealPending <==> state.pending_seal is Some
        }),
{
}

/// A report that was written is pending no more. A stop ends the session; a
/// checkpoint goes on with it from the end of the report. Nothing else of the
/// state changes, and a seal that is not the pending one changes nothing.
pub proof fn law_written_report_is_pending_no_more(state: AutomaticStateView, seal: SealView)
    ensures
        completion_error(state, seal) is None <==> state.pending_seal == Some(seal) && (
        seal.tunnel_running ==> state.session is Some),
        state.pending_seal != Some(seal) ==> completion_error(state, seal) == Some(
            AutomaticError::SealChanged,
        ),
        ({
            let after = state_after_completion(state, seal);
            &&& after.pending_seal is None
            &&& after.current_device_id == state.current_device_id
            &&& after.retry_attempt == state.retry_attempt
            &&& after.next_upload_at == state.next_upload_at
            &&& after.last_attempted_report == state.last_attempted_report
            &&& !seal.tunnel_running ==> after.session is None
            &&& seal.tunnel_running && state.session is Some ==> {
                &&& after.session matches Some(session)
                &&& session.connection_id == state.session->0.connection_id
                &&& session.session_id == state.session->0.session_id
                &&& session.device_id == state.session->0.device_id
                &&& session.sequence == seal.sequence
                &&& session.interval_started_at == seal.ended_at
            }
        }),
{
}

/// The queue of a device holds its own reports, each as often as it is there,
/// from the oldest name to the newest.
pub proof fn law_queue_holds_the_reports_of_the_device(files: Seq<Seq<char>>, device: Seq<char>)
    ensures
        ({
            let queue = reports_of(files, device);
            &&& forall|i: int, j: int|
                0 <= i < j < queue.len() ==> !crate::text::text_before(
                    #[trigger] queue[j],
                    #[trigger] queue[i],
                )
            &&& forall|i: int|
                0 <= i < queue.len() ==> files.contains(#[trigger] queue[i]) && scope_of_name(
                    queue[i],
                ) == Some(device)
            &&& forall|i: int|
                0 <= i < files.len() && scope_of_name(#[trigger] files[i]) == Some(device)
                    ==> queue.contains(files[i])
        }),
{
    let own = |name: Seq<char>| belongs_to(name, device);
    let leq = |l: Seq<char>, r: Seq<char>| not_after(l, r);
    let chosen = files.filter(own);
    let queue = reports_of(files, device);
    lemma_not_after_is_total();
    chosen.lemma_sort_by_ensures(leq);
    queue.to_multiset_ensures();
    chosen.to_multiset_ensures();
    assert forall|i: int, j: int| 0 <= i < j < queue.len() implies !crate::text::text_before(
        #[trigger] queue[j],
        #[trigger] queue[i],
    ) by {
        assert(leq(queue[i], queue[j]));
    }
    assert forall|i: int| 0 <= i < queue.len() implies files.contains(#[trigger] queue[i])
        && scope_of_name(queue[i]) == Some(device) by {
        assert(queue.contains(queue[i]));
        assert(queue.to_multiset().contains(queue[i]));
        assert(chosen.contains(queue[i]));
        files.lemma_filter_contains_rev(own, queue[i]);
        let place = choose|j: int| 0 <= j < chosen.len() && chosen[j] == queue[i];
        files.lemma_filter_pred(own, place);
    }
    assert forall|i: int|
        0 <= i < files.len() && scope_of_name(#[trigger] files[i]) == Some(
            device,
        ) implies queue.contains(files[i]) by {
        files.lemma_filter_contains(own, i);
        assert(chosen.contains(files[i]));
        assert(chosen.to_multiset().contains(files[i]));
        assert(queue.to_multiset().contains(files[i]));
    }
}

/// At a sign-out the newest report of the device is sent: none of its reports
/// has a later name, and where it has any, one is sent.
pub proof fn law_newest_report_is_sent_at_a_sign_out(
    state: AutomaticStateView,
    files: Seq<Seq<char>>,
    device: Seq<char>,
    place: int,
)
    requires
        state.current_device_id == Some(device),
        0 <= place < files.len(),
        scope_of_name(files[place]) == Some(device),
    ensures
        ({
            &&& chosen_report(state, files, true) matches Some(name)
            &&& scope_of_name(name) == Some(device)
            &&& !crate::text::text_before(name, files[place])
        }),
{
    law_queue_holds_the_reports_of_the_device(files, device);
    let queue = reports_of(files, device);
    let found = choose|j: int| 0 <= j < queue.len() && queue[j] == files[place];
    assert(queue[found] == files[place]);
    if found == queue.len() - 1 {
        lemma_text_order(files[place], files[place], files[place]);
    } else {
        assert(!crate::text::text_before(queue[queue.len() - 1], queue[found]));
    }
}

/// The report that is sent is one of the queue of the device, and there is one
/// wherever the queue is not empty; nothing of another device is ever sent.
pub proof fn law_report_that_is_sent_is_queued(
    state: AutomaticStateView,
    files: Seq<Seq<char>>,
    device: Seq<char>,
    latest: bool,
)
    requires
        state.current_device_id == Some(device),
    ensures
        ({
            let queue = reports_of(files, device);
            &&& chosen_report(state, files, latest) is Some <==> queue.len() > 0
            &&& chosen_report(state, files, latest) matches Some(name) ==> queue.contains(name)
                && files.contains(name) && scope_of_name(name) == Some(device)
        }),
{
    let queue = reports_of(files, device);
    law_queue_holds_the_reports_of_the_device(files, device);
    if queue.len() > 0 {
        assert(queue.contains(queue[queue.len() - 1]));
        assert(queue.contains(queue[0]));
        if let Some(last) = state.last_attempted_report {
            lemma_place_is_valid(queue, last, 0);
            let place = place_after(queue, last, 0);
            if place < queue.len() {
                assert(queue.contains(queue[place]));
            }
        }
    }
}

proof fn lemma_place_is_valid(reports: Seq<Seq<char>>, last: Seq<char>, from: int)
    requires
        0 <= from <= reports.len(),
    ensures
        from <= place_after(reports, last, from) <= reports.len(),
        forall|i: int|
            from <= i < place_after(reports, last, from) ==> !crate::text::text_before(
                last,
                #[trigger] reports[i],
            ),
        place_after(reports, last, from) < reports.len() ==> crate::text::text_before(
            last,
            reports[place_after(reports, last, from)],
        ),
    decreases reports.len() - from,
{
    if from < reports.len() && !crate::text::text_before(last, reports[from]) {
        lemma_place_is_valid(reports, last, from + 1);
    }
}

/// The next report is the first one after the last that was tried, even where
/// that one is gone by now; after the last of the queue its first follows.
pub proof fn law_next_report_follows_the_last_one_tried(
    reports: Seq<Seq<char>>,
    last: Seq<char>,
    place: int,
)
    requires
        0 <= place < reports.len(),
        crate::text::text_before(last, reports[place]),
        forall|i: int| 0 <= i < place ==> !crate::text::text_before(last, #[trigger] reports[i]),
    ensures
        next_report(reports, Some(last)) == Some(reports[place]),
        next_report(reports, None) == Some(reports[0]),
{
    lemma_place_is_valid(reports, last, 0);
    let found = place_after(reports, last, 0);
    if found < place {
        assert(!crate::text::text_before(last, reports[found]));
    }
}

/// A report may be sent once its time has come and a device is signed in; a
/// sign-out does not wait for the time.
pub proof fn law_upload_waits_for_its_time(state: AutomaticStateView, now: i64)
    ensures
        upload_allowed(state, now, false) <==> state.current_device_id is Some
            && state.next_upload_at <= now,
        upload_allowed(state, now, true) <==> state.current_device_id is Some,
{
}

/// The report that was chosen is remembered; where there is none the waiting is
/// over. Neither touches the session, the device or what is sealed.
pub proof fn law_choice_is_remembered(
    state: AutomaticStateView,
    files: Seq<Seq<char>>,
    latest: bool,
)
    ensures
        ({
            let after = state_after_choice(state, files, latest);
            &&& after.session == state.session
            &&& after.pending_seal == state.pending_seal
            &&& after.current_device_id == state.current_device_id
            &&& match chosen_report(state, files, latest) {
                Some(name) => {
                    &&& after.last_attempted_report == Some(name)
                    &&& after.retry_attempt == state.retry_attempt
                    &&& after.next_upload_at == state.next_upload_at
                },
                None => {
                    &&& after.last_attempted_report is None
                    &&& after.retry_attempt == 0
                    &&& after.next_upload_at == 0
                },
            }
        }),
{
}

/// After a report was delivered the next follows 65 seconds later, if there is
/// one; failures before it are forgotten.
pub proof fn law_delivered_report_lets_the_next_follow(
    state: AutomaticStateView,
    files: Seq<Seq<char>>,
    device: Seq<char>,
    now: i64,
)
    requires
        state.current_device_id == Some(device),
        now <= i64::MAX - 65,
    ensures
        ({
            let after = state_after_success(state, files, now);
            let more = exists|i: int|
                0 <= i < files.len() && scope_of_name(#[trigger] files[i]) == Some(device);
            &&& after.retry_attempt == 0
            &&& after.next_upload_at == (if more {
                now + 65
            } else {
                0
            })
            &&& after.session == state.session
            &&& after.pending_seal == state.pending_seal
            &&& after.current_device_id == state.current_device_id
            &&& after.last_attempted_report == state.last_attempted_report
        }),
{
    law_queue_holds_the_reports_of_the_device(files, device);
    let queue = reports_of(files, device);
    if queue.len() > 0 {
        assert(files.contains(queue[0]));
        let place = choose|j: int| 0 <= j < files.len() && files[j] == queue[0];
        assert(scope_of_name(files[place]) == Some(device));
    }
}

/// After a failure the next try comes five minutes later, then half an hour,
/// two hours and six hours; the state is otherwise kept.
pub proof fn law_failed_upload_is_tried_ever_more_seldom(state: AutomaticStateView, now: i64)
    requires
        now <= i64::MAX - 21_600,
    ensures
        ({
            let after = state_after_failure(state, now);
            &&& after.next_upload_at - now == (if state.retry_attempt == 0 {
                300int
            } else if state.retry_attempt == 1 {
                1_800
            } else if state.retry_attempt == 2 {
                7_200
            } else {
                21_600
            })
            &&& state.retry_attempt < 4 ==> after.retry_attempt == state.retry_attempt + 1
            &&& state.retry_attempt >= 4 ==> after.retry_attempt == 4
            &&& after.next_upload_at - now == retry_delay(state.retry_attempt as nat)
            &&& after.session == state.session
            &&& after.pending_seal == state.pending_seal
            &&& after.current_device_id == state.current_device_id
            &&& after.last_attempted_report == state.last_attempted_report
        }),
{
}

/// A device whose name is part of a file name has one of letters, digits,
/// hyphens and underscores alone: it can neither leave the directory nor be
/// taken for two parts.
pub proof fn law_scope_is_a_plain_name(scope: Seq<char>)
    requires
        is_scope(scope),
    ensures
        0 < scope.len(),
        !scope.contains('.'),
        !scope.contains('/'),
        !scope.contains('\\'),
        !scope.contains(' '),
{
    if scope.contains('.') {
        let i = choose|i: int| 0 <= i < scope.len() && scope[i] == '.';
        assert(is_scope_char(scope[i]));
    }
    if scope.contains('/') {
        let i = choose|i: int| 0 <= i < scope.len() && scope[i] == '/';
        assert(is_scope_char(scope[i]));
    }
    if scope.contains('\\') {
        let i = choose|i: int| 0 <= i < scope.len() && scope[i] == '\\';
        assert(is_scope_char(scope[i]));
    }
    if scope.contains(' ') {
        let i = choose|i: int| 0 <= i < scope.len() && scope[i] == ' ';
        assert(is_scope_char(scope[i]));
    }
}

/// No report is chosen while another is being sent, or before its time; one
/// that is chosen is being sent from then on, and only the queue changes.
pub proof fn law_one_report_is_chosen_at_a_time(
    before: DesktopAutomaticDiagnostics,
    after: DesktopAutomaticDiagnostics,
    name: Option<Seq<char>>,
    now: i64,
    latest: bool,
    names: Seq<Seq<char>>,
)
    requires
        candidate_begun(before, after, name, now, latest, names),
    ensures
        before.upload_in_progress ==> name is None && after == before,
        !latest && now < before.state@.next_upload_at ==> name is None && after == before,
        name is Some ==> !before.upload_in_progress && after.upload_in_progress,
        !before.upload_in_progress && name is None ==> !after.upload_in_progress,
        after.warning == before.warning,
        name is Some ==> after.state@.last_attempted_report == name,
        after.state@.session == before.state@.session,
        after.state@.pending_seal == before.state@.pending_seal,
        after.state@.current_device_id == before.state@.current_device_id,
{
}

/// The name of a device is made of letters and digits of ASCII, hyphens and
/// underscores.
pub proof fn law_scope_is_made_of_plain_characters(c: char)
    ensures
        is_scope_char(c) <==> 0x61 <= c as int <= 0x7a || 0x41 <= c as int <= 0x5a || 0x30
            <= c as int <= 0x39 || c as int == 0x2d || c as int == 0x5f,
{
}

/// A queue that is new knows of no device, session or failure, and may send at
/// once when there is something to send.
pub proof fn law_new_queue_knows_nothing(now: i64)
    requires
        now >= 0,
    ensures
        ({
            let state = initial_state();
            &&& state.current_device_id is None
            &&& state.session is None
            &&& state.pending_seal is None
            &&& state.last_attempted_report is None
            &&& state.retry_attempt == 0
            &&& state.next_upload_at <= now
        }),
{
}

/// The name of a report begins with the time of its end, in twenty digits, and
/// ends as a file of JSON; a time before 1970 counts as 1970.
pub proof fn law_report_is_named_by_its_end(seal: SealView)
    ensures
        ({
            let name = report_file_name(seal);
            &&& name.len() > 25
            &&& seal.ended_at >= 0 ==> crate::text::number_of(name.take(20)) == seal.ended_at
            &&& seal.ended_at < 0 ==> crate::text::number_of(name.take(20)) == 0
            &&& name[20] == '.'
            &&& name.skip(name.len() - 5) == ".json"@
        }),
{
    let time = crate::automatic_diagnostics::not_negative(seal.ended_at);
    let name = report_file_name(seal);
    let digits = crate::text::decimal_digits(time, 20);
    crate::text_laws::law_padded_number_is_read_back(time, 20);
    reveal_with_fuel(crate::text_laws::power_of_ten, 21);
    assert(crate::text_laws::power_of_ten(20) == 100_000_000_000_000_000_000);
    reveal_strlit(".");
    reveal_strlit(".json");
    assert(name.take(20) =~= digits);
    assert(name[20] == "."@[0]);
    assert(name.skip(name.len() - 5) =~= ".json"@);
}

} // verus!
