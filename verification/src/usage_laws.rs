//! What holds of the resources in use: what is reported of two intervals adds
//! up to what is reported of both, and nothing is made up.
use crate::report_logs::{android_logs_of, application_log_of, bytes_of, helper_log_of};
use crate::resource_usage::{
    capped_product, cpu_share, first_value, growth, usage_between, value_in_line,
    DiagnosticResourceUsage, ResourceSnapshot,
};
use vstd::prelude::*;

verus! {

/// What a counter has grown by is what has to be added to the earlier reading
/// to get the later one; it is unknown exactly where one of them is, or where
/// the counter has gone back.
pub proof fn law_growth_adds_up(baseline: u64, middle: u64, current: u64)
    ensures
        baseline <= current <==> growth(Some(baseline), Some(current)) is Some,
        growth(Some(baseline), Some(current)) matches Some(grown) ==> baseline + grown == current,
        baseline <= middle <= current ==> growth(Some(baseline), Some(middle))->0 + growth(
            Some(middle),
            Some(current),
        )->0 == growth(Some(baseline), Some(current))->0,
        growth(None, Some(current)) is None,
        growth(Some(baseline), None) is None,
        growth(None, None) is None,
{
}

/// A share of ten thousand is one processor for all of the time: the share, for
/// as long as it was measured, is the time of the processor, rounded down.
pub proof fn law_share_is_of_the_time(user: u64, system: u64, duration: u64)
    requires
        duration > 0,
        (user + system) * 10_000 <= u64::MAX,
    ensures
        cpu_share(Some(user), Some(system), duration) matches Some(share) && share * duration <= (
        user + system) * 10_000 < (share + 1) * duration,
        cpu_share(Some(user), Some(system), duration) == cpu_share(
            Some(system),
            Some(user),
            duration,
        ),
        cpu_share(Some(user), Some(system), 0) is None,
        cpu_share(None, Some(system), duration) is None,
        cpu_share(Some(user), None, duration) is None,
{
    let total = (user + system) * 10_000;
    assert((user + system) <= total) by (nonlinear_arith)
        requires
            total == (user + system) * 10_000,
            user + system >= 0,
    ;
    let share = total / (duration as int);
    assert(share * duration <= total < (share + 1) * duration) by (nonlinear_arith)
        requires
            duration > 0,
            total >= 0,
            share == total / (duration as int),
    ;
}

/// What a report says that was used is the growth of each counter between its
/// two snapshots, and of memory what is in use at the end. What the system has
/// counted for the application is told only where both snapshots know it.
pub proof fn law_usage_is_what_was_counted_meanwhile(
    usage: DiagnosticResourceUsage,
    baseline: ResourceSnapshot,
    current: ResourceSnapshot,
)
    requires
        usage_between(usage, baseline, current),
    ensures
        usage.measurement_mode@ == "session_delta"@,
        current.captured_at_nanos < baseline.captured_at_nanos ==> usage.session_duration_ms == 0,
        baseline.captured_at_nanos <= current.captured_at_nanos ==> usage.session_duration_ms
            * 1_000_000 <= current.captured_at_nanos - baseline.captured_at_nanos < (
        usage.session_duration_ms + 1) * 1_000_000,
        usage.components@.len() == 2 <==> baseline.android_uid is Some
            && current.android_uid is Some,
        usage.components@.len() == 1 || usage.components@.len() == 2,
        ({
            let process = usage.components@[0];
            let from = baseline.process;
            let to = current.process;
            &&& process.component@ == "client_process"@
            &&& process.source@ == "operating_system_process_counters"@
            &&& process.cpu_average_basis_points == cpu_share(
                process.cpu_user_ms,
                process.cpu_system_ms,
                usage.session_duration_ms,
            )
            &&& process.network_rx_bytes is None && process.network_tx_bytes is None
            &&& process.current_resident_memory_bytes == to.current_resident_memory_bytes
            &&& process.peak_resident_memory_bytes == to.peak_resident_memory_bytes
            &&& from.cpu_user_ms is Some && to.cpu_user_ms is Some && from.cpu_user_ms->0
                <= to.cpu_user_ms->0 ==> process.cpu_user_ms is Some && from.cpu_user_ms->0
                + process.cpu_user_ms->0 == to.cpu_user_ms->0
            &&& from.cpu_system_ms is Some && to.cpu_system_ms is Some && from.cpu_system_ms->0
                <= to.cpu_system_ms->0 ==> process.cpu_system_ms is Some && from.cpu_system_ms->0
                + process.cpu_system_ms->0 == to.cpu_system_ms->0
            &&& from.read_bytes is Some && to.read_bytes is Some && from.read_bytes->0
                <= to.read_bytes->0 ==> process.read_bytes is Some && from.read_bytes->0
                + process.read_bytes->0 == to.read_bytes->0
            &&& from.write_bytes is Some && to.write_bytes is Some && from.write_bytes->0
                <= to.write_bytes->0 ==> process.write_bytes is Some && from.write_bytes->0
                + process.write_bytes->0 == to.write_bytes->0
            &&& from.page_faults is Some && to.page_faults is Some && from.page_faults->0
                <= to.page_faults->0 ==> process.page_faults is Some && from.page_faults->0
                + process.page_faults->0 == to.page_faults->0
            &&& from.minor_page_faults is Some && to.minor_page_faults is Some
                && from.minor_page_faults->0 <= to.minor_page_faults->0
                ==> process.minor_page_faults is Some && from.minor_page_faults->0
                + process.minor_page_faults->0 == to.minor_page_faults->0
            &&& from.major_page_faults is Some && to.major_page_faults is Some
                && from.major_page_faults->0 <= to.major_page_faults->0
                ==> process.major_page_faults is Some && from.major_page_faults->0
                + process.major_page_faults->0 == to.major_page_faults->0
            &&& from.voluntary_context_switches is Some && to.voluntary_context_switches is Some
                && from.voluntary_context_switches->0 <= to.voluntary_context_switches->0
                ==> process.voluntary_context_switches is Some
                && from.voluntary_context_switches->0 + process.voluntary_context_switches->0
                == to.voluntary_context_switches->0
            &&& from.involuntary_context_switches is Some && to.involuntary_context_switches is Some
                && from.involuntary_context_switches->0 <= to.involuntary_context_switches->0
                ==> process.involuntary_context_switches is Some
                && from.involuntary_context_switches->0 + process.involuntary_context_switches->0
                == to.involuntary_context_switches->0
        }),
        baseline.android_uid matches Some(from) ==> (current.android_uid matches Some(to) ==> {
            let android = usage.components@[1];
            &&& android.component@ == "android_application_uid"@
            &&& android.source@ == "android_system_health_manager"@
            &&& android.cpu_average_basis_points == cpu_share(
                android.cpu_user_ms,
                android.cpu_system_ms,
                usage.session_duration_ms,
            )
            &&& android.current_resident_memory_bytes is None
            &&& android.cpu_charge_milliamp_milliseconds == growth(
                from.cpu_charge_milliamp_milliseconds,
                to.cpu_charge_milliamp_milliseconds,
            )
            &&& android.mobile_charge_milliamp_milliseconds == growth(
                from.mobile_charge_milliamp_milliseconds,
                to.mobile_charge_milliamp_milliseconds,
            )
            &&& android.wifi_charge_milliamp_milliseconds == growth(
                from.wifi_charge_milliamp_milliseconds,
                to.wifi_charge_milliamp_milliseconds,
            )
            &&& from.network_rx_bytes is Some && to.network_rx_bytes is Some
                && from.network_rx_bytes->0 <= to.network_rx_bytes->0
                ==> android.network_rx_bytes is Some && from.network_rx_bytes->0
                + android.network_rx_bytes->0 == to.network_rx_bytes->0
            &&& from.network_tx_bytes is Some && to.network_tx_bytes is Some
                && from.network_tx_bytes->0 <= to.network_tx_bytes->0
                ==> android.network_tx_bytes is Some && from.network_tx_bytes->0
                + android.network_tx_bytes->0 == to.network_tx_bytes->0
            &&& from.cpu_user_ms is Some && to.cpu_user_ms is Some && from.cpu_user_ms->0
                <= to.cpu_user_ms->0 ==> android.cpu_user_ms is Some && from.cpu_user_ms->0
                + android.cpu_user_ms->0 == to.cpu_user_ms->0
        }),
{
}

/// The value behind a key is that of the first line that begins with the key
/// and has a number: lines before it, and all that follow it, do not matter.
pub proof fn law_first_line_with_the_key_decides(
    before: Seq<Seq<char>>,
    line: Seq<char>,
    rest: Seq<Seq<char>>,
    key: Seq<char>,
    multiplier: u64,
)
    requires
        forall|i: int| 0 <= i < before.len() ==> !key.is_prefix_of(#[trigger] before[i]),
        value_in_line(line, key, multiplier) is Some,
    ensures
        first_value(before + seq![line] + rest, key, multiplier) == value_in_line(
            line,
            key,
            multiplier,
        ),
        first_value(before, key, multiplier) is None,
        key.is_prefix_of(line),
    decreases before.len(),
{
    let lines = before + seq![line] + rest;
    if before.len() == 0 {
        assert(lines[0] == line);
        assert(line.take(key.len() as int) == key);
    } else {
        assert(lines[0] == before[0]);
        assert(!key.is_prefix_of(before[0]));
        if key.len() <= before[0].len() {
            assert(before[0].take(key.len() as int) =~= before[0].subrange(0, key.len() as int));
        }
        assert(value_in_line(before[0], key, multiplier) is None);
        let fewer = before.skip(1);
        assert forall|i: int| 0 <= i < fewer.len() implies !key.is_prefix_of(
            #[trigger] fewer[i],
        ) by {
            assert(fewer[i] == before[i + 1]);
        }
        law_first_line_with_the_key_decides(fewer, line, rest, key, multiplier);
        assert(lines.skip(1) =~= fewer + seq![line] + rest);
    }
}

/// A product is exact where it fits its field, and the largest value where it
/// does not.
pub proof fn law_product_is_capped(left: u64, right: u64)
    ensures
        left * right <= u64::MAX ==> capped_product(left, right) == left * right,
        left * right > u64::MAX ==> capped_product(left, right) == u64::MAX,
{
}

/// The log of the application in a report is an end of all that was logged, the
/// file that was put away first and the start of Android last; it is all of it
/// where that fits in 320 kibibytes. An empty log of the service is none.
pub proof fn law_report_holds_the_end_of_the_logs(
    previous: Seq<char>,
    current: Seq<char>,
    startup: Seq<char>,
    helper: Seq<char>,
)
    ensures
        ({
            let log = application_log_of(previous, current, startup);
            let whole = previous + current + startup;
            &&& log.len() <= whole.len()
            &&& log == whole.skip(whole.len() - log.len())
            &&& bytes_of(log) <= 320 * 1024
            &&& bytes_of(whole) <= 320 * 1024 ==> log == whole
        }),
        helper_log_of(None) is None,
        helper.len() == 0 <==> helper_log_of(Some(helper)) is None,
        helper_log_of(Some(helper)) matches Some(log) ==> {
            &&& log.len() <= helper.len()
            &&& log == helper.skip(helper.len() - log.len())
            &&& bytes_of(log) <= 64 * 1024
            &&& bytes_of(helper) <= 64 * 1024 ==> log == helper
        },
{
    crate::report_logs::law_tail_is_the_longest_end_that_fits(
        previous + current + startup,
        327_680,
    );
    crate::report_logs::law_tail_is_the_longest_end_that_fits(helper, 65_536);
}

/// Logs of Android that fit their bounds are all in the report, one behind the
/// other under their headings: 16 kibibytes of the file that was put away, 24 of
/// the one in use, and 20 of the log of the system.
pub proof fn law_android_logs_stand_under_their_headings(
    previous: Seq<char>,
    current: Seq<char>,
    logcat: Seq<char>,
)
    requires
        bytes_of(previous) <= 16 * 1024,
        bytes_of(current) <= 24 * 1024,
        bytes_of(logcat) <= 20 * 1024,
    ensures
        android_logs_of(previous, current, logcat) == "[persistent.previous]\n"@ + previous
            + "\n[persistent.current]\n"@ + current + "\n[logcat]\n"@ + logcat,
{
    crate::report_logs::law_android_logs_fit_and_keep_the_persistent_part(
        previous,
        current,
        logcat,
    );
}

} // verus!
