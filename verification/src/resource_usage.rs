//! What the application has used of the system's resources.
use crate::text::{chars_of, parse_number, white_space};
use vstd::prelude::*;

verus! {

/// What the system has counted for the process.
#[derive(Clone, Copy, Debug, PartialEq, Eq, Structural)]
pub struct ProcessCounters {
    pub cpu_user_ms: Option<u64>,
    pub cpu_system_ms: Option<u64>,
    pub current_resident_memory_bytes: Option<u64>,
    pub peak_resident_memory_bytes: Option<u64>,
    pub read_bytes: Option<u64>,
    pub write_bytes: Option<u64>,
    pub page_faults: Option<u64>,
    pub minor_page_faults: Option<u64>,
    pub major_page_faults: Option<u64>,
    pub voluntary_context_switches: Option<u64>,
    pub involuntary_context_switches: Option<u64>,
}

/// What Android has counted for the application.
#[derive(Clone, Copy, Debug, PartialEq, Eq, Structural)]
pub struct AndroidUidCounters {
    pub cpu_user_ms: Option<u64>,
    pub cpu_system_ms: Option<u64>,
    pub network_rx_bytes: Option<u64>,
    pub network_tx_bytes: Option<u64>,
    pub cpu_charge_milliamp_milliseconds: Option<u64>,
    pub mobile_charge_milliamp_milliseconds: Option<u64>,
    pub wifi_charge_milliamp_milliseconds: Option<u64>,
}

/// The counters at one time of a monotonic clock.
#[derive(Clone, Copy, Debug, PartialEq, Eq, Structural)]
pub struct ResourceSnapshot {
    pub captured_at_nanos: u64,
    pub process: ProcessCounters,
    pub android_uid: Option<AndroidUidCounters>,
}

/// What one component has used between two snapshots.
#[derive(Clone, Copy, Debug)]
pub struct DiagnosticResourceComponent {
    pub component: &'static str,
    pub source: &'static str,
    pub cpu_average_basis_points: Option<u64>,
    pub cpu_user_ms: Option<u64>,
    pub cpu_system_ms: Option<u64>,
    pub current_resident_memory_bytes: Option<u64>,
    pub peak_resident_memory_bytes: Option<u64>,
    pub read_bytes: Option<u64>,
    pub write_bytes: Option<u64>,
    pub page_faults: Option<u64>,
    pub minor_page_faults: Option<u64>,
    pub major_page_faults: Option<u64>,
    pub voluntary_context_switches: Option<u64>,
    pub involuntary_context_switches: Option<u64>,
    pub network_rx_bytes: Option<u64>,
    pub network_tx_bytes: Option<u64>,
    pub cpu_charge_milliamp_milliseconds: Option<u64>,
    pub mobile_charge_milliamp_milliseconds: Option<u64>,
    pub wifi_charge_milliamp_milliseconds: Option<u64>,
}

#[derive(Debug)]
pub struct DiagnosticResourceUsage {
    pub measurement_mode: &'static str,
    pub session_duration_ms: u64,
    pub components: Vec<DiagnosticResourceComponent>,
}

/// How much a counter has grown; unknown where it was not known at both ends
/// or has gone back.
pub open spec fn growth(baseline: Option<u64>, current: Option<u64>) -> Option<u64> {
    match (baseline, current) {
        (Some(baseline), Some(current)) => if current >= baseline {
            Some((current - baseline) as u64)
        } else {
            None
        },
        _ => None,
    }
}

pub fn delta(baseline: Option<u64>, current: Option<u64>) -> (difference: Option<u64>)
    ensures
        difference == growth(baseline, current),
{
    match (baseline, current) {
        (Some(baseline), Some(current)) => current.checked_sub(baseline),
        _ => None,
    }
}

pub open spec fn capped_sum(left: u64, right: u64) -> u64 {
    if left + right > u64::MAX {
        u64::MAX
    } else {
        (left + right) as u64
    }
}

pub open spec fn capped_product(left: u64, right: u64) -> u64 {
    if left * right > u64::MAX {
        u64::MAX
    } else {
        (left * right) as u64
    }
}

fn saturating_product(left: u64, right: u64) -> (product: u64)
    ensures
        product == capped_product(left, right),
{
    match left.checked_mul(right) {
        Some(product) => product,
        None => u64::MAX,
    }
}

/// The share of one processor that was used on average, in hundredths of a
/// percent.
pub open spec fn cpu_share(user_ms: Option<u64>, system_ms: Option<u64>, duration_ms: u64) -> Option<
    u64,
> {
    match (user_ms, system_ms) {
        (Some(user), Some(system)) => if duration_ms == 0 {
            None
        } else {
            Some(capped_product(capped_sum(user, system), 10_000) / duration_ms)
        },
        _ => None,
    }
}

pub fn average_cpu_basis_points(
    user_ms: Option<u64>,
    system_ms: Option<u64>,
    duration_ms: u64,
) -> (share: Option<u64>)
    ensures
        share == cpu_share(user_ms, system_ms, duration_ms),
{
    match (user_ms, system_ms) {
        (Some(user), Some(system)) => {
            let cpu_ms: u64 = user.saturating_add(system);
            if duration_ms == 0 {
                return None;
            }
            Some(saturating_product(cpu_ms, 10_000) / duration_ms)
        },
        _ => None,
    }
}

/// What the process has used.
pub open spec fn process_usage(
    component: DiagnosticResourceComponent,
    baseline: ProcessCounters,
    current: ProcessCounters,
    duration_ms: u64,
) -> bool {
    let user = growth(baseline.cpu_user_ms, current.cpu_user_ms);
    let system = growth(baseline.cpu_system_ms, current.cpu_system_ms);
    &&& component.component@ == "client_process"@
    &&& component.source@ == "operating_system_process_counters"@
    &&& component.cpu_average_basis_points == cpu_share(user, system, duration_ms)
    &&& component.cpu_user_ms == user
    &&& component.cpu_system_ms == system
    &&& component.current_resident_memory_bytes == current.current_resident_memory_bytes
    &&& component.peak_resident_memory_bytes == current.peak_resident_memory_bytes
    &&& component.read_bytes == growth(baseline.read_bytes, current.read_bytes)
    &&& component.write_bytes == growth(baseline.write_bytes, current.write_bytes)
    &&& component.page_faults == growth(baseline.page_faults, current.page_faults)
    &&& component.minor_page_faults == growth(
        baseline.minor_page_faults,
        current.minor_page_faults,
    )
    &&& component.major_page_faults == growth(
        baseline.major_page_faults,
        current.major_page_faults,
    )
    &&& component.voluntary_context_switches == growth(
        baseline.voluntary_context_switches,
        current.voluntary_context_switches,
    )
    &&& component.involuntary_context_switches == growth(
        baseline.involuntary_context_switches,
        current.involuntary_context_switches,
    )
    &&& component.network_rx_bytes is None
    &&& component.network_tx_bytes is None
    &&& component.cpu_charge_milliamp_milliseconds is None
    &&& component.mobile_charge_milliamp_milliseconds is None
    &&& component.wifi_charge_milliamp_milliseconds is None
}

pub fn process_component(baseline: &ProcessCounters, current: &ProcessCounters, duration_ms: u64) -> (component:
    DiagnosticResourceComponent)
    ensures
        process_usage(component, *baseline, *current, duration_ms),
{
    let cpu_user_ms = delta(baseline.cpu_user_ms, current.cpu_user_ms);
    let cpu_system_ms = delta(baseline.cpu_system_ms, current.cpu_system_ms);
    DiagnosticResourceComponent {
        component: "client_process",
        source: "operating_system_process_counters",
        cpu_average_basis_points: average_cpu_basis_points(
            cpu_user_ms,
            cpu_system_ms,
            duration_ms,
        ),
        cpu_user_ms,
        cpu_system_ms,
        current_resident_memory_bytes: current.current_resident_memory_bytes,
        peak_resident_memory_bytes: current.peak_resident_memory_bytes,
        read_bytes: delta(baseline.read_bytes, current.read_bytes),
        write_bytes: delta(baseline.write_bytes, current.write_bytes),
        page_faults: delta(baseline.page_faults, current.page_faults),
        minor_page_faults: delta(baseline.minor_page_faults, current.minor_page_faults),
        major_page_faults: delta(baseline.major_page_faults, current.major_page_faults),
        voluntary_context_switches: delta(
            baseline.voluntary_context_switches,
            current.voluntary_context_switches,
        ),
        involuntary_context_switches: delta(
            baseline.involuntary_context_switches,
            current.involuntary_context_switches,
        ),
        network_rx_bytes: None,
        network_tx_bytes: None,
        cpu_charge_milliamp_milliseconds: None,
        mobile_charge_milliamp_milliseconds: None,
        wifi_charge_milliamp_milliseconds: None,
    }
}

/// What Android has counted for the application.
pub open spec fn android_usage(
    component: DiagnosticResourceComponent,
    baseline: AndroidUidCounters,
    current: AndroidUidCounters,
    duration_ms: u64,
) -> bool {
    let user = growth(baseline.cpu_user_ms, current.cpu_user_ms);
    let system = growth(baseline.cpu_system_ms, current.cpu_system_ms);
    &&& component.component@ == "android_application_uid"@
    &&& component.source@ == "android_system_health_manager"@
    &&& component.cpu_average_basis_points == cpu_share(user, system, duration_ms)
    &&& component.cpu_user_ms == user
    &&& component.cpu_system_ms == system
    &&& component.current_resident_memory_bytes is None
    &&& component.peak_resident_memory_bytes is None
    &&& component.read_bytes is None
    &&& component.write_bytes is None
    &&& component.page_faults is None
    &&& component.minor_page_faults is None
    &&& component.major_page_faults is None
    &&& component.voluntary_context_switches is None
    &&& component.involuntary_context_switches is None
    &&& component.network_rx_bytes == growth(baseline.network_rx_bytes, current.network_rx_bytes)
    &&& component.network_tx_bytes == growth(baseline.network_tx_bytes, current.network_tx_bytes)
    &&& component.cpu_charge_milliamp_milliseconds == growth(
        baseline.cpu_charge_milliamp_milliseconds,
        current.cpu_charge_milliamp_milliseconds,
    )
    &&& component.mobile_charge_milliamp_milliseconds == growth(
        baseline.mobile_charge_milliamp_milliseconds,
        current.mobile_charge_milliamp_milliseconds,
    )
    &&& component.wifi_charge_milliamp_milliseconds == growth(
        baseline.wifi_charge_milliamp_milliseconds,
        current.wifi_charge_milliamp_milliseconds,
    )
}

pub fn android_uid_component(
    baseline: &AndroidUidCounters,
    current: &AndroidUidCounters,
    duration_ms: u64,
) -> (component: DiagnosticResourceComponent)
    ensures
        android_usage(component, *baseline, *current, duration_ms),
{
    let cpu_user_ms = delta(baseline.cpu_user_ms, current.cpu_user_ms);
    let cpu_system_ms = delta(baseline.cpu_system_ms, current.cpu_system_ms);
    DiagnosticResourceComponent {
        component: "android_application_uid",
        source: "android_system_health_manager",
        cpu_average_basis_points: average_cpu_basis_points(
            cpu_user_ms,
            cpu_system_ms,
            duration_ms,
        ),
        cpu_user_ms,
        cpu_system_ms,
        current_resident_memory_bytes: None,
        peak_resident_memory_bytes: None,
        read_bytes: None,
        write_bytes: None,
        page_faults: None,
        minor_page_faults: None,
        major_page_faults: None,
        voluntary_context_switches: None,
        involuntary_context_switches: None,
        network_rx_bytes: delta(baseline.network_rx_bytes, current.network_rx_bytes),
        network_tx_bytes: delta(baseline.network_tx_bytes, current.network_tx_bytes),
        cpu_charge_milliamp_milliseconds: delta(
            baseline.cpu_charge_milliamp_milliseconds,
            current.cpu_charge_milliamp_milliseconds,
        ),
        mobile_charge_milliamp_milliseconds: delta(
            baseline.mobile_charge_milliamp_milliseconds,
            current.mobile_charge_milliamp_milliseconds,
        ),
        wifi_charge_milliamp_milliseconds: delta(
            baseline.wifi_charge_milliamp_milliseconds,
            current.wifi_charge_milliamp_milliseconds,
        ),
    }
}

pub open spec fn no_counters() -> ProcessCounters {
    ProcessCounters {
        cpu_user_ms: None,
        cpu_system_ms: None,
        current_resident_memory_bytes: None,
        peak_resident_memory_bytes: None,
        read_bytes: None,
        write_bytes: None,
        page_faults: None,
        minor_page_faults: None,
        major_page_faults: None,
        voluntary_context_switches: None,
        involuntary_context_switches: None,
    }
}

impl ProcessCounters {
    /// Counters of which none is known.
    pub fn new() -> (counters: Self)
        ensures
            counters == no_counters(),
    {
        ProcessCounters {
            cpu_user_ms: None,
            cpu_system_ms: None,
            current_resident_memory_bytes: None,
            peak_resident_memory_bytes: None,
            read_bytes: None,
            write_bytes: None,
            page_faults: None,
            minor_page_faults: None,
            major_page_faults: None,
            voluntary_context_switches: None,
            involuntary_context_switches: None,
        }
    }
}

/// How long the time between two snapshots was, in milliseconds.
pub open spec fn elapsed_ms(baseline: ResourceSnapshot, current: ResourceSnapshot) -> u64 {
    if current.captured_at_nanos >= baseline.captured_at_nanos {
        ((current.captured_at_nanos - baseline.captured_at_nanos) / 1_000_000) as u64
    } else {
        0
    }
}

pub open spec fn usage_between(
    usage: DiagnosticResourceUsage,
    baseline: ResourceSnapshot,
    current: ResourceSnapshot,
) -> bool {
    let duration = elapsed_ms(baseline, current);
    let components = usage.components@;
    &&& usage.measurement_mode@ == "session_delta"@
    &&& usage.session_duration_ms == duration
    &&& components.len() == if baseline.android_uid is Some && current.android_uid is Some {
        2nat
    } else {
        1nat
    }
    &&& process_usage(components[0], baseline.process, current.process, duration)
    &&& components.len() == 2 ==> android_usage(
        components[1],
        baseline.android_uid->0,
        current.android_uid->0,
        duration,
    )
}

impl ResourceSnapshot {
    /// A snapshot without any counters.
    pub fn capture_for_test() -> (snapshot: Self)
        ensures
            snapshot == (ResourceSnapshot {
                captured_at_nanos: 0,
                process: no_counters(),
                android_uid: None,
            }),
    {
        ResourceSnapshot {
            captured_at_nanos: 0,
            process: ProcessCounters::new(),
            android_uid: None,
        }
    }

    /// What was used between this snapshot and a later one.
    pub fn report(&self, current: ResourceSnapshot) -> (usage: DiagnosticResourceUsage)
        ensures
            usage_between(usage, *self, current),
    {
        let session_duration_ms: u64 = current.captured_at_nanos.saturating_sub(
            self.captured_at_nanos,
        ) / 1_000_000;
        let mut components: Vec<DiagnosticResourceComponent> = Vec::new();
        components.push(process_component(&self.process, &current.process, session_duration_ms));
        match (&self.android_uid, &current.android_uid) {
            (Some(baseline), Some(current)) => {
                components.push(android_uid_component(baseline, current, session_duration_ms));
            },
            _ => {},
        }
        DiagnosticResourceUsage {
            measurement_mode: "session_delta",
            session_duration_ms,
            components,
        }
    }
}

/// A time that the system gives in seconds and microseconds, in milliseconds;
/// none where a part of it is negative.
pub fn timeval_millis(seconds: i64, micros: i64) -> (millis: Option<u64>)
    ensures
        millis == (if seconds < 0 || micros < 0 {
            None
        } else {
            Some(capped_sum(capped_product(seconds as u64, 1_000), (micros / 1_000) as u64))
        }),
{
    if seconds < 0 || micros < 0 {
        return None;
    }
    let seconds: u64 = seconds as u64;
    let micros: u64 = micros as u64;
    Some(saturating_product(seconds, 1_000).saturating_add(micros / 1_000))
}

pub fn nonnegative(value: i64) -> (result: Option<u64>)
    ensures
        result == (if value < 0 {
            None
        } else {
            Some(value as u64)
        }),
{
    if value < 0 {
        None
    } else {
        Some(value as u64)
    }
}

/// The peak of the memory in use, which Linux gives in kilobytes.
pub fn peak_rss_bytes(value: i64, in_kilobytes: bool) -> (bytes: Option<u64>)
    ensures
        bytes == (if value < 0 {
            None
        } else if in_kilobytes {
            Some(capped_product(value as u64, 1_024))
        } else {
            Some(value as u64)
        }),
{
    match nonnegative(value) {
        Some(value) => if in_kilobytes {
            Some(saturating_product(value, 1_024))
        } else {
            Some(value)
        },
        None => None,
    }
}

/// A time that Windows gives in units of 100 nanoseconds, in milliseconds.
pub fn filetime_millis(high: u32, low: u32) -> (millis: u64)
    ensures
        millis == (high * 4_294_967_296 + low) / 10_000,
{
    (high as u64 * 4_294_967_296 + low as u64) / 10_000
}

/// The number in one line, where the line begins with the key and a number
/// follows.
pub open spec fn value_in_line(line: Seq<char>, key: Seq<char>, multiplier: u64) -> Option<u64> {
    if key.len() <= line.len() && line.take(key.len() as int) == key {
        match crate::text::first_word(line.skip(key.len() as int)) {
            Some(word) => match crate::text::number_in(word) {
                Some(number) => Some(capped_product(number, multiplier)),
                None => None,
            },
            None => None,
        }
    } else {
        None
    }
}

/// The first number that any of the lines has.
pub open spec fn first_value(lines: Seq<Seq<char>>, key: Seq<char>, multiplier: u64) -> Option<u64>
    decreases lines.len(),
{
    if lines.len() == 0 {
        None
    } else {
        match value_in_line(lines[0], key, multiplier) {
            Some(value) => Some(value),
            None => first_value(lines.skip(1), key, multiplier),
        }
    }
}

fn line_value(line: &str, key: &Vec<char>, multiplier: u64) -> (value: Option<u64>)
    ensures
        value == value_in_line(line@, key@, multiplier),
{
    let chars = chars_of(line);
    if key.len() > chars.len() {
        return None;
    }
    let mut place: usize = 0;
    while place < key.len()
        invariant
            place <= key@.len() <= chars@.len(),
            chars@ == line@,
            forall|i: int| 0 <= i < place ==> line@[i] == key@[i],
        decreases key@.len() - place,
    {
        if chars[place] != key[place] {
            assert(line@.take(key@.len() as int)[place as int] != key@[place as int]);
            return None;
        }
        place += 1;
    }
    assert(line@.take(key@.len() as int) =~= key@);
    let ghost rest = line@.skip(key@.len() as int);
    let mut start: usize = key.len();
    assert(crate::text::first_from(rest, false, start - key@.len())
        == crate::text::first_from(rest, false, 0));
    while start < chars.len() && white_space(chars[start])
        invariant
            key@.len() <= start <= chars@.len(),
            chars@ == line@,
            rest == line@.skip(key@.len() as int),
            crate::text::first_from(rest, false, start - key@.len())
                == crate::text::first_from(rest, false, 0),
        decreases chars@.len() - start,
    {
        assert(rest[start - key@.len()] == line@[start as int]);
        start += 1;
    }
    if start == chars.len() {
        return None;
    }
    assert(rest[start - key@.len()] == line@[start as int]);
    assert(crate::text::first_from(rest, false, 0) == start - key@.len());
    let mut end: usize = start;
    while end < chars.len() && !white_space(chars[end])
        invariant
            key@.len() <= start <= end <= chars@.len(),
            chars@ == line@,
            rest == line@.skip(key@.len() as int),
            crate::text::first_from(rest, true, end - key@.len())
                == crate::text::first_from(rest, true, start - key@.len()),
        decreases chars@.len() - end,
    {
        assert(rest[end - key@.len()] == line@[end as int]);
        end += 1;
    }
    proof {
        if end < chars@.len() {
            assert(rest[end - key@.len()] == line@[end as int]);
        }
        assert(crate::text::first_from(rest, true, start - key@.len()) == end - key@.len());
        assert(chars@.subrange(start as int, end as int) =~= rest.subrange(
            start - key@.len(),
            end - key@.len(),
        ));
    }
    match parse_number(&chars, start, end) {
        Some(number) => Some(saturating_product(number, multiplier)),
        None => None,
    }
}

/// The number behind a key in a file such as `/proc/self/status`, times a
/// multiplier.
pub fn parse_proc_value(contents: &str, key: &str, multiplier: u64) -> (value: Option<u64>)
    ensures
        value == first_value(
            crate::text::split_at_each(contents@, '\n'),
            key@,
            multiplier,
        ),
{
    let lines = crate::text::split_text(contents, '\n');
    let prefix = chars_of(key);
    let ghost all = crate::text::texts_of(lines@);
    let mut index: usize = 0;
    assert(all.skip(0) =~= all);
    while index < lines.len()
        invariant
            index <= lines@.len(),
            all == crate::text::texts_of(lines@),
            all == crate::text::split_at_each(contents@, '\n'),
            prefix@ == key@,
            first_value(all, key@, multiplier) == first_value(
                all.skip(index as int),
                key@,
                multiplier,
            ),
        decreases lines@.len() - index,
    {
        assert(all.skip(index as int)[0] == lines@[index as int]@);
        let value = line_value(lines[index].as_str(), &prefix, multiplier);
        if value.is_some() {
            return value;
        }
        assert(all.skip(index as int).skip(1) =~= all.skip(index + 1));
        index += 1;
    }
    None
}

} // verus!
