//! What the tray shows of the connection.
use crate::core_state::Phase;
use crate::text::{decimal_text, same_text};
use vstd::prelude::*;

verus! {

/// A number divided by another, rounded to the nearest whole number, and to
/// the even one of two that are equally near.
pub open spec fn nearest(value: nat, divisor: nat) -> nat {
    let quotient = value / divisor;
    let rest = value % divisor;
    if 2 * rest > divisor || (2 * rest == divisor && quotient % 2 == 1) {
        quotient + 1
    } else {
        quotient
    }
}

/// How far apart numbers of that size are in double precision: they have 53
/// binary digits.
pub open spec fn spacing(value: nat) -> nat
    decreases value,
{
    if value < 9_007_199_254_740_992 {
        1
    } else {
        2 * spacing(value / 2)
    }
}

/// A number in double precision.
pub open spec fn in_double_precision(value: nat) -> nat {
    nearest(value, spacing(value)) * spacing(value)
}

/// The unit in which a number of bytes is shown: the largest of which it has
/// at least one, counted from bytes.
pub open spec fn unit_of(value: nat) -> nat {
    if value < 1_024 {
        0
    } else if value < 1_048_576 {
        1
    } else if value < 1_073_741_824 {
        2
    } else if value < 1_099_511_627_776 {
        3
    } else {
        4
    }
}

/// How many bytes a unit has.
pub open spec fn unit_size(unit: nat) -> nat {
    if unit == 0 {
        1
    } else if unit == 1 {
        1_024
    } else if unit == 2 {
        1_048_576
    } else if unit == 3 {
        1_073_741_824
    } else {
        1_099_511_627_776
    }
}

pub open spec fn unit_text(unit: nat) -> Seq<char> {
    if unit == 0 {
        "Б"@
    } else if unit == 1 {
        "КБ"@
    } else if unit == 2 {
        "МБ"@
    } else if unit == 3 {
        "ГБ"@
    } else {
        "ТБ"@
    }
}

/// A number of bytes as it is shown: whole bytes, or tenths of a larger unit
/// after a comma.
pub open spec fn bytes_shown(bytes: u64) -> Seq<char> {
    let value = in_double_precision(bytes as nat);
    let unit = unit_of(value);
    if unit == 0 {
        crate::text::decimal(bytes as nat) + " "@ + unit_text(0)
    } else {
        let tenths = nearest(10 * value, unit_size(unit));
        crate::text::decimal(tenths / 10) + ","@ + crate::text::decimal(tenths % 10) + " "@
            + unit_text(unit)
    }
}

fn nearest_of(value: u128, divisor: u128) -> (rounded: u128)
    requires
        0 < divisor <= 0x1_0000_0000_0000_0000,
        value <= 0xb_0000_0000_0000_0000,
    ensures
        rounded == nearest(value as nat, divisor as nat),
        rounded <= value / divisor + 1,
{
    let quotient: u128 = value / divisor;
    let rest: u128 = value % divisor;
    if 2 * rest > divisor || (2 * rest == divisor && quotient % 2 == 1) {
        quotient + 1
    } else {
        quotient
    }
}

fn spacing_of(value: u64) -> (step: u64)
    ensures
        step == spacing(value as nat),
        step > 0,
        value < 9_007_199_254_740_992 ==> step == 1,
        value >= 9_007_199_254_740_992 ==> step <= value / 4_503_599_627_370_496,
        step <= 4_096,
    decreases value,
{
    if value < 9_007_199_254_740_992 {
        return 1;
    }
    let half = spacing_of(value / 2);
    2 * half
}

fn unit_name(unit: u64) -> (name: &'static str)
    ensures
        name@ == unit_text(unit as nat),
{
    if unit == 0 {
        "Б"
    } else if unit == 1 {
        "КБ"
    } else if unit == 2 {
        "МБ"
    } else if unit == 3 {
        "ГБ"
    } else {
        "ТБ"
    }
}

proof fn lemma_rounded_is_near(value: nat, step: nat)
    requires
        0 < step <= 4_096,
        value <= 0xffff_ffff_ffff_ffff,
    ensures
        nearest(value, step) * step <= value + step,
{
    let quotient = value / step;
    assert(quotient * step <= value) by (nonlinear_arith)
        requires
            quotient == value / step,
            0 < step,
    ;
    assert((quotient + 1) * step == quotient * step + step) by (nonlinear_arith);
    let rounded = nearest(value, step);
    assert(rounded == quotient || rounded == quotient + 1);
}

/// A number of bytes as the tray shows it.
pub fn format_bytes(bytes: u64) -> (text: String)
    ensures
        text@ == bytes_shown(bytes),
{
    let step: u64 = spacing_of(bytes);
    let rounded: u128 = nearest_of(bytes as u128, step as u128);
    proof {
        lemma_rounded_is_near(bytes as nat, step as nat);
    }
    assert(rounded * step <= 0x1_0000_0000_0000_0fff);
    let value: u128 = rounded * step as u128;
    let (unit, size): (u64, u128) = if value < 1_024 {
        (0, 1)
    } else if value < 1_048_576 {
        (1, 1_024)
    } else if value < 1_073_741_824 {
        (2, 1_048_576)
    } else if value < 1_099_511_627_776 {
        (3, 1_073_741_824)
    } else {
        (4, 1_099_511_627_776)
    };
    if unit == 0 {
        let mut text = decimal_text(bytes);
        text.append(" ");
        text.append(unit_name(0));
        return text;
    }
    let tenths: u128 = nearest_of(10 * value, size);
    assert((10 * value) as int / size as int <= (10 * value) as int / 1_024) by (nonlinear_arith)
        requires
            size >= 1_024,
    ;
    let whole: u64 = (tenths / 10) as u64;
    let tenth: u64 = (tenths % 10) as u64;
    let mut text = decimal_text(whole);
    text.append(",");
    text.append(decimal_text(tenth).as_str());
    text.append(" ");
    text.append(unit_name(unit));
    text
}

/// What the tray shows.
#[derive(Debug)]
pub struct TrayPresentation {
    pub toggle_text: &'static str,
    pub traffic_text: String,
}

#[verifier::ext_equal]
pub struct PresentationView {
    pub toggle_text: Seq<char>,
    pub traffic_text: Seq<char>,
}

impl View for TrayPresentation {
    type V = PresentationView;

    open spec fn view(&self) -> PresentationView {
        PresentationView { toggle_text: self.toggle_text@, traffic_text: self.traffic_text@ }
    }
}

/// What is shown in a phase; `traffic` is what was received and sent, as far
/// as it is known.
pub open spec fn presentation_of(phase: Phase, traffic: Option<(u64, u64)>) -> PresentationView {
    if phase == Phase::Connected {
        PresentationView {
            toggle_text: "Отключить VPN"@,
            traffic_text: match traffic {
                Some((received, sent)) => "Трафик сессии: ↓ "@ + bytes_shown(received) + "  ↑ "@
                    + bytes_shown(sent),
                None => "Трафик сессии: подсчитывается..."@,
            },
        }
    } else {
        PresentationView {
            toggle_text: "Включить VPN"@,
            traffic_text: "Трафик сессии: нет подключения"@,
        }
    }
}

impl TrayPresentation {
    pub fn new(phase: Phase, traffic: Option<(u64, u64)>) -> (presentation: Self)
        ensures
            presentation@ == presentation_of(phase, traffic),
    {
        if phase != Phase::Connected {
            return TrayPresentation {
                toggle_text: "Включить VPN",
                traffic_text: "Трафик сессии: нет подключения".to_owned(),
            };
        }
        let traffic_text = match traffic {
            Some((received, sent)) => {
                let mut text = "Трафик сессии: ↓ ".to_owned();
                text.append(format_bytes(received).as_str());
                text.append("  ↑ ");
                text.append(format_bytes(sent).as_str());
                text
            },
            None => "Трафик сессии: подсчитывается...".to_owned(),
        };
        TrayPresentation { toggle_text: "Отключить VPN", traffic_text }
    }

    /// Whether two presentations look the same: the tray is not touched then.
    pub fn same_as(&self, other: &TrayPresentation) -> (same: bool)
        ensures
            same == (self@ == other@),
    {
        let same = same_text(self.toggle_text, other.toggle_text) && same_text(
            self.traffic_text.as_str(),
            other.traffic_text.as_str(),
        );
        assert(same ==> self@ =~= other@);
        same
    }
}

/// Whether the tray has to be changed to show a presentation, which is then
/// the last one.
pub fn show_presentation(last: &mut Option<TrayPresentation>, next: TrayPresentation) -> (changed:
    bool)
    ensures
        changed == (match *old(last) {
            Some(shown) => shown@ != next@,
            None => true,
        }),
        *final(last) matches Some(shown) && shown@ == next@,
{
    let same = match last {
        Some(shown) => shown.same_as(&next),
        None => false,
    };
    if same {
        return false;
    }
    *last = Some(next);
    true
}

/// What is told where the application could not end.
pub fn shutdown_failure_text(message: &str) -> (text: String)
    ensures
        text@ == "Не удалось завершить подключение: "@ + message@,
{
    let mut text = "Не удалось завершить подключение: ".to_owned();
    text.append(message);
    text
}

/// Less than a kilobyte is shown in whole bytes, exactly.
pub proof fn law_small_traffic_is_shown_exactly(bytes: u64)
    requires
        bytes < 1_024,
    ensures
        bytes_shown(bytes) == crate::text::decimal(bytes as nat) + " "@ + unit_text(0),
{
    let value = bytes as nat;
    assert(spacing(value) == 1);
    assert(nearest(value, 1) == value);
}

/// The number that is shown is never further from the true one than half a
/// tenth of its unit, for every amount below eight petabytes.
pub proof fn law_shown_traffic_is_near(bytes: u64)
    requires
        1_024 <= bytes < 9_007_199_254_740_992,
    ensures
        ({
            let size = unit_size(unit_of(bytes as nat));
            let tenths = nearest(10 * bytes as nat, size);
            &&& in_double_precision(bytes as nat) == bytes
            &&& 20 * bytes - size <= 2 * tenths * size <= 20 * bytes + size
        }),
{
    let value = bytes as nat;
    assert(spacing(value) == 1);
    assert(nearest(value, 1) == value);
    let size = unit_size(unit_of(value));
    let scaled = (10 * value) as nat;
    let quotient = scaled / size;
    let rest = scaled % size;
    assert(scaled == quotient * size + rest && 0 <= rest < size) by (nonlinear_arith)
        requires
            quotient == scaled / size,
            rest == scaled % size,
            size > 0,
    ;
    assert(2 * (quotient + 1) * size == 2 * (quotient * size) + 2 * size) by (nonlinear_arith);
    assert(2 * quotient * size == 2 * (quotient * size)) by (nonlinear_arith);
}

} // verus!
