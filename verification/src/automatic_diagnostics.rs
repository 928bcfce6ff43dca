//! Reports that are made without being asked for: when a tunnel stops and
//! every six hours while it runs. A report is first sealed, then written, then
//! queued until it has been delivered.
use crate::identifiers::{canonical_identifier, random_identifier};
use crate::text::{
    chars_of, is_text_before, padded_decimal, same_optional_text, same_text, split_text,
};
use vstd::prelude::*;

verus! {

pub const CHECKPOINT_SECONDS: i64 = 21_600;

pub const SUCCESS_UPLOAD_SPACING_SECONDS: i64 = 65;

pub const MAX_SENT_REPORTS: usize = 3;

pub const MAX_REPORT_BYTES: usize = 524_288;

pub const MAX_STATE_BYTES: usize = 65_536;

pub const RETRY_DELAYS_SECONDS: [i64; 4] = [300, 1_800, 7_200, 21_600];

/// A span of a tunnel session that is being reported on.
pub struct AutomaticInterval {
    pub session_id: String,
    pub started_at: i64,
}

/// What came of looking at the tunnel.
pub struct AutomaticObservation {
    pub seal_pending: bool,
    pub interval_started: Option<AutomaticInterval>,
}

/// A report whose contents are settled but which has not been written.
pub struct PendingSeal {
    pub report_id: String,
    pub trigger: String,
    pub session_id: String,
    pub device_id: String,
    pub sequence: u64,
    pub started_at: i64,
    pub ended_at: i64,
    pub tunnel_running: bool,
    pub connection_id: Option<String>,
}

/// The tunnel session that is being reported on.
pub struct AutomaticSession {
    pub connection_id: String,
    pub session_id: String,
    pub device_id: String,
    pub sequence: u64,
    pub interval_started_at: i64,
}

/// What is kept between runs.
pub struct AutomaticState {
    pub current_device_id: Option<String>,
    pub session: Option<AutomaticSession>,
    pub pending_seal: Option<PendingSeal>,
    pub retry_attempt: usize,
    pub next_upload_at: i64,
    pub last_attempted_report: Option<String>,
}

#[verifier::ext_equal]
pub struct SealView {
    pub report_id: Seq<char>,
    pub trigger: Seq<char>,
    pub session_id: Seq<char>,
    pub device_id: Seq<char>,
    pub sequence: u64,
    pub started_at: i64,
    pub ended_at: i64,
    pub tunnel_running: bool,
    pub connection_id: Option<Seq<char>>,
}

#[verifier::ext_equal]
pub struct AutomaticSessionView {
    pub connection_id: Seq<char>,
    pub session_id: Seq<char>,
    pub device_id: Seq<char>,
    pub sequence: u64,
    pub interval_started_at: i64,
}

#[verifier::ext_equal]
pub struct AutomaticStateView {
    pub current_device_id: Option<Seq<char>>,
    pub session: Option<AutomaticSessionView>,
    pub pending_seal: Option<SealView>,
    pub retry_attempt: usize,
    pub next_upload_at: i64,
    pub last_attempted_report: Option<Seq<char>>,
}

impl View for PendingSeal {
    type V = SealView;

    open spec fn view(&self) -> SealView {
        SealView {
            report_id: self.report_id@,
            trigger: self.trigger@,
            session_id: self.session_id@,
            device_id: self.device_id@,
            sequence: self.sequence,
            started_at: self.started_at,
            ended_at: self.ended_at,
            tunnel_running: self.tunnel_running,
            connection_id: crate::text::text_of(self.connection_id),
        }
    }
}

impl View for AutomaticSession {
    type V = AutomaticSessionView;

    open spec fn view(&self) -> AutomaticSessionView {
        AutomaticSessionView {
            connection_id: self.connection_id@,
            session_id: self.session_id@,
            device_id: self.device_id@,
            sequence: self.sequence,
            interval_started_at: self.interval_started_at,
        }
    }
}

impl View for AutomaticState {
    type V = AutomaticStateView;

    open spec fn view(&self) -> AutomaticStateView {
        AutomaticStateView {
            current_device_id: crate::text::text_of(self.current_device_id),
            session: match self.session {
                Some(session) => Some(session@),
                None => None,
            },
            pending_seal: match self.pending_seal {
                Some(seal) => Some(seal@),
                None => None,
            },
            retry_attempt: self.retry_attempt,
            next_upload_at: self.next_upload_at,
            last_attempted_report: crate::text::text_of(self.last_attempted_report),
        }
    }
}

pub open spec fn initial_state() -> AutomaticStateView {
    AutomaticStateView {
        current_device_id: None,
        session: None,
        pending_seal: None,
        retry_attempt: 0,
        next_upload_at: 0,
        last_attempted_report: None,
    }
}

/// Why something could not be done.
#[derive(Clone, Copy, Debug, PartialEq, Eq, Structural)]
pub enum AutomaticError {
    InvalidScope,
    InvalidReportId,
    ReportIdMismatch,
    SealChanged,
    SessionUnavailable,
}

pub open spec fn is_scope_char(c: char) -> bool {
    ||| ('a' <= c && c <= 'z')
    ||| ('A' <= c && c <= 'Z')
    ||| ('0' <= c && c <= '9')
    ||| c == '-'
    ||| c == '_'
}

/// Whether a device can own reports: its name is part of their file names.
pub open spec fn is_scope(scope: Seq<char>) -> bool {
    &&& scope.len() > 0
    &&& crate::text::byte_len(scope) <= 128
    &&& forall|i: int| 0 <= i < scope.len() ==> is_scope_char(#[trigger] scope[i])
}

pub fn validate_scope(scope: &str) -> (valid: Result<(), AutomaticError>)
    ensures
        valid is Ok <==> is_scope(scope@),
        valid matches Err(error) ==> error == AutomaticError::InvalidScope,
{
    if scope.is_empty() || scope.len() > 128 {
        return Err(AutomaticError::InvalidScope);
    }
    let chars = chars_of(scope);
    let mut index: usize = 0;
    while index < chars.len()
        invariant
            index <= chars@.len(),
            chars@ == scope@,
            forall|i: int| 0 <= i < index ==> is_scope_char(#[trigger] scope@[i]),
        decreases chars.len() - index,
    {
        let c: char = chars[index];
        let allowed = ('a' <= c && c <= 'z') || ('A' <= c && c <= 'Z') || ('0' <= c && c <= '9')
            || c == '-' || c == '_';
        assert(allowed == is_scope_char(scope@[index as int]));
        if !allowed {
            return Err(AutomaticError::InvalidScope);
        }
        index += 1;
    }
    Ok(())
}

pub open spec fn not_negative(value: i64) -> nat {
    if value < 0 {
        0
    } else {
        value as nat
    }
}

/// The file name of a sealed report: its time, its device and its identifier.
pub open spec fn report_file_name(seal: SealView) -> Seq<char> {
    crate::text::decimal_digits(not_negative(seal.ended_at), 20) + "."@ + seal.device_id + "."@
        + crate::identifiers::hyphenated(crate::identifiers::identifier_digits(seal.report_id))
        + ".json"@
}

pub fn report_name(seal: &PendingSeal) -> (name: Result<String, AutomaticError>)
    ensures
        match name {
            Ok(name) => {
                &&& is_scope(seal@.device_id)
                &&& crate::identifiers::denotes_identifier(seal@.report_id)
                &&& name@ == report_file_name(seal@)
            },
            Err(AutomaticError::InvalidScope) => !is_scope(seal@.device_id),
            Err(error) => {
                &&& error == AutomaticError::InvalidReportId
                &&& is_scope(seal@.device_id)
                &&& !crate::identifiers::denotes_identifier(seal@.report_id)
            },
        },
{
    if validate_scope(seal.device_id.as_str()).is_err() {
        return Err(AutomaticError::InvalidScope);
    }
    let report_id = match canonical_identifier(seal.report_id.as_str()) {
        Some(report_id) => report_id,
        None => {
            return Err(AutomaticError::InvalidReportId);
        },
    };
    let ended_at: u64 = if seal.ended_at < 0 {
        0
    } else {
        seal.ended_at as u64
    };
    let mut name = padded_decimal(ended_at, 20);
    name.append(".");
    name.append(seal.device_id.as_str());
    name.append(".");
    name.append(report_id.as_str());
    name.append(".json");
    Ok(name)
}

/// The device that a file in the queue belongs to, if it is a report at all.
pub open spec fn scope_of_name(name: Seq<char>) -> Option<Seq<char>> {
    let parts = crate::text::split_at_each(name, '.');
    if parts.len() == 4 && parts[3] == "json"@ && crate::identifiers::denotes_identifier(parts[2]) {
        Some(parts[1])
    } else {
        None
    }
}

pub fn report_scope(name: &str) -> (scope: Option<String>)
    ensures
        crate::text::text_of(scope) == scope_of_name(name@),
{
    let mut parts = split_text(name, '.');
    let ghost texts = crate::text::texts_of(parts@);
    if parts.len() != 4 || !same_text(parts[3].as_str(), "json") {
        return None;
    }
    if canonical_identifier(parts[2].as_str()).is_none() {
        return None;
    }
    let scope = parts.swap_remove(1);
    assert(scope@ == texts[1]);
    Some(scope)
}

pub open spec fn not_after(left: Seq<char>, right: Seq<char>) -> bool {
    !crate::text::text_before(right, left)
}

pub open spec fn belongs_to(name: Seq<char>, device: Seq<char>) -> bool {
    scope_of_name(name) == Some(device)
}

/// The reports of `device` among the files of the queue, oldest first.
pub open spec fn reports_of(files: Seq<Seq<char>>, device: Seq<char>) -> Seq<Seq<char>> {
    files.filter(|name: Seq<char>| belongs_to(name, device)).sort_by(
        |l: Seq<char>, r: Seq<char>| not_after(l, r),
    )
}

proof fn lemma_bytes_before_is_an_order(left: Seq<u8>, right: Seq<u8>, third: Seq<u8>)
    ensures
        !crate::text::bytes_before(left, left),
        !(crate::text::bytes_before(left, right) && crate::text::bytes_before(right, left)),
        left != right ==> crate::text::bytes_before(left, right) || crate::text::bytes_before(
            right,
            left,
        ),
        crate::text::bytes_before(left, right) && crate::text::bytes_before(right, third)
            ==> crate::text::bytes_before(left, third),
    decreases left.len() + right.len() + third.len(),
{
    if left.len() > 0 {
        lemma_bytes_before_irreflexive(left);
    }
    if left.len() > 0 && right.len() > 0 && left[0] == right[0] {
        if third.len() > 0 && third[0] == left[0] {
            lemma_bytes_before_is_an_order(
                left.drop_first(),
                right.drop_first(),
                third.drop_first(),
            );
        } else {
            lemma_bytes_before_is_an_order(left.drop_first(), right.drop_first(), Seq::empty());
        }
        if left != right && left.drop_first() == right.drop_first() {
            assert(left =~= right) by {
                assert(left =~= seq![left[0]] + left.drop_first());
                assert(right =~= seq![right[0]] + right.drop_first());
            }
        }
    }
    if left != right && left.len() == 0 && right.len() == 0 {
        assert(left =~= right);
    }
}

proof fn lemma_bytes_before_irreflexive(bytes: Seq<u8>)
    ensures
        !crate::text::bytes_before(bytes, bytes),
    decreases bytes.len(),
{
    if bytes.len() > 0 {
        lemma_bytes_before_irreflexive(bytes.drop_first());
    }
}

pub proof fn lemma_text_order(left: Seq<char>, right: Seq<char>, third: Seq<char>)
    ensures
        !crate::text::text_before(left, left),
        !(crate::text::text_before(left, right) && crate::text::text_before(right, left)),
        left != right ==> crate::text::text_before(left, right) || crate::text::text_before(
            right,
            left,
        ),
        crate::text::text_before(left, right) && crate::text::text_before(right, third)
            ==> crate::text::text_before(left, third),
{
    lemma_bytes_before_is_an_order(
        vstd::utf8::encode_utf8(left),
        vstd::utf8::encode_utf8(right),
        vstd::utf8::encode_utf8(third),
    );
    if vstd::utf8::encode_utf8(left) == vstd::utf8::encode_utf8(right) {
        crate::text::lemma_encoding_is_injective(left, right);
    }
}

pub(crate) proof fn lemma_not_after_is_total()
    ensures
        vstd::relations::total_ordering(|l: Seq<char>, r: Seq<char>| not_after(l, r)),
{
    let leq = |l: Seq<char>, r: Seq<char>| not_after(l, r);
    assert forall|x: Seq<char>| #[trigger] leq(x, x) by {
        lemma_text_order(x, x, x);
    }
    assert forall|x: Seq<char>, y: Seq<char>| #[trigger] leq(x, y) && #[trigger] leq(y, x) implies x
        == y by {
        lemma_text_order(x, y, x);
    }
    assert forall|x: Seq<char>, y: Seq<char>, z: Seq<char>| #[trigger]
        leq(x, y) && #[trigger] leq(y, z) implies leq(x, z) by {
        lemma_text_order(x, y, z);
        lemma_text_order(z, x, y);
        lemma_text_order(y, z, x);
        lemma_text_order(z, y, x);
    }
    assert forall|x: Seq<char>, y: Seq<char>| #[trigger] leq(x, y) || #[trigger] leq(y, x) by {
        lemma_text_order(x, y, x);
    }
}

fn insert_report(reports: &mut Vec<String>, name: String)
    requires
        vstd::relations::sorted_by(
            crate::text::texts_of(old(reports)@),
            |l: Seq<char>, r: Seq<char>| not_after(l, r),
        ),
    ensures
        vstd::relations::sorted_by(
            crate::text::texts_of(final(reports)@),
            |l: Seq<char>, r: Seq<char>| not_after(l, r),
        ),
        crate::text::texts_of(final(reports)@).to_multiset() == crate::text::texts_of(
            old(reports)@,
        ).to_multiset().insert(name@),
{
    let ghost before = crate::text::texts_of(reports@);
    let ghost text = name@;
    let ghost leq = |l: Seq<char>, r: Seq<char>| not_after(l, r);
    let mut place: usize = 0;
    while place < reports.len() && !is_text_before(name.as_str(), reports[place].as_str())
        invariant
            place <= reports@.len(),
            text == name@,
            before == crate::text::texts_of(reports@),
            leq == (|l: Seq<char>, r: Seq<char>| not_after(l, r)),
            vstd::relations::sorted_by(before, leq),
            forall|i: int| 0 <= i < place ==> leq(#[trigger] before[i], text),
        decreases reports.len() - place,
    {
        assert(before[place as int] == reports@[place as int]@);
        place += 1;
    }
    reports.insert(place, name);
    proof {
        let after = crate::text::texts_of(reports@);
        assert(after =~= before.insert(place as int, text));
        vstd::seq_lib::to_multiset_insert(before, place as int, text);
        lemma_not_after_is_total();
        assert forall|i: int, j: int| 0 <= i < j < after.len() implies #[trigger] leq(
            after[i],
            after[j],
        ) by {
            if i < place && j > place {
                assert(leq(before[i], before[j - 1]));
            } else if i < place && j < place {
                assert(leq(before[i], before[j]));
            } else if i > place {
                assert(leq(before[i - 1], before[j - 1]));
            } else if i == place {
                assert(crate::text::text_before(text, before[place as int]));
                lemma_text_order(text, before[place as int], before[j - 1]);
                lemma_text_order(text, before[j - 1], text);
                if j - 1 > place {
                    assert(leq(before[place as int], before[j - 1]));
                    lemma_text_order(before[place as int], before[j - 1], text);
                    lemma_text_order(before[j - 1], text, before[place as int]);
                }
            }
        }
    }
}

/// The reports of a device among the files of the queue, oldest first.
pub fn pending_reports_for(files: &Vec<String>, device_id: &str) -> (reports: Vec<String>)
    ensures
        crate::text::texts_of(reports@) == reports_of(
            crate::text::texts_of(files@),
            device_id@,
        ),
{
    let ghost names = crate::text::texts_of(files@);
    let ghost own = |name: Seq<char>| belongs_to(name, device_id@);
    let ghost leq = |l: Seq<char>, r: Seq<char>| not_after(l, r);
    let mut reports: Vec<String> = Vec::new();
    let mut index: usize = 0;
    proof {
        reveal(Seq::filter);
        assert(names.take(0).filter(own) =~= Seq::empty());
        assert(crate::text::texts_of(reports@) =~= Seq::empty());
    }
    while index < files.len()
        invariant
            index <= files@.len(),
            names == crate::text::texts_of(files@),
            own == (|name: Seq<char>| belongs_to(name, device_id@)),
            leq == (|l: Seq<char>, r: Seq<char>| not_after(l, r)),
            vstd::relations::sorted_by(crate::text::texts_of(reports@), leq),
            crate::text::texts_of(reports@).to_multiset() == names.take(index as int).filter(
                own,
            ).to_multiset(),
        decreases files.len() - index,
    {
        proof {
            reveal(Seq::filter);
            assert(names.take(index + 1).drop_last() =~= names.take(index as int));
        }
        let belongs = match report_scope(files[index].as_str()) {
            Some(scope) => same_text(scope.as_str(), device_id),
            None => false,
        };
        assert(belongs == own(names[index as int]));
        if belongs {
            insert_report(&mut reports, files[index].clone());
            proof {
                vstd::seq_lib::to_multiset_build(
                    names.take(index as int).filter(own),
                    names[index as int],
                );
            }
        }
        index += 1;
    }
    proof {
        assert(names.take(names.len() as int) =~= names);
        let chosen = names.filter(own);
        lemma_not_after_is_total();
        chosen.lemma_sort_by_ensures(leq);
        vstd::seq_lib::lemma_sorted_unique(
            crate::text::texts_of(reports@),
            chosen.sort_by(leq),
            leq,
        );
    }
    reports
}

/// The place of the first report after `last`, from `from` on.
pub open spec fn place_after(reports: Seq<Seq<char>>, last: Seq<char>, from: int) -> int
    decreases reports.len() - from,
{
    if from >= reports.len() {
        reports.len() as int
    } else if crate::text::text_before(last, reports[from]) {
        from
    } else {
        place_after(reports, last, from + 1)
    }
}

/// The report to try next: the one after the last that was tried, then from
/// the start again.
pub open spec fn next_report(reports: Seq<Seq<char>>, last_attempted: Option<Seq<char>>) -> Option<
    Seq<char>,
> {
    if reports.len() == 0 {
        None
    } else {
        match last_attempted {
            Some(last) => if place_after(reports, last, 0) < reports.len() {
                Some(reports[place_after(reports, last, 0)])
            } else {
                Some(reports[0])
            },
            None => Some(reports[0]),
        }
    }
}

pub fn next_report_name(reports: &Vec<String>, last_attempted: &Option<String>) -> (name: Option<
    String,
>)
    ensures
        crate::text::text_of(name) == next_report(
            crate::text::texts_of(reports@),
            crate::text::text_of(*last_attempted),
        ),
{
    if reports.len() == 0 {
        return None;
    }
    if let Some(last) = last_attempted {
        let ghost texts = crate::text::texts_of(reports@);
        let mut place: usize = 0;
        while place < reports.len() && !is_text_before(last.as_str(), reports[place].as_str())
            invariant
                place <= reports@.len(),
                texts == crate::text::texts_of(reports@),
                place_after(texts, last@, 0) == place_after(texts, last@, place as int),
            decreases reports.len() - place,
        {
            place += 1;
        }
        if place < reports.len() {
            return Some(reports[place].clone());
        }
    }
    Some(reports[0].clone())
}

pub open spec fn capped_time(value: int) -> i64 {
    if value > i64::MAX {
        i64::MAX
    } else if value < i64::MIN {
        i64::MIN
    } else {
        value as i64
    }
}

/// The seal of what has been observed of a session since its last report.
pub open spec fn sealed(
    session: AutomaticSessionView,
    report_id: Seq<char>,
    trigger: Seq<char>,
    tunnel_running: bool,
    now: i64,
) -> SealView {
    SealView {
        report_id,
        trigger,
        session_id: session.session_id,
        device_id: session.device_id,
        sequence: if session.sequence == u64::MAX {
            u64::MAX
        } else {
            (session.sequence + 1) as u64
        },
        started_at: session.interval_started_at,
        ended_at: if now >= session.interval_started_at {
            now
        } else {
            session.interval_started_at
        },
        tunnel_running,
        connection_id: Some(session.connection_id),
    }
}

/// What looking at the tunnel calls for.
pub enum ObservationOutcome {
    SealPending,
    Unchanged,
    Started,
    Stopped,
    Checkpoint,
}

pub open spec fn observation_outcome(
    state: AutomaticStateView,
    connection: Option<Seq<char>>,
    tunnel_may_be_running: bool,
    now: i64,
) -> ObservationOutcome {
    if state.pending_seal is Some {
        ObservationOutcome::SealPending
    } else {
        match (state.session, connection) {
            (None, Some(_)) => if state.current_device_id is Some {
                ObservationOutcome::Started
            } else {
                ObservationOutcome::Unchanged
            },
            (None, None) => ObservationOutcome::Unchanged,
            (Some(session), Some(connection)) => if session.connection_id != connection {
                ObservationOutcome::Stopped
            } else if capped_time(now - session.interval_started_at) >= CHECKPOINT_SECONDS {
                ObservationOutcome::Checkpoint
            } else {
                ObservationOutcome::Unchanged
            },
            (Some(_), None) => if tunnel_may_be_running {
                ObservationOutcome::Unchanged
            } else {
                ObservationOutcome::Stopped
            },
        }
    }
}

/// The state after the tunnel was looked at, where `id` names the session or
/// the report that this begins.
pub open spec fn state_after_observation(
    state: AutomaticStateView,
    connection: Option<Seq<char>>,
    tunnel_may_be_running: bool,
    now: i64,
    id: Seq<char>,
) -> AutomaticStateView {
    match observation_outcome(state, connection, tunnel_may_be_running, now) {
        ObservationOutcome::SealPending => state,
        ObservationOutcome::Unchanged => state,
        ObservationOutcome::Started => AutomaticStateView {
            session: Some(
                AutomaticSessionView {
                    connection_id: connection->0,
                    session_id: id,
                    device_id: state.current_device_id->0,
                    sequence: 0,
                    interval_started_at: now,
                },
            ),
            ..state
        },
        ObservationOutcome::Stopped => AutomaticStateView {
            pending_seal: Some(sealed(state.session->0, id, "tunnel_stopped"@, false, now)),
            ..state
        },
        ObservationOutcome::Checkpoint => AutomaticStateView {
            pending_seal: Some(sealed(state.session->0, id, "six_hour_checkpoint"@, true, now)),
            ..state
        },
    }
}

/// Why a written report cannot be put in the queue.
pub open spec fn completion_error(state: AutomaticStateView, seal: SealView) -> Option<
    AutomaticError,
> {
    if state.pending_seal != Some(seal) {
        Some(AutomaticError::SealChanged)
    } else if seal.tunnel_running && state.session is None {
        Some(AutomaticError::SessionUnavailable)
    } else {
        None
    }
}

/// The state after a sealed report was written: the next interval begins where
/// it ended, or the session is over.
pub open spec fn state_after_completion(
    state: AutomaticStateView,
    seal: SealView,
) -> AutomaticStateView {
    AutomaticStateView {
        session: if seal.tunnel_running {
            Some(
                AutomaticSessionView {
                    sequence: seal.sequence,
                    interval_started_at: seal.ended_at,
                    ..state.session->0
                },
            )
        } else {
            None
        },
        pending_seal: None,
        ..state
    }
}

/// Whether a report may be uploaded now. Leaving does not wait for a retry.
pub open spec fn upload_allowed(state: AutomaticStateView, now: i64, latest: bool) -> bool {
    (latest || now >= state.next_upload_at) && state.current_device_id is Some
}

/// Which report is uploaded: the next in turn, or the newest.
pub open spec fn chosen_report(
    state: AutomaticStateView,
    files: Seq<Seq<char>>,
    latest: bool,
) -> Option<Seq<char>> {
    let reports = reports_of(files, state.current_device_id->0);
    if latest {
        if reports.len() == 0 {
            None
        } else {
            Some(reports.last())
        }
    } else {
        next_report(reports, state.last_attempted_report)
    }
}

/// The state after a report was chosen, or after none was left.
pub open spec fn state_after_choice(
    state: AutomaticStateView,
    files: Seq<Seq<char>>,
    latest: bool,
) -> AutomaticStateView {
    match chosen_report(state, files, latest) {
        Some(name) => AutomaticStateView { last_attempted_report: Some(name), ..state },
        None => AutomaticStateView {
            retry_attempt: 0,
            next_upload_at: 0,
            last_attempted_report: None,
            ..state
        },
    }
}

pub open spec fn has_pending_reports(state: AutomaticStateView, files: Seq<Seq<char>>) -> bool {
    state.current_device_id matches Some(device) && reports_of(files, device).len() > 0
}

/// The state after an upload succeeded; `files` is what is left in the queue.
pub open spec fn state_after_success(
    state: AutomaticStateView,
    files: Seq<Seq<char>>,
    now: i64,
) -> AutomaticStateView {
    AutomaticStateView {
        retry_attempt: 0,
        next_upload_at: if has_pending_reports(state, files) {
            capped_time(now + SUCCESS_UPLOAD_SPACING_SECONDS)
        } else {
            0
        },
        ..state
    }
}

/// How long to wait after the failed attempt number `attempt`, from zero.
pub open spec fn retry_delay(attempt: nat) -> i64 {
    if attempt == 0 {
        300
    } else if attempt == 1 {
        1_800
    } else if attempt == 2 {
        7_200
    } else {
        21_600
    }
}

pub open spec fn state_after_failure(state: AutomaticStateView, now: i64) -> AutomaticStateView {
    AutomaticStateView {
        retry_attempt: if state.retry_attempt >= 4 {
            4
        } else {
            (state.retry_attempt + 1) as usize
        },
        next_upload_at: capped_time(now + retry_delay(state.retry_attempt as nat)),
        ..state
    }
}

impl PendingSeal {
    pub fn duplicate(&self) -> (seal: Self)
        ensures
            seal == *self,
    {
        PendingSeal {
            report_id: self.report_id.clone(),
            trigger: self.trigger.clone(),
            session_id: self.session_id.clone(),
            device_id: self.device_id.clone(),
            sequence: self.sequence,
            started_at: self.started_at,
            ended_at: self.ended_at,
            tunnel_running: self.tunnel_running,
            connection_id: self.connection_id.clone(),
        }
    }

    pub fn same_as(&self, other: &PendingSeal) -> (same: bool)
        ensures
            same == (self@ == other@),
    {
        let same = same_text(self.report_id.as_str(), other.report_id.as_str()) && same_text(
            self.trigger.as_str(),
            other.trigger.as_str(),
        ) && same_text(self.session_id.as_str(), other.session_id.as_str()) && same_text(
            self.device_id.as_str(),
            other.device_id.as_str(),
        ) && self.sequence == other.sequence && self.started_at == other.started_at && self.ended_at
            == other.ended_at && self.tunnel_running == other.tunnel_running && same_optional_text(
            &self.connection_id,
            &other.connection_id,
        );
        same
    }
}

fn seal(session: &AutomaticSession, trigger: &str, tunnel_running: bool, now: i64) -> (seal:
    PendingSeal)
    ensures
        crate::identifiers::is_random_identifier(seal@.report_id),
        seal@ == sealed(session@, seal@.report_id, trigger@, tunnel_running, now),
{
    PendingSeal {
        report_id: random_identifier(),
        trigger: trigger.to_owned(),
        session_id: session.session_id.clone(),
        device_id: session.device_id.clone(),
        sequence: session.sequence.saturating_add(1),
        started_at: session.interval_started_at,
        ended_at: if now >= session.interval_started_at {
            now
        } else {
            session.interval_started_at
        },
        tunnel_running,
        connection_id: Some(session.connection_id.clone()),
    }
}

/// The queue of automatic reports of a desktop client.
pub struct DesktopAutomaticDiagnostics {
    pub state: AutomaticState,
    pub upload_in_progress: bool,
    pub warning: Option<String>,
}

/// What choosing a report for an upload comes to.
pub open spec fn candidate_begun(
    before: DesktopAutomaticDiagnostics,
    after: DesktopAutomaticDiagnostics,
    name: Option<Seq<char>>,
    now: i64,
    latest: bool,
    names: Seq<Seq<char>>,
) -> bool {
    if !before.upload_in_progress && upload_allowed(before.state@, now, latest) {
        &&& name == chosen_report(before.state@, names, latest)
        &&& after.state@ == state_after_choice(before.state@, names, latest)
        &&& after.upload_in_progress == (name is Some)
        &&& after.warning == before.warning
    } else {
        name is None && after == before
    }
}

impl DesktopAutomaticDiagnostics {
    pub fn empty_state() -> (state: AutomaticState)
        ensures
            state@ == initial_state(),
    {
        AutomaticState {
            current_device_id: None,
            session: None,
            pending_seal: None,
            retry_attempt: 0,
            next_upload_at: 0,
            last_attempted_report: None,
        }
    }

    /// A queue with the state that was kept, and what was wrong at the start.
    pub fn new(state: AutomaticState, startup_warning: Option<String>) -> (queue: Self)
        ensures
            queue.state == state,
            !queue.upload_in_progress,
            queue.warning == startup_warning,
    {
        DesktopAutomaticDiagnostics { state, upload_in_progress: false, warning: startup_warning }
    }

    pub fn startup_warning(&self) -> (warning: &Option<String>)
        ensures
            *warning == self.warning,
    {
        &self.warning
    }

    /// Selects the device that reports belong to and says whether the state has
    /// to be saved.
    pub fn set_current_device(&mut self, device_id: &str) -> (changed: Result<bool, AutomaticError>)
        ensures
            final(self).upload_in_progress == old(self).upload_in_progress,
            final(self).warning == old(self).warning,
            changed is Ok <==> is_scope(device_id@),
            changed matches Err(error) ==> error == AutomaticError::InvalidScope
                && *final(self) == *old(self),
            changed matches Ok(changed) ==> {
                &&& changed == (old(self).state@.current_device_id != Some(device_id@))
                &&& final(self).state@ == (AutomaticStateView {
                    current_device_id: Some(device_id@),
                    ..old(self).state@
                })
            },
    {
        if let Err(error) = validate_scope(device_id) {
            return Err(error);
        }
        let same = match &self.state.current_device_id {
            Some(current) => same_text(current.as_str(), device_id),
            None => false,
        };
        if same {
            return Ok(false);
        }
        self.state.current_device_id = Some(device_id.to_owned());
        Ok(true)
    }

    /// Forgets the device and says whether the state has to be saved.
    pub fn clear_current_device(&mut self) -> (changed: bool)
        ensures
            final(self).upload_in_progress == old(self).upload_in_progress,
            final(self).warning == old(self).warning,
            changed == (old(self).state@.current_device_id is Some),
            final(self).state@ == (AutomaticStateView {
                current_device_id: None,
                ..old(self).state@
            }),
    {
        let changed = self.state.current_device_id.is_some();
        self.state.current_device_id = None;
        changed
    }

    /// Looks at the tunnel. Whenever the outcome is not `Unchanged` or
    /// `SealPending` the state has to be saved.
    pub fn observe(&mut self, connection_id: Option<&str>, tunnel_may_be_running: bool, now: i64) -> (
    result: (AutomaticObservation, bool))
        ensures
            final(self).upload_in_progress == old(self).upload_in_progress,
            final(self).warning == old(self).warning,
            ({
                let connection = match connection_id {
                    Some(connection) => Some(connection@),
                    None => None,
                };
                let outcome = observation_outcome(
                    old(self).state@,
                    connection,
                    tunnel_may_be_running,
                    now,
                );
                let after = final(self).state@;
                let id = match outcome {
                    ObservationOutcome::Started => after.session->0.session_id,
                    ObservationOutcome::Stopped => after.pending_seal->0.report_id,
                    ObservationOutcome::Checkpoint => after.pending_seal->0.report_id,
                    _ => Seq::empty(),
                };
                let begins = outcome is Started || outcome is Stopped || outcome is Checkpoint;
                &&& after == state_after_observation(
                    old(self).state@,
                    connection,
                    tunnel_may_be_running,
                    now,
                    id,
                )
                &&& begins ==> crate::identifiers::is_random_identifier(id)
                &&& result.1 == begins
                &&& result.0.seal_pending == (after.pending_seal is Some)
                &&& result.0.interval_started is Some <==> outcome is Started
                &&& result.0.interval_started matches Some(interval) ==> interval.session_id@ == id
                    && interval.started_at == now
            }),
    {
        if self.state.pending_seal.is_some() {
            return (AutomaticObservation { seal_pending: true, interval_started: None }, false);
        }
        let unchanged = AutomaticObservation { seal_pending: false, interval_started: None };
        let pending = AutomaticObservation { seal_pending: true, interval_started: None };
        let (trigger, running): (&str, bool) = match (&self.state.session, connection_id) {
            (None, Some(connection)) => {
                let device_id = match &self.state.current_device_id {
                    Some(device_id) => device_id.clone(),
                    None => {
                        return (unchanged, false);
                    },
                };
                let session_id = random_identifier();
                let interval_started = Some(
                    AutomaticInterval { session_id: session_id.clone(), started_at: now },
                );
                self.state.session = Some(
                    AutomaticSession {
                        connection_id: connection.to_owned(),
                        session_id,
                        device_id,
                        sequence: 0,
                        interval_started_at: now,
                    },
                );
                return (AutomaticObservation { seal_pending: false, interval_started }, true);
            },
            (None, None) => {
                return (unchanged, false);
            },
            (Some(session), Some(connection)) => {
                if !same_text(session.connection_id.as_str(), connection) {
                    ("tunnel_stopped", false)
                } else if crate::network_incidents::saturating_seconds_between(
                    now,
                    session.interval_started_at,
                ) >= CHECKPOINT_SECONDS {
                    ("six_hour_checkpoint", true)
                } else {
                    return (unchanged, false);
                }
            },
            (Some(_), None) => {
                if tunnel_may_be_running {
                    return (unchanged, false);
                }
                ("tunnel_stopped", false)
            },
        };
        if let Some(session) = &self.state.session {
            self.state.pending_seal = Some(seal(session, trigger, running, now));
        }
        (pending, true)
    }

    pub fn pending_seal(&self) -> (seal: Option<PendingSeal>)
        ensures
            seal == self.state.pending_seal,
    {
        match &self.state.pending_seal {
            Some(seal) => Some(seal.duplicate()),
            None => None,
        }
    }

    /// The file that a report on `seal` has to be written to, if the report is
    /// the one that was sealed.
    pub fn materialization_name(&self, seal: &PendingSeal, report_id: &Option<String>) -> (name:
        Result<String, AutomaticError>)
        ensures
            match name {
                Ok(name) => {
                    &&& crate::text::text_of(*report_id) == Some(seal@.report_id)
                    &&& is_scope(seal@.device_id)
                    &&& crate::identifiers::denotes_identifier(seal@.report_id)
                    &&& name@ == report_file_name(seal@)
                },
                Err(AutomaticError::ReportIdMismatch) => crate::text::text_of(*report_id) != Some(
                    seal@.report_id,
                ),
                Err(AutomaticError::InvalidScope) => {
                    &&& crate::text::text_of(*report_id) == Some(seal@.report_id)
                    &&& !is_scope(seal@.device_id)
                },
                Err(error) => {
                    &&& error == AutomaticError::InvalidReportId
                    &&& crate::text::text_of(*report_id) == Some(seal@.report_id)
                    &&& is_scope(seal@.device_id)
                    &&& !crate::identifiers::denotes_identifier(seal@.report_id)
                },
            },
    {
        let matching = match report_id {
            Some(report_id) => same_text(report_id.as_str(), seal.report_id.as_str()),
            None => false,
        };
        if !matching {
            return Err(AutomaticError::ReportIdMismatch);
        }
        report_name(seal)
    }

    /// Notes that the report on `seal` is in the queue. The state has to be
    /// saved where this succeeds.
    pub fn materialize(&mut self, seal: &PendingSeal) -> (result: Result<(), AutomaticError>)
        ensures
            final(self).upload_in_progress == old(self).upload_in_progress,
            final(self).warning == old(self).warning,
            result is Ok ==> completion_error(old(self).state@, seal@) is None,
            result is Ok ==> final(self).state@ == state_after_completion(old(self).state@, seal@),
            result matches Err(error) ==> completion_error(old(self).state@, seal@) == Some(error)
                && final(self).state@ == old(self).state@,
    {
        let current = match &self.state.pending_seal {
            Some(pending) => pending.same_as(seal),
            None => false,
        };
        if !current {
            return Err(AutomaticError::SealChanged);
        }
        if seal.tunnel_running {
            match self.state.session.take() {
                Some(session) => {
                    let mut session = session;
                    session.sequence = seal.sequence;
                    session.interval_started_at = seal.ended_at;
                    self.state.session = Some(session);
                },
                None => {
                    return Err(AutomaticError::SessionUnavailable);
                },
            }
        } else {
            self.state.session = None;
        }
        self.state.pending_seal = None;
        Ok(())
    }

    /// The report whose turn it is; see `begin_upload_candidate`.
    pub fn upload_candidate(&mut self, now: i64, files: &Vec<String>) -> (name: Option<String>)
        ensures
            candidate_begun(
                *old(self),
                *final(self),
                crate::text::text_of(name),
                now,
                false,
                crate::text::texts_of(files@),
            ),
    {
        self.begin_upload_candidate(now, false, files)
    }

    /// The newest report, at once; see `begin_upload_candidate`.
    pub fn upload_latest_candidate(&mut self, now: i64, files: &Vec<String>) -> (name: Option<
        String,
    >)
        ensures
            candidate_begun(
                *old(self),
                *final(self),
                crate::text::text_of(name),
                now,
                true,
                crate::text::texts_of(files@),
            ),
    {
        self.begin_upload_candidate(now, true, files)
    }

    /// Chooses the report to upload among the files of the queue. One upload
    /// runs at a time; the state has to be saved where the upload was allowed.
    pub fn begin_upload_candidate(&mut self, now: i64, latest: bool, files: &Vec<String>) -> (name:
        Option<String>)
        ensures
            candidate_begun(
                *old(self),
                *final(self),
                crate::text::text_of(name),
                now,
                latest,
                crate::text::texts_of(files@),
            ),
    {
        if self.upload_in_progress || (!latest && now < self.state.next_upload_at) {
            return None;
        }
        let reports = match &self.state.current_device_id {
            Some(device_id) => pending_reports_for(files, device_id.as_str()),
            None => {
                return None;
            },
        };
        let name = if latest {
            if reports.len() == 0 {
                None
            } else {
                Some(reports[reports.len() - 1].clone())
            }
        } else {
            next_report_name(&reports, &self.state.last_attempted_report)
        };
        match name {
            Some(name) => {
                self.state.last_attempted_report = Some(name.clone());
                self.upload_in_progress = true;
                Some(name)
            },
            None => {
                self.state.retry_attempt = 0;
                self.state.next_upload_at = 0;
                self.state.last_attempted_report = None;
                None
            },
        }
    }

    /// Ends an upload, whatever came of it.
    pub fn release_upload(&mut self)
        ensures
            *final(self) == (DesktopAutomaticDiagnostics {
                upload_in_progress: false,
                ..*old(self)
            }),
    {
        self.upload_in_progress = false;
    }

    /// Notes that a report was delivered; `files` is what is left in the queue.
    pub fn upload_succeeded(&mut self, now: i64, files: &Vec<String>)
        ensures
            final(self).upload_in_progress == old(self).upload_in_progress,
            final(self).warning == old(self).warning,
            final(self).state@ == state_after_success(
                old(self).state@,
                crate::text::texts_of(files@),
                now,
            ),
    {
        let more_pending = match &self.state.current_device_id {
            Some(device_id) => pending_reports_for(files, device_id.as_str()).len() > 0,
            None => false,
        };
        self.state.retry_attempt = 0;
        self.state.next_upload_at = if more_pending {
            match now.checked_add(SUCCESS_UPLOAD_SPACING_SECONDS) {
                Some(time) => time,
                None => i64::MAX,
            }
        } else {
            0
        };
    }

    /// Notes that an upload failed and returns how long to wait.
    pub fn upload_failed(&mut self, now: i64) -> (delay: i64)
        ensures
            final(self).upload_in_progress == old(self).upload_in_progress,
            final(self).warning == old(self).warning,
            delay == retry_delay(old(self).state@.retry_attempt as nat),
            final(self).state@ == state_after_failure(old(self).state@, now),
    {
        let attempt: usize = self.state.retry_attempt;
        let delay: i64 = RETRY_DELAYS_SECONDS[if attempt < 3 {
            attempt
        } else {
            3
        }];
        self.state.retry_attempt = if attempt >= 4 {
            4
        } else {
            attempt + 1
        };
        self.state.next_upload_at = match now.checked_add(delay) {
            Some(time) => time,
            None => i64::MAX,
        };
        delay
    }
}

/// How many of the delivered reports, oldest first, are not kept.
pub fn sent_reports_to_remove(count: usize) -> (remove: usize)
    ensures
        remove == if count > MAX_SENT_REPORTS {
            count - MAX_SENT_REPORTS
        } else {
            0
        },
{
    count.saturating_sub(MAX_SENT_REPORTS)
}

} // verus!
