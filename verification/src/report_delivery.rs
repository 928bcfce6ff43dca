//! What is noted when an automatic report is queued and when it is sent.
use crate::automatic_diagnostics::{AutomaticStateView, PendingSeal};
use crate::diagnostics::{AppDiagnostics, DiagnosticsView, EntryView};
use vstd::prelude::*;

verus! {

/// What sending a report has come to.
#[derive(Debug)]
pub enum UploadOutcome {
    /// The report could not be read from the queue.
    Unreadable { kind: String },
    /// The panel has it. It was put away, and the queue holds what is listed,
    /// or putting it away has failed.
    Delivered { request_id: String, archived: Result<Vec<String>, String> },
    /// The panel does not have it.
    Failed { code: String },
}

/// The report that was sent.
#[derive(Debug)]
pub struct SentReport {
    pub tunnel_session_id: Option<String>,
    pub trigger: String,
}

pub open spec fn delivery_entry(
    report: SentReport,
    outcome: UploadOutcome,
    now_unix: i64,
) -> EntryView {
    let session = crate::text::text_of(report.tunnel_session_id);
    match outcome {
        UploadOutcome::Unreadable { kind } => crate::diagnostics::event(
            now_unix,
            "diagnostics.automatic_report_read_failed"@,
            None,
            None,
            Some(kind@),
            None,
        ),
        UploadOutcome::Delivered { request_id, archived: Ok(_) } => crate::diagnostics::event(
            now_unix,
            "diagnostics.automatic_report_uploaded"@,
            session,
            Some(request_id@),
            Some(report.trigger@),
            None,
        ),
        UploadOutcome::Delivered { request_id, archived: Err(kind) } => crate::diagnostics::event(
            now_unix,
            "diagnostics.automatic_sent_archive_failed"@,
            session,
            Some(request_id@),
            Some(kind@),
            None,
        ),
        UploadOutcome::Failed { code } => crate::diagnostics::event(
            now_unix,
            "diagnostics.automatic_upload_failed"@,
            session,
            None,
            Some(code@),
            None,
        ),
    }
}

/// The state of the reports after one was sent: only one that was delivered
/// and put away counts as sent.
pub open spec fn state_after_delivery(
    state: AutomaticStateView,
    outcome: UploadOutcome,
    now_unix: i64,
) -> AutomaticStateView {
    match outcome {
        UploadOutcome::Delivered { request_id, archived: Ok(left) } =>
            crate::automatic_diagnostics::state_after_success(
            state,
            crate::text::texts_of(left@),
            now_unix,
        ),
        _ => crate::automatic_diagnostics::state_after_failure(state, now_unix),
    }
}

fn borrowed(text: &Option<String>) -> (result: Option<&str>)
    ensures
        crate::diagnostics::optional(result) == crate::text::text_of(*text),
{
    match text {
        Some(text) => Some(text.as_str()),
        None => None,
    }
}

impl AppDiagnostics {
    /// A report on a sealed interval was queued, or that has failed.
    pub fn report_queued(&mut self, seal: &PendingSeal, failure: Option<&str>, now_unix: i64)
        ensures
            final(self)@ == crate::diagnostics::with_entry(
                old(self)@,
                match failure {
                    None => crate::diagnostics::event(
                        now_unix,
                        "diagnostics.automatic_report_queued"@,
                        Some(seal.session_id@),
                        Some(seal.report_id@),
                        Some(seal.trigger@),
                        None,
                    ),
                    Some(kind) => crate::diagnostics::event(
                        now_unix,
                        "diagnostics.automatic_report_queue_failed"@,
                        Some(seal.session_id@),
                        None,
                        Some(kind@),
                        None,
                    ),
                },
            ),
    {
        match failure {
            None => self.record_named(
                "diagnostics.automatic_report_queued",
                Some(seal.session_id.as_str()),
                Some(seal.report_id.as_str()),
                Some(seal.trigger.as_str()),
                now_unix,
            ),
            Some(kind) => self.record_named(
                "diagnostics.automatic_report_queue_failed",
                Some(seal.session_id.as_str()),
                None,
                Some(kind),
                now_unix,
            ),
        }
    }

    /// A report was sent, or could not be: the queue goes on, or waits, and
    /// what has happened is noted.
    pub fn upload_settled(&mut self, report: &SentReport, outcome: UploadOutcome, now_unix: i64)
        ensures
            final(self)@ == crate::diagnostics::with_entry(
                (DiagnosticsView {
                    automatic: state_after_delivery(old(self)@.automatic, outcome, now_unix),
                    upload_in_progress: false,
                    ..old(self)@
                }),
                delivery_entry(*report, outcome, now_unix),
            ),
    {
        self.release_automatic_upload();
        let session = borrowed(&report.tunnel_session_id);
        match outcome {
            UploadOutcome::Unreadable { kind } => {
                self.record_named(
                    "diagnostics.automatic_report_read_failed",
                    None,
                    None,
                    Some(kind.as_str()),
                    now_unix,
                );
                self.automatic_upload_failed(now_unix);
            },
            UploadOutcome::Delivered { request_id, archived } => match archived {
                Ok(left) => {
                    self.automatic_upload_succeeded(now_unix, &left);
                    self.record_named(
                        "diagnostics.automatic_report_uploaded",
                        session,
                        Some(request_id.as_str()),
                        Some(report.trigger.as_str()),
                        now_unix,
                    );
                },
                Err(kind) => {
                    self.automatic_upload_failed(now_unix);
                    self.record_named(
                        "diagnostics.automatic_sent_archive_failed",
                        session,
                        Some(request_id.as_str()),
                        Some(kind.as_str()),
                        now_unix,
                    );
                },
            },
            UploadOutcome::Failed { code } => {
                self.automatic_upload_failed(now_unix);
                self.record_named(
                    "diagnostics.automatic_upload_failed",
                    session,
                    None,
                    Some(code.as_str()),
                    now_unix,
                );
            },
        }
    }
}

/// A report that was not delivered, or could not be put away, is tried again
/// later: the queue waits for at least five minutes, and keeps everything else
/// that it knows.
pub proof fn law_unsettled_report_is_tried_again(
    state: AutomaticStateView,
    outcome: UploadOutcome,
    now_unix: i64,
)
    requires
        !(outcome matches UploadOutcome::Delivered { request_id, archived: Ok(_) }),
    ensures
        ({
            let after = state_after_delivery(state, outcome, now_unix);
            &&& after.next_upload_at >= crate::automatic_diagnostics::capped_time(now_unix + 300)
            &&& after == (AutomaticStateView {
                retry_attempt: after.retry_attempt,
                next_upload_at: after.next_upload_at,
                ..state
            })
        }),
{
}

} // verus!
