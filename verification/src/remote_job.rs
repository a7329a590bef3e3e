//! Reading the answers of the remote task system: the task identifier that a
//! submission returns, and the status that each poll reports.

use crate::error::{Failure, PipelineError, PipelineErrorView};
use crate::json::{json_member, json_parsed, json_string, member, parse, render, string_of};
use vstd::prelude::*;

verus! {

/// Seconds to wait before asking again about a task that is still pending.
pub const POLL_INTERVAL_SECS: u64 = 5;

/// What one status answer says about a task.
#[derive(Clone, Debug, PartialEq, Eq)]
pub enum JobStatus {
    /// The answer holds no `task_result.result`.
    Unreported,
    /// The result is the string `pending`.
    Pending,
    /// The result is the string `timeout_get`. `text` is the JSON text of
    /// the member `text` beside the result, if there is one.
    TimeoutGet { text: Option<String> },
    /// Any other result: the task is over. `text` is the JSON text of the
    /// member `text` beside the result, if there is one.
    Terminal { text: Option<String> },
}

/// The mathematical value of a `JobStatus`.
pub enum JobStatusView {
    Unreported,
    Pending,
    TimeoutGet { text: Option<Seq<char>> },
    Terminal { text: Option<Seq<char>> },
}

impl View for JobStatus {
    type V = JobStatusView;

    open spec fn view(&self) -> JobStatusView {
        match *self {
            JobStatus::Unreported => JobStatusView::Unreported,
            JobStatus::Pending => JobStatusView::Pending,
            JobStatus::TimeoutGet { text } => JobStatusView::TimeoutGet {
                text: text.deep_view(),
            },
            JobStatus::Terminal { text } => JobStatusView::Terminal { text: text.deep_view() },
        }
    }
}

/// The status that a result and the text beside it amount to. `label` is the
/// result where it is a string; a result that is no string is terminal like
/// any string other than `pending` and `timeout_get`.
pub open spec fn status_from(label: Option<Seq<char>>, text: Option<Seq<char>>) -> JobStatusView {
    if label == Some("pending"@) {
        JobStatusView::Pending
    } else if label == Some("timeout_get"@) {
        JobStatusView::TimeoutGet { text }
    } else {
        JobStatusView::Terminal { text }
    }
}

/// Tells the three kinds of result apart.
pub fn classify(label: Option<&str>, text: Option<String>) -> (r: JobStatus)
    ensures
        r@ == status_from(label.deep_view(), text.deep_view()),
{
    match label {
        Some(word) => {
            let word = word.to_owned();
            if word == "pending".to_owned() {
                JobStatus::Pending
            } else if word == "timeout_get".to_owned() {
                JobStatus::TimeoutGet { text }
            } else {
                JobStatus::Terminal { text }
            }
        },
        None => JobStatus::Terminal { text },
    }
}

/// The status that a lookup of `task_result.result` amounts to. `found` is
/// `None` where the answer holds no such member; else it gives the result,
/// where that is a string, and the JSON text of the member `text` beside it,
/// where there is one.
pub open spec fn status_found(
    found: Option<(Option<Seq<char>>, Option<Seq<char>>)>,
) -> JobStatusView {
    match found {
        None => JobStatusView::Unreported,
        Some((label, text)) => status_from(label, text),
    }
}

/// The status that a lookup of `task_result.result` amounts to.
pub fn status_for(found: Option<(Option<&str>, Option<String>)>) -> (r: JobStatus)
    ensures
        r@ == status_found(found.deep_view()),
{
    match found {
        None => JobStatus::Unreported,
        Some((label, text)) => classify(label, text),
    }
}

/// What the parser finds under `task_result.result` and `task_result.text`
/// in a document.
pub open spec fn status_lookup(doc: Seq<char>) -> Option<(Option<Seq<char>>, Option<Seq<char>>)> {
    match json_member(doc, "task_result"@) {
        None => None,
        Some(task_result) => match json_member(task_result, "result"@) {
            None => None,
            Some(result) => Some((json_string(result), json_member(task_result, "text"@))),
        },
    }
}

/// The status that a status answer reports, or the parser's words where the
/// answer is not JSON. The status sits under `task_result.result`, the text
/// beside it under `task_result.text`.
pub open spec fn status_of(body: Seq<char>) -> Result<JobStatusView, Seq<char>> {
    match json_parsed(body) {
        Err(words) => Err(words),
        Ok(doc) => Ok(status_found(status_lookup(doc))),
    }
}

/// Reads the status out of a status answer. An answer that is not JSON gives
/// the parser's words as the error.
pub fn read_status(body: &str) -> (r: Result<JobStatus, String>)
    ensures
        match r {
            Ok(status) => status_of(body@) == Ok::<JobStatusView, Seq<char>>(status@),
            Err(words) => status_of(body@) == Err::<JobStatusView, Seq<char>>(words@),
        },
{
    match parse(body) {
        Err(words) => Err(words),
        Ok(doc) => {
            let found = match member(&doc, "task_result") {
                None => None,
                Some(task_result) => match member(task_result, "result") {
                    None => None,
                    Some(result) => {
                        let text = match member(task_result, "text") {
                            Some(found) => Some(render(found)),
                            None => None,
                        };
                        Some((string_of(result), text))
                    },
                },
            };
            Ok(status_for(found))
        },
    }
}

/// What to do after a status answer.
#[derive(Clone, Debug, PartialEq, Eq)]
pub enum Verdict {
    /// The task is not over: ask again after this many seconds.
    Again { delay_secs: u64 },
    /// The task is over, with this payload.
    Finished { text: String },
    /// The task is over, but its answer holds no text.
    TextMissing,
}

/// The mathematical value of a `Verdict`.
pub enum VerdictView {
    Again { delay_secs: u64 },
    Finished { text: Seq<char> },
    TextMissing,
}

impl View for Verdict {
    type V = VerdictView;

    open spec fn view(&self) -> VerdictView {
        match *self {
            Verdict::Again { delay_secs } => VerdictView::Again { delay_secs },
            Verdict::Finished { text } => VerdictView::Finished { text: text@ },
            Verdict::TextMissing => VerdictView::TextMissing,
        }
    }
}

/// The polling rule. A pending task is asked about again after the polling
/// interval, and an answer without a status is asked about again at once.
/// Any status but `pending` ends the polling where a text stands beside it,
/// and gives that text. Without a text, `timeout_get` is asked about again
/// at once, and any other status is a failure.
pub open spec fn verdict_on(status: JobStatusView) -> VerdictView {
    match status {
        JobStatusView::Pending => VerdictView::Again { delay_secs: POLL_INTERVAL_SECS },
        JobStatusView::TimeoutGet { text: Some(text) } => VerdictView::Finished { text },
        JobStatusView::TimeoutGet { text: None } => VerdictView::Again { delay_secs: 0 },
        JobStatusView::Unreported => VerdictView::Again { delay_secs: 0 },
        JobStatusView::Terminal { text: Some(text) } => VerdictView::Finished { text },
        JobStatusView::Terminal { text: None } => VerdictView::TextMissing,
    }
}

/// Applies the polling rule to one status.
pub fn verdict(status: JobStatus) -> (r: Verdict)
    ensures
        r@ == verdict_on(status@),
{
    match status {
        JobStatus::Pending => Verdict::Again { delay_secs: POLL_INTERVAL_SECS },
        JobStatus::TimeoutGet { text: Some(text) } => Verdict::Finished { text },
        JobStatus::TimeoutGet { text: None } => Verdict::Again { delay_secs: 0 },
        JobStatus::Unreported => Verdict::Again { delay_secs: 0 },
        JobStatus::Terminal { text: Some(text) } => Verdict::Finished { text },
        JobStatus::Terminal { text: None } => Verdict::TextMissing,
    }
}

/// A failure that says it all.
pub open spec fn bare(failure: Failure) -> PipelineErrorView {
    PipelineErrorView { failure, detail: Seq::empty() }
}

/// The task identifier that a lookup of `task_id` amounts to. `found` is
/// `None` where the answer holds no such member; else it gives the member,
/// where that is a string.
pub open spec fn task_id_from(found: Option<Option<Seq<char>>>) -> Result<
    Seq<char>,
    PipelineErrorView,
> {
    match found {
        None => Err(bare(Failure::TaskIdMissing)),
        Some(None) => Err(bare(Failure::TaskIdNotText)),
        Some(Some(id)) => Ok(id),
    }
}

/// Requires the task identifier to be there, and to be a string.
pub fn require_task_id(found: Option<Option<&str>>) -> (r: Result<String, PipelineError>)
    ensures
        match r {
            Ok(id) => task_id_from(found.deep_view()) == Ok::<Seq<char>, PipelineErrorView>(id@),
            Err(error) => task_id_from(found.deep_view()) == Err::<Seq<char>, PipelineErrorView>(
                error@,
            ),
        },
{
    match found {
        None => Err(PipelineError::bare(Failure::TaskIdMissing)),
        Some(None) => Err(PipelineError::bare(Failure::TaskIdNotText)),
        Some(Some(id)) => Ok(id.to_owned()),
    }
}

/// What the answer to a submission amounts to: the task identifier under
/// `task_id`, or the failure to find one. An answer that is not JSON fails
/// with the parser's words.
pub open spec fn task_id_of(body: Seq<char>) -> Result<Seq<char>, PipelineErrorView> {
    match json_parsed(body) {
        Err(words) => Err(PipelineErrorView { failure: Failure::SubmitMalformed, detail: words }),
        Ok(doc) => task_id_from(
            match json_member(doc, "task_id"@) {
                None => None,
                Some(task_id) => Some(json_string(task_id)),
            },
        ),
    }
}

/// Reads the task identifier out of the answer to a submission.
pub fn read_task_id(body: &str) -> (r: Result<String, PipelineError>)
    ensures
        match r {
            Ok(id) => task_id_of(body@) == Ok::<Seq<char>, PipelineErrorView>(id@),
            Err(error) => task_id_of(body@) == Err::<Seq<char>, PipelineErrorView>(error@),
        },
{
    match parse(body) {
        Err(words) => Err(PipelineError::new(Failure::SubmitMalformed, words)),
        Ok(doc) => {
            let found = match member(&doc, "task_id") {
                None => None,
                Some(task_id) => Some(string_of(task_id)),
            };
            require_task_id(found)
        },
    }
}

} // verus!
