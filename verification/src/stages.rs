//! What the answer to each request of the pipeline amounts to.

use crate::error::{Failure, PipelineError, PipelineErrorView};
use crate::http::{is_success, status_is_success, Reply};
use crate::json::{json_member, json_parsed, member, parse, render};
use crate::remote_job::{
    read_status, read_task_id, status_of, task_id_of, verdict, verdict_on, Verdict, VerdictView,
};
use vstd::prelude::*;
use vstd::string::StringExecFns;

verus! {

/// The mathematical value of the result of a stage.
pub open spec fn outcome_view(r: Result<String, PipelineError>) -> Result<
    Seq<char>,
    PipelineErrorView,
> {
    match r {
        Ok(text) => Ok(text@),
        Err(error) => Err(error@),
    }
}

/// A failure with its detail.
pub open spec fn failed(failure: Failure, detail: Seq<char>) -> Result<
    Seq<char>,
    PipelineErrorView,
> {
    Err(PipelineErrorView { failure, detail })
}

/// What the answer to an upload amounts to. The upload succeeds where the
/// answer's status is a success, and then gives the answer's text as it is.
/// A refusal is reported with its status and its text.
pub open spec fn upload_outcome(reply: Reply) -> Result<Seq<char>, PipelineErrorView> {
    match reply {
        Reply::Unprepared { cause } => failed(Failure::UploadUnprepared, cause@),
        Reply::Unsent { cause } => failed(Failure::UploadUnsent, cause@),
        Reply::Unread { status, cause } => if is_success(status) {
            failed(Failure::UploadUnread, cause@)
        } else {
            failed(Failure::UploadRefusalUnread, cause@)
        },
        Reply::Received { status, status_line, body } => if is_success(status) {
            Ok(body@)
        } else {
            failed(Failure::UploadRefused, status_line@ + ": "@ + body@)
        },
    }
}

/// Reads the answer to an upload.
pub fn upload_result(reply: Reply) -> (r: Result<String, PipelineError>)
    ensures
        outcome_view(r) == upload_outcome(reply),
{
    match reply {
        Reply::Unprepared { cause } => Err(PipelineError::new(Failure::UploadUnprepared, cause)),
        Reply::Unsent { cause } => Err(PipelineError::new(Failure::UploadUnsent, cause)),
        Reply::Unread { status, cause } => if status_is_success(status) {
            Err(PipelineError::new(Failure::UploadUnread, cause))
        } else {
            Err(PipelineError::new(Failure::UploadRefusalUnread, cause))
        },
        Reply::Received { status, status_line, body } => if status_is_success(status) {
            Ok(body)
        } else {
            let detail = status_line.concat(": ").concat(body.as_str());
            Err(PipelineError::new(Failure::UploadRefused, detail))
        },
    }
}

/// What the answer to the processing request amounts to: its text as it is,
/// whatever its status. A request that could not be put together counts as
/// one that could not be sent, here and in the later stages.
pub open spec fn process_outcome(reply: Reply) -> Result<Seq<char>, PipelineErrorView> {
    match reply {
        Reply::Unprepared { cause } => failed(Failure::ProcessUnsent, cause@),
        Reply::Unsent { cause } => failed(Failure::ProcessUnsent, cause@),
        Reply::Unread { status, cause } => failed(Failure::ProcessUnread, cause@),
        Reply::Received { status, status_line, body } => Ok(body@),
    }
}

/// Reads the answer to the processing request.
pub fn process_result(reply: Reply) -> (r: Result<String, PipelineError>)
    ensures
        outcome_view(r) == process_outcome(reply),
{
    match reply {
        Reply::Unprepared { cause } => Err(PipelineError::new(Failure::ProcessUnsent, cause)),
        Reply::Unsent { cause } => Err(PipelineError::new(Failure::ProcessUnsent, cause)),
        Reply::Unread { status, cause } => Err(PipelineError::new(Failure::ProcessUnread, cause)),
        Reply::Received { status, status_line, body } => Ok(body),
    }
}

/// The transcript that a lookup under `transcript` amounts to.
pub open spec fn transcript_from(found: Option<Seq<char>>) -> Result<
    Seq<char>,
    PipelineErrorView,
> {
    match found {
        Some(transcript) => Ok(transcript),
        None => failed(Failure::TranscriptMissing, Seq::empty()),
    }
}

/// Requires the transcript to be there.
pub fn require_transcript(found: Option<String>) -> (r: Result<String, PipelineError>)
    ensures
        outcome_view(r) == transcript_from(found.deep_view()),
{
    match found {
        Some(transcript) => Ok(transcript),
        None => Err(PipelineError::bare(Failure::TranscriptMissing)),
    }
}

/// The transcript in the text of an answer: the JSON text of the member
/// `transcript`, so a transcript that is a JSON string keeps its quotes.
pub open spec fn transcript_of(body: Seq<char>) -> Result<Seq<char>, PipelineErrorView> {
    match json_parsed(body) {
        Err(words) => failed(Failure::TranscriptMalformed, words),
        Ok(doc) => transcript_from(json_member(doc, "transcript"@)),
    }
}

/// Reads the transcript out of the text of an answer.
pub fn read_transcript(body: &str) -> (r: Result<String, PipelineError>)
    ensures
        outcome_view(r) == transcript_of(body@),
{
    match parse(body) {
        Err(words) => Err(PipelineError::new(Failure::TranscriptMalformed, words)),
        Ok(doc) => {
            let found = match member(&doc, "transcript") {
                Some(transcript) => Some(render(transcript)),
                None => None,
            };
            require_transcript(found)
        },
    }
}

/// What the answer to the transcript request amounts to, whatever its
/// status.
pub open spec fn transcript_outcome(reply: Reply) -> Result<Seq<char>, PipelineErrorView> {
    match reply {
        Reply::Unprepared { cause } => failed(Failure::TranscriptUnsent, cause@),
        Reply::Unsent { cause } => failed(Failure::TranscriptUnsent, cause@),
        Reply::Unread { status, cause } => failed(Failure::TranscriptUnread, cause@),
        Reply::Received { status, status_line, body } => transcript_of(body@),
    }
}

/// Reads the answer to the transcript request.
pub fn transcript_result(reply: Reply) -> (r: Result<String, PipelineError>)
    ensures
        outcome_view(r) == transcript_outcome(reply),
{
    match reply {
        Reply::Unprepared { cause } => Err(PipelineError::new(Failure::TranscriptUnsent, cause)),
        Reply::Unsent { cause } => Err(PipelineError::new(Failure::TranscriptUnsent, cause)),
        Reply::Unread { status, cause } => Err(
            PipelineError::new(Failure::TranscriptUnread, cause),
        ),
        Reply::Received { status, status_line, body } => read_transcript(body.as_str()),
    }
}

/// What the answer to the submission of a chapter job amounts to: the task
/// identifier, whatever the answer's status.
pub open spec fn submit_outcome(reply: Reply) -> Result<Seq<char>, PipelineErrorView> {
    match reply {
        Reply::Unprepared { cause } => failed(Failure::SubmitUnsent, cause@),
        Reply::Unsent { cause } => failed(Failure::SubmitUnsent, cause@),
        Reply::Unread { status, cause } => failed(Failure::SubmitUnread, cause@),
        Reply::Received { status, status_line, body } => task_id_of(body@),
    }
}

/// Reads the answer to the submission of a chapter job.
pub fn submit_result(reply: Reply) -> (r: Result<String, PipelineError>)
    ensures
        outcome_view(r) == submit_outcome(reply),
{
    match reply {
        Reply::Unprepared { cause } => Err(PipelineError::new(Failure::SubmitUnsent, cause)),
        Reply::Unsent { cause } => Err(PipelineError::new(Failure::SubmitUnsent, cause)),
        Reply::Unread { status, cause } => Err(PipelineError::new(Failure::SubmitUnread, cause)),
        Reply::Received { status, status_line, body } => read_task_id(body.as_str()),
    }
}

/// Where polling stands after one answer.
#[derive(Debug, PartialEq, Eq)]
pub enum Polled {
    /// Ask again after this many seconds.
    Again { delay_secs: u64 },
    /// Polling is over.
    Over { result: Result<String, PipelineError> },
}

/// The mathematical value of a `Polled`.
pub enum PolledView {
    Again { delay_secs: u64 },
    Over { result: Result<Seq<char>, PipelineErrorView> },
}

impl View for Polled {
    type V = PolledView;

    open spec fn view(&self) -> PolledView {
        match *self {
            Polled::Again { delay_secs } => PolledView::Again { delay_secs },
            Polled::Over { result } => PolledView::Over { result: outcome_view(result) },
        }
    }
}

/// What a verdict means for the polling.
pub open spec fn polled_on(verdict: VerdictView) -> PolledView {
    match verdict {
        VerdictView::Again { delay_secs } => PolledView::Again { delay_secs },
        VerdictView::Finished { text } => PolledView::Over { result: Ok(text) },
        VerdictView::TextMissing => PolledView::Over {
            result: failed(Failure::TextMissing, Seq::empty()),
        },
    }
}

/// What one status answer amounts to, whatever its HTTP status. An answer
/// that did not arrive, could not be read or is not JSON ends the polling
/// with a failure; otherwise the polling rule decides.
pub open spec fn poll_outcome(reply: Reply) -> PolledView {
    match reply {
        Reply::Unprepared { cause } => PolledView::Over {
            result: failed(Failure::PollUnsent, cause@),
        },
        Reply::Unsent { cause } => PolledView::Over { result: failed(Failure::PollUnsent, cause@) },
        Reply::Unread { status, cause } => PolledView::Over {
            result: failed(Failure::PollUnread, cause@),
        },
        Reply::Received { status, status_line, body } => match status_of(body@) {
            Err(words) => PolledView::Over { result: failed(Failure::PollMalformed, words) },
            Ok(status) => polled_on(verdict_on(status)),
        },
    }
}

/// Reads one status answer.
pub fn poll_result(reply: Reply) -> (r: Polled)
    ensures
        r@ == poll_outcome(reply),
{
    match reply {
        Reply::Unprepared { cause } => Polled::Over {
            result: Err(PipelineError::new(Failure::PollUnsent, cause)),
        },
        Reply::Unsent { cause } => Polled::Over {
            result: Err(PipelineError::new(Failure::PollUnsent, cause)),
        },
        Reply::Unread { status, cause } => Polled::Over {
            result: Err(PipelineError::new(Failure::PollUnread, cause)),
        },
        Reply::Received { status, status_line, body } => match read_status(body.as_str()) {
            Err(words) => Polled::Over {
                result: Err(PipelineError::new(Failure::PollMalformed, words)),
            },
            Ok(status) => match verdict(status) {
                Verdict::Again { delay_secs } => Polled::Again { delay_secs },
                Verdict::Finished { text } => Polled::Over { result: Ok(text) },
                Verdict::TextMissing => Polled::Over {
                    result: Err(PipelineError::bare(Failure::TextMissing)),
                },
            },
        },
    }
}

} // verus!
