//! The pipeline as a machine: it hands out one request at a time and decides
//! from the answer what comes next. The caller performs the requests, waits
//! where asked to, and feeds the answers back in.

use crate::endpoints::{
    chapters_request, chapters_request_of, process_request, process_request_of, status_request,
    status_request_of, transcript_request, transcript_request_of, upload_request,
    upload_request_of,
};
use crate::error::{Failure, PipelineError, PipelineErrorView, Stage};
use crate::http::{borrowed_token, owned_token, Reply, Request, RequestView};
use crate::remote_job::{status_of, verdict_on, JobStatusView, POLL_INTERVAL_SECS};
use crate::stages::{
    outcome_view, poll_outcome, poll_result, process_outcome, process_result, submit_outcome,
    submit_result, transcript_outcome, transcript_result, upload_outcome, upload_result, Polled,
    PolledView,
};
use vstd::prelude::*;

verus! {

/// The request that the pipeline waits to have answered.
#[derive(Clone, Debug, PartialEq, Eq)]
pub enum Phase {
    Upload,
    Process,
    Transcript,
    Submit,
    Poll { task_id: String },
}

/// The mathematical value of a `Phase`.
pub enum PhaseView {
    Upload,
    Process,
    Transcript,
    Submit,
    Poll { task_id: Seq<char> },
}

impl View for Phase {
    type V = PhaseView;

    open spec fn view(&self) -> PhaseView {
        match *self {
            Phase::Upload => PhaseView::Upload,
            Phase::Process => PhaseView::Process,
            Phase::Transcript => PhaseView::Transcript,
            Phase::Submit => PhaseView::Submit,
            Phase::Poll { task_id } => PhaseView::Poll { task_id: task_id@ },
        }
    }
}

impl PhaseView {
    /// The stage that the phase belongs to.
    pub open spec fn stage(self) -> Stage {
        match self {
            PhaseView::Upload => Stage::Upload,
            PhaseView::Process => Stage::Process,
            PhaseView::Transcript => Stage::Transcript,
            PhaseView::Submit => Stage::Submit,
            PhaseView::Poll { task_id } => Stage::Poll,
        }
    }
}

/// One run of the pipeline, between two requests.
#[derive(Debug, PartialEq, Eq)]
pub struct Pipeline {
    filename_id: String,
    auth_token: Option<String>,
    trigger_processing: bool,
    phase: Phase,
}

/// The mathematical value of a `Pipeline`.
pub struct PipelineView {
    /// The key under which the services know the audio file.
    pub filename_id: Seq<char>,
    /// The caller's token, if the caller has one.
    pub auth_token: Option<Seq<char>>,
    /// Whether the transcription is set off after the upload.
    pub trigger_processing: bool,
    /// The request that is waiting for its answer.
    pub phase: PhaseView,
}

impl View for Pipeline {
    type V = PipelineView;

    closed spec fn view(&self) -> PipelineView {
        PipelineView {
            filename_id: self.filename_id@,
            auth_token: self.auth_token.deep_view(),
            trigger_processing: self.trigger_processing,
            phase: self.phase@,
        }
    }
}

/// What the pipeline asks of its caller.
#[derive(Debug, PartialEq, Eq)]
pub enum Progress {
    /// Wait `delay_secs` seconds, perform `request`, and hand the answer to
    /// `pipeline`.
    Next { pipeline: Pipeline, delay_secs: u64, request: Request },
    /// The run is over.
    Done { result: Result<String, PipelineError> },
}

/// The mathematical value of a `Progress`.
pub enum ProgressView {
    Next { pipeline: PipelineView, delay_secs: u64, request: RequestView },
    Done { result: Result<Seq<char>, PipelineErrorView> },
}

impl View for Progress {
    type V = ProgressView;

    open spec fn view(&self) -> ProgressView {
        match *self {
            Progress::Next { pipeline, delay_secs, request } => ProgressView::Next {
                pipeline: pipeline@,
                delay_secs,
                request: request@,
            },
            Progress::Done { result } => ProgressView::Done { result: outcome_view(result) },
        }
    }
}

impl PipelineView {
    /// The pipeline in another phase.
    pub open spec fn at(self, phase: PhaseView) -> PipelineView {
        PipelineView { phase, ..self }
    }

    /// The step into the transcript stage: the transcript is asked for.
    pub open spec fn fetch_transcript(self) -> ProgressView {
        ProgressView::Next {
            pipeline: self.at(PhaseView::Transcript),
            delay_secs: 0,
            request: transcript_request_of(self.filename_id),
        }
    }

    /// What follows the answer `reply` to the request that the pipeline
    /// waits for. The stages follow each other strictly: upload, then the
    /// processing request if it is wanted, then the transcript, the
    /// submission of the chapter job, and the polling of its status. A
    /// failure ends the run at once; so does the text that the polling ends
    /// with.
    pub open spec fn next(self, reply: Reply) -> ProgressView {
        match self.phase {
            PhaseView::Upload => match upload_outcome(reply) {
                Err(error) => ProgressView::Done { result: Err(error) },
                Ok(_) => if self.trigger_processing {
                    ProgressView::Next {
                        pipeline: self.at(PhaseView::Process),
                        delay_secs: 0,
                        request: process_request_of(self.filename_id, self.auth_token),
                    }
                } else {
                    self.fetch_transcript()
                },
            },
            PhaseView::Process => match process_outcome(reply) {
                Err(error) => ProgressView::Done { result: Err(error) },
                Ok(_) => self.fetch_transcript(),
            },
            PhaseView::Transcript => match transcript_outcome(reply) {
                Err(error) => ProgressView::Done { result: Err(error) },
                Ok(transcript) => ProgressView::Next {
                    pipeline: self.at(PhaseView::Submit),
                    delay_secs: 0,
                    request: chapters_request_of(self.filename_id, transcript, self.auth_token),
                },
            },
            PhaseView::Submit => match submit_outcome(reply) {
                Err(error) => ProgressView::Done { result: Err(error) },
                Ok(task_id) => ProgressView::Next {
                    pipeline: self.at(PhaseView::Poll { task_id }),
                    delay_secs: 0,
                    request: status_request_of(task_id),
                },
            },
            PhaseView::Poll { task_id } => match poll_outcome(reply) {
                PolledView::Over { result } => ProgressView::Done { result },
                PolledView::Again { delay_secs } => ProgressView::Next {
                    pipeline: self,
                    delay_secs,
                    request: status_request_of(task_id),
                },
            },
        }
    }
}

impl Pipeline {
    /// Starts a full run for the audio file at `audio_path`, known to the
    /// services as `filename_id`: the first request is the upload.
    pub fn start(
        audio_path: &str,
        filename_id: &str,
        auth_token: Option<&str>,
        trigger_processing: bool,
    ) -> (r: (Pipeline, Request))
        ensures
            r.0@ == (PipelineView {
                filename_id: filename_id@,
                auth_token: auth_token.deep_view(),
                trigger_processing,
                phase: PhaseView::Upload,
            }),
            r.1@ == upload_request_of(audio_path@, auth_token.deep_view()),
    {
        let pipeline = Pipeline {
            filename_id: filename_id.to_owned(),
            auth_token: owned_token(auth_token),
            trigger_processing,
            phase: Phase::Upload,
        };
        (pipeline, upload_request(audio_path, auth_token))
    }

    /// Starts a run for a file that the services already hold: the first
    /// request is the one for the transcript.
    pub fn take_transcription(filename_id: &str, auth_token: Option<&str>) -> (r: (
        Pipeline,
        Request,
    ))
        ensures
            r.0@ == (PipelineView {
                filename_id: filename_id@,
                auth_token: auth_token.deep_view(),
                trigger_processing: false,
                phase: PhaseView::Transcript,
            }),
            r.1@ == transcript_request_of(filename_id@),
    {
        let pipeline = Pipeline {
            filename_id: filename_id.to_owned(),
            auth_token: owned_token(auth_token),
            trigger_processing: false,
            phase: Phase::Transcript,
        };
        (pipeline, transcript_request(filename_id))
    }

    /// The stage of the request that is waiting for its answer.
    pub fn stage(&self) -> (r: Stage)
        ensures
            r == self@.phase.stage(),
    {
        match self.phase {
            Phase::Upload => Stage::Upload,
            Phase::Process => Stage::Process,
            Phase::Transcript => Stage::Transcript,
            Phase::Submit => Stage::Submit,
            Phase::Poll { .. } => Stage::Poll,
        }
    }

    /// The move into the transcript stage.
    fn into_transcript(self) -> (r: Progress)
        ensures
            r@ == self@.fetch_transcript(),
    {
        let request = transcript_request(self.filename_id.as_str());
        Progress::Next {
            pipeline: Pipeline {
                filename_id: self.filename_id,
                auth_token: self.auth_token,
                trigger_processing: self.trigger_processing,
                phase: Phase::Transcript,
            },
            delay_secs: 0,
            request,
        }
    }

    /// Takes the answer to the request that was handed out last, and says
    /// what comes next.
    pub fn step(self, reply: Reply) -> (r: Progress)
        ensures
            r@ == self@.next(reply),
    {
        match self.phase {
            Phase::Upload => match upload_result(reply) {
                Err(error) => Progress::Done { result: Err(error) },
                Ok(_) => if self.trigger_processing {
                    let request = process_request(
                        self.filename_id.as_str(),
                        borrowed_token(&self.auth_token),
                    );
                    Progress::Next {
                        pipeline: Pipeline {
                            filename_id: self.filename_id,
                            auth_token: self.auth_token,
                            trigger_processing: self.trigger_processing,
                            phase: Phase::Process,
                        },
                        delay_secs: 0,
                        request,
                    }
                } else {
                    self.into_transcript()
                },
            },
            Phase::Process => match process_result(reply) {
                Err(error) => Progress::Done { result: Err(error) },
                Ok(_) => self.into_transcript(),
            },
            Phase::Transcript => match transcript_result(reply) {
                Err(error) => Progress::Done { result: Err(error) },
                Ok(transcript) => {
                    let request = chapters_request(
                        self.filename_id.as_str(),
                        transcript.as_str(),
                        borrowed_token(&self.auth_token),
                    );
                    Progress::Next {
                        pipeline: Pipeline {
                            filename_id: self.filename_id,
                            auth_token: self.auth_token,
                            trigger_processing: self.trigger_processing,
                            phase: Phase::Submit,
                        },
                        delay_secs: 0,
                        request,
                    }
                },
            },
            Phase::Submit => match submit_result(reply) {
                Err(error) => Progress::Done { result: Err(error) },
                Ok(task_id) => {
                    let request = status_request(task_id.as_str());
                    Progress::Next {
                        pipeline: Pipeline {
                            filename_id: self.filename_id,
                            auth_token: self.auth_token,
                            trigger_processing: self.trigger_processing,
                            phase: Phase::Poll { task_id },
                        },
                        delay_secs: 0,
                        request,
                    }
                },
            },
            Phase::Poll { task_id } => match poll_result(reply) {
                Polled::Over { result } => Progress::Done { result },
                Polled::Again { delay_secs } => {
                    let request = status_request(task_id.as_str());
                    Progress::Next {
                        pipeline: Pipeline {
                            filename_id: self.filename_id,
                            auth_token: self.auth_token,
                            trigger_processing: self.trigger_processing,
                            phase: Phase::Poll { task_id },
                        },
                        delay_secs,
                        request,
                    }
                },
            },
        }
    }
}

/// The stages run strictly one after the other. After an answer the pipeline
/// waits in a later stage, or it is polling and goes on polling; it works for
/// the same file and the same caller as before. A run that ends in a failure
/// ends in a failure of the stage in which it stood.
pub proof fn law_pipeline_moves_forward(pipeline: PipelineView, reply: Reply)
    ensures
        pipeline.next(reply) matches ProgressView::Next { pipeline: then, .. } ==> {
            &&& then.filename_id == pipeline.filename_id
            &&& then.auth_token == pipeline.auth_token
            &&& then.trigger_processing == pipeline.trigger_processing
            &&& if pipeline.phase is Poll {
                then.phase == pipeline.phase
            } else {
                pipeline.phase.stage().rank() < then.phase.stage().rank()
            }
        },
        pipeline.next(reply) matches ProgressView::Done { result: Err(error) }
            ==> error.failure.stage() == pipeline.phase.stage(),
{
}

impl ProgressView {
    /// Where a run stands once the answers `replies` have been fed in, one
    /// after the other. Answers that come after the end of the run change
    /// nothing.
    pub open spec fn after(self, replies: Seq<Reply>) -> ProgressView
        decreases replies.len(),
    {
        if replies.len() == 0 {
            self
        } else {
            match self {
                ProgressView::Done { result } => self,
                ProgressView::Next { pipeline, delay_secs, request } => pipeline.next(
                    replies[0],
                ).after(replies.drop_first()),
            }
        }
    }

    /// The seconds that the caller is asked to wait while the answers
    /// `replies` are fed in: the delays of the requests that these answers
    /// lead to.
    pub open spec fn waited(self, replies: Seq<Reply>) -> nat
        decreases replies.len(),
    {
        if replies.len() == 0 {
            0
        } else {
            match self {
                ProgressView::Done { result } => 0,
                ProgressView::Next { pipeline, delay_secs, request } => {
                    let then = pipeline.next(replies[0]);
                    let delay: nat = match then {
                        ProgressView::Next { pipeline, delay_secs, request } => delay_secs as nat,
                        ProgressView::Done { result } => 0,
                    };
                    delay + then.waited(replies.drop_first())
                },
            }
        }
    }
}

/// The status that an answer reports, where it arrived, could be read and is
/// JSON.
pub open spec fn reported(reply: Reply) -> Option<JobStatusView> {
    match reply {
        Reply::Received { status, status_line, body } => match status_of(body@) {
            Ok(status) => Some(status),
            Err(_) => None,
        },
        _ => None,
    }
}

/// The answer leaves the task open: it reports a status after which the
/// polling rule asks again. That is `pending`, `timeout_get` without a text
/// beside it, or no status at all.
pub open spec fn is_unsettled(reply: Reply) -> bool {
    reported(reply) matches Some(status) && verdict_on(status) is Again
}

/// How many of the answers report a pending task.
pub open spec fn pending_count(replies: Seq<Reply>) -> nat
    decreases replies.len(),
{
    if replies.len() == 0 {
        0
    } else {
        let first: nat = if reported(replies[0]) == Some(JobStatusView::Pending) {
            1
        } else {
            0
        };
        first + pending_count(replies.drop_first())
    }
}

/// The run is polling: the request to perform asks for the status of the
/// task that the pipeline follows.
pub open spec fn is_polling(progress: ProgressView) -> bool {
    &&& progress matches ProgressView::Next { pipeline, delay_secs, request }
    &&& pipeline.phase matches PhaseView::Poll { task_id }
    &&& request == status_request_of(task_id)
}

/// Feeding answers in two batches is feeding them in one.
proof fn lemma_after_splits(progress: ProgressView, first: Seq<Reply>, second: Seq<Reply>)
    ensures
        progress.after(first + second) == progress.after(first).after(second),
        progress.waited(first + second) == progress.waited(first) + progress.after(
            first,
        ).waited(second),
    decreases first.len(),
{
    if first.len() == 0 {
        assert(first + second =~= second);
    } else {
        match progress {
            ProgressView::Done { result } => {},
            ProgressView::Next { pipeline, delay_secs, request } => {
                assert((first + second)[0] == first[0]);
                assert((first + second).drop_first() =~= first.drop_first() + second);
                lemma_after_splits(pipeline.next(first[0]), first.drop_first(), second);
            },
        }
    }
}

/// Polling goes on for as long as the answers leave the task open: the
/// pipeline stays where it is and asks for the status again. It has waited
/// the polling interval once for each pending answer, and not at all for the
/// others.
pub proof fn law_polling_goes_on(progress: ProgressView, replies: Seq<Reply>)
    requires
        is_polling(progress),
        forall|i: int| 0 <= i < replies.len() ==> is_unsettled(#[trigger] replies[i]),
    ensures
        is_polling(progress.after(replies)),
        progress.after(replies)->pipeline == progress->pipeline,
        progress.waited(replies) == POLL_INTERVAL_SECS * pending_count(replies),
    decreases replies.len(),
{
    if replies.len() > 0 {
        let then = progress->pipeline.next(replies[0]);
        let rest = replies.drop_first();
        assert(is_unsettled(replies[0]));
        assert forall|i: int| 0 <= i < rest.len() implies is_unsettled(#[trigger] rest[i]) by {
            assert(rest[i] == replies[i + 1]);
        }
        law_polling_goes_on(then, rest);
        assert(POLL_INTERVAL_SECS * (1 + pending_count(rest)) == POLL_INTERVAL_SECS
            + POLL_INTERVAL_SECS * pending_count(rest)) by (nonlinear_arith);
    } else {
        assert(POLL_INTERVAL_SECS * 0 == 0);
    }
}

/// Polling ends at the first answer that does not leave the task open, with
/// what that answer amounts to, and not before. Until then the caller has
/// waited the polling interval once for each pending answer.
pub proof fn law_polling_ends_at_first_settled(progress: ProgressView, replies: Seq<Reply>)
    requires
        is_polling(progress),
        replies.len() > 0,
        forall|i: int| 0 <= i < replies.len() - 1 ==> is_unsettled(#[trigger] replies[i]),
        poll_outcome(replies.last()) is Over,
    ensures
        progress.after(replies) == (ProgressView::Done {
            result: poll_outcome(replies.last())->result,
        }),
        forall|n: int|
            0 <= n < replies.len() ==> is_polling(#[trigger] progress.after(replies.take(n))),
        progress.waited(replies) == POLL_INTERVAL_SECS * pending_count(replies.drop_last()),
{
    let open = replies.drop_last();
    let last = seq![replies.last()];
    assert(replies =~= open + last);
    lemma_after_splits(progress, open, last);
    law_polling_goes_on(progress, open);
    let polling = progress.after(open);
    let then = polling->pipeline.next(last[0]);
    assert(last.drop_first().len() == 0);
    assert(then.after(last.drop_first()) == then);
    assert(then.waited(last.drop_first()) == 0);
    assert(polling.after(last) == then);
    assert(polling.waited(last) == 0);
    assert forall|n: int| 0 <= n < replies.len() implies is_polling(
        #[trigger] progress.after(replies.take(n)),
    ) by {
        law_polling_goes_on(progress, replies.take(n));
    }
}

/// Polling ends at the first answer that reports a status other than
/// `pending` and `timeout_get`: with the text beside that status, or with
/// the failure `TextMissing` where there is none. This holds of runs in
/// which no earlier `timeout_get` came with a text; such an answer ends the
/// polling itself.
pub proof fn law_polling_ends_at_first_terminal(
    progress: ProgressView,
    replies: Seq<Reply>,
    text: Option<Seq<char>>,
)
    requires
        is_polling(progress),
        replies.len() > 0,
        forall|i: int| 0 <= i < replies.len() - 1 ==> is_unsettled(#[trigger] replies[i]),
        reported(replies.last()) == Some(JobStatusView::Terminal { text }),
    ensures
        text matches Some(payload) ==> progress.after(replies) == (ProgressView::Done {
            result: Ok(payload),
        }),
        text is None ==> progress.after(replies) == (ProgressView::Done {
            result: Err(PipelineErrorView { failure: Failure::TextMissing, detail: Seq::empty() }),
        }),
        forall|n: int|
            0 <= n < replies.len() ==> is_polling(#[trigger] progress.after(replies.take(n))),
        progress.waited(replies) == POLL_INTERVAL_SECS * pending_count(replies.drop_last()),
{
    law_polling_ends_at_first_settled(progress, replies);
}

/// A run that starts at the transcript ends with the chapters: once the
/// transcript is fetched and the chapter job is submitted, the run polls, and
/// it returns the text beside the first status other than `pending` and
/// `timeout_get`. On the way it has waited the polling interval once for each
/// pending answer and at no other time. As above, no earlier `timeout_get`
/// may have come with a text.
pub proof fn law_run_ends_with_the_chapters(
    pipeline: PipelineView,
    fetched: Reply,
    submitted: Reply,
    polls: Seq<Reply>,
    text: Seq<char>,
)
    requires
        pipeline.phase is Transcript,
        transcript_outcome(fetched) is Ok,
        submit_outcome(submitted) is Ok,
        polls.len() > 0,
        forall|i: int| 0 <= i < polls.len() - 1 ==> is_unsettled(#[trigger] polls[i]),
        reported(polls.last()) == Some(JobStatusView::Terminal { text: Some(text) }),
    ensures
        pipeline.fetch_transcript().after(seq![fetched, submitted] + polls) == (ProgressView::Done {
            result: Ok(text),
        }),
        pipeline.fetch_transcript().waited(seq![fetched, submitted] + polls) == POLL_INTERVAL_SECS
            * pending_count(polls.drop_last()),
{
    let start = pipeline.fetch_transcript();
    let opening = seq![fetched, submitted];
    let submitting = start->pipeline.next(fetched);
    let polling = submitting->pipeline.next(submitted);
    assert(opening.drop_first() =~= seq![submitted]);
    assert(opening.drop_first().drop_first().len() == 0);
    assert(polling.after(opening.drop_first().drop_first()) == polling);
    assert(submitting.after(opening.drop_first()) == polling);
    assert(start.after(opening) == polling);
    assert(polling.waited(opening.drop_first().drop_first()) == 0);
    assert(submitting.waited(opening.drop_first()) == 0);
    assert(start.waited(opening) == 0);
    lemma_after_splits(start, opening, polls);
    law_polling_ends_at_first_terminal(polling, polls, Some(text));
}

} // verus!
