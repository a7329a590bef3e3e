//! The failures of the remote pipeline, each tagged with the stage it
//! belongs to, and the broad classes that every failure of the library falls
//! into.

use vstd::prelude::*;
use vstd::string::StringExecFns;

verus! {

/// The broad classes of failure.
#[derive(Clone, Copy, Debug, PartialEq, Eq, Structural)]
pub enum ErrorKind {
    /// A link without a video identifier.
    InvalidInput,
    /// The local file system refused.
    Storage,
    /// An HTTP call failed below the level of its answer.
    Network,
    /// An answer arrived that is not what the protocol promises.
    RemoteProtocol,
    /// The remote side reported that a task ended without success. No
    /// failure of this library is of this class yet: the services report
    /// none.
    RemoteTaskFailure,
    /// The audio file has no usable track or duration.
    Media,
}

/// The stages of the remote pipeline, in the order in which they run.
#[derive(Clone, Copy, Debug, PartialEq, Eq, Structural)]
pub enum Stage {
    Upload,
    Process,
    Transcript,
    Submit,
    Poll,
}

impl Stage {
    /// The place of the stage in the order of the pipeline.
    pub open spec fn rank(self) -> nat {
        match self {
            Stage::Upload => 0,
            Stage::Process => 1,
            Stage::Transcript => 2,
            Stage::Submit => 3,
            Stage::Poll => 4,
        }
    }
}

/// Everything that can go wrong in the remote pipeline.
#[derive(Clone, Copy, Debug, PartialEq, Eq, Structural)]
pub enum Failure {
    /// The audio file could not be read into the upload form.
    UploadUnprepared,
    /// The upload could not be sent.
    UploadUnsent,
    /// The upload was refused, and the refusal could not be read.
    UploadRefusalUnread,
    /// The upload was refused: the answer's status is no success.
    UploadRefused,
    /// The upload was accepted, but the answer could not be read.
    UploadUnread,
    /// The request to process the transcription could not be sent.
    ProcessUnsent,
    /// The answer to that request could not be read.
    ProcessUnread,
    /// The request for the transcript could not be sent.
    TranscriptUnsent,
    /// The answer with the transcript could not be read.
    TranscriptUnread,
    /// The answer with the transcript is not JSON.
    TranscriptMalformed,
    /// The answer holds no member `transcript`.
    TranscriptMissing,
    /// The chapter job could not be submitted.
    SubmitUnsent,
    /// The answer to the submission could not be read.
    SubmitUnread,
    /// The answer to the submission is not JSON.
    SubmitMalformed,
    /// The answer to the submission holds no member `task_id`.
    TaskIdMissing,
    /// The member `task_id` is not a string.
    TaskIdNotText,
    /// The task's status could not be asked for.
    PollUnsent,
    /// The status answer could not be read.
    PollUnread,
    /// The status answer is not JSON.
    PollMalformed,
    /// The task is over, but its answer holds no member `text`.
    TextMissing,
}

impl Failure {
    /// The stage at which the failure arises.
    pub open spec fn stage(self) -> Stage {
        match self {
            Failure::UploadUnprepared
            | Failure::UploadUnsent
            | Failure::UploadRefusalUnread
            | Failure::UploadRefused
            | Failure::UploadUnread => Stage::Upload,
            Failure::ProcessUnsent | Failure::ProcessUnread => Stage::Process,
            Failure::TranscriptUnsent
            | Failure::TranscriptUnread
            | Failure::TranscriptMalformed
            | Failure::TranscriptMissing => Stage::Transcript,
            Failure::SubmitUnsent
            | Failure::SubmitUnread
            | Failure::SubmitMalformed
            | Failure::TaskIdMissing
            | Failure::TaskIdNotText => Stage::Submit,
            Failure::PollUnsent
            | Failure::PollUnread
            | Failure::PollMalformed
            | Failure::TextMissing => Stage::Poll,
        }
    }

    /// The class of the failure. A refused upload counts as a breach of
    /// protocol: the transport worked and no task was involved.
    pub open spec fn kind(self) -> ErrorKind {
        match self {
            Failure::UploadUnprepared => ErrorKind::Storage,
            Failure::UploadUnsent
            | Failure::UploadRefusalUnread
            | Failure::UploadUnread
            | Failure::ProcessUnsent
            | Failure::ProcessUnread
            | Failure::TranscriptUnsent
            | Failure::TranscriptUnread
            | Failure::SubmitUnsent
            | Failure::SubmitUnread
            | Failure::PollUnsent
            | Failure::PollUnread => ErrorKind::Network,
            Failure::UploadRefused
            | Failure::TranscriptMalformed
            | Failure::TranscriptMissing
            | Failure::SubmitMalformed
            | Failure::TaskIdMissing
            | Failure::TaskIdNotText
            | Failure::PollMalformed
            | Failure::TextMissing => ErrorKind::RemoteProtocol,
        }
    }

    /// The words that open the failure's message; the detail follows them.
    pub open spec fn prefix(self) -> Seq<char> {
        match self {
            Failure::UploadUnprepared => "Failed to create form: "@,
            Failure::UploadUnsent => "Failed to upload file: "@,
            Failure::UploadRefusalUnread => "Failed to read error response: "@,
            Failure::UploadRefused => "Upload failed with status "@,
            Failure::UploadUnread => "Failed to read response: "@,
            Failure::ProcessUnsent => "Failed to process transcription: "@,
            Failure::ProcessUnread => "Failed to read status response: "@,
            Failure::TranscriptUnsent => "Failed to check transcription status: "@,
            Failure::TranscriptUnread => "Failed to read status response: "@,
            Failure::TranscriptMalformed => "Failed to parse JSON response: "@,
            Failure::TranscriptMissing => "Transcription not found in response."@,
            Failure::SubmitUnsent => "Failed to generate chapters: "@,
            Failure::SubmitUnread => "Failed to parse generate chapters response: "@,
            Failure::SubmitMalformed => "Failed to parse generate chapters response: "@,
            Failure::TaskIdMissing => "Task ID not found"@,
            Failure::TaskIdNotText => "Task ID is not a string"@,
            Failure::PollUnsent => "Failed to get task status: "@,
            Failure::PollUnread => "Failed to parse task status response: "@,
            Failure::PollMalformed => "Failed to parse task status response: "@,
            Failure::TextMissing => "Text not found in response."@,
        }
    }

    /// The stage at which the failure arises.
    pub fn at_stage(self) -> (r: Stage)
        ensures
            r == self.stage(),
    {
        match self {
            Failure::UploadUnprepared
            | Failure::UploadUnsent
            | Failure::UploadRefusalUnread
            | Failure::UploadRefused
            | Failure::UploadUnread => Stage::Upload,
            Failure::ProcessUnsent | Failure::ProcessUnread => Stage::Process,
            Failure::TranscriptUnsent
            | Failure::TranscriptUnread
            | Failure::TranscriptMalformed
            | Failure::TranscriptMissing => Stage::Transcript,
            Failure::SubmitUnsent
            | Failure::SubmitUnread
            | Failure::SubmitMalformed
            | Failure::TaskIdMissing
            | Failure::TaskIdNotText => Stage::Submit,
            Failure::PollUnsent
            | Failure::PollUnread
            | Failure::PollMalformed
            | Failure::TextMissing => Stage::Poll,
        }
    }

    /// The class of the failure.
    pub fn class(self) -> (r: ErrorKind)
        ensures
            r == self.kind(),
    {
        match self {
            Failure::UploadUnprepared => ErrorKind::Storage,
            Failure::UploadUnsent
            | Failure::UploadRefusalUnread
            | Failure::UploadUnread
            | Failure::ProcessUnsent
            | Failure::ProcessUnread
            | Failure::TranscriptUnsent
            | Failure::TranscriptUnread
            | Failure::SubmitUnsent
            | Failure::SubmitUnread
            | Failure::PollUnsent
            | Failure::PollUnread => ErrorKind::Network,
            Failure::UploadRefused
            | Failure::TranscriptMalformed
            | Failure::TranscriptMissing
            | Failure::SubmitMalformed
            | Failure::TaskIdMissing
            | Failure::TaskIdNotText
            | Failure::PollMalformed
            | Failure::TextMissing => ErrorKind::RemoteProtocol,
        }
    }

    /// The words that open the failure's message.
    pub fn opening(self) -> (r: &'static str)
        ensures
            r@ == self.prefix(),
    {
        match self {
            Failure::UploadUnprepared => "Failed to create form: ",
            Failure::UploadUnsent => "Failed to upload file: ",
            Failure::UploadRefusalUnread => "Failed to read error response: ",
            Failure::UploadRefused => "Upload failed with status ",
            Failure::UploadUnread => "Failed to read response: ",
            Failure::ProcessUnsent => "Failed to process transcription: ",
            Failure::ProcessUnread => "Failed to read status response: ",
            Failure::TranscriptUnsent => "Failed to check transcription status: ",
            Failure::TranscriptUnread => "Failed to read status response: ",
            Failure::TranscriptMalformed => "Failed to parse JSON response: ",
            Failure::TranscriptMissing => "Transcription not found in response.",
            Failure::SubmitUnsent => "Failed to generate chapters: ",
            Failure::SubmitUnread => "Failed to parse generate chapters response: ",
            Failure::SubmitMalformed => "Failed to parse generate chapters response: ",
            Failure::TaskIdMissing => "Task ID not found",
            Failure::TaskIdNotText => "Task ID is not a string",
            Failure::PollUnsent => "Failed to get task status: ",
            Failure::PollUnread => "Failed to parse task status response: ",
            Failure::PollMalformed => "Failed to parse task status response: ",
            Failure::TextMissing => "Text not found in response.",
        }
    }
}

/// A failure of the remote pipeline: what went wrong, and the cause as the
/// transport, the parser or the remote side worded it. The detail is empty
/// where the failure says it all.
#[derive(Clone, Debug, PartialEq, Eq)]
pub struct PipelineError {
    pub failure: Failure,
    pub detail: String,
}

/// The mathematical value of a `PipelineError`.
pub struct PipelineErrorView {
    pub failure: Failure,
    pub detail: Seq<char>,
}

impl PipelineErrorView {
    /// The message shown to the user: the failure's opening words, then the
    /// detail.
    pub open spec fn message(self) -> Seq<char> {
        self.failure.prefix() + self.detail
    }
}

impl View for PipelineError {
    type V = PipelineErrorView;

    open spec fn view(&self) -> PipelineErrorView {
        PipelineErrorView { failure: self.failure, detail: self.detail@ }
    }
}

impl PipelineError {
    /// A failure with its cause.
    pub fn new(failure: Failure, detail: String) -> (r: PipelineError)
        ensures
            r@ == (PipelineErrorView { failure, detail: detail@ }),
    {
        PipelineError { failure, detail }
    }

    /// A failure that says it all.
    pub fn bare(failure: Failure) -> (r: PipelineError)
        ensures
            r@ == (PipelineErrorView { failure, detail: Seq::empty() }),
    {
        PipelineError { failure, detail: String::new() }
    }

    /// The stage at which the pipeline stopped.
    pub fn stage(&self) -> (r: Stage)
        ensures
            r == self@.failure.stage(),
    {
        self.failure.at_stage()
    }

    /// The class of the failure.
    pub fn kind(&self) -> (r: ErrorKind)
        ensures
            r == self@.failure.kind(),
    {
        self.failure.class()
    }

    /// The message shown to the user.
    pub fn message(&self) -> (r: String)
        ensures
            r@ == self@.message(),
    {
        String::from_str(self.failure.opening()).concat(self.detail.as_str())
    }
}

} // verus!
