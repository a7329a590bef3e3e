//! The addresses of the two remote services, and the requests sent to them.

use crate::http::{owned_token, Body, BodyView, Method, Request, RequestView};
use vstd::prelude::*;
use vstd::string::StringExecFns;

verus! {

/// Base address of the transcription service.
pub const TRANSCRIBE_YOUTUBE_URL: &'static str =
    "https://kamikazebr--transcribe-youtube-fastapi-app.modal.run";

/// Base address of the chapter-generation service.
pub const CAPITU_LANGCHAIN_URL: &'static str =
    "https://kamikazebr--capitu-ai-langchain-fastapi-app.modal.run";

/// Where audio files are uploaded.
pub open spec fn upload_url() -> Seq<char> {
    TRANSCRIBE_YOUTUBE_URL@ + "/upload"@
}

/// Where the transcription of an uploaded file is set off.
pub open spec fn process_url(filename_id: Seq<char>) -> Seq<char> {
    TRANSCRIBE_YOUTUBE_URL@ + "/process-transcription/"@ + filename_id
}

/// Where the transcript of an uploaded file is fetched.
pub open spec fn transcript_url(filename_id: Seq<char>) -> Seq<char> {
    TRANSCRIBE_YOUTUBE_URL@ + "/transcript/"@ + filename_id
}

/// Where chapter jobs are submitted: one path for callers with a token,
/// another for callers without.
pub open spec fn chapters_url(authenticated: bool) -> Seq<char> {
    if authenticated {
        CAPITU_LANGCHAIN_URL@ + "/generate-chapters-auth"@
    } else {
        CAPITU_LANGCHAIN_URL@ + "/generate-chapters"@
    }
}

/// Where the status of a task is asked for.
pub open spec fn status_url(task_id: Seq<char>) -> Seq<char> {
    CAPITU_LANGCHAIN_URL@ + "/task-status/"@ + task_id
}

/// The upload of the audio file at `file_path`: a multipart form whose part
/// `file` is read from that path.
pub open spec fn upload_request_of(file_path: Seq<char>, token: Option<Seq<char>>) -> RequestView {
    RequestView {
        method: Method::Post,
        url: upload_url(),
        bearer: token,
        body: BodyView::FormFile { field: "file"@, path: file_path },
    }
}

/// Describes the upload of an audio file.
pub fn upload_request(file_path: &str, auth_token: Option<&str>) -> (r: Request)
    ensures
        r@ == upload_request_of(file_path@, auth_token.deep_view()),
{
    Request {
        method: Method::Post,
        url: String::from_str(TRANSCRIBE_YOUTUBE_URL).concat("/upload"),
        bearer: owned_token(auth_token),
        body: Body::FormFile { field: "file".to_owned(), path: file_path.to_owned() },
    }
}

/// The request that sets off the transcription of an uploaded file.
pub open spec fn process_request_of(
    filename_id: Seq<char>,
    token: Option<Seq<char>>,
) -> RequestView {
    RequestView {
        method: Method::Post,
        url: process_url(filename_id),
        bearer: token,
        body: BodyView::Empty,
    }
}

/// Describes the request that sets off the transcription.
pub fn process_request(filename_id: &str, auth_token: Option<&str>) -> (r: Request)
    ensures
        r@ == process_request_of(filename_id@, auth_token.deep_view()),
{
    Request {
        method: Method::Post,
        url: String::from_str(TRANSCRIBE_YOUTUBE_URL).concat("/process-transcription/").concat(
            filename_id,
        ),
        bearer: owned_token(auth_token),
        body: Body::Empty,
    }
}

/// The request for the transcript of an uploaded file. It carries no token.
pub open spec fn transcript_request_of(filename_id: Seq<char>) -> RequestView {
    RequestView {
        method: Method::Get,
        url: transcript_url(filename_id),
        bearer: None,
        body: BodyView::Empty,
    }
}

/// Describes the request for the transcript.
pub fn transcript_request(filename_id: &str) -> (r: Request)
    ensures
        r@ == transcript_request_of(filename_id@),
{
    Request {
        method: Method::Get,
        url: String::from_str(TRANSCRIBE_YOUTUBE_URL).concat("/transcript/").concat(filename_id),
        bearer: None,
        body: Body::Empty,
    }
}

/// The submission of a chapter job: a JSON object with the members
/// `filename_id` and `transcript`. The path depends on whether the caller
/// has a token; the token, if any, goes along.
pub open spec fn chapters_request_of(
    filename_id: Seq<char>,
    transcript: Seq<char>,
    token: Option<Seq<char>>,
) -> RequestView {
    RequestView {
        method: Method::Post,
        url: chapters_url(token is Some),
        bearer: token,
        body: BodyView::Json {
            members: seq![("filename_id"@, filename_id), ("transcript"@, transcript)],
        },
    }
}

/// Describes the submission of a chapter job.
pub fn chapters_request(filename_id: &str, transcript: &str, auth_token: Option<&str>) -> (r:
    Request)
    ensures
        r@ == chapters_request_of(filename_id@, transcript@, auth_token.deep_view()),
{
    let path = if auth_token.is_some() {
        "/generate-chapters-auth"
    } else {
        "/generate-chapters"
    };
    let mut members: Vec<(String, String)> = Vec::new();
    members.push(("filename_id".to_owned(), filename_id.to_owned()));
    members.push(("transcript".to_owned(), transcript.to_owned()));
    assert(members.deep_view() =~= seq![
        ("filename_id"@, filename_id@),
        ("transcript"@, transcript@),
    ]);
    Request {
        method: Method::Post,
        url: String::from_str(CAPITU_LANGCHAIN_URL).concat(path),
        bearer: owned_token(auth_token),
        body: Body::Json { members },
    }
}

/// The request for the status of a task. It carries no token.
pub open spec fn status_request_of(task_id: Seq<char>) -> RequestView {
    RequestView {
        method: Method::Get,
        url: status_url(task_id),
        bearer: None,
        body: BodyView::Empty,
    }
}

/// Describes the request for the status of a task.
pub fn status_request(task_id: &str) -> (r: Request)
    ensures
        r@ == status_request_of(task_id@),
{
    Request {
        method: Method::Get,
        url: String::from_str(CAPITU_LANGCHAIN_URL).concat("/task-status/").concat(task_id),
        bearer: None,
        body: Body::Empty,
    }
}

} // verus!
