use capituai::error::{ErrorKind, Failure, PipelineError, Stage};
use capituai::http::{status_is_success, Reply};
use capituai::stages::{
    poll_result, process_result, read_transcript, require_transcript, submit_result,
    transcript_result, upload_result, Polled,
};

fn received(status: u16, status_line: &str, body: &str) -> Reply {
    Reply::Received { status, status_line: status_line.to_string(), body: body.to_string() }
}

fn ok(body: &str) -> Reply {
    received(200, "200 OK", body)
}

fn unprepared(cause: &str) -> Reply {
    Reply::Unprepared { cause: cause.to_string() }
}

fn unsent(cause: &str) -> Reply {
    Reply::Unsent { cause: cause.to_string() }
}

fn unread(status: u16, cause: &str) -> Reply {
    Reply::Unread { status, cause: cause.to_string() }
}

fn fails(result: Result<String, PipelineError>, failure: Failure, message: &str, kind: ErrorKind, stage: Stage) {
    let error = result.unwrap_err();
    assert_eq!(error.failure, failure);
    assert_eq!(error.message(), message);
    assert_eq!(error.kind(), kind);
    assert_eq!(error.stage(), stage);
}

#[test]
fn success_is_two_hundred_to_two_hundred_ninety_nine() {
    for status in [200, 201, 204, 250, 299] {
        assert!(status_is_success(status), "{}", status);
    }
    for status in [0, 100, 199, 300, 301, 404, 500, 599, u16::MAX] {
        assert!(!status_is_success(status), "{}", status);
    }
}

#[test]
fn accepted_upload_gives_the_answer_as_it_is() {
    assert_eq!(upload_result(ok("{\"filename\":\"a.mp3\"}")), Ok("{\"filename\":\"a.mp3\"}".to_string()));
    assert_eq!(upload_result(received(201, "201 Created", "")), Ok(String::new()));
    assert_eq!(upload_result(received(299, "299", "not json")), Ok("not json".to_string()));
}

#[test]
fn refused_upload_is_reported_with_status_and_text() {
    fails(
        upload_result(received(500, "500 Internal Server Error", "boom")),
        Failure::UploadRefused,
        "Upload failed with status 500 Internal Server Error: boom",
        ErrorKind::RemoteProtocol,
        Stage::Upload,
    );
    fails(
        upload_result(received(199, "199", "")),
        Failure::UploadRefused,
        "Upload failed with status 199: ",
        ErrorKind::RemoteProtocol,
        Stage::Upload,
    );
    fails(
        upload_result(received(300, "300 Multiple Choices", "x: y")),
        Failure::UploadRefused,
        "Upload failed with status 300 Multiple Choices: x: y",
        ErrorKind::RemoteProtocol,
        Stage::Upload,
    );
}

#[test]
fn upload_that_never_got_an_answer() {
    fails(
        upload_result(unprepared("No such file or directory (os error 2)")),
        Failure::UploadUnprepared,
        "Failed to create form: No such file or directory (os error 2)",
        ErrorKind::Storage,
        Stage::Upload,
    );
    fails(
        upload_result(unsent("connection refused")),
        Failure::UploadUnsent,
        "Failed to upload file: connection refused",
        ErrorKind::Network,
        Stage::Upload,
    );
}

#[test]
fn upload_whose_answer_could_not_be_read() {
    fails(
        upload_result(unread(200, "connection reset")),
        Failure::UploadUnread,
        "Failed to read response: connection reset",
        ErrorKind::Network,
        Stage::Upload,
    );
    fails(
        upload_result(unread(503, "connection reset")),
        Failure::UploadRefusalUnread,
        "Failed to read error response: connection reset",
        ErrorKind::Network,
        Stage::Upload,
    );
}

#[test]
fn processing_answer_is_given_as_it_is_whatever_its_status() {
    assert_eq!(process_result(ok("started")), Ok("started".to_string()));
    assert_eq!(
        process_result(received(500, "500 Internal Server Error", "{\"detail\":\"no\"}")),
        Ok("{\"detail\":\"no\"}".to_string())
    );
}

#[test]
fn processing_request_that_failed() {
    fails(
        process_result(unsent("dns error")),
        Failure::ProcessUnsent,
        "Failed to process transcription: dns error",
        ErrorKind::Network,
        Stage::Process,
    );
    fails(
        process_result(unprepared("odd")),
        Failure::ProcessUnsent,
        "Failed to process transcription: odd",
        ErrorKind::Network,
        Stage::Process,
    );
    fails(
        process_result(unread(200, "timed out")),
        Failure::ProcessUnread,
        "Failed to read status response: timed out",
        ErrorKind::Network,
        Stage::Process,
    );
}

#[test]
fn transcript_is_the_json_text_of_the_member() {
    assert_eq!(
        read_transcript(r#"{"transcript":"hello world"}"#),
        Ok("\"hello world\"".to_string())
    );
    assert_eq!(
        read_transcript("{\"transcript\": [ {\"t\": 0, \"s\": \"a\"} ], \"x\": 1}"),
        Ok(r#"[{"s":"a","t":0}]"#.to_string())
    );
    assert_eq!(read_transcript(r#"{"transcript":null}"#), Ok("null".to_string()));
}

#[test]
fn transcript_must_be_there() {
    assert_eq!(require_transcript(Some("\"t\"".to_string())), Ok("\"t\"".to_string()));
    assert_eq!(require_transcript(Some(String::new())), Ok(String::new()));
    assert_eq!(
        require_transcript(None),
        Err(PipelineError::bare(Failure::TranscriptMissing))
    );
    for body in ["{}", r#"{"error":"not ready"}"#, "[\"transcript\"]", "\"transcript\""] {
        fails(
            read_transcript(body),
            Failure::TranscriptMissing,
            "Transcription not found in response.",
            ErrorKind::RemoteProtocol,
            Stage::Transcript,
        );
    }
}

#[test]
fn transcript_answer_that_is_not_json() {
    fails(
        transcript_result(received(404, "404 Not Found", "Not Found")),
        Failure::TranscriptMalformed,
        "Failed to parse JSON response: expected value at line 1 column 1",
        ErrorKind::RemoteProtocol,
        Stage::Transcript,
    );
    fails(
        transcript_result(ok("")),
        Failure::TranscriptMalformed,
        "Failed to parse JSON response: EOF while parsing a value at line 1 column 0",
        ErrorKind::RemoteProtocol,
        Stage::Transcript,
    );
}

#[test]
fn transcript_answer_is_read_whatever_its_status() {
    assert_eq!(
        transcript_result(received(500, "500 Internal Server Error", r#"{"transcript":"t"}"#)),
        Ok("\"t\"".to_string())
    );
    assert_eq!(transcript_result(ok(r#"{"transcript":"t"}"#)), Ok("\"t\"".to_string()));
}

#[test]
fn transcript_request_that_failed() {
    fails(
        transcript_result(unsent("no route to host")),
        Failure::TranscriptUnsent,
        "Failed to check transcription status: no route to host",
        ErrorKind::Network,
        Stage::Transcript,
    );
    fails(
        transcript_result(unread(200, "broken pipe")),
        Failure::TranscriptUnread,
        "Failed to read status response: broken pipe",
        ErrorKind::Network,
        Stage::Transcript,
    );
}

#[test]
fn submission_gives_the_task_id() {
    assert_eq!(submit_result(ok(r#"{"task_id":"t-1"}"#)), Ok("t-1".to_string()));
    assert_eq!(
        submit_result(received(202, "202 Accepted", r#"{"task_id":"t-2","queued":true}"#)),
        Ok("t-2".to_string())
    );
}

#[test]
fn submission_that_failed() {
    fails(
        submit_result(unsent("tls handshake")),
        Failure::SubmitUnsent,
        "Failed to generate chapters: tls handshake",
        ErrorKind::Network,
        Stage::Submit,
    );
    fails(
        submit_result(unread(200, "eof")),
        Failure::SubmitUnread,
        "Failed to parse generate chapters response: eof",
        ErrorKind::Network,
        Stage::Submit,
    );
    fails(
        submit_result(ok("nope")),
        Failure::SubmitMalformed,
        "Failed to parse generate chapters response: expected ident at line 1 column 2",
        ErrorKind::RemoteProtocol,
        Stage::Submit,
    );
    fails(
        submit_result(ok("{}")),
        Failure::TaskIdMissing,
        "Task ID not found",
        ErrorKind::RemoteProtocol,
        Stage::Submit,
    );
    fails(
        submit_result(ok(r#"{"task_id":1}"#)),
        Failure::TaskIdNotText,
        "Task ID is not a string",
        ErrorKind::RemoteProtocol,
        Stage::Submit,
    );
}

#[test]
fn pending_task_is_asked_about_again_after_five_seconds() {
    assert_eq!(
        poll_result(ok(r#"{"task_result":{"result":"pending"}}"#)),
        Polled::Again { delay_secs: 5 }
    );
}

#[test]
fn timeout_get_without_text_is_asked_about_again_at_once() {
    assert_eq!(
        poll_result(ok(r#"{"task_result":{"result":"timeout_get"}}"#)),
        Polled::Again { delay_secs: 0 }
    );
}

#[test]
fn timeout_get_with_text_gives_the_text() {
    assert_eq!(
        poll_result(ok(r#"{"task_result":{"result":"timeout_get","text":"late"}}"#)),
        Polled::Over { result: Ok("\"late\"".to_string()) }
    );
}

#[test]
fn answer_without_status_is_asked_about_again_at_once() {
    assert_eq!(poll_result(ok("{}")), Polled::Again { delay_secs: 0 });
    assert_eq!(poll_result(ok(r#"{"task_result":{"text":"t"}}"#)), Polled::Again { delay_secs: 0 });
}

#[test]
fn terminal_status_gives_the_text_beside_it() {
    assert_eq!(
        poll_result(ok(r#"{"task_result":{"result":"done","text":"Chapter 1..."}}"#)),
        Polled::Over { result: Ok("\"Chapter 1...\"".to_string()) }
    );
    assert_eq!(
        poll_result(received(500, "500", r#"{"task_result":{"result":"failed","text":"why"}}"#)),
        Polled::Over { result: Ok("\"why\"".to_string()) }
    );
}

#[test]
fn terminal_status_without_text_is_a_protocol_error() {
    match poll_result(ok(r#"{"task_result":{"result":"done"}}"#)) {
        Polled::Over { result } => fails(
            result,
            Failure::TextMissing,
            "Text not found in response.",
            ErrorKind::RemoteProtocol,
            Stage::Poll,
        ),
        other => panic!("unexpected: {:?}", other),
    }
}

#[test]
fn status_request_that_failed() {
    match poll_result(unsent("connection closed")) {
        Polled::Over { result } => fails(
            result,
            Failure::PollUnsent,
            "Failed to get task status: connection closed",
            ErrorKind::Network,
            Stage::Poll,
        ),
        other => panic!("unexpected: {:?}", other),
    }
    match poll_result(unread(200, "body error")) {
        Polled::Over { result } => fails(
            result,
            Failure::PollUnread,
            "Failed to parse task status response: body error",
            ErrorKind::Network,
            Stage::Poll,
        ),
        other => panic!("unexpected: {:?}", other),
    }
    match poll_result(ok("{\"task_result\"")) {
        Polled::Over { result } => fails(
            result,
            Failure::PollMalformed,
            "Failed to parse task status response: EOF while parsing an object at line 1 column 14",
            ErrorKind::RemoteProtocol,
            Stage::Poll,
        ),
        other => panic!("unexpected: {:?}", other),
    }
}
