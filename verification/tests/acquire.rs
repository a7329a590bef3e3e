use capituai::acquire::{
    output_path, AcquireError, AcquireFailure, AcquireStep, Acquisition, DownloadOrder, Outcome,
};
use capituai::error::ErrorKind;
use std::collections::HashSet;

const URL: &str = "https://www.youtube.com/watch?v=dQw4w9WgXcQ";

fn after_directory(url: &str, dir: &str) -> Acquisition {
    match Acquisition::start(url, dir) {
        AcquireStep::MakeDirectory { acquisition, .. } => acquisition,
        other => panic!("unexpected step: {:?}", other),
    }
}

fn after_check(url: &str, dir: &str) -> Acquisition {
    match after_directory(url, dir).step(Outcome::Succeeded) {
        AcquireStep::CheckFile { acquisition, .. } => acquisition,
        other => panic!("unexpected step: {:?}", other),
    }
}

fn after_order(url: &str, dir: &str) -> Acquisition {
    match after_check(url, dir).step(Outcome::Missing) {
        AcquireStep::Download { acquisition, .. } => acquisition,
        other => panic!("unexpected step: {:?}", other),
    }
}

#[test]
fn link_without_id_is_refused_before_anything_is_done() {
    let step = Acquisition::start("https://youtube.com/invalid", "../output");
    let expected = AcquireError {
        failure: AcquireFailure::InvalidUrl,
        detail: String::new(),
    };
    assert_eq!(step, AcquireStep::Done { result: Err(expected.clone()) });
    assert_eq!(
        expected.message(),
        "URL do YouTube inválida ou ID do vídeo não encontrado"
    );
    assert_eq!(expected.kind(), ErrorKind::InvalidInput);
}

#[test]
fn acquisition_starts_with_the_directory() {
    match Acquisition::start(URL, "../output") {
        AcquireStep::MakeDirectory { acquisition, dir } => {
            assert_eq!(dir, "../output");
            assert_eq!(acquisition.video_id(), "dQw4w9WgXcQ");
            assert_eq!(acquisition.target(), "../output/dQw4w9WgXcQ.mp3");
        }
        other => panic!("unexpected step: {:?}", other),
    }
}

#[test]
fn directory_that_cannot_be_made_is_a_storage_error() {
    let step = after_directory(URL, "/nowhere").step(Outcome::Failed {
        cause: "Permission denied (os error 13)".to_string(),
    });
    match step {
        AcquireStep::Done { result: Err(error) } => {
            assert_eq!(error.failure, AcquireFailure::Storage);
            assert_eq!(error.kind(), ErrorKind::Storage);
            assert_eq!(
                error.message(),
                "Failed to create output directory: Permission denied (os error 13)"
            );
        }
        other => panic!("unexpected step: {:?}", other),
    }
}

#[test]
fn file_is_looked_for_at_the_target_path() {
    match after_directory(URL, "/Users/Shared/capituai/output").step(Outcome::Succeeded) {
        AcquireStep::CheckFile { path, .. } => {
            assert_eq!(path, "/Users/Shared/capituai/output/dQw4w9WgXcQ.mp3");
        }
        other => panic!("unexpected step: {:?}", other),
    }
}

#[test]
fn file_that_is_there_is_returned_without_a_download() {
    let step = after_check(URL, "../output").step(Outcome::Found);
    assert_eq!(
        step,
        AcquireStep::Done { result: Ok("../output/dQw4w9WgXcQ.mp3".to_string()) }
    );
}

#[test]
fn missing_file_is_ordered_from_the_tool() {
    match after_check(URL, "../output").step(Outcome::Missing) {
        AcquireStep::Download { order, .. } => {
            assert_eq!(
                order,
                DownloadOrder {
                    url: URL.to_string(),
                    extract_audio: true,
                    format: "bestaudio".to_string(),
                    extra_args: vec![
                        "-o".to_string(),
                        "dQw4w9WgXcQ.mp3".to_string(),
                        "--audio-format".to_string(),
                        "mp3".to_string(),
                    ],
                    socket_timeout: "15".to_string(),
                    output_dir: "../output".to_string(),
                }
            );
        }
        other => panic!("unexpected step: {:?}", other),
    }
}

#[test]
fn download_that_succeeds_gives_the_target_path() {
    let step = after_order(URL, "../output").step(Outcome::Succeeded);
    assert_eq!(
        step,
        AcquireStep::Done { result: Ok("../output/dQw4w9WgXcQ.mp3".to_string()) }
    );
}

#[test]
fn download_that_fails_is_reported_with_its_cause() {
    let step = after_order(URL, "../output").step(Outcome::Failed {
        cause: "yt-dlp exited with code 1".to_string(),
    });
    match step {
        AcquireStep::Done { result: Err(error) } => {
            assert_eq!(error.failure, AcquireFailure::Download);
            assert_eq!(error.kind(), ErrorKind::Network);
            assert_eq!(error.message(), "Failed to download audio: yt-dlp exited with code 1");
        }
        other => panic!("unexpected step: {:?}", other),
    }
}

#[test]
fn path_is_directory_slash_name() {
    assert_eq!(output_path("../output", "kjMVWetJUXg.mp3"), "../output/kjMVWetJUXg.mp3");
    assert_eq!(output_path("", ""), "/");
}

/// Carries an acquisition out against a set of files that stands for the
/// disk, and counts the downloads.
fn acquire(url: &str, dir: &str, disk: &mut HashSet<String>, downloads: &mut u32) -> Result<String, AcquireError> {
    let mut step = Acquisition::start(url, dir);
    loop {
        step = match step {
            AcquireStep::MakeDirectory { acquisition, .. } => acquisition.step(Outcome::Succeeded),
            AcquireStep::CheckFile { acquisition, path } => {
                let outcome = if disk.contains(&path) { Outcome::Found } else { Outcome::Missing };
                acquisition.step(outcome)
            }
            AcquireStep::Download { acquisition, order } => {
                *downloads += 1;
                disk.insert(format!("{}/{}", order.output_dir, order.extra_args[1]));
                acquisition.step(Outcome::Succeeded)
            }
            AcquireStep::Done { result } => return result,
        };
    }
}

#[test]
fn acquiring_twice_downloads_once() {
    let mut disk = HashSet::new();
    let mut downloads = 0;
    let first = acquire(URL, "../output", &mut disk, &mut downloads);
    assert_eq!(first, Ok("../output/dQw4w9WgXcQ.mp3".to_string()));
    assert_eq!(downloads, 1);
    let second = acquire("https://youtu.be/dQw4w9WgXcQ?t=123", "../output", &mut disk, &mut downloads);
    assert_eq!(second, first);
    assert_eq!(downloads, 1);
    let other = acquire("https://youtu.be/kjMVWetJUXg", "../output", &mut disk, &mut downloads);
    assert_eq!(other, Ok("../output/kjMVWetJUXg.mp3".to_string()));
    assert_eq!(downloads, 2);
}
