use capituai::duration::{
    duration_of, duration_of_track, Duration, ProbeError, ProbeFailure, TimeBase, Track,
};
use capituai::error::ErrorKind;

fn null_track() -> Track {
    Track { decodable: false, frames: Some(1), sample_rate: Some(1), time_base: None }
}

fn seconds(duration: Duration) -> f64 {
    match duration {
        Duration::FramesPerRate { frames, sample_rate } => (frames as f64) / (sample_rate as f64),
        Duration::FramesByTimeBase { frames, time_base } => {
            (frames as f64) * (time_base.numer as f64) / (time_base.denom as f64)
        }
    }
}

#[test]
fn frames_over_sample_rate_comes_first() {
    let track = Track {
        decodable: true,
        frames: Some(441_000),
        sample_rate: Some(44_100),
        time_base: Some(TimeBase { numer: 1, denom: 1000 }),
    };
    let duration = duration_of(&vec![track]).unwrap();
    assert_eq!(duration, Duration::FramesPerRate { frames: 441_000, sample_rate: 44_100 });
    assert!((seconds(duration) - 10.0).abs() < 1e-9);
}

#[test]
fn known_frames_and_rate_give_frames_over_rate() {
    let track = Track {
        decodable: true,
        frames: Some(2_646_000),
        sample_rate: Some(48_000),
        time_base: None,
    };
    let duration = duration_of(&vec![track]).unwrap();
    assert!((seconds(duration) - 2_646_000.0 / 48_000.0).abs() < 1e-9);
    assert!((seconds(duration) - 55.125).abs() < 1e-9);
}

#[test]
fn time_base_is_the_fallback() {
    let track = Track {
        decodable: true,
        frames: Some(3000),
        sample_rate: None,
        time_base: Some(TimeBase { numer: 1, denom: 1000 }),
    };
    let duration = duration_of(&vec![track]).unwrap();
    assert_eq!(
        duration,
        Duration::FramesByTimeBase { frames: 3000, time_base: TimeBase { numer: 1, denom: 1000 } }
    );
    assert!((seconds(duration) - 3.0).abs() < 1e-9);
}

#[test]
fn tracks_with_the_null_codec_are_passed_over() {
    let audio = Track { decodable: true, frames: Some(88_200), sample_rate: Some(44_100), time_base: None };
    let duration = duration_of(&vec![null_track(), null_track(), audio]).unwrap();
    assert_eq!(duration, Duration::FramesPerRate { frames: 88_200, sample_rate: 44_100 });
}

#[test]
fn only_the_first_decodable_track_counts() {
    let bare = Track { decodable: true, frames: None, sample_rate: Some(44_100), time_base: None };
    let full = Track { decodable: true, frames: Some(88_200), sample_rate: Some(44_100), time_base: None };
    let error = duration_of(&vec![null_track(), bare, full]).unwrap_err();
    assert_eq!(error.failure, ProbeFailure::DurationUnavailable);
    let duration = duration_of(&vec![full, bare]).unwrap();
    assert_eq!(duration, Duration::FramesPerRate { frames: 88_200, sample_rate: 44_100 });
}

#[test]
fn file_without_decodable_track_is_a_media_error() {
    for tracks in [vec![], vec![null_track()], vec![null_track(), null_track()]] {
        let error = duration_of(&tracks).unwrap_err();
        assert_eq!(
            error,
            ProbeError { failure: ProbeFailure::NoAudioTrack, detail: String::new() }
        );
        assert_eq!(error.kind(), ErrorKind::Media);
        assert_eq!(error.message(), "No valid audio track found");
    }
}

#[test]
fn track_without_frames_has_no_duration() {
    let tracks = vec![Track {
        decodable: true,
        frames: None,
        sample_rate: Some(44_100),
        time_base: Some(TimeBase { numer: 1, denom: 44_100 }),
    }];
    let error = duration_of(&tracks).unwrap_err();
    assert_eq!(
        error,
        ProbeError { failure: ProbeFailure::DurationUnavailable, detail: String::new() }
    );
    assert_eq!(error.kind(), ErrorKind::Media);
    assert_eq!(error.message(), "Could not determine duration");
}

#[test]
fn track_with_frames_alone_has_no_duration() {
    let track = Track { decodable: true, frames: Some(10), sample_rate: None, time_base: None };
    assert_eq!(duration_of_track(&track), None);
    assert_eq!(
        duration_of(&vec![track]).unwrap_err().failure,
        ProbeFailure::DurationUnavailable
    );
}

#[test]
fn formula_of_one_track() {
    let time_base = TimeBase { numer: 1, denom: 90_000 };
    let track = Track { decodable: false, frames: Some(7), sample_rate: Some(0), time_base: Some(time_base) };
    assert_eq!(
        duration_of_track(&track),
        Some(Duration::FramesPerRate { frames: 7, sample_rate: 0 })
    );
    let track = Track { sample_rate: None, ..track };
    assert_eq!(
        duration_of_track(&track),
        Some(Duration::FramesByTimeBase { frames: 7, time_base })
    );
    let track = Track { frames: None, ..track };
    assert_eq!(duration_of_track(&track), None);
}

#[test]
fn failures_of_the_probe_itself() {
    let error = ProbeError::new(
        ProbeFailure::Unopened,
        "No such file or directory (os error 2)".to_string(),
    );
    assert_eq!(error.message(), "Failed to open file: No such file or directory (os error 2)");
    assert_eq!(error.kind(), ErrorKind::Storage);
    let error = ProbeError::new(ProbeFailure::Unrecognized, "unsupported feature".to_string());
    assert_eq!(error.message(), "Failed to probe format: unsupported feature");
    assert_eq!(error.kind(), ErrorKind::Media);
}
