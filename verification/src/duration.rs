//! The duration of an audio file, from what a probe found in it.
//!
//! Probing is the caller's business. The library takes the tracks that the
//! probe lists, picks the first one that can be decoded, and says by which
//! formula its duration in seconds is computed. The division itself is left
//! to the caller.

use crate::error::ErrorKind;
use vstd::prelude::*;
use vstd::string::StringExecFns;

verus! {

/// The length of one tick of a track's clock, in seconds: `numer / denom`.
#[derive(Clone, Copy, Debug, PartialEq, Eq, Structural)]
pub struct TimeBase {
    pub numer: u32,
    pub denom: u32,
}

/// What a probe tells about one track.
#[derive(Clone, Copy, Debug, PartialEq, Eq, Structural)]
pub struct Track {
    /// Whether the track has a codec other than the null codec.
    pub decodable: bool,
    /// The number of frames, if known.
    pub frames: Option<u64>,
    /// The sample rate in hertz, if known.
    pub sample_rate: Option<u32>,
    /// The time base, if known.
    pub time_base: Option<TimeBase>,
}

/// A duration in seconds, as the formula that gives it.
#[derive(Clone, Copy, Debug, PartialEq, Eq, Structural)]
pub enum Duration {
    /// `frames / sample_rate`.
    FramesPerRate { frames: u64, sample_rate: u32 },
    /// `frames * numer / denom`.
    FramesByTimeBase { frames: u64, time_base: TimeBase },
}

impl Duration {
    /// The numerator of the duration in seconds, as a fraction.
    pub open spec fn numerator(self) -> nat {
        match self {
            Duration::FramesPerRate { frames, sample_rate } => frames as nat,
            Duration::FramesByTimeBase { frames, time_base } => frames as nat
                * time_base.numer as nat,
        }
    }

    /// The denominator of the duration in seconds, as a fraction.
    pub open spec fn denominator(self) -> nat {
        match self {
            Duration::FramesPerRate { frames, sample_rate } => sample_rate as nat,
            Duration::FramesByTimeBase { frames, time_base } => time_base.denom as nat,
        }
    }
}

/// Why no duration could be given.
#[derive(Clone, Copy, Debug, PartialEq, Eq, Structural)]
pub enum ProbeFailure {
    /// The file could not be opened.
    Unopened,
    /// The probe did not recognise the file's format.
    Unrecognized,
    /// No track of the file can be decoded.
    NoAudioTrack,
    /// The track lacks what either formula needs.
    DurationUnavailable,
}

impl ProbeFailure {
    /// The class of the failure.
    pub open spec fn kind(self) -> ErrorKind {
        match self {
            ProbeFailure::Unopened => ErrorKind::Storage,
            ProbeFailure::Unrecognized => ErrorKind::Media,
            ProbeFailure::NoAudioTrack => ErrorKind::Media,
            ProbeFailure::DurationUnavailable => ErrorKind::Media,
        }
    }

    /// The words that open the failure's message; the cause follows them.
    pub open spec fn prefix(self) -> Seq<char> {
        match self {
            ProbeFailure::Unopened => "Failed to open file: "@,
            ProbeFailure::Unrecognized => "Failed to probe format: "@,
            ProbeFailure::NoAudioTrack => "No valid audio track found"@,
            ProbeFailure::DurationUnavailable => "Could not determine duration"@,
        }
    }

    /// The class of the failure.
    pub fn class(self) -> (r: ErrorKind)
        ensures
            r == self.kind(),
    {
        match self {
            ProbeFailure::Unopened => ErrorKind::Storage,
            ProbeFailure::Unrecognized => ErrorKind::Media,
            ProbeFailure::NoAudioTrack => ErrorKind::Media,
            ProbeFailure::DurationUnavailable => ErrorKind::Media,
        }
    }

    /// The words that open the failure's message.
    pub fn opening(self) -> (r: &'static str)
        ensures
            r@ == self.prefix(),
    {
        match self {
            ProbeFailure::Unopened => "Failed to open file: ",
            ProbeFailure::Unrecognized => "Failed to probe format: ",
            ProbeFailure::NoAudioTrack => "No valid audio track found",
            ProbeFailure::DurationUnavailable => "Could not determine duration",
        }
    }
}

/// A failed probe: what went wrong, and the cause in the words of the file
/// system or of the probe, where there is one.
#[derive(Clone, Debug, PartialEq, Eq)]
pub struct ProbeError {
    pub failure: ProbeFailure,
    pub detail: String,
}

/// The mathematical value of a `ProbeError`.
pub struct ProbeErrorView {
    pub failure: ProbeFailure,
    pub detail: Seq<char>,
}

impl ProbeErrorView {
    /// The message shown to the user.
    pub open spec fn message(self) -> Seq<char> {
        self.failure.prefix() + self.detail
    }
}

impl View for ProbeError {
    type V = ProbeErrorView;

    open spec fn view(&self) -> ProbeErrorView {
        ProbeErrorView { failure: self.failure, detail: self.detail@ }
    }
}

impl ProbeError {
    /// A failure with its cause.
    pub fn new(failure: ProbeFailure, detail: String) -> (r: ProbeError)
        ensures
            r@ == (ProbeErrorView { failure, detail: detail@ }),
    {
        ProbeError { failure, detail }
    }

    /// The class of the failure.
    pub fn kind(&self) -> (r: ErrorKind)
        ensures
            r == self@.failure.kind(),
    {
        self.failure.class()
    }

    /// The message shown to the user.
    pub fn message(&self) -> (r: String)
        ensures
            r@ == self@.message(),
    {
        String::from_str(self.failure.opening()).concat(self.detail.as_str())
    }
}

/// The formula for the duration of one track: frames over sample rate where
/// both are known; else frames times time base where those are known.
pub open spec fn track_duration(track: Track) -> Option<Duration> {
    match (track.frames, track.sample_rate, track.time_base) {
        (Some(frames), Some(sample_rate), _) => Some(
            Duration::FramesPerRate { frames, sample_rate },
        ),
        (Some(frames), None, Some(time_base)) => Some(
            Duration::FramesByTimeBase { frames, time_base },
        ),
        _ => None,
    }
}

/// Picks the formula for the duration of one track.
pub fn duration_of_track(track: &Track) -> (r: Option<Duration>)
    ensures
        r == track_duration(*track),
{
    match track.frames {
        Some(frames) => match track.sample_rate {
            Some(sample_rate) => Some(Duration::FramesPerRate { frames, sample_rate }),
            None => match track.time_base {
                Some(time_base) => Some(Duration::FramesByTimeBase { frames, time_base }),
                None => None,
            },
        },
        None => None,
    }
}

/// `index` is the first track that can be decoded.
pub open spec fn is_first_decodable(tracks: Seq<Track>, index: int) -> bool {
    &&& 0 <= index < tracks.len()
    &&& tracks[index].decodable
    &&& forall|j: int| 0 <= j < index ==> !(#[trigger] tracks[j]).decodable
}

/// The duration of a file with these tracks: that of its first decodable
/// track.
pub open spec fn file_duration(tracks: Seq<Track>) -> Result<Duration, ProbeFailure> {
    if exists|i: int| is_first_decodable(tracks, i) {
        let first = choose|i: int| is_first_decodable(tracks, i);
        match track_duration(tracks[first]) {
            Some(duration) => Ok(duration),
            None => Err(ProbeFailure::DurationUnavailable),
        }
    } else {
        Err(ProbeFailure::NoAudioTrack)
    }
}

/// There is only one first decodable track.
pub proof fn lemma_first_decodable_found(tracks: Seq<Track>, index: int)
    requires
        is_first_decodable(tracks, index),
    ensures
        file_duration(tracks) == match track_duration(tracks[index]) {
            Some(duration) => Ok::<Duration, ProbeFailure>(duration),
            None => Err::<Duration, ProbeFailure>(ProbeFailure::DurationUnavailable),
        },
{
    let first = choose|i: int| is_first_decodable(tracks, i);
    assert(first == index) by {
        if first < index {
            assert(!tracks[first].decodable);
        } else if index < first {
            assert(!tracks[index].decodable);
        }
    }
}

/// Picks the formula for the duration of an audio file from its tracks.
pub fn duration_of(tracks: &Vec<Track>) -> (r: Result<Duration, ProbeError>)
    ensures
        match r {
            Ok(duration) => file_duration(tracks@) == Ok::<Duration, ProbeFailure>(duration),
            Err(error) => {
                &&& file_duration(tracks@) == Err::<Duration, ProbeFailure>(error@.failure)
                &&& error@.detail.len() == 0
            },
        },
{
    let mut index: usize = 0;
    while index < tracks.len()
        invariant
            index <= tracks.len(),
            forall|j: int| 0 <= j < index ==> !(#[trigger] tracks@[j]).decodable,
        decreases tracks.len() - index,
    {
        if tracks[index].decodable {
            proof {
                lemma_first_decodable_found(tracks@, index as int);
            }
            return match duration_of_track(&tracks[index]) {
                Some(duration) => Ok(duration),
                None => Err(ProbeError::new(ProbeFailure::DurationUnavailable, String::new())),
            };
        }
        index = index + 1;
    }
    Err(ProbeError::new(ProbeFailure::NoAudioTrack, String::new()))
}

/// A file whose first decodable track gives its frames and its sample rate
/// lasts frames over sample rate seconds, whatever else the probe found.
pub proof fn law_duration_is_frames_over_rate(
    tracks: Seq<Track>,
    index: int,
    frames: u64,
    sample_rate: u32,
)
    requires
        is_first_decodable(tracks, index),
        tracks[index].frames == Some(frames),
        tracks[index].sample_rate == Some(sample_rate),
    ensures
        file_duration(tracks) matches Ok(duration) && {
            &&& duration == (Duration::FramesPerRate { frames, sample_rate })
            &&& duration.numerator() == frames
            &&& duration.denominator() == sample_rate
        },
{
    lemma_first_decodable_found(tracks, index);
}

/// A file without a decodable track has no duration, and the failure is one
/// of the media.
pub proof fn law_no_decodable_track_is_a_media_error(tracks: Seq<Track>)
    requires
        forall|i: int| 0 <= i < tracks.len() ==> !(#[trigger] tracks[i]).decodable,
    ensures
        file_duration(tracks) == Err::<Duration, ProbeFailure>(ProbeFailure::NoAudioTrack),
        ProbeFailure::NoAudioTrack.kind() == ErrorKind::Media,
{
}

} // verus!
