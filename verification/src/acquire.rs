//! Getting the audio of a video onto the local disk, once.
//!
//! The audio of a video lives in one file, named after the video's
//! identifier. A file that is already there is taken as it is; only a
//! missing one is downloaded. The library decides; the caller makes the
//! directory, looks for the file and runs the download tool.

use crate::error::ErrorKind;
use crate::video_id::{extract_youtube_video_id, video_id_of};
use vstd::prelude::*;
use vstd::string::StringExecFns;

verus! {

/// Why an acquisition failed.
#[derive(Clone, Copy, Debug, PartialEq, Eq, Structural)]
pub enum AcquireFailure {
    /// The link holds no video identifier.
    InvalidUrl,
    /// The output directory could not be made.
    Storage,
    /// The download tool failed.
    Download,
}

impl AcquireFailure {
    /// The class of the failure. A failed download counts as a failure of
    /// the network.
    pub open spec fn kind(self) -> ErrorKind {
        match self {
            AcquireFailure::InvalidUrl => ErrorKind::InvalidInput,
            AcquireFailure::Storage => ErrorKind::Storage,
            AcquireFailure::Download => ErrorKind::Network,
        }
    }

    /// The words that open the failure's message; the cause follows them.
    pub open spec fn prefix(self) -> Seq<char> {
        match self {
            AcquireFailure::InvalidUrl => {
                "URL do YouTube inválida ou ID do vídeo não encontrado"@
            },
            AcquireFailure::Storage => "Failed to create output directory: "@,
            AcquireFailure::Download => "Failed to download audio: "@,
        }
    }

    /// The class of the failure.
    pub fn class(self) -> (r: ErrorKind)
        ensures
            r == self.kind(),
    {
        match self {
            AcquireFailure::InvalidUrl => ErrorKind::InvalidInput,
            AcquireFailure::Storage => ErrorKind::Storage,
            AcquireFailure::Download => ErrorKind::Network,
        }
    }

    /// The words that open the failure's message.
    pub fn opening(self) -> (r: &'static str)
        ensures
            r@ == self.prefix(),
    {
        match self {
            AcquireFailure::InvalidUrl => {
                "URL do YouTube inválida ou ID do vídeo não encontrado"
            },
            AcquireFailure::Storage => "Failed to create output directory: ",
            AcquireFailure::Download => "Failed to download audio: ",
        }
    }
}

/// A failed acquisition: what went wrong, and the cause in the words of the
/// file system or of the download tool. An invalid link has no cause.
#[derive(Clone, Debug, PartialEq, Eq)]
pub struct AcquireError {
    pub failure: AcquireFailure,
    pub detail: String,
}

/// The mathematical value of an `AcquireError`.
pub struct AcquireErrorView {
    pub failure: AcquireFailure,
    pub detail: Seq<char>,
}

impl AcquireErrorView {
    /// The message shown to the user.
    pub open spec fn message(self) -> Seq<char> {
        self.failure.prefix() + self.detail
    }
}

impl View for AcquireError {
    type V = AcquireErrorView;

    open spec fn view(&self) -> AcquireErrorView {
        AcquireErrorView { failure: self.failure, detail: self.detail@ }
    }
}

impl AcquireError {
    /// The class of the failure.
    pub fn kind(&self) -> (r: ErrorKind)
        ensures
            r == self@.failure.kind(),
    {
        self.failure.class()
    }

    /// The message shown to the user.
    pub fn message(&self) -> (r: String)
        ensures
            r@ == self@.message(),
    {
        String::from_str(self.failure.opening()).concat(self.detail.as_str())
    }
}

/// The name of the audio file of a video.
pub open spec fn audio_file_name(video_id: Seq<char>) -> Seq<char> {
    video_id + ".mp3"@
}

/// The path of a file in the output directory.
pub open spec fn path_in(output_dir: Seq<char>, file_name: Seq<char>) -> Seq<char> {
    output_dir + "/"@ + file_name
}

/// The path of the audio file of a video.
pub open spec fn audio_path(output_dir: Seq<char>, video_id: Seq<char>) -> Seq<char> {
    path_in(output_dir, audio_file_name(video_id))
}

/// Joins a file name to the output directory.
pub fn output_path(output_dir: &str, file_name: &str) -> (r: String)
    ensures
        r@ == path_in(output_dir@, file_name@),
{
    String::from_str(output_dir).concat("/").concat(file_name)
}

/// What the download tool is asked to do: fetch `url` in the format
/// `format`, extract the audio if `extract_audio` says so, give up on a
/// socket after `socket_timeout` seconds, and work in `output_dir`. The
/// further arguments are handed to the tool as they are, in this order.
#[derive(Clone, Debug, PartialEq, Eq)]
pub struct DownloadOrder {
    pub url: String,
    pub extract_audio: bool,
    pub format: String,
    pub extra_args: Vec<String>,
    pub socket_timeout: String,
    pub output_dir: String,
}

/// The mathematical value of a `DownloadOrder`.
pub struct DownloadOrderView {
    pub url: Seq<char>,
    pub extract_audio: bool,
    pub format: Seq<char>,
    pub extra_args: Seq<Seq<char>>,
    pub socket_timeout: Seq<char>,
    pub output_dir: Seq<char>,
}

impl View for DownloadOrder {
    type V = DownloadOrderView;

    open spec fn view(&self) -> DownloadOrderView {
        DownloadOrderView {
            url: self.url@,
            extract_audio: self.extract_audio,
            format: self.format@,
            extra_args: self.extra_args.deep_view(),
            socket_timeout: self.socket_timeout@,
            output_dir: self.output_dir@,
        }
    }
}

/// What the caller is to do next, or has last done.
#[derive(Clone, Copy, Debug, PartialEq, Eq, Structural)]
pub enum AcquirePhase {
    /// Make the output directory, with its parents.
    Directory,
    /// Look whether the audio file is there.
    Check,
    /// Run the download tool.
    Download,
}

/// An acquisition under way.
#[derive(Debug, PartialEq, Eq)]
pub struct Acquisition {
    url: String,
    output_dir: String,
    video_id: String,
    phase: AcquirePhase,
}

/// The mathematical value of an `Acquisition`.
pub struct AcquisitionView {
    pub url: Seq<char>,
    pub output_dir: Seq<char>,
    pub video_id: Seq<char>,
    pub phase: AcquirePhase,
}

impl View for Acquisition {
    type V = AcquisitionView;

    closed spec fn view(&self) -> AcquisitionView {
        AcquisitionView {
            url: self.url@,
            output_dir: self.output_dir@,
            video_id: self.video_id@,
            phase: self.phase,
        }
    }
}

/// How the caller's last action went.
#[derive(Clone, Debug, PartialEq, Eq)]
pub enum Outcome {
    /// The action was carried out.
    Succeeded,
    /// The action failed, for this cause.
    Failed { cause: String },
    /// The file looked for is there.
    Found,
    /// The file looked for is not there.
    Missing,
}

/// What the acquisition asks of its caller.
#[derive(Debug, PartialEq, Eq)]
pub enum AcquireStep {
    /// Make the directory `dir`, with its parents, and report to
    /// `acquisition`.
    MakeDirectory { acquisition: Acquisition, dir: String },
    /// Look whether there is a file at `path`, and report to `acquisition`.
    CheckFile { acquisition: Acquisition, path: String },
    /// Run the download tool on `order`, and report to `acquisition`.
    Download { acquisition: Acquisition, order: DownloadOrder },
    /// The acquisition is over: the path of the audio file, or the failure.
    Done { result: Result<String, AcquireError> },
}

/// The mathematical value of an `AcquireStep`.
pub enum AcquireStepView {
    MakeDirectory { acquisition: AcquisitionView, dir: Seq<char> },
    CheckFile { acquisition: AcquisitionView, path: Seq<char> },
    Download { acquisition: AcquisitionView, order: DownloadOrderView },
    Done { result: Result<Seq<char>, AcquireErrorView> },
}

/// The mathematical value of the result of an acquisition.
pub open spec fn acquired_view(r: Result<String, AcquireError>) -> Result<
    Seq<char>,
    AcquireErrorView,
> {
    match r {
        Ok(path) => Ok(path@),
        Err(error) => Err(error@),
    }
}

impl View for AcquireStep {
    type V = AcquireStepView;

    open spec fn view(&self) -> AcquireStepView {
        match *self {
            AcquireStep::MakeDirectory { acquisition, dir } => AcquireStepView::MakeDirectory {
                acquisition: acquisition@,
                dir: dir@,
            },
            AcquireStep::CheckFile { acquisition, path } => AcquireStepView::CheckFile {
                acquisition: acquisition@,
                path: path@,
            },
            AcquireStep::Download { acquisition, order } => AcquireStepView::Download {
                acquisition: acquisition@,
                order: order@,
            },
            AcquireStep::Done { result } => AcquireStepView::Done { result: acquired_view(result) },
        }
    }
}

/// The failure of an acquisition, as a step.
pub open spec fn gave_up(failure: AcquireFailure, detail: Seq<char>) -> AcquireStepView {
    AcquireStepView::Done { result: Err(AcquireErrorView { failure, detail }) }
}

/// The first step of the acquisition of the audio behind `url`: nothing is
/// asked of the caller where the link holds no identifier.
pub open spec fn first_step(url: Seq<char>, output_dir: Seq<char>) -> AcquireStepView {
    match video_id_of(url) {
        None => gave_up(AcquireFailure::InvalidUrl, Seq::empty()),
        Some(video_id) => AcquireStepView::MakeDirectory {
            acquisition: AcquisitionView {
                url,
                output_dir,
                video_id,
                phase: AcquirePhase::Directory,
            },
            dir: output_dir,
        },
    }
}

impl AcquisitionView {
    /// The path of the audio file.
    pub open spec fn target(self) -> Seq<char> {
        audio_path(self.output_dir, self.video_id)
    }

    /// The order for the download tool: the best audio of the video,
    /// extracted, converted to mp3 and written under the name of the audio
    /// file, with a socket timeout of fifteen seconds.
    pub open spec fn order(self) -> DownloadOrderView {
        DownloadOrderView {
            url: self.url,
            extract_audio: true,
            format: "bestaudio"@,
            extra_args: seq!["-o"@, audio_file_name(self.video_id), "--audio-format"@, "mp3"@],
            socket_timeout: "15"@,
            output_dir: self.output_dir,
        }
    }

    /// The acquisition in another phase.
    pub open spec fn at(self, phase: AcquirePhase) -> AcquisitionView {
        AcquisitionView { phase, ..self }
    }

    /// What follows the report `outcome` on the action that the acquisition
    /// waits for. A directory that cannot be made and a download that fails
    /// end the acquisition. A file that is found is the result, and nothing
    /// is downloaded; any other report on the file leads to the download.
    pub open spec fn next(self, outcome: Outcome) -> AcquireStepView {
        match self.phase {
            AcquirePhase::Directory => match outcome {
                Outcome::Failed { cause } => gave_up(AcquireFailure::Storage, cause@),
                _ => AcquireStepView::CheckFile {
                    acquisition: self.at(AcquirePhase::Check),
                    path: self.target(),
                },
            },
            AcquirePhase::Check => match outcome {
                Outcome::Found => AcquireStepView::Done { result: Ok(self.target()) },
                _ => AcquireStepView::Download {
                    acquisition: self.at(AcquirePhase::Download),
                    order: self.order(),
                },
            },
            AcquirePhase::Download => match outcome {
                Outcome::Failed { cause } => gave_up(AcquireFailure::Download, cause@),
                _ => AcquireStepView::Done { result: Ok(self.target()) },
            },
        }
    }
}

impl Acquisition {
    /// Starts the acquisition of the audio behind `url`, to be kept in
    /// `output_dir`.
    pub fn start(url: &str, output_dir: &str) -> (r: AcquireStep)
        ensures
            r@ == first_step(url@, output_dir@),
    {
        match extract_youtube_video_id(url) {
            None => AcquireStep::Done {
                result: Err(
                    AcquireError { failure: AcquireFailure::InvalidUrl, detail: String::new() },
                ),
            },
            Some(video_id) => AcquireStep::MakeDirectory {
                acquisition: Acquisition {
                    url: url.to_owned(),
                    output_dir: output_dir.to_owned(),
                    video_id,
                    phase: AcquirePhase::Directory,
                },
                dir: output_dir.to_owned(),
            },
        }
    }

    /// The identifier of the video.
    pub fn video_id(&self) -> (r: &str)
        ensures
            r@ == self@.video_id,
    {
        self.video_id.as_str()
    }

    /// The path of the audio file.
    pub fn target(&self) -> (r: String)
        ensures
            r@ == self@.target(),
    {
        let file_name = self.video_id.clone().concat(".mp3");
        output_path(self.output_dir.as_str(), file_name.as_str())
    }

    /// The order for the download tool.
    fn order(&self) -> (r: DownloadOrder)
        ensures
            r@ == self@.order(),
    {
        let mut extra_args: Vec<String> = Vec::new();
        extra_args.push("-o".to_owned());
        extra_args.push(self.video_id.clone().concat(".mp3"));
        extra_args.push("--audio-format".to_owned());
        extra_args.push("mp3".to_owned());
        assert(extra_args.deep_view() =~= self@.order().extra_args);
        DownloadOrder {
            url: self.url.clone(),
            extract_audio: true,
            format: "bestaudio".to_owned(),
            extra_args,
            socket_timeout: "15".to_owned(),
            output_dir: self.output_dir.clone(),
        }
    }

    /// Takes the report on the action that was asked for last, and says what
    /// comes next.
    pub fn step(self, outcome: Outcome) -> (r: AcquireStep)
        ensures
            r@ == self@.next(outcome),
    {
        match self.phase {
            AcquirePhase::Directory => match outcome {
                Outcome::Failed { cause } => AcquireStep::Done {
                    result: Err(AcquireError { failure: AcquireFailure::Storage, detail: cause }),
                },
                _ => {
                    let path = self.target();
                    AcquireStep::CheckFile {
                        acquisition: Acquisition {
                            url: self.url,
                            output_dir: self.output_dir,
                            video_id: self.video_id,
                            phase: AcquirePhase::Check,
                        },
                        path,
                    }
                },
            },
            AcquirePhase::Check => match outcome {
                Outcome::Found => AcquireStep::Done { result: Ok(self.target()) },
                _ => {
                    let order = self.order();
                    AcquireStep::Download {
                        acquisition: Acquisition {
                            url: self.url,
                            output_dir: self.output_dir,
                            video_id: self.video_id,
                            phase: AcquirePhase::Download,
                        },
                        order,
                    }
                },
            },
            AcquirePhase::Download => match outcome {
                Outcome::Failed { cause } => AcquireStep::Done {
                    result: Err(AcquireError { failure: AcquireFailure::Download, detail: cause }),
                },
                _ => AcquireStep::Done { result: Ok(self.target()) },
            },
        }
    }
}

/// An acquisition keeps to its link, its directory and its video, and never
/// goes back: the directory comes before the look for the file, and that
/// before the download.
pub proof fn law_acquisition_moves_forward(acquisition: AcquisitionView, outcome: Outcome)
    ensures
        steps_left(acquisition.next(outcome)) < steps_left(
            AcquireStepView::MakeDirectory { acquisition, dir: acquisition.output_dir },
        ),
        match acquisition.next(outcome) {
            AcquireStepView::MakeDirectory { acquisition: then, dir } => false,
            AcquireStepView::CheckFile { acquisition: then, path } => {
                &&& then == acquisition.at(AcquirePhase::Check)
                &&& path == acquisition.target()
            },
            AcquireStepView::Download { acquisition: then, order } => {
                &&& then == acquisition.at(AcquirePhase::Download)
                &&& order == acquisition.order()
            },
            AcquireStepView::Done { result } => result matches Ok(path) ==> path
                == acquisition.target(),
        },
{
}

/// The conditions that one acquisition meets: how making the directory
/// goes, whether the audio file is there when it is looked for, and how the
/// download goes if it is run.
pub struct Conditions {
    pub directory: Outcome,
    pub file_there: bool,
    pub download: Outcome,
}

/// One acquisition from its first step to its end.
pub struct Run {
    /// The path of the audio file, or the failure.
    pub result: Result<Seq<char>, AcquireErrorView>,
    /// How often the download tool was run.
    pub downloads: nat,
    /// Whether the audio file is there afterwards.
    pub file_there: bool,
}

/// How many actions an acquisition may still ask for.
pub open spec fn steps_left(step: AcquireStepView) -> nat {
    let phase = match step {
        AcquireStepView::MakeDirectory { acquisition, dir } => Some(acquisition.phase),
        AcquireStepView::CheckFile { acquisition, path } => Some(acquisition.phase),
        AcquireStepView::Download { acquisition, order } => Some(acquisition.phase),
        AcquireStepView::Done { result } => None,
    };
    match phase {
        Some(AcquirePhase::Directory) => 3,
        Some(AcquirePhase::Check) => 2,
        Some(AcquirePhase::Download) => 1,
        None => 0,
    }
}

/// The rest of an acquisition under the conditions `met`, for a caller that
/// does what each step asks and reports how it went. A download that
/// succeeds leaves the audio file behind: this is what the tool is run for,
/// and is taken for granted here.
pub open spec fn carried_out(step: AcquireStepView, met: Conditions) -> Run
    decreases steps_left(step),
{
    match step {
        AcquireStepView::MakeDirectory { acquisition, dir } => carried_out(
            acquisition.next(met.directory),
            met,
        ),
        AcquireStepView::CheckFile { acquisition, path } => carried_out(
            acquisition.next(
                if met.file_there {
                    Outcome::Found
                } else {
                    Outcome::Missing
                },
            ),
            met,
        ),
        AcquireStepView::Download { acquisition, order } => {
            let written = !(met.download is Failed);
            let rest = carried_out(
                acquisition.next(met.download),
                Conditions { file_there: met.file_there || written, ..met },
            );
            Run { downloads: rest.downloads + 1, ..rest }
        },
        AcquireStepView::Done { result } => Run {
            result,
            downloads: 0,
            file_there: met.file_there,
        },
    }
}

/// The acquisition of the audio behind `url` under the conditions `met`.
pub open spec fn acquired(url: Seq<char>, output_dir: Seq<char>, met: Conditions) -> Run {
    carried_out(first_step(url, output_dir), met)
}

/// An acquisition downloads at most once, and only where the audio file is
/// not there. Where it succeeds, its result is the path of the audio file:
/// the output directory, a slash, the video's identifier, and `.mp3`.
pub proof fn law_acquisition_downloads_only_what_is_missing(
    url: Seq<char>,
    output_dir: Seq<char>,
    met: Conditions,
)
    ensures
        acquired(url, output_dir, met).downloads <= 1,
        met.file_there ==> acquired(url, output_dir, met).downloads == 0,
        acquired(url, output_dir, met).result matches Ok(path) ==> {
            &&& video_id_of(url) matches Some(video_id)
            &&& path == audio_path(output_dir, video_id)
            &&& acquired(url, output_dir, met).file_there
        },
{
    reveal_with_fuel(carried_out, 4);
}

/// Acquiring the same audio twice downloads it at most once: after an
/// acquisition that succeeded, a second one for the same link returns the
/// same path and downloads nothing, provided that the file is still there
/// and the directory can still be made.
pub proof fn law_second_acquisition_downloads_nothing(
    url: Seq<char>,
    output_dir: Seq<char>,
    first: Conditions,
    second: Conditions,
)
    requires
        acquired(url, output_dir, first).result is Ok,
        second.file_there == acquired(url, output_dir, first).file_there,
        !(second.directory is Failed),
    ensures
        acquired(url, output_dir, second).downloads == 0,
        acquired(url, output_dir, second).result == acquired(url, output_dir, first).result,
        acquired(url, output_dir, first).downloads + acquired(url, output_dir, second).downloads
            <= 1,
{
    reveal_with_fuel(carried_out, 4);
}

} // verus!
