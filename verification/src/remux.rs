//! The decisions of the remux that adds converted subtitles to one downloaded
//! file, as a state machine: count the subtitle and attachment streams the
//! file has and find its cover pictures with `ffprobe`, copy the pictures out,
//! move the file aside, and let `ffmpeg` write the file again with the
//! subtitles added and the pictures re-attached. The caller performs each
//! command and reports its outcome; the job answers with the output to show
//! and the next command, until it finishes with the line for the remux log
//! or an error, together with the files to clean up.

use vstd::prelude::*;
use crate::subtitle_pipeline::{
    attached_picture_path, attached_picture_path_of, attached_picture_probe_args,
    attached_picture_probe_args_of, chunk_views, count_nonblank_lines, ffmpeg_remux_args,
    ffmpeg_remux_args_of, log_chunk, nonblank_count, parse_attached_picture_video_indices,
    pipeline_log_line, positions_of_one, stream_count_probe_args, stream_count_probe_args_of,
    thumbnail_extract_args, thumbnail_extract_args_of, AttachedPicture, SubtitleTrack,
};
use crate::text::{concat2, concat3, decimal, decimal_digits, owned, trimmed_lines_of, views};
use crate::yt_dlp::{error_message, YtDlpError, YtDlpOutputStream};

verus! {

/// What the remux of one file knows so far.
#[derive(Debug)]
pub enum RemuxJob {
    /// Waiting for the count of subtitle streams.
    CountingSubtitles { media_path: String, media_name: String, subtitles: Vec<SubtitleTrack> },
    /// Waiting for the attached-picture flags of the video streams.
    FindingPictures {
        media_path: String,
        media_name: String,
        subtitles: Vec<SubtitleTrack>,
        subtitle_count: usize,
    },
    /// Waiting for the count of attachment streams.
    CountingAttachments {
        media_path: String,
        media_name: String,
        subtitles: Vec<SubtitleTrack>,
        subtitle_count: usize,
        picture_indices: Vec<usize>,
    },
    /// Waiting for a free name to move the file to.
    FindingTempPath {
        media_path: String,
        media_name: String,
        subtitles: Vec<SubtitleTrack>,
        subtitle_count: usize,
        attachment_count: usize,
        picture_indices: Vec<usize>,
    },
    /// Waiting for the cover picture `picture_indices[pictures.len()]`.
    ExtractingPictures {
        media_path: String,
        media_name: String,
        subtitles: Vec<SubtitleTrack>,
        subtitle_count: usize,
        attachment_count: usize,
        temp_path: String,
        temp_name: String,
        picture_indices: Vec<usize>,
        pictures: Vec<AttachedPicture>,
    },
    /// Waiting for the file to be moved aside.
    Renaming {
        media_path: String,
        media_name: String,
        subtitles: Vec<SubtitleTrack>,
        subtitle_count: usize,
        attachment_count: usize,
        temp_path: String,
        pictures: Vec<AttachedPicture>,
    },
    /// Waiting for `ffmpeg`.
    RunningFfmpeg {
        media_path: String,
        media_name: String,
        subtitle_total: usize,
        temp_path: String,
        pictures: Vec<AttachedPicture>,
    },
    /// Done.
    Finished,
}

/// The outcome of the last command.
#[derive(Debug)]
pub enum RemuxEvent {
    /// `ffprobe` ran, with its exit status and its output (decoded).
    ProbeFinished { success: bool, stdout: String, stderr: String },
    /// The file can be moved to `path`, whose file name is `name`.
    TempPathFound { path: String, name: String },
    /// `ffmpeg` ran to copy a cover picture; `picture_is_file` says whether
    /// the picture file exists afterwards.
    PictureExtracted { success: bool, picture_is_file: bool, stdout: String, stderr: String },
    Renamed,
    /// Moving the file aside failed with this error.
    RenameFailed(String),
    /// `ffmpeg` ran the remux, with its exit status (also as text) and output.
    FfmpegFinished { success: bool, status: String, stdout: String, stderr: String },
    /// `ffmpeg` could not be run for the remux.
    FfmpegFailed(YtDlpError),
    /// The command could not be carried out, with this message.
    Failed(String),
}

/// What the caller does next.
#[derive(Debug)]
pub enum RemuxCommand {
    /// Run `ffprobe` with these arguments.
    Probe { args: Vec<String> },
    /// Find a free name beside the file (see `temp_media_name`).
    FindTempPath,
    /// Run `ffmpeg` with these arguments to copy a cover picture to
    /// `picture_path`.
    ExtractPicture { args: Vec<String>, picture_path: String },
    /// Move the file `from` to `to`.
    Rename { from: String, to: String },
    /// Run `ffmpeg` with these arguments.
    RunFfmpeg { args: Vec<String> },
    /// Put the moved file back if `restore` names it (as the file and where it
    /// was moved), remove the files in `remove_files`, and return `result`:
    /// the line for the remux log, or the error.
    Finish {
        result: Result<String, String>,
        restore: Option<(String, String)>,
        remove_files: Vec<String>,
    },
}

/// The output to show (each piece with its stream), then the command to run.
#[derive(Debug)]
pub struct RemuxStep {
    pub chunks: Vec<(YtDlpOutputStream, String)>,
    pub command: RemuxCommand,
}

/// The character view of a result.
pub open spec fn result_view(r: Result<String, String>) -> Result<Seq<char>, Seq<char>> {
    match r {
        Ok(s) => Ok(s@),
        Err(e) => Err(e@),
    }
}

/// The character view of a file to restore.
pub open spec fn restore_view(r: Option<(String, String)>) -> Option<(Seq<char>, Seq<char>)> {
    match r {
        Some((media, temp)) => Some((media@, temp@)),
        None => None,
    }
}

/// The paths of the cover pictures.
pub open spec fn picture_paths(pictures: Seq<AttachedPicture>) -> Seq<Seq<char>> {
    pictures.map_values(|p: AttachedPicture| p.path@)
}

/// `step` shows `chunks`, then finishes with `result`, restoring `restore`
/// and removing `removed`.
pub open spec fn finishes(
    step: RemuxStep,
    chunks: Seq<(YtDlpOutputStream, Seq<char>)>,
    result: Result<Seq<char>, Seq<char>>,
    restore: Option<(Seq<char>, Seq<char>)>,
    removed: Seq<Seq<char>>,
) -> bool {
    &&& chunk_views(step.chunks@) == chunks
    &&& step.command matches RemuxCommand::Finish { result: res, restore: rest, remove_files: files }
        && result_view(res) == result && restore_view(rest) == restore && views(files@) == removed
}

/// `step` shows nothing and runs `ffprobe` with `args`.
pub open spec fn probes(step: RemuxStep, args: Seq<Seq<char>>) -> bool {
    &&& step.chunks@.len() == 0
    &&& step.command matches RemuxCommand::Probe { args: a } && views(a@) == args
}

/// `step` copies out the cover picture of video stream `index` of
/// `media_path` next to `temp_path`.
pub open spec fn extracts(step: RemuxStep, media_path: Seq<char>, temp_path: Seq<char>, index: usize) -> bool {
    let picture = attached_picture_path_of(temp_path, index);
    &&& step.chunks@.len() == 0
    &&& step.command matches RemuxCommand::ExtractPicture { args, picture_path }
        && picture_path@ == picture && views(args@) == thumbnail_extract_args_of(
        media_path,
        index,
        picture,
    )
}

/// `step` announces and performs the move of `media_path` to `temp_path`.
pub open spec fn renames(
    step: RemuxStep,
    media_path: Seq<char>,
    media_name: Seq<char>,
    temp_path: Seq<char>,
    temp_name: Seq<char>,
) -> bool {
    &&& chunk_views(step.chunks@) == seq![
        log_chunk("Renaming "@ + media_name + " to "@ + temp_name + " before ffmpeg remux.\n"@),
    ]
    &&& step.command matches RemuxCommand::Rename { from, to } && from@ == media_path && to@
        == temp_path
}

/// The error when `ffprobe` fails while doing `what`.
pub open spec fn probe_failure(what: Seq<char>, stdout: Seq<char>, stderr: Seq<char>) -> Seq<char> {
    "ffprobe failed while "@ + what + ": "@ + stdout + stderr
}

/// How `ffmpeg`'s failed run is shown: its exit status, then its output.
pub open spec fn process_output_chunks(status: Seq<char>, stdout: Seq<char>, stderr: Seq<char>) -> Seq<
    (YtDlpOutputStream, Seq<char>),
> {
    seq![log_chunk("ffmpeg exited with status "@ + status + ".\n"@)] + (if stdout.len() > 0 {
        seq![(YtDlpOutputStream::Stdout, stdout)]
    } else {
        Seq::empty()
    }) + (if stderr.len() > 0 {
        seq![(YtDlpOutputStream::Stderr, stderr)]
    } else {
        Seq::empty()
    })
}

impl RemuxJob {
    /// Whether the job, in this state, waits for `event`: each command has its
    /// outcome, and the probes, the search for a name and the copies of the
    /// pictures may fail.
    pub open spec fn accepts(self, event: RemuxEvent) -> bool {
        match (self, event) {
            (RemuxJob::CountingSubtitles { .. }, RemuxEvent::ProbeFinished { .. }) => true,
            (RemuxJob::CountingSubtitles { .. }, RemuxEvent::Failed(_)) => true,
            (RemuxJob::FindingPictures { .. }, RemuxEvent::ProbeFinished { .. }) => true,
            (RemuxJob::FindingPictures { .. }, RemuxEvent::Failed(_)) => true,
            (RemuxJob::CountingAttachments { .. }, RemuxEvent::ProbeFinished { .. }) => true,
            (RemuxJob::CountingAttachments { .. }, RemuxEvent::Failed(_)) => true,
            (RemuxJob::FindingTempPath { .. }, RemuxEvent::TempPathFound { .. }) => true,
            (RemuxJob::FindingTempPath { .. }, RemuxEvent::Failed(_)) => true,
            (
                RemuxJob::ExtractingPictures { picture_indices, pictures, .. },
                RemuxEvent::PictureExtracted { .. },
            ) => pictures@.len() < picture_indices@.len(),
            (RemuxJob::ExtractingPictures { .. }, RemuxEvent::Failed(_)) => true,
            (RemuxJob::Renaming { .. }, RemuxEvent::Renamed) => true,
            (RemuxJob::Renaming { .. }, RemuxEvent::RenameFailed(_)) => true,
            (RemuxJob::RunningFfmpeg { .. }, RemuxEvent::FfmpegFinished { .. }) => true,
            (RemuxJob::RunningFfmpeg { .. }, RemuxEvent::FfmpegFailed(_)) => true,
            _ => false,
        }
    }

    /// How far the job is from its end, stage by stage: each step moves to a
    /// later stage, or, while copying cover pictures, to fewer pictures left.
    pub open spec fn stages_left(self) -> nat {
        match self {
            RemuxJob::CountingSubtitles { .. } => 7,
            RemuxJob::FindingPictures { .. } => 6,
            RemuxJob::CountingAttachments { .. } => 5,
            RemuxJob::FindingTempPath { .. } => 4,
            RemuxJob::ExtractingPictures { .. } => 3,
            RemuxJob::Renaming { .. } => 2,
            RemuxJob::RunningFfmpeg { .. } => 1,
            RemuxJob::Finished => 0,
        }
    }

    /// The cover pictures still to copy out.
    pub open spec fn pictures_left(self) -> nat {
        match self {
            RemuxJob::ExtractingPictures { picture_indices, pictures, .. } => if pictures@.len()
                < picture_indices@.len() {
                (picture_indices@.len() - pictures@.len()) as nat
            } else {
                0
            },
            _ => 0,
        }
    }

    /// The remux of `media_path` (whose file name is `media_name`) with these
    /// subtitles: it starts by counting the file's subtitle streams.
    pub fn start(media_path: String, media_name: String, subtitles: Vec<SubtitleTrack>) -> (r: (
        Self,
        RemuxStep,
    ))
        ensures
            r.0 == (RemuxJob::CountingSubtitles { media_path, media_name, subtitles }),
            probes(r.1, stream_count_probe_args_of(media_path@, "s"@)),
    {
        let args = stream_count_probe_args(media_path.as_str(), "s");
        (
            RemuxJob::CountingSubtitles { media_path, media_name, subtitles },
            RemuxStep { chunks: Vec::new(), command: RemuxCommand::Probe { args } },
        )
    }
}

/// A finish that shows nothing, with `result` as error, restoring nothing and
/// removing the cover pictures copied so far.
fn fail(message: String, pictures: &Vec<AttachedPicture>) -> (r: RemuxStep)
    ensures
        finishes(r, Seq::empty(), Err(message@), None, picture_paths(pictures@)),
        pictures@.len() == 0 ==> finishes(r, Seq::empty(), Err(message@), None, Seq::empty()),
{
    let files = paths_of(pictures);
    assert(pictures@.len() == 0 ==> picture_paths(pictures@) =~= Seq::<Seq<char>>::empty());
    let chunks: Vec<(YtDlpOutputStream, String)> = Vec::new();
    assert(chunk_views(chunks@) =~= Seq::empty());
    RemuxStep {
        chunks,
        command: RemuxCommand::Finish { result: Err(message), restore: None, remove_files: files },
    }
}

/// The paths of the cover pictures.
fn paths_of(pictures: &Vec<AttachedPicture>) -> (r: Vec<String>)
    ensures
        views(r@) == picture_paths(pictures@),
{
    let mut r: Vec<String> = Vec::new();
    let mut i: usize = 0;
    while i < pictures.len()
        invariant
            i <= pictures@.len(),
            r@.len() == i,
            forall|k: int| 0 <= k < i ==> #[trigger] r@[k]@ == pictures@[k].path@,
        decreases pictures@.len() - i,
    {
        r.push(owned(pictures[i].path.as_str()));
        i = i + 1;
    }
    assert(views(r@) =~= picture_paths(pictures@));
    r
}

/// The error when `ffprobe` fails while doing `what`.
fn probe_failure_message(what: &str, stdout: &str, stderr: &str) -> (r: String)
    ensures
        r@ == probe_failure(what@, stdout@, stderr@),
{
    let mut r = concat3("ffprobe failed while ", what, ": ");
    r.append(stdout);
    r.append(stderr);
    r
}

/// A log line of the remux.
fn log_line(message: &str) -> (r: (YtDlpOutputStream, String))
    ensures
        (r.0, r.1@) == log_chunk(message@),
{
    (YtDlpOutputStream::Stderr, pipeline_log_line(message))
}

/// The step that copies out the cover picture of video stream `index`.
fn extract_step(media_path: &str, temp_path: &str, index: usize) -> (r: RemuxStep)
    ensures
        extracts(r, media_path@, temp_path@, index),
{
    let picture_path = attached_picture_path(temp_path, index);
    let args = thumbnail_extract_args(media_path, index, picture_path.as_str());
    RemuxStep { chunks: Vec::new(), command: RemuxCommand::ExtractPicture { args, picture_path } }
}

/// The step that announces and performs the move of the file aside.
fn rename_step(media_path: &str, media_name: &str, temp_path: &str, temp_name: &str) -> (r:
    RemuxStep)
    ensures
        renames(r, media_path@, media_name@, temp_path@, temp_name@),
{
    let mut message = concat3("Renaming ", media_name, " to ");
    message.append(temp_name);
    message.append(" before ffmpeg remux.\n");
    let chunks = vec![log_line(message.as_str())];
    assert(chunk_views(chunks@) =~= seq![
        log_chunk("Renaming "@ + media_name@ + " to "@ + temp_name@ + " before ffmpeg remux.\n"@),
    ]);
    RemuxStep {
        chunks,
        command: RemuxCommand::Rename { from: owned(media_path), to: owned(temp_path) },
    }
}


impl RemuxJob {
    /// The next step after `event`, the outcome of the last command.
    ///
    /// A failed probe finishes with an error that quotes `ffprobe`'s output. A
    /// picture that cannot be copied out, or a file that cannot be moved aside,
    /// finishes with an error and removes the pictures copied so far. When
    /// `ffmpeg` fails, its output is shown and the job finishes with an error,
    /// puts the file back and removes the pictures; when it succeeds, the job
    /// finishes with the line for the remux log and removes the moved file and
    /// the pictures. Every step brings the job closer to its end (see
    /// `stages_left` and `pictures_left`), so it always finishes.
    pub fn step(self, event: RemuxEvent) -> (r: (Self, RemuxStep))
        requires
            self.accepts(event),
        ensures
            r.0.stages_left() < self.stages_left() || (r.0.stages_left() == self.stages_left()
                && r.0.pictures_left() < self.pictures_left()),
            match (self, event) {
                (
                    RemuxJob::CountingSubtitles { media_path, media_name, subtitles },
                    RemuxEvent::ProbeFinished { success, stdout, stderr },
                ) => if success {
                    &&& r.0 matches RemuxJob::FindingPictures {
                        media_path: m,
                        media_name: n,
                        subtitles: s,
                        subtitle_count: c,
                    } && m == media_path && n == media_name && s == subtitles && c
                        == nonblank_count(trimmed_lines_of(stdout@))
                    &&& probes(r.1, attached_picture_probe_args_of(media_path@))
                } else {
                    &&& r.0 == RemuxJob::Finished
                    &&& finishes(
                        r.1,
                        Seq::empty(),
                        Err(
                            probe_failure(
                                "counting existing subtitle streams"@,
                                stdout@,
                                stderr@,
                            ),
                        ),
                        None,
                        Seq::empty(),
                    )
                },
                (
                    RemuxJob::FindingPictures { media_path, media_name, subtitles, subtitle_count },
                    RemuxEvent::ProbeFinished { success, stdout, stderr },
                ) => if success {
                    &&& r.0 matches RemuxJob::CountingAttachments {
                        media_path: m,
                        media_name: n,
                        subtitles: s,
                        subtitle_count: c,
                        picture_indices: p,
                    } && m == media_path && n == media_name && s == subtitles && c
                        == subtitle_count && p@ == positions_of_one(trimmed_lines_of(stdout@))
                    &&& probes(r.1, stream_count_probe_args_of(media_path@, "t"@))
                } else {
                    &&& r.0 == RemuxJob::Finished
                    &&& finishes(
                        r.1,
                        Seq::empty(),
                        Err(probe_failure("finding attached picture streams"@, stdout@, stderr@)),
                        None,
                        Seq::empty(),
                    )
                },
                (
                    RemuxJob::CountingAttachments {
                        media_path,
                        media_name,
                        subtitles,
                        subtitle_count,
                        picture_indices,
                    },
                    RemuxEvent::ProbeFinished { success, stdout, stderr },
                ) => if success {
                    &&& r.0 matches RemuxJob::FindingTempPath {
                        media_path: m,
                        media_name: n,
                        subtitles: s,
                        subtitle_count: c,
                        attachment_count: a,
                        picture_indices: p,
                    } && m == media_path && n == media_name && s == subtitles && c
                        == subtitle_count && p == picture_indices && a == nonblank_count(
                        trimmed_lines_of(stdout@),
                    )
                    &&& chunk_views(r.1.chunks@) == seq![
                        log_chunk(
                            "Found "@ + decimal_digits(subtitle_count as nat)
                                + " existing subtitle stream(s) and "@ + decimal_digits(
                                picture_indices@.len(),
                            ) + " attached picture stream(s).\n"@,
                        ),
                    ]
                    &&& r.1.command == RemuxCommand::FindTempPath
                } else {
                    &&& r.0 == RemuxJob::Finished
                    &&& finishes(
                        r.1,
                        Seq::empty(),
                        Err(
                            probe_failure(
                                "counting existing attachment streams"@,
                                stdout@,
                                stderr@,
                            ),
                        ),
                        None,
                        Seq::empty(),
                    )
                },
                (
                    RemuxJob::FindingTempPath {
                        media_path,
                        media_name,
                        subtitles,
                        subtitle_count,
                        attachment_count,
                        picture_indices,
                    },
                    RemuxEvent::TempPathFound { path, name },
                ) => if picture_indices@.len() == 0 {
                    &&& r.0 matches RemuxJob::Renaming {
                        media_path: m,
                        media_name: n,
                        subtitles: s,
                        subtitle_count: c,
                        attachment_count: a,
                        temp_path: t,
                        pictures: p,
                    } && m == media_path && n == media_name && s == subtitles && c
                        == subtitle_count && a == attachment_count && t == path && p@.len() == 0
                    &&& renames(r.1, media_path@, media_name@, path@, name@)
                } else {
                    &&& r.0 matches RemuxJob::ExtractingPictures {
                        media_path: m,
                        media_name: n,
                        subtitles: s,
                        subtitle_count: c,
                        attachment_count: a,
                        temp_path: t,
                        temp_name: tn,
                        picture_indices: i,
                        pictures: p,
                    } && m == media_path && n == media_name && s == subtitles && c
                        == subtitle_count && a == attachment_count && t == path && tn == name && i
                        == picture_indices && p@.len() == 0
                    &&& extracts(r.1, media_path@, path@, picture_indices@[0])
                },
                (
                    RemuxJob::ExtractingPictures {
                        media_path,
                        media_name,
                        subtitles,
                        subtitle_count,
                        attachment_count,
                        temp_path,
                        temp_name,
                        picture_indices,
                        pictures,
                    },
                    RemuxEvent::PictureExtracted { success, picture_is_file, stdout, stderr },
                ) => {
                    let index = picture_indices@[pictures@.len() as int];
                    let done = pictures@.len() + 1;
                    if success && picture_is_file {
                        &&& r.0 matches RemuxJob::ExtractingPictures { pictures: p, .. } ==> (
                        done < picture_indices@.len())
                        &&& r.0 matches RemuxJob::Renaming { pictures: p, .. } ==> (done
                            == picture_indices@.len())
                        &&& r.0 matches RemuxJob::ExtractingPictures {
                            media_path: m,
                            media_name: n,
                            subtitles: s,
                            subtitle_count: c,
                            attachment_count: a,
                            temp_path: t,
                            temp_name: tn,
                            picture_indices: i,
                            pictures: p,
                        } ==> m == media_path && n == media_name && s == subtitles && c
                            == subtitle_count && a == attachment_count && t == temp_path && tn
                            == temp_name && i == picture_indices && p@.drop_last() == pictures@
                            && p@.len() == done && p@.last().video_index == index
                            && p@.last().path@ == attached_picture_path_of(temp_path@, index)
                            && extracts(r.1, media_path@, temp_path@, picture_indices@[done as int])
                        &&& r.0 matches RemuxJob::Renaming {
                            media_path: m,
                            media_name: n,
                            subtitles: s,
                            subtitle_count: c,
                            attachment_count: a,
                            temp_path: t,
                            pictures: p,
                        } ==> m == media_path && n == media_name && s == subtitles && c
                            == subtitle_count && a == attachment_count && t == temp_path
                            && p@.drop_last() == pictures@ && p@.len() == done
                            && p@.last().video_index == index && p@.last().path@
                            == attached_picture_path_of(temp_path@, index) && renames(
                            r.1,
                            media_path@,
                            media_name@,
                            temp_path@,
                            temp_name@,
                        )
                        &&& (r.0 is ExtractingPictures || r.0 is Renaming)
                    } else {
                        &&& r.0 == RemuxJob::Finished
                        &&& finishes(
                            r.1,
                            Seq::empty(),
                            Err(
                                "ffmpeg failed to preserve the attached thumbnail: "@ + stdout@
                                    + stderr@,
                            ),
                            None,
                            picture_paths(pictures@),
                        )
                    }
                },
                (
                    RemuxJob::ExtractingPictures { pictures, .. },
                    RemuxEvent::Failed(message),
                ) => {
                    &&& r.0 == RemuxJob::Finished
                    &&& finishes(r.1, Seq::empty(), Err(message@), None, picture_paths(pictures@))
                },
                (_, RemuxEvent::Failed(message)) => {
                    &&& r.0 == RemuxJob::Finished
                    &&& finishes(r.1, Seq::empty(), Err(message@), None, Seq::empty())
                },
                (
                    RemuxJob::Renaming {
                        media_path,
                        media_name,
                        subtitles,
                        subtitle_count,
                        attachment_count,
                        temp_path,
                        pictures,
                    },
                    RemuxEvent::Renamed,
                ) => {
                    &&& r.0 matches RemuxJob::RunningFfmpeg {
                        media_path: m,
                        media_name: n,
                        subtitle_total: st,
                        temp_path: t,
                        pictures: p,
                    } && m == media_path && n == media_name && st == subtitles@.len() && t
                        == temp_path && p == pictures
                    &&& chunk_views(r.1.chunks@) == seq![log_chunk("Running ffmpeg.\n"@)]
                    &&& r.1.command matches RemuxCommand::RunFfmpeg { args } && views(args@)
                        == ffmpeg_remux_args_of(
                        temp_path@,
                        media_path@,
                        subtitles@,
                        subtitle_count as nat,
                        attachment_count as nat,
                        pictures@,
                    )
                },
                (
                    RemuxJob::Renaming { media_path, temp_path, pictures, .. },
                    RemuxEvent::RenameFailed(error),
                ) => {
                    &&& r.0 == RemuxJob::Finished
                    &&& finishes(
                        r.1,
                        Seq::empty(),
                        Err(
                            "failed to rename "@ + media_path@ + " to "@ + temp_path@
                                + " before subtitle remux: "@ + error@,
                        ),
                        None,
                        picture_paths(pictures@),
                    )
                },
                (
                    RemuxJob::RunningFfmpeg { media_path, media_name, subtitle_total, temp_path, pictures },
                    RemuxEvent::FfmpegFinished { success, status, stdout, stderr },
                ) => {
                    &&& r.0 == RemuxJob::Finished
                    &&& if success {
                        finishes(
                            r.1,
                            seq![log_chunk("ffmpeg remux completed for "@ + media_name@ + ".\n"@)],
                            Ok(
                                "\nAttached "@ + decimal_digits(subtitle_total as nat)
                                    + " visual subtitle track(s) to "@ + media_name@ + "."@,
                            ),
                            None,
                            seq![temp_path@] + picture_paths(pictures@),
                        )
                    } else {
                        finishes(
                            r.1,
                            process_output_chunks(status@, stdout@, stderr@),
                            Err(
                                "ffmpeg subtitle remux failed for "@ + media_path@ + ": "@
                                    + stdout@ + stderr@,
                            ),
                            Some((media_path@, temp_path@)),
                            picture_paths(pictures@),
                        )
                    }
                },
                (
                    RemuxJob::RunningFfmpeg { media_path, temp_path, pictures, .. },
                    RemuxEvent::FfmpegFailed(error),
                ) => {
                    &&& r.0 == RemuxJob::Finished
                    &&& finishes(
                        r.1,
                        seq![log_chunk(error_message(error) + "\n"@)],
                        Err(error_message(error)),
                        Some((media_path@, temp_path@)),
                        picture_paths(pictures@),
                    )
                },
                _ => false,
            },
    {
        match (self, event) {
            (
                RemuxJob::CountingSubtitles { media_path, media_name, subtitles },
                RemuxEvent::ProbeFinished { success, stdout, stderr },
            ) => {
                if success {
                    let subtitle_count = count_nonblank_lines(stdout.as_str());
                    let args = attached_picture_probe_args(media_path.as_str());
                    (
                        RemuxJob::FindingPictures { media_path, media_name, subtitles, subtitle_count },
                        RemuxStep { chunks: Vec::new(), command: RemuxCommand::Probe { args } },
                    )
                } else {
                    let message = probe_failure_message(
                        "counting existing subtitle streams",
                        stdout.as_str(),
                        stderr.as_str(),
                    );
                    (RemuxJob::Finished, fail(message, &Vec::new()))
                }
            },
            (
                RemuxJob::FindingPictures { media_path, media_name, subtitles, subtitle_count },
                RemuxEvent::ProbeFinished { success, stdout, stderr },
            ) => {
                if success {
                    let picture_indices = parse_attached_picture_video_indices(stdout.as_str());
                    let args = stream_count_probe_args(media_path.as_str(), "t");
                    (
                        RemuxJob::CountingAttachments {
                            media_path,
                            media_name,
                            subtitles,
                            subtitle_count,
                            picture_indices,
                        },
                        RemuxStep { chunks: Vec::new(), command: RemuxCommand::Probe { args } },
                    )
                } else {
                    let message = probe_failure_message(
                        "finding attached picture streams",
                        stdout.as_str(),
                        stderr.as_str(),
                    );
                    (RemuxJob::Finished, fail(message, &Vec::new()))
                }
            },
            (
                RemuxJob::CountingAttachments {
                    media_path,
                    media_name,
                    subtitles,
                    subtitle_count,
                    picture_indices,
                },
                RemuxEvent::ProbeFinished { success, stdout, stderr },
            ) => {
                if success {
                    let attachment_count = count_nonblank_lines(stdout.as_str());
                    let subtitle_text = decimal(subtitle_count as u128);
                    let picture_text = decimal(picture_indices.len() as u128);
                    let mut message = concat3(
                        "Found ",
                        subtitle_text.as_str(),
                        " existing subtitle stream(s) and ",
                    );
                    message.append(picture_text.as_str());
                    message.append(" attached picture stream(s).\n");
                    let chunks = vec![log_line(message.as_str())];
                    assert(chunk_views(chunks@) =~= seq![
                        log_chunk(
                            "Found "@ + decimal_digits(subtitle_count as nat)
                                + " existing subtitle stream(s) and "@ + decimal_digits(
                                picture_indices@.len(),
                            ) + " attached picture stream(s).\n"@,
                        ),
                    ]);
                    (
                        RemuxJob::FindingTempPath {
                            media_path,
                            media_name,
                            subtitles,
                            subtitle_count,
                            attachment_count,
                            picture_indices,
                        },
                        RemuxStep { chunks, command: RemuxCommand::FindTempPath },
                    )
                } else {
                    let message = probe_failure_message(
                        "counting existing attachment streams",
                        stdout.as_str(),
                        stderr.as_str(),
                    );
                    (RemuxJob::Finished, fail(message, &Vec::new()))
                }
            },
            (
                RemuxJob::FindingTempPath {
                    media_path,
                    media_name,
                    subtitles,
                    subtitle_count,
                    attachment_count,
                    picture_indices,
                },
                RemuxEvent::TempPathFound { path, name },
            ) => {
                if picture_indices.len() == 0 {
                    let step = rename_step(
                        media_path.as_str(),
                        media_name.as_str(),
                        path.as_str(),
                        name.as_str(),
                    );
                    (
                        RemuxJob::Renaming {
                            media_path,
                            media_name,
                            subtitles,
                            subtitle_count,
                            attachment_count,
                            temp_path: path,
                            pictures: Vec::new(),
                        },
                        step,
                    )
                } else {
                    let step = extract_step(media_path.as_str(), path.as_str(), picture_indices[0]);
                    (
                        RemuxJob::ExtractingPictures {
                            media_path,
                            media_name,
                            subtitles,
                            subtitle_count,
                            attachment_count,
                            temp_path: path,
                            temp_name: name,
                            picture_indices,
                            pictures: Vec::new(),
                        },
                        step,
                    )
                }
            },
            (
                RemuxJob::ExtractingPictures {
                    media_path,
                    media_name,
                    subtitles,
                    subtitle_count,
                    attachment_count,
                    temp_path,
                    temp_name,
                    picture_indices,
                    pictures,
                },
                RemuxEvent::PictureExtracted { success, picture_is_file, stdout, stderr },
            ) => {
                if success && picture_is_file {
                    let index = picture_indices[pictures.len()];
                    let mut pictures = pictures;
                    let ghost before = pictures@;
                    pictures.push(
                        AttachedPicture {
                            video_index: index,
                            path: attached_picture_path(temp_path.as_str(), index),
                        },
                    );
                    assert(pictures@.drop_last() =~= before);
                    if pictures.len() < picture_indices.len() {
                        let step = extract_step(
                            media_path.as_str(),
                            temp_path.as_str(),
                            picture_indices[pictures.len()],
                        );
                        (
                            RemuxJob::ExtractingPictures {
                                media_path,
                                media_name,
                                subtitles,
                                subtitle_count,
                                attachment_count,
                                temp_path,
                                temp_name,
                                picture_indices,
                                pictures,
                            },
                            step,
                        )
                    } else {
                        let step = rename_step(
                            media_path.as_str(),
                            media_name.as_str(),
                            temp_path.as_str(),
                            temp_name.as_str(),
                        );
                        (
                            RemuxJob::Renaming {
                                media_path,
                                media_name,
                                subtitles,
                                subtitle_count,
                                attachment_count,
                                temp_path,
                                pictures,
                            },
                            step,
                        )
                    }
                } else {
                    let mut message = concat2(
                        "ffmpeg failed to preserve the attached thumbnail: ",
                        stdout.as_str(),
                    );
                    message.append(stderr.as_str());
                    (RemuxJob::Finished, fail(message, &pictures))
                }
            },
            (RemuxJob::ExtractingPictures { pictures, .. }, RemuxEvent::Failed(message)) => {
                (RemuxJob::Finished, fail(message, &pictures))
            },
            (_, RemuxEvent::Failed(message)) => (RemuxJob::Finished, fail(message, &Vec::new())),
            (
                RemuxJob::Renaming {
                    media_path,
                    media_name,
                    subtitles,
                    subtitle_count,
                    attachment_count,
                    temp_path,
                    pictures,
                },
                RemuxEvent::Renamed,
            ) => {
                let args = ffmpeg_remux_args(
                    temp_path.as_str(),
                    media_path.as_str(),
                    &subtitles,
                    subtitle_count,
                    attachment_count,
                    &pictures,
                );
                let chunks = vec![log_line("Running ffmpeg.\n")];
                assert(chunk_views(chunks@) =~= seq![log_chunk("Running ffmpeg.\n"@)]);
                (
                    RemuxJob::RunningFfmpeg {
                        media_path,
                        media_name,
                        subtitle_total: subtitles.len(),
                        temp_path,
                        pictures,
                    },
                    RemuxStep { chunks, command: RemuxCommand::RunFfmpeg { args } },
                )
            },
            (
                RemuxJob::Renaming { media_path, temp_path, pictures, .. },
                RemuxEvent::RenameFailed(error),
            ) => {
                let mut message = concat3("failed to rename ", media_path.as_str(), " to ");
                message.append(temp_path.as_str());
                message.append(" before subtitle remux: ");
                message.append(error.as_str());
                (RemuxJob::Finished, fail(message, &pictures))
            },
            (
                RemuxJob::RunningFfmpeg { media_path, media_name, subtitle_total, temp_path, pictures },
                RemuxEvent::FfmpegFinished { success, status, stdout, stderr },
            ) => {
                if success {
                    let message = concat3("ffmpeg remux completed for ", media_name.as_str(), ".\n");
                    let chunks = vec![log_line(message.as_str())];
                    assert(chunk_views(chunks@) =~= seq![
                        log_chunk("ffmpeg remux completed for "@ + media_name@ + ".\n"@),
                    ]);
                    let total = decimal(subtitle_total as u128);
                    let mut line = concat3(
                        "\nAttached ",
                        total.as_str(),
                        " visual subtitle track(s) to ",
                    );
                    line.append(media_name.as_str());
                    line.append(".");
                    let ghost tp = temp_path@;
                    let mut files = vec![temp_path];
                    assert(views(files@) =~= seq![tp]);
                    let mut picture_files = paths_of(&pictures);
                    let ghost first = views(files@);
                    let ghost rest = views(picture_files@);
                    files.append(&mut picture_files);
                    assert(views(files@) =~= first + rest);
                    assert(views(files@) =~= seq![tp] + picture_paths(pictures@));
                    (
                        RemuxJob::Finished,
                        RemuxStep {
                            chunks,
                            command: RemuxCommand::Finish {
                                result: Ok(line),
                                restore: None,
                                remove_files: files,
                            },
                        },
                    )
                } else {
                    let message = concat3("ffmpeg exited with status ", status.as_str(), ".\n");
                    let mut chunks = vec![log_line(message.as_str())];
                    if !stdout.as_str().is_empty() {
                        chunks.push((YtDlpOutputStream::Stdout, owned(stdout.as_str())));
                    }
                    if !stderr.as_str().is_empty() {
                        chunks.push((YtDlpOutputStream::Stderr, owned(stderr.as_str())));
                    }
                    assert(chunk_views(chunks@) =~= process_output_chunks(
                        status@,
                        stdout@,
                        stderr@,
                    ));
                    let mut error = concat3(
                        "ffmpeg subtitle remux failed for ",
                        media_path.as_str(),
                        ": ",
                    );
                    error.append(stdout.as_str());
                    error.append(stderr.as_str());
                    let files = paths_of(&pictures);
                    (
                        RemuxJob::Finished,
                        RemuxStep {
                            chunks,
                            command: RemuxCommand::Finish {
                                result: Err(error),
                                restore: Some((media_path, temp_path)),
                                remove_files: files,
                            },
                        },
                    )
                }
            },
            (
                RemuxJob::RunningFfmpeg { media_path, temp_path, pictures, .. },
                RemuxEvent::FfmpegFailed(error),
            ) => {
                let message = error.message();
                let shown = concat2(message.as_str(), "\n");
                let chunks = vec![log_line(shown.as_str())];
                assert(chunk_views(chunks@) =~= seq![log_chunk(error_message(error) + "\n"@)]);
                let files = paths_of(&pictures);
                (
                    RemuxJob::Finished,
                    RemuxStep {
                        chunks,
                        command: RemuxCommand::Finish {
                            result: Err(message),
                            restore: Some((media_path, temp_path)),
                            remove_files: files,
                        },
                    },
                )
            },
            _ => {
                proof {
                    assert(false);
                }
                (RemuxJob::Finished, fail(String::new(), &Vec::new()))
            },
        }
    }
}

} // verus!
