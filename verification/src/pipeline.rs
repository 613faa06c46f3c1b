//! The decisions of the advanced subtitle pipeline for one YouTube video
//! download, as a state machine: the caller performs each command (creating
//! the working directory, running `yt-dlp`, converting subtitles, remuxing)
//! and reports its outcome; the pipeline answers with the output to show and
//! the next command, until it finishes with the result of the download.

use vstd::prelude::*;
use crate::subtitle_pipeline::{
    chunk_views, command_output_chunks, log_chunk, output_chunks_of, main_download_args, pipeline_log_line, subtitle_download_args,
    subtitle_download_args_of, with_pipeline_output, SubtitleTrack,
};
use crate::text::{concat2, concat3, decimal, decimal_digits, owned, views};
use crate::yt_dlp::{YtDlpCommandOutput, YtDlpOutputStream};

verus! {

/// The name of the file, in the working directory, to which `yt-dlp` writes
/// the final path of each downloaded file.
pub const DOWNLOADED_PATHS_FILE_NAME: &'static str = "downloaded-media-paths.txt";

/// What the pipeline knows so far.
#[derive(Debug)]
pub enum SubtitlePipeline {
    /// Waiting for the working directory.
    CreatingDir { args: Vec<String>, link: String },
    /// Waiting for the subtitle-only download.
    DownloadingSubtitles { args: Vec<String>, dir: String, paths_file: String },
    /// Waiting for the list of downloaded `srv3` files.
    CollectingSrv3 {
        args: Vec<String>,
        dir: String,
        paths_file: String,
        subtitle_output: YtDlpCommandOutput,
    },
    /// Waiting for the main download (the conversions run beside it).
    DownloadingMain { dir: String, paths_file: String, subtitle_output: YtDlpCommandOutput },
    /// Waiting for the subtitle conversions.
    Converting {
        dir: String,
        paths_file: String,
        subtitle_output: YtDlpCommandOutput,
        main_output: YtDlpCommandOutput,
    },
    /// Waiting for the paths of the downloaded files.
    ReadingMediaPaths {
        dir: String,
        subtitle_output: YtDlpCommandOutput,
        main_output: YtDlpCommandOutput,
        subtitles: Vec<SubtitleTrack>,
    },
    /// Waiting for the remux of `media_paths[next - 1]`.
    Remuxing {
        dir: String,
        subtitle_output: YtDlpCommandOutput,
        main_output: YtDlpCommandOutput,
        subtitles: Vec<SubtitleTrack>,
        media_paths: Vec<String>,
        next: usize,
        remux_log: String,
    },
    /// Done.
    Finished,
}

/// The outcome of the last command.
#[derive(Debug)]
pub enum PipelineEvent {
    /// The working directory was created at `dir` (whose file name is
    /// `dir_name`); `paths_file` is `dir` joined with
    /// `DOWNLOADED_PATHS_FILE_NAME`.
    SubtitleDirCreated { dir: String, dir_name: String, paths_file: String },
    SubtitlesDownloaded(YtDlpCommandOutput),
    /// This many `srv3` files were downloaded.
    Srv3FilesFound(usize),
    MainDownloaded(YtDlpCommandOutput),
    SubtitlesConverted(Vec<SubtitleTrack>),
    /// The downloaded files that exist, from the paths file.
    MediaPathsFound(Vec<String>),
    /// A file was remuxed; the line to add to the log of remuxes.
    MediaRemuxed(String),
    /// The command failed with this message.
    Failed(String),
}

/// What the caller does next.
#[derive(Debug)]
pub enum PipelineCommand {
    CreateSubtitleDir,
    /// Run `yt-dlp` with these arguments and collect its output.
    DownloadSubtitles { args: Vec<String> },
    /// List the `srv3` files in the directory.
    CollectSrv3Files { dir: String },
    /// Start converting the `srv3` files, then run the main download with
    /// these arguments, forwarding its output as it comes.
    ConvertAndDownloadMain { args: Vec<String> },
    /// Wait for the conversions.
    AwaitConversions,
    /// Read the paths file and keep the paths of files that exist.
    ReadMediaPaths { paths_file: String },
    /// Add the subtitles to one downloaded file.
    Remux { media_path: String, subtitles: Vec<SubtitleTrack> },
    /// Remove the working directory if one is named, and return the result.
    Finish { result: Result<YtDlpCommandOutput, String>, remove_dir: Option<String> },
}

/// The output to show (each piece with its stream), then the command to run.
#[derive(Debug)]
pub struct PipelineStep {
    pub chunks: Vec<(YtDlpOutputStream, String)>,
    pub command: PipelineCommand,
}

/// `out` is the main download's output with the subtitle download's output in
/// front of it on each stream and `extra` after standard error.
pub open spec fn is_combined_output(
    out: YtDlpCommandOutput,
    main: YtDlpCommandOutput,
    subtitle: YtDlpCommandOutput,
    extra: Seq<char>,
) -> bool {
    &&& out.exit_code == main.exit_code
    &&& out.success == main.success
    &&& out.stdout@ == subtitle.stdout@ + main.stdout@
    &&& out.stderr@ == subtitle.stderr@ + main.stderr@ + extra
}

/// The note added when the downloaded files cannot be found.
pub open spec fn no_media_note() -> Seq<char> {
    "\nCould not identify the final yt-dlp output file; skipping subtitle attachment."@
}

/// The main download's arguments, from the user's and the paths file.
pub open spec fn main_download_args_of(args: Seq<Seq<char>>, paths_file: Seq<char>) -> Seq<
    Seq<char>,
> {
    args + seq!["--print-to-file"@, "after_move:filepath"@, paths_file]
}

/// `step` shows `chunks`, finishes with `result` and removes `remove_dir`.
pub open spec fn finishes(
    step: PipelineStep,
    chunks: Seq<(YtDlpOutputStream, Seq<char>)>,
    result: Result<YtDlpCommandOutput, String>,
    remove_dir: Option<String>,
) -> bool {
    &&& chunk_views(step.chunks@) == chunks
    &&& step.command == PipelineCommand::Finish { result, remove_dir }
}

impl SubtitlePipeline {
    /// Whether the pipeline, in this state, waits for `event`: each command has
    /// its outcome, and any command may fail.
    pub open spec fn accepts(self, event: PipelineEvent) -> bool {
        match (self, event) {
            (SubtitlePipeline::Finished, _) => false,
            (_, PipelineEvent::Failed(_)) => true,
            (SubtitlePipeline::CreatingDir { .. }, PipelineEvent::SubtitleDirCreated { .. }) => true,
            (SubtitlePipeline::DownloadingSubtitles { .. }, PipelineEvent::SubtitlesDownloaded(_)) => true,
            (SubtitlePipeline::CollectingSrv3 { .. }, PipelineEvent::Srv3FilesFound(_)) => true,
            (SubtitlePipeline::DownloadingMain { .. }, PipelineEvent::MainDownloaded(_)) => true,
            (SubtitlePipeline::Converting { .. }, PipelineEvent::SubtitlesConverted(_)) => true,
            (SubtitlePipeline::ReadingMediaPaths { .. }, PipelineEvent::MediaPathsFound(_)) => true,
            (SubtitlePipeline::Remuxing { .. }, PipelineEvent::MediaRemuxed(_)) => true,
            _ => false,
        }
    }

    /// How far the pipeline is from its end, stage by stage: each step moves to
    /// a later stage, or, while remuxing, to fewer files left.
    pub open spec fn stages_left(self) -> nat {
        match self {
            SubtitlePipeline::CreatingDir { .. } => 7,
            SubtitlePipeline::DownloadingSubtitles { .. } => 6,
            SubtitlePipeline::CollectingSrv3 { .. } => 5,
            SubtitlePipeline::DownloadingMain { .. } => 4,
            SubtitlePipeline::Converting { .. } => 3,
            SubtitlePipeline::ReadingMediaPaths { .. } => 2,
            SubtitlePipeline::Remuxing { .. } => 1,
            SubtitlePipeline::Finished => 0,
        }
    }

    /// The downloaded files still to remux after the one being remuxed.
    pub open spec fn remuxes_left(self) -> nat {
        match self {
            SubtitlePipeline::Remuxing { media_paths, next, .. } => if next < media_paths@.len() {
                (media_paths@.len() - next) as nat
            } else {
                0
            },
            _ => 0,
        }
    }

    /// The pipeline for a download of `link` with the user's `args`: it
    /// starts by asking for a working directory.
    pub fn start(args: Vec<String>, link: String) -> (r: (Self, PipelineStep))
        ensures
            r.0 == (SubtitlePipeline::CreatingDir { args, link }),
            r.1.chunks@.len() == 0,
            r.1.command == PipelineCommand::CreateSubtitleDir,
    {
        (
            SubtitlePipeline::CreatingDir { args, link },
            PipelineStep { chunks: Vec::new(), command: PipelineCommand::CreateSubtitleDir },
        )
    }
}


/// A log line of the pipeline made of three pieces.
fn log_line(a: &str, b: &str, c: &str) -> (r: (YtDlpOutputStream, String))
    ensures
        (r.0, r.1@) == log_chunk(a@ + b@ + c@),
{
    let message = concat3(a, b, c);
    (YtDlpOutputStream::Stderr, pipeline_log_line(message.as_str()))
}

/// A copy of the subtitle tracks.
pub fn copy_tracks(tracks: &Vec<SubtitleTrack>) -> (r: Vec<SubtitleTrack>)
    ensures
        r@ == tracks@,
{
    let mut r: Vec<SubtitleTrack> = Vec::new();
    let mut i: usize = 0;
    while i < tracks.len()
        invariant
            i <= tracks@.len(),
            r@ == tracks@.take(i as int),
        decreases tracks@.len() - i,
    {
        let track = SubtitleTrack {
            language: tracks[i].language.clone(),
            path: tracks[i].path.clone(),
        };
        r.push(track);
        assert(r@ =~= tracks@.take(i + 1));
        i = i + 1;
    }
    assert(tracks@.take(tracks@.len() as int) =~= tracks@);
    r
}

impl SubtitlePipeline {
    /// The next step after `event`, the outcome of the last command.
    ///
    /// A failure finishes with its message and leaves the working directory.
    /// A failed subtitle download finishes with its own output and a note. A
    /// failed main download, or one with no converted subtitles, finishes with
    /// both downloads' output; so does one whose downloaded files cannot be
    /// found, with a note. Otherwise each downloaded file is remuxed in turn and
    /// the pipeline finishes with both downloads' output and the remux log.
    /// Every finish but a failure removes the working directory. Every step
    /// brings the pipeline closer to its end (see `stages_left` and
    /// `remuxes_left`), so it always finishes.
    pub fn step(self, event: PipelineEvent) -> (r: (Self, PipelineStep))
        requires
            self.accepts(event),
        ensures
            r.0.stages_left() < self.stages_left() || (r.0.stages_left() == self.stages_left()
                && r.0.remuxes_left() < self.remuxes_left()),
            match (self, event) {
                (_, PipelineEvent::Failed(message)) => {
                    &&& r.0 == SubtitlePipeline::Finished
                    &&& finishes(r.1, Seq::empty(), Err(message), None)
                },
                (
                    SubtitlePipeline::CreatingDir { args, link },
                    PipelineEvent::SubtitleDirCreated { dir, dir_name, paths_file },
                ) => {
                    &&& r.0 == (SubtitlePipeline::DownloadingSubtitles { args, dir, paths_file })
                    &&& chunk_views(r.1.chunks@) == seq![
                        log_chunk("Downloading YouTube srv3 subtitles to "@ + dir_name@ + ".\n"@),
                    ]
                    &&& r.1.command matches PipelineCommand::DownloadSubtitles { args: a }
                        && views(a@) == subtitle_download_args_of(views(args@), link@, dir@)
                },
                (
                    SubtitlePipeline::DownloadingSubtitles { args, dir, paths_file },
                    PipelineEvent::SubtitlesDownloaded(output),
                ) => {
                    &&& chunk_views(r.1.chunks@) == output_chunks_of(output)
                    &&& if output.success {
                        &&& r.0 == (SubtitlePipeline::CollectingSrv3 {
                            args,
                            dir,
                            paths_file,
                            subtitle_output: output,
                        })
                        &&& r.1.command == (PipelineCommand::CollectSrv3Files { dir })
                    } else {
                        &&& r.0 == SubtitlePipeline::Finished
                        &&& r.1.command matches PipelineCommand::Finish {
                            result: Ok(out),
                            remove_dir: Some(d),
                        } && d == dir && out.exit_code == output.exit_code && !out.success
                            && out.stdout == output.stdout && out.stderr@ == output.stderr@
                            + "\nSubtitle download failed."@
                    }
                },
                (
                    SubtitlePipeline::CollectingSrv3 { args, dir, paths_file, subtitle_output },
                    PipelineEvent::Srv3FilesFound(count),
                ) => {
                    &&& r.0 == (SubtitlePipeline::DownloadingMain {
                        dir,
                        paths_file,
                        subtitle_output,
                    })
                    &&& chunk_views(r.1.chunks@) == seq![
                        log_chunk(
                            "Found "@ + decimal_digits(count as nat) + " srv3 subtitle file(s).\n"@,
                        ),
                        log_chunk("Recording final yt-dlp output file name(s).\n"@),
                    ]
                    &&& r.1.command matches PipelineCommand::ConvertAndDownloadMain { args: a }
                        && views(a@) == main_download_args_of(views(args@), paths_file@)
                },
                (
                    SubtitlePipeline::DownloadingMain { dir, paths_file, subtitle_output },
                    PipelineEvent::MainDownloaded(main_output),
                ) => {
                    &&& r.0 == (SubtitlePipeline::Converting {
                        dir,
                        paths_file,
                        subtitle_output,
                        main_output,
                    })
                    &&& r.1.chunks@.len() == 0
                    &&& r.1.command == PipelineCommand::AwaitConversions
                },
                (
                    SubtitlePipeline::Converting { dir, paths_file, subtitle_output, main_output },
                    PipelineEvent::SubtitlesConverted(subtitles),
                ) => {
                    &&& chunk_views(r.1.chunks@) == seq![
                        log_chunk(
                            "Converted "@ + decimal_digits(subtitles@.len()) + " ass subtitle file(s).\n"@,
                        ),
                    ]
                    &&& if !main_output.success || subtitles@.len() == 0 {
                        &&& r.0 == SubtitlePipeline::Finished
                        &&& r.1.command matches PipelineCommand::Finish {
                            result: Ok(out),
                            remove_dir: Some(d),
                        } && d == dir && is_combined_output(
                            out,
                            main_output,
                            subtitle_output,
                            Seq::empty(),
                        )
                    } else {
                        &&& r.0 == (SubtitlePipeline::ReadingMediaPaths {
                            dir,
                            subtitle_output,
                            main_output,
                            subtitles,
                        })
                        &&& r.1.command == (PipelineCommand::ReadMediaPaths { paths_file })
                    }
                },
                (
                    SubtitlePipeline::ReadingMediaPaths { dir, subtitle_output, main_output, subtitles },
                    PipelineEvent::MediaPathsFound(media_paths),
                ) => {
                    &&& chunk_views(r.1.chunks@) == seq![
                        log_chunk(
                            "Found "@ + decimal_digits(media_paths@.len())
                                + " downloaded output file(s) for subtitle attachment.\n"@,
                        ),
                    ]
                    &&& if media_paths@.len() == 0 {
                        &&& r.0 == SubtitlePipeline::Finished
                        &&& r.1.command matches PipelineCommand::Finish {
                            result: Ok(out),
                            remove_dir: Some(d),
                        } && d == dir && is_combined_output(
                            out,
                            main_output,
                            subtitle_output,
                            no_media_note(),
                        )
                    } else {
                        &&& r.0 == (SubtitlePipeline::Remuxing {
                            dir,
                            subtitle_output,
                            main_output,
                            subtitles,
                            media_paths,
                            next: 1,
                            remux_log: r.0->remux_log,
                        })
                        &&& r.0->remux_log@.len() == 0
                        &&& r.1.command matches PipelineCommand::Remux {
                            media_path: m,
                            subtitles: t,
                        } && m == media_paths@[0] && t@ == subtitles@
                    }
                },
                (
                    SubtitlePipeline::Remuxing {
                        dir,
                        subtitle_output,
                        main_output,
                        subtitles,
                        media_paths,
                        next,
                        remux_log,
                    },
                    PipelineEvent::MediaRemuxed(line),
                ) => {
                    &&& r.1.chunks@.len() == 0
                    &&& if next < media_paths@.len() {
                        &&& r.0 == (SubtitlePipeline::Remuxing {
                            dir,
                            subtitle_output,
                            main_output,
                            subtitles,
                            media_paths,
                            next: (next + 1) as usize,
                            remux_log: r.0->Remuxing_remux_log,
                        })
                        &&& r.0->Remuxing_remux_log@ == remux_log@ + line@
                        &&& r.1.command matches PipelineCommand::Remux {
                            media_path: m,
                            subtitles: t,
                        } && m == media_paths@[next as int] && t@ == subtitles@
                    } else {
                        &&& r.0 == SubtitlePipeline::Finished
                        &&& r.1.command matches PipelineCommand::Finish {
                            result: Ok(out),
                            remove_dir: Some(d),
                        } && d == dir && is_combined_output(
                            out,
                            main_output,
                            subtitle_output,
                            remux_log@ + line@,
                        )
                    }
                },
                _ => false,
            },
    {
        match (self, event) {
            (_, PipelineEvent::Failed(message)) => {
                let chunks: Vec<(YtDlpOutputStream, String)> = Vec::new();
                assert(chunk_views(chunks@) =~= Seq::empty());
                (
                    SubtitlePipeline::Finished,
                    PipelineStep {
                        chunks,
                        command: PipelineCommand::Finish { result: Err(message), remove_dir: None },
                    },
                )
            },
            (
                SubtitlePipeline::CreatingDir { args, link },
                PipelineEvent::SubtitleDirCreated { dir, dir_name, paths_file },
            ) => {
                let subtitle_args = subtitle_download_args(&args, link.as_str(), dir.as_str());
                let log = log_line(
                    "Downloading YouTube srv3 subtitles to ",
                    dir_name.as_str(),
                    ".\n",
                );
                let chunks = vec![log];
                assert(chunk_views(chunks@) =~= seq![
                    log_chunk("Downloading YouTube srv3 subtitles to "@ + dir_name@ + ".\n"@),
                ]);
                (
                    SubtitlePipeline::DownloadingSubtitles { args, dir, paths_file },
                    PipelineStep {
                        chunks,
                        command: PipelineCommand::DownloadSubtitles { args: subtitle_args },
                    },
                )
            },
            (
                SubtitlePipeline::DownloadingSubtitles { args, dir, paths_file },
                PipelineEvent::SubtitlesDownloaded(output),
            ) => {
                let chunks = command_output_chunks(&output);
                if output.success {
                    let listed = dir.clone();
                    (
                        SubtitlePipeline::CollectingSrv3 {
                            args,
                            dir,
                            paths_file,
                            subtitle_output: output,
                        },
                        PipelineStep {
                            chunks,
                            command: PipelineCommand::CollectSrv3Files { dir: listed },
                        },
                    )
                } else {
                    let mut out = output;
                    out.stderr.append("\nSubtitle download failed.");
                    (
                        SubtitlePipeline::Finished,
                        PipelineStep {
                            chunks,
                            command: PipelineCommand::Finish {
                                result: Ok(out),
                                remove_dir: Some(dir),
                            },
                        },
                    )
                }
            },
            (
                SubtitlePipeline::CollectingSrv3 { args, dir, paths_file, subtitle_output },
                PipelineEvent::Srv3FilesFound(count),
            ) => {
                let main_args = main_download_args(args, paths_file.as_str());
                let n = decimal(count as u128);
                let found = log_line("Found ", n.as_str(), " srv3 subtitle file(s).\n");
                let recording = (
                    YtDlpOutputStream::Stderr,
                    pipeline_log_line("Recording final yt-dlp output file name(s).\n"),
                );
                let chunks = vec![found, recording];
                assert(chunk_views(chunks@) =~= seq![
                    log_chunk(
                        "Found "@ + decimal_digits(count as nat) + " srv3 subtitle file(s).\n"@,
                    ),
                    log_chunk("Recording final yt-dlp output file name(s).\n"@),
                ]);
                (
                    SubtitlePipeline::DownloadingMain { dir, paths_file, subtitle_output },
                    PipelineStep {
                        chunks,
                        command: PipelineCommand::ConvertAndDownloadMain { args: main_args },
                    },
                )
            },
            (
                SubtitlePipeline::DownloadingMain { dir, paths_file, subtitle_output },
                PipelineEvent::MainDownloaded(main_output),
            ) => (
                SubtitlePipeline::Converting { dir, paths_file, subtitle_output, main_output },
                PipelineStep { chunks: Vec::new(), command: PipelineCommand::AwaitConversions },
            ),
            (
                SubtitlePipeline::Converting { dir, paths_file, subtitle_output, main_output },
                PipelineEvent::SubtitlesConverted(subtitles),
            ) => {
                let n = decimal(subtitles.len() as u128);
                let converted = log_line("Converted ", n.as_str(), " ass subtitle file(s).\n");
                let chunks = vec![converted];
                assert(chunk_views(chunks@) =~= seq![
                    log_chunk(
                        "Converted "@ + decimal_digits(subtitles@.len()) + " ass subtitle file(s).\n"@,
                    ),
                ]);
                if !main_output.success || subtitles.len() == 0 {
                    let out = with_pipeline_output(main_output, &subtitle_output, "");
                    proof {
                        reveal_strlit("");
                        assert(out.stderr@ =~= subtitle_output.stderr@ + main_output.stderr@ + Seq::empty());
                    }
                    (
                        SubtitlePipeline::Finished,
                        PipelineStep {
                            chunks,
                            command: PipelineCommand::Finish {
                                result: Ok(out),
                                remove_dir: Some(dir),
                            },
                        },
                    )
                } else {
                    (
                        SubtitlePipeline::ReadingMediaPaths {
                            dir,
                            subtitle_output,
                            main_output,
                            subtitles,
                        },
                        PipelineStep { chunks, command: PipelineCommand::ReadMediaPaths { paths_file } },
                    )
                }
            },
            (
                SubtitlePipeline::ReadingMediaPaths { dir, subtitle_output, main_output, subtitles },
                PipelineEvent::MediaPathsFound(media_paths),
            ) => {
                let n = decimal(media_paths.len() as u128);
                let found = log_line(
                    "Found ",
                    n.as_str(),
                    " downloaded output file(s) for subtitle attachment.\n",
                );
                let chunks = vec![found];
                assert(chunk_views(chunks@) =~= seq![
                    log_chunk(
                        "Found "@ + decimal_digits(media_paths@.len())
                            + " downloaded output file(s) for subtitle attachment.\n"@,
                    ),
                ]);
                if media_paths.len() == 0 {
                    let out = with_pipeline_output(
                        main_output,
                        &subtitle_output,
                        "\nCould not identify the final yt-dlp output file; skipping subtitle attachment.",
                    );
                    (
                        SubtitlePipeline::Finished,
                        PipelineStep {
                            chunks,
                            command: PipelineCommand::Finish {
                                result: Ok(out),
                                remove_dir: Some(dir),
                            },
                        },
                    )
                } else {
                    let first = media_paths[0].clone();
                    let tracks = copy_tracks(&subtitles);
                    (
                        SubtitlePipeline::Remuxing {
                            dir,
                            subtitle_output,
                            main_output,
                            subtitles,
                            media_paths,
                            next: 1,
                            remux_log: String::new(),
                        },
                        PipelineStep {
                            chunks,
                            command: PipelineCommand::Remux { media_path: first, subtitles: tracks },
                        },
                    )
                }
            },
            (
                SubtitlePipeline::Remuxing {
                    dir,
                    subtitle_output,
                    main_output,
                    subtitles,
                    media_paths,
                    next,
                    remux_log,
                },
                PipelineEvent::MediaRemuxed(line),
            ) => {
                let mut log = remux_log;
                log.append(line.as_str());
                if next < media_paths.len() {
                    let media_path = media_paths[next].clone();
                    let tracks = copy_tracks(&subtitles);
                    (
                        SubtitlePipeline::Remuxing {
                            dir,
                            subtitle_output,
                            main_output,
                            subtitles,
                            media_paths,
                            next: next + 1,
                            remux_log: log,
                        },
                        PipelineStep {
                            chunks: Vec::new(),
                            command: PipelineCommand::Remux { media_path, subtitles: tracks },
                        },
                    )
                } else {
                    let out = with_pipeline_output(main_output, &subtitle_output, log.as_str());
                    (
                        SubtitlePipeline::Finished,
                        PipelineStep {
                            chunks: Vec::new(),
                            command: PipelineCommand::Finish {
                                result: Ok(out),
                                remove_dir: Some(dir),
                            },
                        },
                    )
                }
            },
            _ => {
                proof {
                    assert(false);
                }
                (
                    SubtitlePipeline::Finished,
                    PipelineStep {
                        chunks: Vec::new(),
                        command: PipelineCommand::AwaitConversions,
                    },
                )
            },
        }
    }
}

} // verus!
