use quiver_lib::pipeline::{PipelineCommand, PipelineEvent, SubtitlePipeline};
use quiver_lib::subtitle_pipeline::SubtitleTrack;
use quiver_lib::yt_dlp::{YtDlpCommandOutput, YtDlpOutputStream};

fn strings(v: &[&str]) -> Vec<String> {
    v.iter().map(|s| s.to_string()).collect()
}

fn output(success: bool, stdout: &str, stderr: &str) -> YtDlpCommandOutput {
    YtDlpCommandOutput {
        exit_code: Some(if success { 0 } else { 1 }),
        success,
        stdout: stdout.to_string(),
        stderr: stderr.to_string(),
    }
}

fn track(language: &str) -> SubtitleTrack {
    SubtitleTrack { language: language.to_string(), path: format!("/w/v.{language}.ass") }
}

fn started() -> SubtitlePipeline {
    let (pipeline, step) = SubtitlePipeline::start(
        strings(&["-v", "--cookies", "/c.txt", "https://youtu.be/x"]),
        "https://youtu.be/x".to_string(),
    );
    assert!(step.chunks.is_empty());
    assert!(matches!(step.command, PipelineCommand::CreateSubtitleDir));
    let (pipeline, step) = pipeline.step(PipelineEvent::SubtitleDirCreated {
        dir: "/tmp/quiver-ytsubs-1".to_string(),
        dir_name: "quiver-ytsubs-1".to_string(),
        paths_file: "/tmp/quiver-ytsubs-1/downloaded-media-paths.txt".to_string(),
    });
    assert_eq!(
        step.chunks,
        vec![(
            YtDlpOutputStream::Stderr,
            "[quiver] Downloading YouTube srv3 subtitles to quiver-ytsubs-1.\n".to_string()
        )]
    );
    match step.command {
        PipelineCommand::DownloadSubtitles { args } => assert_eq!(
            args,
            strings(&[
                "-v",
                "--write-subs",
                "--sub-langs",
                "all",
                "--sub-format",
                "srv3",
                "--skip-download",
                "--windows-filenames",
                "-P",
                "/tmp/quiver-ytsubs-1",
                "--cookies",
                "/c.txt",
                "https://youtu.be/x",
            ])
        ),
        _ => panic!("expected the subtitle download"),
    }
    pipeline
}

#[test]
fn failed_subtitle_download_finishes_with_a_note() {
    let (pipeline, step) = started().step(PipelineEvent::SubtitlesDownloaded(output(false, "", "E")));
    assert!(matches!(pipeline, SubtitlePipeline::Finished));
    assert_eq!(step.chunks, vec![(YtDlpOutputStream::Stderr, "E".to_string())]);
    match step.command {
        PipelineCommand::Finish { result: Ok(out), remove_dir } => {
            assert_eq!(out.stderr, "E\nSubtitle download failed.");
            assert!(!out.success);
            assert_eq!(remove_dir, Some("/tmp/quiver-ytsubs-1".to_string()));
        }
        _ => panic!("expected a finish"),
    }
}

#[test]
fn whole_pipeline_remuxes_each_file_and_keeps_all_output() {
    let (pipeline, step) = started().step(PipelineEvent::SubtitlesDownloaded(output(true, "s1", "")));
    assert_eq!(step.chunks, vec![(YtDlpOutputStream::Stdout, "s1".to_string())]);
    assert!(matches!(step.command, PipelineCommand::CollectSrv3Files { ref dir } if dir == "/tmp/quiver-ytsubs-1"));
    let (pipeline, step) = pipeline.step(PipelineEvent::Srv3FilesFound(2));
    assert_eq!(
        step.chunks.iter().map(|c| c.1.as_str()).collect::<Vec<_>>(),
        vec![
            "[quiver] Found 2 srv3 subtitle file(s).\n",
            "[quiver] Recording final yt-dlp output file name(s).\n",
        ]
    );
    match step.command {
        PipelineCommand::ConvertAndDownloadMain { args } => assert_eq!(
            args,
            strings(&[
                "-v",
                "--cookies",
                "/c.txt",
                "https://youtu.be/x",
                "--print-to-file",
                "after_move:filepath",
                "/tmp/quiver-ytsubs-1/downloaded-media-paths.txt",
            ])
        ),
        _ => panic!("expected the main download"),
    }
    let (pipeline, step) = pipeline.step(PipelineEvent::MainDownloaded(output(true, "m1", "m2")));
    assert!(matches!(step.command, PipelineCommand::AwaitConversions));
    let (pipeline, step) =
        pipeline.step(PipelineEvent::SubtitlesConverted(vec![track("en"), track("de")]));
    assert_eq!(step.chunks[0].1, "[quiver] Converted 2 ass subtitle file(s).\n");
    assert!(matches!(step.command, PipelineCommand::ReadMediaPaths { .. }));
    let (pipeline, step) =
        pipeline.step(PipelineEvent::MediaPathsFound(strings(&["/d/a.mkv", "/d/b.mkv"])));
    assert_eq!(
        step.chunks[0].1,
        "[quiver] Found 2 downloaded output file(s) for subtitle attachment.\n"
    );
    match step.command {
        PipelineCommand::Remux { media_path, subtitles } => {
            assert_eq!(media_path, "/d/a.mkv");
            assert_eq!(subtitles.len(), 2);
            assert_eq!(subtitles[1].language, "de");
        }
        _ => panic!("expected a remux"),
    }
    let (pipeline, step) = pipeline.step(PipelineEvent::MediaRemuxed("\nA".to_string()));
    assert!(matches!(step.command, PipelineCommand::Remux { ref media_path, .. } if media_path == "/d/b.mkv"));
    let (pipeline, step) = pipeline.step(PipelineEvent::MediaRemuxed("\nB".to_string()));
    assert!(matches!(pipeline, SubtitlePipeline::Finished));
    match step.command {
        PipelineCommand::Finish { result: Ok(out), remove_dir } => {
            assert_eq!(out.stdout, "s1m1");
            assert_eq!(out.stderr, "m2\nA\nB");
            assert!(out.success);
            assert_eq!(remove_dir, Some("/tmp/quiver-ytsubs-1".to_string()));
        }
        _ => panic!("expected a finish"),
    }
}

#[test]
fn no_converted_subtitles_finishes_with_both_outputs() {
    let (p, _) = started().step(PipelineEvent::SubtitlesDownloaded(output(true, "s", "t")));
    let (p, _) = p.step(PipelineEvent::Srv3FilesFound(0));
    let (p, _) = p.step(PipelineEvent::MainDownloaded(output(true, "m", "n")));
    let (_, step) = p.step(PipelineEvent::SubtitlesConverted(Vec::new()));
    assert_eq!(step.chunks[0].1, "[quiver] Converted 0 ass subtitle file(s).\n");
    match step.command {
        PipelineCommand::Finish { result: Ok(out), remove_dir } => {
            assert_eq!(out.stdout, "sm");
            assert_eq!(out.stderr, "tn");
            assert!(remove_dir.is_some());
        }
        _ => panic!("expected a finish"),
    }
}

#[test]
fn missing_downloaded_files_skip_the_attachment() {
    let (p, _) = started().step(PipelineEvent::SubtitlesDownloaded(output(true, "", "")));
    let (p, _) = p.step(PipelineEvent::Srv3FilesFound(1));
    let (p, _) = p.step(PipelineEvent::MainDownloaded(output(true, "", "")));
    let (p, _) = p.step(PipelineEvent::SubtitlesConverted(vec![track("en")]));
    let (_, step) = p.step(PipelineEvent::MediaPathsFound(Vec::new()));
    match step.command {
        PipelineCommand::Finish { result: Ok(out), .. } => assert_eq!(
            out.stderr,
            "\nCould not identify the final yt-dlp output file; skipping subtitle attachment."
        ),
        _ => panic!("expected a finish"),
    }
}

#[test]
fn a_failure_finishes_with_its_message_and_keeps_the_directory() {
    let (p, _) = started().step(PipelineEvent::SubtitlesDownloaded(output(true, "", "")));
    let (p, step) = p.step(PipelineEvent::Failed("failed to read /tmp: denied".to_string()));
    assert!(matches!(p, SubtitlePipeline::Finished));
    assert!(step.chunks.is_empty());
    match step.command {
        PipelineCommand::Finish { result: Err(message), remove_dir } => {
            assert_eq!(message, "failed to read /tmp: denied");
            assert!(remove_dir.is_none());
        }
        _ => panic!("expected a failure"),
    }
}
