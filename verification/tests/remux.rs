use quiver_lib::remux::{RemuxCommand, RemuxEvent, RemuxJob};
use quiver_lib::subtitle_pipeline::SubtitleTrack;
use quiver_lib::yt_dlp::{YtDlpError, YtDlpOutputStream};

fn probe(success: bool, stdout: &str) -> RemuxEvent {
    RemuxEvent::ProbeFinished { success, stdout: stdout.to_string(), stderr: "E".to_string() }
}

fn job_at_temp_path(pictures: &str) -> RemuxJob {
    let (job, step) = RemuxJob::start(
        "/d/v.mkv".to_string(),
        "v.mkv".to_string(),
        vec![SubtitleTrack { language: "en".to_string(), path: "/w/v.en.ass".to_string() }],
    );
    assert!(matches!(step.command, RemuxCommand::Probe { ref args } if args[3] == "s"));
    let (job, step) = job.step(probe(true, "0\n1\n"));
    assert!(matches!(step.command, RemuxCommand::Probe { ref args } if args[5] == "stream_disposition=attached_pic"));
    let (job, step) = job.step(probe(true, pictures));
    assert!(matches!(step.command, RemuxCommand::Probe { ref args } if args[3] == "t"));
    let (job, step) = job.step(probe(true, "5\n"));
    assert!(matches!(step.command, RemuxCommand::FindTempPath));
    let count = pictures.lines().filter(|l| l.trim() == "1").count();
    assert_eq!(
        step.chunks,
        vec![(
            YtDlpOutputStream::Stderr,
            format!("[quiver] Found 2 existing subtitle stream(s) and {count} attached picture stream(s).\n")
        )]
    );
    job
}

#[test]
fn remux_copies_pictures_out_and_back() {
    let job = job_at_temp_path("0\n1\n");
    let (job, step) = job.step(RemuxEvent::TempPathFound {
        path: "/d/v.mkv.quiver-temp".to_string(),
        name: "v.mkv.quiver-temp".to_string(),
    });
    match step.command {
        RemuxCommand::ExtractPicture { args, picture_path } => {
            assert_eq!(picture_path, "/d/v.mkv.quiver-temp.cover-1.png");
            assert_eq!(args[4], "0:v:1");
        }
        _ => panic!("expected a picture copy"),
    }
    let (job, step) = job.step(RemuxEvent::PictureExtracted {
        success: true,
        picture_is_file: true,
        stdout: String::new(),
        stderr: String::new(),
    });
    assert_eq!(
        step.chunks[0].1,
        "[quiver] Renaming v.mkv to v.mkv.quiver-temp before ffmpeg remux.\n"
    );
    assert!(matches!(step.command, RemuxCommand::Rename { ref from, ref to } if from == "/d/v.mkv" && to == "/d/v.mkv.quiver-temp"));
    let (job, step) = job.step(RemuxEvent::Renamed);
    assert_eq!(step.chunks[0].1, "[quiver] Running ffmpeg.\n");
    match step.command {
        RemuxCommand::RunFfmpeg { args } => {
            assert_eq!(args[2], "/d/v.mkv.quiver-temp");
            assert!(args.windows(2).any(|w| w[0] == "-map" && w[1] == "-0:v:1"));
            assert!(args.windows(2).any(|w| w[0] == "-metadata:s:t:1" && w[1] == "mimetype=image/png"));
            assert!(args.windows(2).any(|w| w[0] == "-metadata:s:s:2" && w[1] == "language=en"));
            assert_eq!(args.last().unwrap(), "/d/v.mkv");
        }
        _ => panic!("expected ffmpeg"),
    }
    let (job, step) = job.step(RemuxEvent::FfmpegFinished {
        success: true,
        status: "exit status: 0".to_string(),
        stdout: String::new(),
        stderr: String::new(),
    });
    assert!(matches!(job, RemuxJob::Finished));
    assert_eq!(step.chunks[0].1, "[quiver] ffmpeg remux completed for v.mkv.\n");
    match step.command {
        RemuxCommand::Finish { result, restore, remove_files } => {
            assert_eq!(result, Ok("\nAttached 1 visual subtitle track(s) to v.mkv.".to_string()));
            assert!(restore.is_none());
            assert_eq!(
                remove_files,
                vec!["/d/v.mkv.quiver-temp", "/d/v.mkv.quiver-temp.cover-1.png"]
            );
        }
        _ => panic!("expected a finish"),
    }
}

#[test]
fn failed_ffmpeg_restores_the_file_and_removes_pictures() {
    let job = job_at_temp_path("1\n");
    let (job, _) = job.step(RemuxEvent::TempPathFound { path: "/d/t".to_string(), name: "t".to_string() });
    let (job, _) = job.step(RemuxEvent::PictureExtracted {
        success: true,
        picture_is_file: true,
        stdout: String::new(),
        stderr: String::new(),
    });
    let (job, _) = job.step(RemuxEvent::Renamed);
    let (_, step) = job.step(RemuxEvent::FfmpegFinished {
        success: false,
        status: "exit status: 1".to_string(),
        stdout: "o".to_string(),
        stderr: "e".to_string(),
    });
    assert_eq!(
        step.chunks,
        vec![
            (YtDlpOutputStream::Stderr, "[quiver] ffmpeg exited with status exit status: 1.\n".to_string()),
            (YtDlpOutputStream::Stdout, "o".to_string()),
            (YtDlpOutputStream::Stderr, "e".to_string()),
        ]
    );
    match step.command {
        RemuxCommand::Finish { result, restore, remove_files } => {
            assert_eq!(result, Err("ffmpeg subtitle remux failed for /d/v.mkv: oe".to_string()));
            assert_eq!(restore, Some(("/d/v.mkv".to_string(), "/d/t".to_string())));
            assert_eq!(remove_files, vec!["/d/t.cover-0.png"]);
        }
        _ => panic!("expected a finish"),
    }
}

#[test]
fn ffmpeg_that_cannot_run_restores_the_file() {
    let job = job_at_temp_path("");
    let (job, step) = job.step(RemuxEvent::TempPathFound { path: "/d/t".to_string(), name: "t".to_string() });
    assert!(matches!(step.command, RemuxCommand::Rename { .. }));
    let (job, _) = job.step(RemuxEvent::Renamed);
    let (_, step) = job.step(RemuxEvent::FfmpegFailed(YtDlpError::SpawnFailed(
        "failed to run ffmpeg: not found".to_string(),
    )));
    assert_eq!(
        step.chunks[0].1,
        "[quiver] failed to run yt-dlp: failed to run ffmpeg: not found\n"
    );
    match step.command {
        RemuxCommand::Finish { result, restore, remove_files } => {
            assert_eq!(result, Err("failed to run yt-dlp: failed to run ffmpeg: not found".to_string()));
            assert!(restore.is_some());
            assert!(remove_files.is_empty());
        }
        _ => panic!("expected a finish"),
    }
}

#[test]
fn failed_probe_quotes_ffprobe() {
    let (job, _) = RemuxJob::start("/d/v.mkv".to_string(), "v.mkv".to_string(), Vec::new());
    let (_, step) = job.step(RemuxEvent::ProbeFinished {
        success: false,
        stdout: "out".to_string(),
        stderr: "err".to_string(),
    });
    match step.command {
        RemuxCommand::Finish { result, restore, remove_files } => {
            assert_eq!(
                result,
                Err("ffprobe failed while counting existing subtitle streams: outerr".to_string())
            );
            assert!(restore.is_none());
            assert!(remove_files.is_empty());
        }
        _ => panic!("expected a finish"),
    }
}

#[test]
fn lost_picture_and_failed_rename_remove_copied_pictures() {
    let job = job_at_temp_path("1\n1\n");
    let (job, _) = job.step(RemuxEvent::TempPathFound { path: "/d/t".to_string(), name: "t".to_string() });
    let (job, step) = job.step(RemuxEvent::PictureExtracted {
        success: true,
        picture_is_file: true,
        stdout: String::new(),
        stderr: String::new(),
    });
    assert!(matches!(step.command, RemuxCommand::ExtractPicture { ref picture_path, .. } if picture_path == "/d/t.cover-1.png"));
    let (_, step) = job.step(RemuxEvent::PictureExtracted {
        success: true,
        picture_is_file: false,
        stdout: "a".to_string(),
        stderr: "b".to_string(),
    });
    match step.command {
        RemuxCommand::Finish { result, remove_files, .. } => {
            assert_eq!(result, Err("ffmpeg failed to preserve the attached thumbnail: ab".to_string()));
            assert_eq!(remove_files, vec!["/d/t.cover-0.png"]);
        }
        _ => panic!("expected a finish"),
    }

    let job = job_at_temp_path("1\n");
    let (job, _) = job.step(RemuxEvent::TempPathFound { path: "/d/t".to_string(), name: "t".to_string() });
    let (job, _) = job.step(RemuxEvent::PictureExtracted {
        success: true,
        picture_is_file: true,
        stdout: String::new(),
        stderr: String::new(),
    });
    let (_, step) = job.step(RemuxEvent::RenameFailed("busy".to_string()));
    match step.command {
        RemuxCommand::Finish { result, restore, remove_files } => {
            assert_eq!(
                result,
                Err("failed to rename /d/v.mkv to /d/t before subtitle remux: busy".to_string())
            );
            assert!(restore.is_none());
            assert_eq!(remove_files, vec!["/d/t.cover-0.png"]);
        }
        _ => panic!("expected a finish"),
    }
}
