use quiver_lib::subtitle_pipeline::{
    attached_picture_path, attached_picture_probe_args, command_output_chunks, conversion_job,
    copy_option_with_value, count_nonblank_lines, extension_matches, ffmpeg_remux_args,
    main_download_args, parse_attached_picture_video_indices, pipeline_log_line,
    stream_count_probe_args, subtitle_download_args, subtitle_name_and_language, temp_media_name,
    thumbnail_extract_args, with_pipeline_output, AttachedPicture, SubtitleTrack,
};
use quiver_lib::yt_dlp::{YtDlpCommandOutput, YtDlpOutputStream};

fn strings(v: &[&str]) -> Vec<String> {
    v.iter().map(|s| s.to_string()).collect()
}

fn output(success: bool, stdout: &str, stderr: &str) -> YtDlpCommandOutput {
    YtDlpCommandOutput {
        exit_code: Some(if success { 0 } else { 1 }),
        success,
        stdout: stdout.to_string(),
        stderr: stderr.to_string(),
    }
}

#[test]
fn records_the_final_yt_dlp_output_path() {
    let args = main_download_args(
        vec!["https://example.com/video".to_string()],
        "output-paths.txt",
    );

    assert!(args.windows(3).any(|window| {
        window == ["--print-to-file", "after_move:filepath", "output-paths.txt"]
    }));
}

#[test]
fn identifies_attached_picture_video_streams_by_video_stream_index() {
    assert_eq!(parse_attached_picture_video_indices("0\n1\n0\n1\n"), [1, 3]);
}

#[test]
fn attached_picture_flags_tolerate_blank_space_and_crlf() {
    assert_eq!(parse_attached_picture_video_indices(" 1 \r\n0\r\n1"), [0, 2]);
    assert_eq!(parse_attached_picture_video_indices(""), Vec::<usize>::new());
    assert_eq!(parse_attached_picture_video_indices("\n1\n"), [1]);
}

#[test]
fn main_download_keeps_the_user_arguments_first() {
    let args = main_download_args(strings(&["-v", "link"]), "/tmp/p.txt");
    assert_eq!(
        args,
        strings(&["-v", "link", "--print-to-file", "after_move:filepath", "/tmp/p.txt"])
    );
}

#[test]
fn copies_every_occurrence_of_an_option_with_its_value() {
    let args = strings(&["--cookies", "a", "x", "--cookies", "b", "--cookies"]);
    let mut out = strings(&["keep"]);
    copy_option_with_value(&args, "--cookies", &mut out);
    assert_eq!(out, strings(&["keep", "--cookies", "a", "--cookies", "b"]));
}

#[test]
fn an_option_taken_as_a_value_is_not_read_again() {
    let args = strings(&["--x", "--x", "--x", "v"]);
    let mut out = Vec::new();
    copy_option_with_value(&args, "--x", &mut out);
    assert_eq!(out, strings(&["--x", "--x", "--x", "v"]));
}

#[test]
fn subtitle_download_keeps_cookies_compat_and_extractor_args() {
    let args = strings(&[
        "-v",
        "--cookies",
        "/c.txt",
        "--compat-options",
        "no-live-chat",
        "--extractor-args",
        "youtube:a",
        "--extractor-args",
        "youtubepot:b",
        "-f",
        "best",
    ]);
    let subtitle_args = subtitle_download_args(&args, "  https://youtu.be/x\n", "/tmp/subs");
    assert_eq!(
        subtitle_args,
        strings(&[
            "-v",
            "--write-subs",
            "--sub-langs",
            "all",
            "--sub-format",
            "srv3",
            "--skip-download",
            "--windows-filenames",
            "-P",
            "/tmp/subs",
            "--cookies",
            "/c.txt",
            "--compat-options",
            "no-live-chat",
            "--extractor-args",
            "youtube:a",
            "--extractor-args",
            "youtubepot:b",
            "https://youtu.be/x",
        ])
    );
}

#[test]
fn probes_and_thumbnail_copies_have_their_arguments() {
    assert_eq!(
        attached_picture_probe_args("/m.mkv"),
        strings(&[
            "-v",
            "error",
            "-select_streams",
            "v",
            "-show_entries",
            "stream_disposition=attached_pic",
            "-of",
            "csv=p=0",
            "/m.mkv",
        ])
    );
    assert_eq!(
        stream_count_probe_args("/m.mkv", "t"),
        strings(&[
            "-v",
            "error",
            "-select_streams",
            "t",
            "-show_entries",
            "stream=index",
            "-of",
            "csv=p=0",
            "/m.mkv",
        ])
    );
    assert_eq!(
        thumbnail_extract_args("/m.mkv", 12, "/m.png"),
        strings(&["-y", "-i", "/m.mkv", "-map", "0:v:12", "-frames:v", "1", "-c", "copy", "/m.png"])
    );
}

#[test]
fn ffmpeg_remux_arguments_number_the_new_streams() {
    let subtitles = vec![
        SubtitleTrack { language: "en".to_string(), path: "/s/a.en.ass".to_string() },
        SubtitleTrack { language: "de".to_string(), path: "/s/a.de.ass".to_string() },
    ];
    let pictures = vec![AttachedPicture { video_index: 1, path: "/t.cover-1.png".to_string() }];
    let args = ffmpeg_remux_args("/t", "/m.mkv", &subtitles, 3, 10, &pictures);
    assert_eq!(
        args,
        strings(&[
            "-y",
            "-i",
            "/t",
            "-i",
            "/s/a.en.ass",
            "-i",
            "/s/a.de.ass",
            "-map",
            "0",
            "-map_metadata",
            "0",
            "-map_chapters",
            "0",
            "-map",
            "-0:v:1",
            "-map",
            "1",
            "-map",
            "2",
            "-c",
            "copy",
            "-max_interleave_delta",
            "0",
            "-attach",
            "/t.cover-1.png",
            "-metadata:s:t:10",
            "mimetype=image/png",
            "-metadata:s:t:10",
            "filename=cover.png",
            "-metadata:s:s:3",
            "language=en",
            "-metadata:s:s:3",
            "title=en",
            "-metadata:s:s:3",
            "handler_name=en",
            "-metadata:s:s:4",
            "language=de",
            "-metadata:s:s:4",
            "title=de",
            "-metadata:s:s:4",
            "handler_name=de",
            "/m.mkv",
        ])
    );
}

#[test]
fn counts_the_streams_ffprobe_lists() {
    assert_eq!(count_nonblank_lines("0\n1\n\n  \n2\n"), 3);
    assert_eq!(count_nonblank_lines(""), 0);
    assert_eq!(count_nonblank_lines("4"), 1);
}

#[test]
fn splits_subtitle_names_at_the_last_dot() {
    assert_eq!(
        subtitle_name_and_language("My.Video [id].en-US"),
        Some(("My.Video [id]".to_string(), "en-US".to_string()))
    );
    assert_eq!(subtitle_name_and_language("nodot"), None);
    assert_eq!(subtitle_name_and_language(".x"), Some((String::new(), "x".to_string())));
}

#[test]
fn conversion_jobs_name_the_ass_file_and_language() {
    let job = conversion_job("Clip.de", "Clip.de.srv3").unwrap();
    assert_eq!(job.ass_file_name, "Clip.de.ass");
    assert_eq!(job.language, "de");
    assert_eq!(job.log, "[quiver] Converting Clip.de.srv3 to Clip.de.ass.\n");
    assert!(conversion_job("Clip", "Clip.srv3").is_none());
}

#[test]
fn temporary_names_count_the_attempts() {
    assert_eq!(temp_media_name("v.mkv", 0), "v.mkv.quiver-temp");
    assert_eq!(temp_media_name("v.mkv", 1), "v.mkv.quiver-temp-1");
    assert_eq!(temp_media_name("v.mkv", 205), "v.mkv.quiver-temp-205");
}

#[test]
fn cover_pictures_sit_beside_the_moved_file() {
    assert_eq!(attached_picture_path("/d/v.mkv.quiver-temp", 0), "/d/v.mkv.quiver-temp.cover-0.png");
    assert_eq!(attached_picture_path("t", 37), "t.cover-37.png");
}

#[test]
fn pipeline_output_puts_the_subtitle_download_first() {
    let main = output(true, "main out", "main err");
    let subtitle = output(true, "sub out", "sub err");
    let combined = with_pipeline_output(main, &subtitle, "!");
    assert_eq!(combined.stdout, "sub outmain out");
    assert_eq!(combined.stderr, "sub errmain err!");
    assert!(combined.success);
    assert_eq!(combined.exit_code, Some(0));
}

#[test]
fn only_non_empty_output_is_shown() {
    let chunks = command_output_chunks(&output(true, "", "warn"));
    assert_eq!(chunks, vec![(YtDlpOutputStream::Stderr, "warn".to_string())]);
    let chunks = command_output_chunks(&output(true, "o", "e"));
    assert_eq!(
        chunks,
        vec![
            (YtDlpOutputStream::Stdout, "o".to_string()),
            (YtDlpOutputStream::Stderr, "e".to_string()),
        ]
    );
    assert!(command_output_chunks(&output(false, "", "")).is_empty());
}

#[test]
fn pipeline_log_lines_are_tagged() {
    assert_eq!(pipeline_log_line("Running ffmpeg.\n"), "[quiver] Running ffmpeg.\n");
}

#[test]
fn extensions_match_without_ascii_case() {
    assert!(extension_matches("SRV3", "srv3"));
    assert!(extension_matches("srv3", "srv3"));
    assert!(!extension_matches("srv", "srv3"));
    assert!(!extension_matches("srv4", "srv3"));
    assert!(!extension_matches("ÄSS", "äss"));
}
