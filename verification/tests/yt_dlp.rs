use quiver_lib::yt_dlp::{
    candidate_plugin_dirs, executable_name, has_ffmpeg_location_args, has_js_runtime_args,
    is_sidecar_file_name, plugin_dir_marker, OutputCollector, ProcessEvent, YtDlpCommand,
    YtDlpError, YtDlpOutputStream, YtDlpRunner,
};
use std::path::Path;

fn strings(v: &[&str]) -> Vec<String> {
    v.iter().map(|s| s.to_string()).collect()
}

#[test]
fn runner_exposes_binary_path() {
    let runner = YtDlpRunner::from_environment_or_bundle(Some("yt-dlp".to_string()), true)
        .expect("a configured file is used");

    assert!(runner
        .binary_path()
        .is_some_and(|path| Path::new(path).ends_with("yt-dlp")));
}

#[test]
fn a_configured_path_that_is_no_file_is_reported_missing() {
    match YtDlpRunner::from_environment_or_bundle(Some("/no/yt-dlp".to_string()), false) {
        Err(YtDlpError::MissingBinary(paths)) => assert_eq!(paths, strings(&["/no/yt-dlp"])),
        _ => panic!("expected a missing binary"),
    }
    let runner = YtDlpRunner::from_environment_or_bundle(None, false).unwrap();
    assert!(matches!(runner.command, YtDlpCommand::Sidecar));
    assert!(runner.binary_path().is_none());
}

#[test]
fn errors_have_their_messages() {
    let missing = YtDlpError::MissingBinary(strings(&["/a", "/b"]));
    assert_eq!(missing.message(), "yt-dlp binary not found; searched /a, /b");
    let spawn = YtDlpError::SpawnFailed("no such file".to_string());
    assert_eq!(spawn.message(), "failed to run yt-dlp: no such file");
    assert_eq!(
        YtDlpError::MissingBinary(Vec::new()).message(),
        "yt-dlp binary not found; searched "
    );
}

#[test]
fn bundled_tools_and_plugins_come_before_the_user_arguments() {
    let runner = YtDlpRunner::from_environment_or_bundle(None, false)
        .unwrap()
        .with_plugin_dirs(strings(&["/p1", "/p2"]));
    let args = runner.command_args(
        strings(&["-v", "link"]),
        Some("/bin/deno".to_string()),
        Some("/bin".to_string()),
    );
    assert_eq!(
        args,
        strings(&[
            "--js-runtimes",
            "deno:/bin/deno",
            "--ffmpeg-location",
            "/bin",
            "--plugin-dirs",
            "/p1",
            "--plugin-dirs",
            "/p2",
            "-v",
            "link",
        ])
    );
}

#[test]
fn user_choices_of_runtime_and_ffmpeg_are_kept() {
    let runner = YtDlpRunner::from_environment_or_bundle(None, false).unwrap();
    let user = strings(&["--js-runtimes=node", "--ffmpeg-location", "/opt"]);
    let args = runner.command_args(user.clone(), Some("/bin/deno".to_string()), Some("/bin".to_string()));
    assert_eq!(args, user);
    let args = runner.command_args(strings(&["x"]), None, None);
    assert_eq!(args, strings(&["x"]));
}

#[test]
fn runtime_and_ffmpeg_options_are_recognised() {
    assert!(has_js_runtime_args(&strings(&["a", "--js-runtimes"])));
    assert!(has_js_runtime_args(&strings(&["--js-runtimes=deno"])));
    assert!(!has_js_runtime_args(&strings(&["--js-runtimes-x"])));
    assert!(has_ffmpeg_location_args(&strings(&["--ffmpeg-location=/x"])));
    assert!(!has_ffmpeg_location_args(&strings(&[])));
}

#[test]
fn executables_and_sidecar_files_are_named_by_platform() {
    assert_eq!(executable_name("ffmpeg", ".exe"), "ffmpeg.exe");
    assert_eq!(executable_name("ffmpeg", ""), "ffmpeg");
    assert!(is_sidecar_file_name("deno-x86_64-unknown-linux-gnu", "deno", ""));
    assert!(is_sidecar_file_name("deno-x86_64-pc-windows-msvc.exe", "deno", ".exe"));
    assert!(!is_sidecar_file_name("denox", "deno", ""));
    assert!(!is_sidecar_file_name("deno-x86_64", "deno", ".exe"));
}

#[test]
fn plugin_directories_are_searched_in_order() {
    let dirs = candidate_plugin_dirs(Some("/ws".to_string()), Some("/res".to_string()));
    assert_eq!(
        dirs,
        vec![
            strings(&["/ws", "src-tauri", "resources", "yt-dlp-plugins"]),
            strings(&["/res", "yt-dlp-plugins"]),
            strings(&["/res", "resources", "yt-dlp-plugins"]),
        ]
    );
    assert!(candidate_plugin_dirs(None, None).is_empty());
    assert_eq!(plugin_dir_marker(), strings(&["bgutil", "yt_dlp_plugins"]));
}

#[test]
fn collector_gathers_streams_and_exit_code() {
    let mut collector = OutputCollector::new();
    assert_eq!(
        collector.on_event(ProcessEvent::Stdout("a".to_string())),
        Some((YtDlpOutputStream::Stdout, "a".to_string()))
    );
    assert_eq!(
        collector.on_event(ProcessEvent::Stderr("b".to_string())),
        Some((YtDlpOutputStream::Stderr, "b".to_string()))
    );
    assert_eq!(
        collector.on_event(ProcessEvent::Error("boom".to_string())),
        Some((YtDlpOutputStream::Stderr, "boom".to_string()))
    );
    assert_eq!(collector.on_event(ProcessEvent::Stdout("c".to_string())).map(|c| c.1), Some("c".to_string()));
    assert_eq!(collector.on_event(ProcessEvent::Other), None);
    assert_eq!(collector.on_event(ProcessEvent::Terminated(Some(0))), None);
    let output = collector.finish();
    assert_eq!(output.stdout, "ac");
    assert_eq!(output.stderr, "bboom");
    assert_eq!(output.exit_code, Some(0));
    assert!(output.success);
}

#[test]
fn collector_without_zero_exit_code_fails() {
    let mut collector = OutputCollector::new();
    collector.on_event(ProcessEvent::Terminated(Some(2)));
    assert!(!collector.finish().success);
    assert!(!OutputCollector::new().finish().success);
}
