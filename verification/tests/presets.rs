use quiver_lib::presets::{
    all_presets, command_preview, interactive_input_fields, is_youtube_video_preset,
    DownloadPresetInput, PresetId, PresetInputKind, PresetMedia, PresetSource,
};

fn input(link: &str, directory: Option<&str>, cookies_path: Option<&str>) -> DownloadPresetInput {
    DownloadPresetInput {
        link: link.to_string(),
        directory: directory.map(|d| d.to_string()),
        cookies_path: cookies_path.map(|c| c.to_string()),
    }
}

fn has_option_value(args: &[String], option: &str, value: &str) -> bool {
    args.windows(2)
        .any(|window| window[0] == option && window[1] == value)
}

#[test]
fn exposes_eight_script_combinations() {
    assert_eq!(all_presets().len(), 8);
}

#[test]
fn youtube_presets_report_pending_pot_server() {
    let preview = command_preview(
        PresetId::YouTubePlainVideo,
        &DownloadPresetInput {
            link: "https://example.com/video".to_string(),
            directory: None,
            cookies_path: None,
        },
    )
    .expect("preview should be created");

    assert!(preview.requires_pot_server);
    assert!(preview.pending_integrations.contains(&"pot-server"));
}

#[test]
fn rejects_empty_link() {
    let error = command_preview(
        PresetId::GeneralPlainAudio,
        &DownloadPresetInput {
            link: String::new(),
            directory: None,
            cookies_path: None,
        },
    )
    .expect_err("empty link should be rejected");

    assert_eq!(error, "Link is required.");
}

#[test]
fn video_presets_remux_to_mkv_and_preserve_standard_subtitles() {
    for preset_id in [
        PresetId::YouTubeCookiesVideo,
        PresetId::YouTubePlainVideo,
        PresetId::GeneralCookiesVideo,
        PresetId::GeneralPlainVideo,
    ] {
        let preview = command_preview(
            preset_id,
            &DownloadPresetInput {
                link: "https://example.com/video".to_string(),
                directory: None,
                cookies_path: None,
            },
        )
        .expect("preview should be created");

        assert!(has_option_value(&preview.args, "--remux-video", "mkv"));
        assert!(preview.args.iter().any(|arg| arg == "--embed-thumbnail"));
        assert!(has_option_value(
            &preview.args,
            "--convert-thumbnails",
            "png"
        ));
        assert!(!preview.args.iter().any(|arg| arg == "--convert-subs"));
    }
}

#[test]
fn presets_are_listed_in_order_with_their_labels() {
    let presets = all_presets();
    let expected = [
        (PresetId::YouTubeCookiesVideo, "YouTube Video, with Cookies", true),
        (PresetId::YouTubeCookiesAudio, "YouTube Audio, with Cookies", true),
        (PresetId::YouTubePlainVideo, "YouTube Video, no Cookies", false),
        (PresetId::YouTubePlainAudio, "YouTube Audio, no Cookies", false),
        (PresetId::GeneralCookiesVideo, "General Video, with Cookies", true),
        (PresetId::GeneralCookiesAudio, "General Audio, with Cookies", true),
        (PresetId::GeneralPlainVideo, "General Video, no Cookies", false),
        (PresetId::GeneralPlainAudio, "General Audio, no Cookies", false),
    ];
    for (preset, (id, label, cookies)) in presets.iter().zip(expected.iter()) {
        assert_eq!(preset.id, *id);
        assert_eq!(preset.label, *label);
        assert_eq!(preset.uses_cookies, *cookies);
        assert_eq!(preset.requires_pot_server, preset.source == PresetSource::YouTube);
    }
    assert_eq!(presets[1].media, PresetMedia::Audio);
    assert_eq!(presets[4].source, PresetSource::General);
}

#[test]
fn general_audio_preview_has_exact_arguments() {
    let preview = command_preview(
        PresetId::GeneralPlainAudio,
        &input("  https://example.com/a  ", Some("/music"), None),
    )
    .unwrap();
    assert!(!preview.requires_pot_server);
    assert!(preview.pending_integrations.is_empty());
    assert_eq!(
        preview.args,
        vec![
            "-v",
            "--add-metadata",
            "-P",
            "/music",
            "https://example.com/a",
            "--windows-filenames",
            "--continue",
            "-x",
            "--embed-thumbnail",
            "--embed-thumbnail",
            "--concat-playlist",
            "never",
            "--embed-chapters",
        ]
    );
}

#[test]
fn youtube_cookies_video_preview_has_exact_arguments() {
    let preview = command_preview(
        PresetId::YouTubeCookiesVideo,
        &input("https://youtu.be/x", None, Some("/tmp/c.txt")),
    )
    .unwrap();
    assert_eq!(preview.pending_integrations, vec!["pot-server"]);
    assert_eq!(
        preview.args,
        vec![
            "-v",
            "--add-metadata",
            "-P",
            "~/Downloads",
            "https://youtu.be/x",
            "--cookies",
            "/tmp/c.txt",
            "--windows-filenames",
            "--continue",
            "-f",
            "bv*+mergeall[format_id*='251']/bv*+ba",
            "--audio-multistreams",
            "-S",
            "quality,vcodec:av1:vp9:h264,acodec:opus:aac",
            "--embed-chapters",
            "--embed-thumbnail",
            "--convert-thumbnails",
            "png",
            "--embed-subs",
            "--compat-options",
            "no-live-chat",
            "--concat-playlist",
            "never",
            "--sub-lang",
            "all",
            "--remux-video",
            "mkv",
            "--impersonate",
            "chrome",
            "--extractor-args",
            "youtube:player-client=default,mweb,web_safari,tv,ios",
            "--extractor-args",
            "youtubepot-bgutilhttp:base_url=http://127.0.0.1:4416",
        ]
    );
}

#[test]
fn plain_youtube_video_uses_its_own_format_selector() {
    let preview =
        command_preview(PresetId::YouTubePlainVideo, &input("https://youtu.be/x", None, None))
            .unwrap();
    assert!(has_option_value(
        &preview.args,
        "-f",
        "bestvideo[protocol!=m3u8]+mergeall[format_id='251'][format_id!*='drc']/bv*+ba"
    ));
    assert!(!preview.args.iter().any(|arg| arg == "--cookies"));
}

#[test]
fn general_video_uses_general_selector_and_no_token_provider() {
    let preview = command_preview(
        PresetId::GeneralCookiesVideo,
        &input("https://example.com/v", Some("   "), Some("")),
    )
    .unwrap();
    assert!(has_option_value(&preview.args, "-f", "bv*+mergeall/bv*+ba"));
    assert!(has_option_value(&preview.args, "-P", "~/Downloads"));
    assert!(has_option_value(&preview.args, "--cookies", "~/Downloads/cookies.txt"));
    assert!(!preview.args.iter().any(|arg| arg == "--impersonate"));
    assert!(!preview.requires_pot_server);
}

#[test]
fn blank_links_are_rejected() {
    for link in ["   ", "\t\n", "\u{3000}\u{2003}"] {
        let error = command_preview(PresetId::YouTubePlainAudio, &input(link, None, None))
            .expect_err("blank link should be rejected");
        assert_eq!(error, "Link is required.");
    }
}

#[test]
fn unicode_white_space_is_trimmed_from_the_link() {
    let preview = command_preview(
        PresetId::GeneralPlainAudio,
        &input("\u{a0}https://example.com/a\u{2028}", None, None),
    )
    .unwrap();
    assert_eq!(preview.args[4], "https://example.com/a");
}

#[test]
fn input_fields_have_their_defaults() {
    let fields = interactive_input_fields();
    assert_eq!(fields[0].id, "link");
    assert_eq!(fields[0].label, "Link");
    assert_eq!(fields[0].kind, PresetInputKind::Url);
    assert!(fields[0].required);
    assert_eq!(fields[0].default_value, None);
    assert_eq!(fields[1].id, "directory");
    assert_eq!(fields[1].label, "Save directory");
    assert_eq!(fields[1].kind, PresetInputKind::Directory);
    assert_eq!(fields[1].default_value, Some("~/Downloads"));
    assert_eq!(fields[2].id, "cookiesPath");
    assert_eq!(fields[2].label, "Cookies file");
    assert_eq!(fields[2].kind, PresetInputKind::File);
    assert!(!fields[2].required);
    assert_eq!(fields[2].default_value, Some("~/Downloads/cookies.txt"));
}

#[test]
fn only_youtube_video_presets_are_youtube_video_presets() {
    for preset in all_presets() {
        assert_eq!(
            is_youtube_video_preset(preset.id),
            preset.source == PresetSource::YouTube && preset.media == PresetMedia::Video
        );
    }
    assert!(is_youtube_video_preset(PresetId::YouTubeCookiesVideo));
    assert!(!is_youtube_video_preset(PresetId::YouTubePlainAudio));
}

#[test]
fn video_presets_never_convert_subtitles_whatever_the_paths() {
    for preset_id in [
        PresetId::YouTubeCookiesVideo,
        PresetId::YouTubePlainVideo,
        PresetId::GeneralCookiesVideo,
        PresetId::GeneralPlainVideo,
    ] {
        let preview = command_preview(
            preset_id,
            &input("  https://example.com/watch?v=1 ", Some("/tmp/videos"), Some("/tmp/c.txt")),
        )
        .expect("preview should be created");
        assert!(!preview.args.iter().any(|arg| arg == "--convert-subs"));
        assert!(has_option_value(&preview.args, "--sub-lang", "all"));
        assert!(preview.args.iter().any(|arg| arg == "--embed-subs"));
    }
}
