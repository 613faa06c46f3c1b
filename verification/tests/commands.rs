use quiver_lib::commands::{
    greet, resolve_pot_server_home_args, theme_preset_fallback, uses_subtitle_pipeline,
    ThemeSettings,
};
use quiver_lib::presets::PresetId;

fn strings(v: &[&str]) -> Vec<String> {
    v.iter().map(|s| s.to_string()).collect()
}

#[test]
fn greets_by_name() {
    assert_eq!(greet("Ada"), "Hello, Ada! You've been greeted from Rust!");
}

#[test]
fn theme_mode_defaults_to_system_and_reads_back() {
    let mut settings = ThemeSettings::default();
    assert_eq!(settings.get_theme_mode(), "system");
    assert_eq!(settings.set_theme_mode("dark".to_string()), "dark");
    assert_eq!(settings.get_theme_mode(), "dark");
    assert_eq!(settings.set_theme_mode("purple".to_string()), "system");
    assert_eq!(settings.get_theme_mode(), "system");
    assert_eq!(settings.set_theme_mode("light".to_string()), "light");
    assert_eq!(settings.get_theme_mode(), "light");
}

#[test]
fn theme_preset_falls_back_and_reads_back() {
    let supported = strings(&["crystal", "ocean", "forest"]);
    let mut settings = ThemeSettings::default();
    assert_eq!(settings.get_theme_preset(&supported, "ocean"), "ocean");
    assert_eq!(settings.set_theme_preset("forest".to_string(), &supported, "ocean"), "forest");
    assert_eq!(settings.get_theme_preset(&supported, "ocean"), "forest");
    assert_eq!(settings.set_theme_preset("lava".to_string(), &supported, "ocean"), "ocean");
    assert_eq!(settings.get_theme_preset(&supported, "ocean"), "ocean");
    assert_eq!(settings.get_theme_mode(), "system");
}

#[test]
fn theme_preset_fallback_order() {
    assert_eq!(theme_preset_fallback(&strings(&["a", "b"]), "b"), "b");
    assert_eq!(theme_preset_fallback(&strings(&["a", "b"]), "z"), "a");
    assert_eq!(theme_preset_fallback(&Vec::new(), "z"), "crystal");
    let mut settings = ThemeSettings::default();
    assert_eq!(settings.set_theme_preset("x".to_string(), &Vec::new(), "z"), "crystal");
    assert_eq!(settings.get_theme_preset(&Vec::new(), "z"), "crystal");
}

#[test]
fn subtitle_pipeline_only_for_youtube_videos_when_asked() {
    assert!(uses_subtitle_pipeline(true, PresetId::YouTubeCookiesVideo));
    assert!(uses_subtitle_pipeline(true, PresetId::YouTubePlainVideo));
    assert!(!uses_subtitle_pipeline(false, PresetId::YouTubePlainVideo));
    assert!(!uses_subtitle_pipeline(true, PresetId::YouTubePlainAudio));
    assert!(!uses_subtitle_pipeline(true, PresetId::GeneralPlainVideo));
}

#[test]
fn token_server_home_replaces_the_placeholder() {
    let args = strings(&[
        "--extractor-args",
        "youtubepot-bgutilscript:server_home=__QUIVER_POT_SERVER_HOME__",
        "__QUIVER_POT_SERVER_HOME____QUIVER_POT_SERVER_HOME__",
        "plain",
    ]);
    let resolved = resolve_pot_server_home_args(args.clone(), Some("/opt/pot".to_string()));
    assert_eq!(
        resolved,
        strings(&[
            "--extractor-args",
            "youtubepot-bgutilscript:server_home=/opt/pot",
            "/opt/pot/opt/pot",
            "plain",
        ])
    );
    assert_eq!(resolve_pot_server_home_args(args.clone(), None), args);
}
