//! The download presets and the `yt-dlp` command line that each one builds.

use vstd::prelude::*;
use crate::text::{concat2, is_blank, owned, trim, trimmed, views};

verus! {

/// Where cookies are read from when the user names no cookies file.
pub const COOKIE_PATH: &'static str = "~/Downloads/cookies.txt";

/// Where the local proof-of-origin token provider listens.
pub const POT_BASE_URL: &'static str = "http://127.0.0.1:4416";

/// Where downloads go when the user names no directory.
pub const DEFAULT_DOWNLOAD_DIRECTORY: &'static str = "~/Downloads";

/// One of the eight built-in presets.
#[derive(Clone, Copy, Debug, PartialEq, Eq, Structural)]
pub enum PresetId {
    YouTubeCookiesVideo,
    YouTubeCookiesAudio,
    YouTubePlainVideo,
    YouTubePlainAudio,
    GeneralCookiesVideo,
    GeneralCookiesAudio,
    GeneralPlainVideo,
    GeneralPlainAudio,
}

/// Whether a preset targets YouTube or any other site.
#[derive(Clone, Copy, Debug, PartialEq, Eq, Structural)]
pub enum PresetSource {
    YouTube,
    General,
}

/// Whether a preset keeps the video or extracts the audio.
#[derive(Clone, Copy, Debug, PartialEq, Eq, Structural)]
pub enum PresetMedia {
    Video,
    Audio,
}

/// A preset as the user interface lists it.
#[derive(Clone, Copy, Debug)]
pub struct DownloadPreset {
    pub id: PresetId,
    pub label: &'static str,
    pub source: PresetSource,
    pub media: PresetMedia,
    pub uses_cookies: bool,
    pub requires_pot_server: bool,
}

/// What the user typed in: the link, and optionally a directory and a cookies
/// file.
#[derive(Clone, Debug)]
pub struct DownloadPresetInput {
    pub link: String,
    pub directory: Option<String>,
    pub cookies_path: Option<String>,
}

/// One input field of the download form.
#[derive(Clone, Copy, Debug)]
pub struct PresetInputField {
    pub id: &'static str,
    pub label: &'static str,
    pub kind: PresetInputKind,
    pub required: bool,
    pub default_value: Option<&'static str>,
}

/// The kind of value an input field takes.
#[derive(Clone, Copy, Debug, PartialEq, Eq, Structural)]
pub enum PresetInputKind {
    Url,
    Directory,
    File,
}

/// The preset, the arguments it builds for `yt-dlp`, and the integrations that
/// must run beside it.
#[derive(Clone, Debug)]
pub struct PresetCommandPreview {
    pub preset: DownloadPreset,
    pub args: Vec<String>,
    pub requires_pot_server: bool,
    pub pending_integrations: Vec<&'static str>,
}

/// The eight presets in the order the user interface lists them.
pub open spec fn preset_order() -> Seq<PresetId> {
    seq![
        PresetId::YouTubeCookiesVideo,
        PresetId::YouTubeCookiesAudio,
        PresetId::YouTubePlainVideo,
        PresetId::YouTubePlainAudio,
        PresetId::GeneralCookiesVideo,
        PresetId::GeneralCookiesAudio,
        PresetId::GeneralPlainVideo,
        PresetId::GeneralPlainAudio,
    ]
}

pub open spec fn preset_source(id: PresetId) -> PresetSource {
    match id {
        PresetId::YouTubeCookiesVideo | PresetId::YouTubeCookiesAudio
        | PresetId::YouTubePlainVideo | PresetId::YouTubePlainAudio => PresetSource::YouTube,
        _ => PresetSource::General,
    }
}

pub open spec fn preset_media(id: PresetId) -> PresetMedia {
    match id {
        PresetId::YouTubeCookiesVideo | PresetId::YouTubePlainVideo
        | PresetId::GeneralCookiesVideo | PresetId::GeneralPlainVideo => PresetMedia::Video,
        _ => PresetMedia::Audio,
    }
}

pub open spec fn preset_uses_cookies(id: PresetId) -> bool {
    match id {
        PresetId::YouTubeCookiesVideo | PresetId::YouTubeCookiesAudio
        | PresetId::GeneralCookiesVideo | PresetId::GeneralCookiesAudio => true,
        _ => false,
    }
}

pub open spec fn preset_label(id: PresetId) -> Seq<char> {
    match id {
        PresetId::YouTubeCookiesVideo => "YouTube Video, with Cookies"@,
        PresetId::YouTubeCookiesAudio => "YouTube Audio, with Cookies"@,
        PresetId::YouTubePlainVideo => "YouTube Video, no Cookies"@,
        PresetId::YouTubePlainAudio => "YouTube Audio, no Cookies"@,
        PresetId::GeneralCookiesVideo => "General Video, with Cookies"@,
        PresetId::GeneralCookiesAudio => "General Audio, with Cookies"@,
        PresetId::GeneralPlainVideo => "General Video, no Cookies"@,
        PresetId::GeneralPlainAudio => "General Audio, no Cookies"@,
    }
}

/// `p` is the built-in preset `id`: its label, source, media and cookie use are
/// those of `id`, and it needs the token server exactly when it targets YouTube.
pub open spec fn is_preset(p: DownloadPreset, id: PresetId) -> bool {
    &&& p.id == id
    &&& p.label@ == preset_label(id)
    &&& p.source == preset_source(id)
    &&& p.media == preset_media(id)
    &&& p.uses_cookies == preset_uses_cookies(id)
    &&& p.requires_pot_server == (preset_source(id) == PresetSource::YouTube)
}

/// The arguments that keep the video stream, with the given format selector.
pub open spec fn video_args_of(format_selector: Seq<char>) -> Seq<Seq<char>> {
    seq![
        "-f"@,
        format_selector,
        "--audio-multistreams"@,
        "-S"@,
        "quality,vcodec:av1:vp9:h264,acodec:opus:aac"@,
        "--embed-chapters"@,
        "--embed-thumbnail"@,
        "--convert-thumbnails"@,
        "png"@,
        "--embed-subs"@,
        "--compat-options"@,
        "no-live-chat"@,
        "--concat-playlist"@,
        "never"@,
        "--sub-lang"@,
        "all"@,
        "--remux-video"@,
        "mkv"@,
    ]
}

/// The arguments that extract the audio.
pub open spec fn audio_args_of() -> Seq<Seq<char>> {
    seq![
        "-x"@,
        "--embed-thumbnail"@,
        "--embed-thumbnail"@,
        "--concat-playlist"@,
        "never"@,
        "--embed-chapters"@,
    ]
}

/// The arguments every YouTube preset adds: browser impersonation, the player
/// clients, and the local token provider.
pub open spec fn youtube_args_of() -> Seq<Seq<char>> {
    seq![
        "--impersonate"@,
        "chrome"@,
        "--extractor-args"@,
        "youtube:player-client=default,mweb,web_safari,tv,ios"@,
        "--extractor-args"@,
        "youtubepot-bgutilhttp:base_url="@ + POT_BASE_URL@,
    ]
}

/// The format selector of a video preset.
pub open spec fn video_format_selector(source: PresetSource, uses_cookies: bool) -> Seq<char> {
    match source {
        PresetSource::YouTube => if uses_cookies {
            "bv*+mergeall[format_id*='251']/bv*+ba"@
        } else {
            "bestvideo[protocol!=m3u8]+mergeall[format_id='251'][format_id!*='drc']/bv*+ba"@
        },
        PresetSource::General => "bv*+mergeall/bv*+ba"@,
    }
}

/// The arguments that follow the common ones, by source and media.
pub open spec fn media_args_of(source: PresetSource, media: PresetMedia, uses_cookies: bool) -> Seq<
    Seq<char>,
> {
    let own = match media {
        PresetMedia::Video => video_args_of(video_format_selector(source, uses_cookies)),
        PresetMedia::Audio => audio_args_of(),
    };
    match source {
        PresetSource::YouTube => own + youtube_args_of(),
        PresetSource::General => own,
    }
}

/// A path the user gave, unless it is missing or blank, in which case the
/// default.
pub open spec fn chosen_path(given: Option<String>, default: Seq<char>) -> Seq<char> {
    match given {
        Some(path) => if trimmed(path@).len() > 0 {
            path@
        } else {
            default
        },
        None => default,
    }
}

/// The full `yt-dlp` command line of a preset for the given input.
pub open spec fn command_args_of(
    source: PresetSource,
    media: PresetMedia,
    uses_cookies: bool,
    input: DownloadPresetInput,
) -> Seq<Seq<char>> {
    let directory = chosen_path(input.directory, DEFAULT_DOWNLOAD_DIRECTORY@);
    let cookies_path = chosen_path(input.cookies_path, COOKIE_PATH@);
    seq!["-v"@, "--add-metadata"@, "-P"@, directory, trimmed(input.link@)] + (if uses_cookies {
        seq!["--cookies"@, cookies_path]
    } else {
        Seq::empty()
    }) + seq!["--windows-filenames"@, "--continue"@] + media_args_of(source, media, uses_cookies)
}

/// The character views of a sequence of string slices.
pub open spec fn str_views(v: Seq<&str>) -> Seq<Seq<char>> {
    v.map_values(|x: &str| x@)
}

fn preset(
    id: PresetId,
    label: &'static str,
    source: PresetSource,
    media: PresetMedia,
    uses_cookies: bool,
) -> (r: DownloadPreset)
    ensures
        r.id == id,
        r.label == label,
        r.source == source,
        r.media == media,
        r.uses_cookies == uses_cookies,
        r.requires_pot_server == (source == PresetSource::YouTube),
{
    DownloadPreset {
        id,
        label,
        source,
        media,
        uses_cookies,
        requires_pot_server: match source {
            PresetSource::YouTube => true,
            PresetSource::General => false,
        },
    }
}

/// The eight built-in presets: every combination of YouTube or general site,
/// video or audio, with or without cookies, once each.
pub fn all_presets() -> (r: [DownloadPreset; 8])
    ensures
        forall|i: int| 0 <= i < 8 ==> is_preset(#[trigger] r@[i], preset_order()[i]),
{
    [
        preset(
            PresetId::YouTubeCookiesVideo,
            "YouTube Video, with Cookies",
            PresetSource::YouTube,
            PresetMedia::Video,
            true,
        ),
        preset(
            PresetId::YouTubeCookiesAudio,
            "YouTube Audio, with Cookies",
            PresetSource::YouTube,
            PresetMedia::Audio,
            true,
        ),
        preset(
            PresetId::YouTubePlainVideo,
            "YouTube Video, no Cookies",
            PresetSource::YouTube,
            PresetMedia::Video,
            false,
        ),
        preset(
            PresetId::YouTubePlainAudio,
            "YouTube Audio, no Cookies",
            PresetSource::YouTube,
            PresetMedia::Audio,
            false,
        ),
        preset(
            PresetId::GeneralCookiesVideo,
            "General Video, with Cookies",
            PresetSource::General,
            PresetMedia::Video,
            true,
        ),
        preset(
            PresetId::GeneralCookiesAudio,
            "General Audio, with Cookies",
            PresetSource::General,
            PresetMedia::Audio,
            true,
        ),
        preset(
            PresetId::GeneralPlainVideo,
            "General Video, no Cookies",
            PresetSource::General,
            PresetMedia::Video,
            false,
        ),
        preset(
            PresetId::GeneralPlainAudio,
            "General Audio, no Cookies",
            PresetSource::General,
            PresetMedia::Audio,
            false,
        ),
    ]
}


/// The input fields of the download form: the required link, the save
/// directory and the cookies file, the last two with their defaults.
pub fn interactive_input_fields() -> (r: [PresetInputField; 3])
    ensures
        r@[0].id@ == "link"@,
        r@[0].label@ == "Link"@,
        r@[0].kind == PresetInputKind::Url,
        r@[0].required,
        r@[0].default_value is None,
        r@[1].id@ == "directory"@,
        r@[1].label@ == "Save directory"@,
        r@[1].kind == PresetInputKind::Directory,
        !r@[1].required,
        r@[1].default_value matches Some(d) && d@ == DEFAULT_DOWNLOAD_DIRECTORY@,
        r@[2].id@ == "cookiesPath"@,
        r@[2].label@ == "Cookies file"@,
        r@[2].kind == PresetInputKind::File,
        !r@[2].required,
        r@[2].default_value matches Some(d) && d@ == COOKIE_PATH@,
{
    [
        PresetInputField {
            id: "link",
            label: "Link",
            kind: PresetInputKind::Url,
            required: true,
            default_value: None,
        },
        PresetInputField {
            id: "directory",
            label: "Save directory",
            kind: PresetInputKind::Directory,
            required: false,
            default_value: Some(DEFAULT_DOWNLOAD_DIRECTORY),
        },
        PresetInputField {
            id: "cookiesPath",
            label: "Cookies file",
            kind: PresetInputKind::File,
            required: false,
            default_value: Some(COOKIE_PATH),
        },
    ]
}

/// Whether the preset downloads a YouTube video (with or without cookies).
pub fn is_youtube_video_preset(preset_id: PresetId) -> (r: bool)
    ensures
        r == (preset_source(preset_id) == PresetSource::YouTube && preset_media(preset_id)
            == PresetMedia::Video),
{
    match preset_id {
        PresetId::YouTubeCookiesVideo | PresetId::YouTubePlainVideo => true,
        _ => false,
    }
}

/// The name `Debug` gives a preset: the name of its variant.
pub open spec fn preset_id_name_of(preset_id: PresetId) -> Seq<char> {
    match preset_id {
        PresetId::YouTubeCookiesVideo => "YouTubeCookiesVideo"@,
        PresetId::YouTubeCookiesAudio => "YouTubeCookiesAudio"@,
        PresetId::YouTubePlainVideo => "YouTubePlainVideo"@,
        PresetId::YouTubePlainAudio => "YouTubePlainAudio"@,
        PresetId::GeneralCookiesVideo => "GeneralCookiesVideo"@,
        PresetId::GeneralCookiesAudio => "GeneralCookiesAudio"@,
        PresetId::GeneralPlainVideo => "GeneralPlainVideo"@,
        PresetId::GeneralPlainAudio => "GeneralPlainAudio"@,
    }
}

/// The name `Debug` gives a preset.
fn preset_id_name(preset_id: PresetId) -> (r: &'static str)
    ensures
        r@ == preset_id_name_of(preset_id),
{
    match preset_id {
        PresetId::YouTubeCookiesVideo => "YouTubeCookiesVideo",
        PresetId::YouTubeCookiesAudio => "YouTubeCookiesAudio",
        PresetId::YouTubePlainVideo => "YouTubePlainVideo",
        PresetId::YouTubePlainAudio => "YouTubePlainAudio",
        PresetId::GeneralCookiesVideo => "GeneralCookiesVideo",
        PresetId::GeneralCookiesAudio => "GeneralCookiesAudio",
        PresetId::GeneralPlainVideo => "GeneralPlainVideo",
        PresetId::GeneralPlainAudio => "GeneralPlainAudio",
    }
}

/// The built-in preset with the given id; every id has one.
fn find_preset(preset_id: PresetId) -> (r: Result<DownloadPreset, String>)
    ensures
        r matches Ok(p) && is_preset(p, preset_id),
{
    let presets = all_presets();
    let mut i: usize = 0;
    while i < 8
        invariant
            i <= 8,
            forall|j: int| 0 <= j < 8 ==> is_preset(#[trigger] presets@[j], preset_order()[j]),
            forall|j: int| 0 <= j < i ==> preset_order()[j] != preset_id,
        decreases 8 - i,
    {
        if presets[i].id == preset_id {
            return Ok(presets[i]);
        }
        i = i + 1;
    }
    proof {
        assert(preset_order()[0] != preset_id);
        assert(preset_order()[1] != preset_id);
        assert(preset_order()[2] != preset_id);
        assert(preset_order()[3] != preset_id);
        assert(preset_order()[4] != preset_id);
        assert(preset_order()[5] != preset_id);
        assert(preset_order()[6] != preset_id);
        assert(preset_order()[7] != preset_id);
    }
    Err(concat2("Unsupported preset: ", preset_id_name(preset_id)))
}

fn video_args(format_selector: &str) -> (r: Vec<String>)
    ensures
        views(r@) == video_args_of(format_selector@),
{
    let r = vec![
        owned("-f"),
        owned(format_selector),
        owned("--audio-multistreams"),
        owned("-S"),
        owned("quality,vcodec:av1:vp9:h264,acodec:opus:aac"),
        owned("--embed-chapters"),
        owned("--embed-thumbnail"),
        owned("--convert-thumbnails"),
        owned("png"),
        owned("--embed-subs"),
        owned("--compat-options"),
        owned("no-live-chat"),
        owned("--concat-playlist"),
        owned("never"),
        owned("--sub-lang"),
        owned("all"),
        owned("--remux-video"),
        owned("mkv"),
    ];
    assert(views(r@) =~= video_args_of(format_selector@));
    r
}

fn audio_args() -> (r: Vec<String>)
    ensures
        views(r@) == audio_args_of(),
{
    let r = vec![
        owned("-x"),
        owned("--embed-thumbnail"),
        owned("--embed-thumbnail"),
        owned("--concat-playlist"),
        owned("never"),
        owned("--embed-chapters"),
    ];
    assert(views(r@) =~= audio_args_of());
    r
}

fn youtube_args() -> (r: Vec<String>)
    ensures
        views(r@) == youtube_args_of(),
{
    let r = vec![
        owned("--impersonate"),
        owned("chrome"),
        owned("--extractor-args"),
        owned("youtube:player-client=default,mweb,web_safari,tv,ios"),
        owned("--extractor-args"),
        concat2("youtubepot-bgutilhttp:base_url=", POT_BASE_URL),
    ];
    assert(views(r@) =~= youtube_args_of());
    r
}

/// Appends `more` to `args`.
fn extend(args: &mut Vec<String>, more: Vec<String>)
    ensures
        views(final(args)@) == views(old(args)@) + views(more@),
{
    let mut more = more;
    let ghost a = old(args)@;
    let ghost m = more@;
    args.append(&mut more);
    assert(views(args@) =~= views(a) + views(m));
}

/// The path the user gave, unless it is missing or blank.
fn chosen<'a>(given: &'a Option<String>, default: &'a str) -> (r: &'a str)
    ensures
        r@ == chosen_path(*given, default@),
{
    match given {
        Some(path) => if is_blank(path.as_str()) {
            default
        } else {
            path.as_str()
        },
        None => default,
    }
}

fn command_args(preset: &DownloadPreset, input: &DownloadPresetInput) -> (r: Result<
    Vec<String>,
    String,
>)
    ensures
        match r {
            Ok(args) => {
                &&& trimmed(input.link@).len() > 0
                &&& views(args@) == command_args_of(
                    preset.source,
                    preset.media,
                    preset.uses_cookies,
                    *input,
                )
            },
            Err(e) => trimmed(input.link@).len() == 0 && e@ == "Link is required."@,
        },
{
    let link = trim(input.link.as_str());
    if link.is_empty() {
        return Err(owned("Link is required."));
    }
    let directory = chosen(&input.directory, DEFAULT_DOWNLOAD_DIRECTORY);
    let cookies_path = chosen(&input.cookies_path, COOKIE_PATH);

    let mut args = vec![
        owned("-v"),
        owned("--add-metadata"),
        owned("-P"),
        owned(directory),
        owned(link),
    ];
    if preset.uses_cookies {
        extend(&mut args, vec![owned("--cookies"), owned(cookies_path)]);
    }
    extend(&mut args, vec![owned("--windows-filenames"), owned("--continue")]);

    match (preset.source, preset.media) {
        (PresetSource::YouTube, PresetMedia::Video) => {
            if preset.uses_cookies {
                extend(&mut args, video_args("bv*+mergeall[format_id*='251']/bv*+ba"));
            } else {
                extend(
                    &mut args,
                    video_args(
                        "bestvideo[protocol!=m3u8]+mergeall[format_id='251'][format_id!*='drc']/bv*+ba",
                    ),
                );
            }
            extend(&mut args, youtube_args());
        },
        (PresetSource::YouTube, PresetMedia::Audio) => {
            extend(&mut args, audio_args());
            extend(&mut args, youtube_args());
        },
        (PresetSource::General, PresetMedia::Video) => {
            extend(&mut args, video_args("bv*+mergeall/bv*+ba"));
        },
        (PresetSource::General, PresetMedia::Audio) => {
            extend(&mut args, audio_args());
        },
    }
    assert(views(args@) =~= command_args_of(
        preset.source,
        preset.media,
        preset.uses_cookies,
        *input,
    ));
    Ok(args)
}

/// The integrations a preset waits for: the token server for YouTube presets.
pub open spec fn pending_integrations_of(requires_pot_server: bool) -> Seq<Seq<char>> {
    if requires_pot_server {
        seq!["pot-server"@]
    } else {
        Seq::empty()
    }
}

/// The preview of a preset for the given input: the preset, its `yt-dlp`
/// arguments, and whether it needs the token server. Fails exactly when the
/// link is blank.
pub fn command_preview(preset_id: PresetId, input: &DownloadPresetInput) -> (r: Result<
    PresetCommandPreview,
    String,
>)
    ensures
        match r {
            Ok(preview) => {
                &&& trimmed(input.link@).len() > 0
                &&& is_preset(preview.preset, preset_id)
                &&& views(preview.args@) == command_args_of(
                    preset_source(preset_id),
                    preset_media(preset_id),
                    preset_uses_cookies(preset_id),
                    *input,
                )
                &&& preview.requires_pot_server == (preset_source(preset_id) == PresetSource::YouTube)
                &&& str_views(preview.pending_integrations@) == pending_integrations_of(
                    preview.requires_pot_server,
                )
            },
            Err(e) => trimmed(input.link@).len() == 0 && e@ == "Link is required."@,
        },
{
    let preset = match find_preset(preset_id) {
        Ok(p) => p,
        Err(e) => {
            return Err(e);
        },
    };
    let args = match command_args(&preset, input) {
        Ok(a) => a,
        Err(e) => {
            return Err(e);
        },
    };
    let pending_integrations: Vec<&'static str> = if preset.requires_pot_server {
        vec!["pot-server"]
    } else {
        Vec::new()
    };
    assert(str_views(pending_integrations@) =~= pending_integrations_of(
        preset.requires_pot_server,
    ));
    Ok(
        PresetCommandPreview {
            requires_pot_server: preset.requires_pot_server,
            preset,
            args,
            pending_integrations,
        },
    )
}


/// Whether `option` is directly followed by `value` somewhere in `args`.
pub open spec fn has_option_value(args: Seq<Seq<char>>, option: Seq<char>, value: Seq<char>) -> bool {
    exists|i: int| 0 <= i && i + 1 < args.len() && #[trigger] args[i] == option && args[i + 1] == value
}

/// The eight presets are every combination of YouTube or general site, video
/// or audio, with or without cookies, each exactly once: the list holds no id
/// twice, `id` is in it, the combination of `source`, `media` and cookie use
/// belongs to an id, and no two ids share a combination.
pub proof fn law_presets_cover_each_combination_once(
    id: PresetId,
    source: PresetSource,
    media: PresetMedia,
    uses_cookies: bool,
)
    ensures
        forall|i: int, j: int|
            0 <= i < 8 && 0 <= j < 8 && i != j ==> preset_order()[i] != preset_order()[j],
        exists|i: int| 0 <= i < 8 && #[trigger] preset_order()[i] == id,
        exists|p: PresetId|
            preset_source(p) == source && preset_media(p) == media && #[trigger] preset_uses_cookies(
                p,
            ) == uses_cookies,
        forall|a: PresetId, b: PresetId|
            preset_source(a) == preset_source(b) && preset_media(a) == preset_media(b)
                && preset_uses_cookies(a) == preset_uses_cookies(b) ==> a == b,
{
    match id {
        PresetId::YouTubeCookiesVideo => assert(preset_order()[0] == id),
        PresetId::YouTubeCookiesAudio => assert(preset_order()[1] == id),
        PresetId::YouTubePlainVideo => assert(preset_order()[2] == id),
        PresetId::YouTubePlainAudio => assert(preset_order()[3] == id),
        PresetId::GeneralCookiesVideo => assert(preset_order()[4] == id),
        PresetId::GeneralCookiesAudio => assert(preset_order()[5] == id),
        PresetId::GeneralPlainVideo => assert(preset_order()[6] == id),
        PresetId::GeneralPlainAudio => assert(preset_order()[7] == id),
    }
    let p = match (source, media, uses_cookies) {
        (PresetSource::YouTube, PresetMedia::Video, true) => PresetId::YouTubeCookiesVideo,
        (PresetSource::YouTube, PresetMedia::Audio, true) => PresetId::YouTubeCookiesAudio,
        (PresetSource::YouTube, PresetMedia::Video, false) => PresetId::YouTubePlainVideo,
        (PresetSource::YouTube, PresetMedia::Audio, false) => PresetId::YouTubePlainAudio,
        (PresetSource::General, PresetMedia::Video, true) => PresetId::GeneralCookiesVideo,
        (PresetSource::General, PresetMedia::Audio, true) => PresetId::GeneralCookiesAudio,
        (PresetSource::General, PresetMedia::Video, false) => PresetId::GeneralPlainVideo,
        (PresetSource::General, PresetMedia::Audio, false) => PresetId::GeneralPlainAudio,
    };
    assert(preset_source(p) == source && preset_media(p) == media && preset_uses_cookies(p)
        == uses_cookies);
}

/// Every video preset remuxes to Matroska, embeds the thumbnail converted to
/// PNG, and keeps the subtitles of every language, whatever the input.
pub proof fn law_video_presets_remux_to_mkv(id: PresetId, input: DownloadPresetInput)
    requires
        preset_media(id) == PresetMedia::Video,
    ensures
        ({
            let args = command_args_of(
                preset_source(id),
                preset_media(id),
                preset_uses_cookies(id),
                input,
            );
            &&& has_option_value(args, "--remux-video"@, "mkv"@)
            &&& has_option_value(args, "--convert-thumbnails"@, "png"@)
            &&& has_option_value(args, "--sub-lang"@, "all"@)
            &&& args.contains("--embed-thumbnail"@)
            &&& args.contains("--embed-subs"@)
        }),
{
    let args = command_args_of(preset_source(id), preset_media(id), preset_uses_cookies(id), input);
    let k: int = if preset_uses_cookies(id) {
        9
    } else {
        7
    };
    assert(args[k + 16] == "--remux-video"@ && args[k + 17] == "mkv"@);
    assert(args[k + 7] == "--convert-thumbnails"@ && args[k + 8] == "png"@);
    assert(args[k + 14] == "--sub-lang"@ && args[k + 15] == "all"@);
    assert(args[k + 6] == "--embed-thumbnail"@);
    assert(args[k + 9] == "--embed-subs"@);
}

/// Every audio preset extracts the audio: its command line is the common head
/// (`-v --add-metadata -P <directory> <link>`), the cookies pair when it uses
/// cookies, `--windows-filenames --continue`, then `-x` and the audio options;
/// a YouTube audio preset then adds browser impersonation, its player clients
/// and the local token provider, and a general one adds nothing more.
pub proof fn law_audio_presets_extract_audio(id: PresetId, input: DownloadPresetInput)
    requires
        preset_media(id) == PresetMedia::Audio,
    ensures
        ({
            let args = command_args_of(
                preset_source(id),
                preset_media(id),
                preset_uses_cookies(id),
                input,
            );
            let k: int = if preset_uses_cookies(id) { 9 } else { 7 };
            &&& args.len() == k + 6 + (if preset_source(id) == PresetSource::YouTube { 6int } else { 0 })
            &&& args.subrange(0, 5) == seq![
                "-v"@,
                "--add-metadata"@,
                "-P"@,
                chosen_path(input.directory, "~/Downloads"@),
                trimmed(input.link@),
            ]
            &&& preset_uses_cookies(id) ==> args.subrange(5, 7) == seq![
                "--cookies"@,
                chosen_path(input.cookies_path, "~/Downloads/cookies.txt"@),
            ]
            &&& args.subrange(k - 2, k) == seq!["--windows-filenames"@, "--continue"@]
            &&& args.subrange(k, k + 6) == seq![
                "-x"@,
                "--embed-thumbnail"@,
                "--embed-thumbnail"@,
                "--concat-playlist"@,
                "never"@,
                "--embed-chapters"@,
            ]
            &&& preset_source(id) == PresetSource::YouTube ==> args.subrange(k + 6, k + 12) == seq![
                "--impersonate"@,
                "chrome"@,
                "--extractor-args"@,
                "youtube:player-client=default,mweb,web_safari,tv,ios"@,
                "--extractor-args"@,
                "youtubepot-bgutilhttp:base_url=http://127.0.0.1:4416"@,
            ]
        }),
{
    reveal_strlit("~/Downloads");
    reveal_strlit("~/Downloads/cookies.txt");
    reveal_strlit("http://127.0.0.1:4416");
    reveal_strlit("youtubepot-bgutilhttp:base_url=");
    reveal_strlit("youtubepot-bgutilhttp:base_url=http://127.0.0.1:4416");
    assert("youtubepot-bgutilhttp:base_url="@ + POT_BASE_URL@
        =~= "youtubepot-bgutilhttp:base_url=http://127.0.0.1:4416"@);
    assert(DEFAULT_DOWNLOAD_DIRECTORY@ =~= "~/Downloads"@);
    assert(COOKIE_PATH@ =~= "~/Downloads/cookies.txt"@);
    let args = command_args_of(preset_source(id), preset_media(id), preset_uses_cookies(id), input);
    let k: int = if preset_uses_cookies(id) { 9 } else { 7 };
    assert(args.subrange(0, 5) =~= seq![
        "-v"@,
        "--add-metadata"@,
        "-P"@,
        chosen_path(input.directory, "~/Downloads"@),
        trimmed(input.link@),
    ]);
    if preset_uses_cookies(id) {
        assert(args.subrange(5, 7) =~= seq![
            "--cookies"@,
            chosen_path(input.cookies_path, "~/Downloads/cookies.txt"@),
        ]);
    }
    assert(args.subrange(k - 2, k) =~= seq!["--windows-filenames"@, "--continue"@]);
    assert(args.subrange(k, k + 6) =~= seq![
        "-x"@,
        "--embed-thumbnail"@,
        "--embed-thumbnail"@,
        "--concat-playlist"@,
        "never"@,
        "--embed-chapters"@,
    ]);
    if preset_source(id) == PresetSource::YouTube {
        assert(args.subrange(k + 6, k + 12) =~= seq![
            "--impersonate"@,
            "chrome"@,
            "--extractor-args"@,
            "youtube:player-client=default,mweb,web_safari,tv,ios"@,
            "--extractor-args"@,
            "youtubepot-bgutilhttp:base_url=http://127.0.0.1:4416"@,
        ]);
    }
}

/// Every video preset keeps the video: after `--windows-filenames --continue`
/// come `-f` with the preset's format selector (one for YouTube with cookies,
/// one for YouTube without, one for any other site) and the video options; a
/// YouTube video preset then adds browser impersonation, its player clients and
/// the local token provider, and a general one adds nothing more.
pub proof fn law_video_presets_keep_video(id: PresetId, input: DownloadPresetInput)
    requires
        preset_media(id) == PresetMedia::Video,
    ensures
        ({
            let args = command_args_of(
                preset_source(id),
                preset_media(id),
                preset_uses_cookies(id),
                input,
            );
            let k: int = if preset_uses_cookies(id) { 9 } else { 7 };
            let selector = if preset_source(id) == PresetSource::General {
                "bv*+mergeall/bv*+ba"@
            } else if preset_uses_cookies(id) {
                "bv*+mergeall[format_id*='251']/bv*+ba"@
            } else {
                "bestvideo[protocol!=m3u8]+mergeall[format_id='251'][format_id!*='drc']/bv*+ba"@
            };
            &&& args.len() == k + 18 + (if preset_source(id) == PresetSource::YouTube { 6int } else { 0 })
            &&& args.subrange(k - 2, k) == seq!["--windows-filenames"@, "--continue"@]
            &&& args.subrange(k, k + 18) == seq![
                "-f"@,
                selector,
                "--audio-multistreams"@,
                "-S"@,
                "quality,vcodec:av1:vp9:h264,acodec:opus:aac"@,
                "--embed-chapters"@,
                "--embed-thumbnail"@,
                "--convert-thumbnails"@,
                "png"@,
                "--embed-subs"@,
                "--compat-options"@,
                "no-live-chat"@,
                "--concat-playlist"@,
                "never"@,
                "--sub-lang"@,
                "all"@,
                "--remux-video"@,
                "mkv"@,
            ]
            &&& preset_source(id) == PresetSource::YouTube ==> args.subrange(k + 18, k + 24) == seq![
                "--impersonate"@,
                "chrome"@,
                "--extractor-args"@,
                "youtube:player-client=default,mweb,web_safari,tv,ios"@,
                "--extractor-args"@,
                "youtubepot-bgutilhttp:base_url=http://127.0.0.1:4416"@,
            ]
        }),
{
    reveal_strlit("http://127.0.0.1:4416");
    reveal_strlit("youtubepot-bgutilhttp:base_url=");
    reveal_strlit("youtubepot-bgutilhttp:base_url=http://127.0.0.1:4416");
    assert("youtubepot-bgutilhttp:base_url="@ + POT_BASE_URL@
        =~= "youtubepot-bgutilhttp:base_url=http://127.0.0.1:4416"@);
    let args = command_args_of(preset_source(id), preset_media(id), preset_uses_cookies(id), input);
    let k: int = if preset_uses_cookies(id) { 9 } else { 7 };
    let selector = video_format_selector(preset_source(id), preset_uses_cookies(id));
    assert(args.subrange(k - 2, k) =~= seq!["--windows-filenames"@, "--continue"@]);
    assert(args.subrange(k, k + 18) =~= video_args_of(selector));
    if preset_source(id) == PresetSource::YouTube {
        assert(args.subrange(k + 18, k + 24) =~= seq![
            "--impersonate"@,
            "chrome"@,
            "--extractor-args"@,
            "youtube:player-client=default,mweb,web_safari,tv,ios"@,
            "--extractor-args"@,
            "youtubepot-bgutilhttp:base_url=http://127.0.0.1:4416"@,
        ]);
    }
}

/// No element of `a + b` is `x` when no element of `a` and none of `b` is.
proof fn lemma_concat_excludes(a: Seq<Seq<char>>, b: Seq<Seq<char>>, x: Seq<char>)
    requires
        !a.contains(x),
        !b.contains(x),
    ensures
        !(a + b).contains(x),
{
    assert forall|i: int| 0 <= i < (a + b).len() implies (a + b)[i] != x by {
        if i < a.len() {
            assert((a + b)[i] == a[i]);
        } else {
            assert((a + b)[i] == b[i - a.len()]);
        }
    }
}

/// The fixed arguments of the video presets never ask `yt-dlp` to convert the
/// subtitles.
proof fn lemma_video_args_keep_subtitle_format(source: PresetSource, uses_cookies: bool)
    ensures
        !media_args_of(source, PresetMedia::Video, uses_cookies).contains("--convert-subs"@),
{
    reveal_strlit("--convert-subs");
    reveal_strlit("-f");
    reveal_strlit("bv*+mergeall[format_id*='251']/bv*+ba");
    reveal_strlit("bestvideo[protocol!=m3u8]+mergeall[format_id='251'][format_id!*='drc']/bv*+ba");
    reveal_strlit("bv*+mergeall/bv*+ba");
    reveal_strlit("--audio-multistreams");
    reveal_strlit("-S");
    reveal_strlit("quality,vcodec:av1:vp9:h264,acodec:opus:aac");
    reveal_strlit("--embed-chapters");
    reveal_strlit("--embed-thumbnail");
    reveal_strlit("--convert-thumbnails");
    reveal_strlit("png");
    reveal_strlit("--embed-subs");
    reveal_strlit("--compat-options");
    reveal_strlit("no-live-chat");
    reveal_strlit("--concat-playlist");
    reveal_strlit("never");
    reveal_strlit("--sub-lang");
    reveal_strlit("all");
    reveal_strlit("--remux-video");
    reveal_strlit("mkv");
    let x = "--convert-subs"@;
    let v = video_args_of(video_format_selector(source, uses_cookies));
    assert forall|i: int| 0 <= i < v.len() implies v[i] != x by {
        assert(v[i].len() != x.len() || v[i][2] != x[2]);
    }
    if source == PresetSource::YouTube {
        reveal_strlit("--impersonate");
        reveal_strlit("chrome");
        reveal_strlit("--extractor-args");
        reveal_strlit("youtube:player-client=default,mweb,web_safari,tv,ios");
        reveal_strlit("youtubepot-bgutilhttp:base_url=");
        let y = youtube_args_of();
        assert forall|i: int| 0 <= i < y.len() implies y[i] != x by {
            assert(y[i].len() != x.len() || y[i][2] != x[2]);
        }
        lemma_concat_excludes(v, y, x);
    }
}

/// The video presets leave the subtitles in their original format: no
/// argument asks `yt-dlp` to convert them, unless the user typed that very
/// option as the link, the directory or the cookies file.
pub proof fn law_video_presets_keep_subtitle_format(id: PresetId, input: DownloadPresetInput)
    requires
        preset_media(id) == PresetMedia::Video,
        trimmed(input.link@) != "--convert-subs"@,
        chosen_path(input.directory, DEFAULT_DOWNLOAD_DIRECTORY@) != "--convert-subs"@,
        chosen_path(input.cookies_path, COOKIE_PATH@) != "--convert-subs"@,
    ensures
        !command_args_of(preset_source(id), preset_media(id), preset_uses_cookies(id), input)
            .contains("--convert-subs"@),
{
    reveal_strlit("--convert-subs");
    reveal_strlit("-v");
    reveal_strlit("--add-metadata");
    reveal_strlit("-P");
    reveal_strlit("--cookies");
    reveal_strlit("--windows-filenames");
    reveal_strlit("--continue");
    let x = "--convert-subs"@;
    let directory = chosen_path(input.directory, DEFAULT_DOWNLOAD_DIRECTORY@);
    let cookies_path = chosen_path(input.cookies_path, COOKIE_PATH@);
    let head = seq!["-v"@, "--add-metadata"@, "-P"@, directory, trimmed(input.link@)];
    let cookies = if preset_uses_cookies(id) {
        seq!["--cookies"@, cookies_path]
    } else {
        Seq::empty()
    };
    let fixed = seq!["--windows-filenames"@, "--continue"@];
    assert forall|i: int| 0 <= i < head.len() implies head[i] != x by {
        assert(head[i] == directory || head[i] == trimmed(input.link@) || head[i].len() != x.len()
            || head[i][2] != x[2]);
    }
    assert forall|i: int| 0 <= i < cookies.len() implies cookies[i] != x by {
        assert(cookies[i] == cookies_path || cookies[i].len() != x.len());
    }
    assert forall|i: int| 0 <= i < fixed.len() implies fixed[i] != x by {
        assert(fixed[i].len() != x.len());
    }
    lemma_video_args_keep_subtitle_format(preset_source(id), preset_uses_cookies(id));
    lemma_concat_excludes(head, cookies, x);
    lemma_concat_excludes(head + cookies, fixed, x);
    lemma_concat_excludes(
        head + cookies + fixed,
        media_args_of(preset_source(id), PresetMedia::Video, preset_uses_cookies(id)),
        x,
    );
}

/// Every YouTube preset impersonates a browser and asks the local token
/// provider for proof-of-origin tokens; every preset that uses cookies reads
/// them from the chosen cookies file.
pub proof fn law_preset_integrations(id: PresetId, input: DownloadPresetInput)
    ensures
        ({
            let args = command_args_of(
                preset_source(id),
                preset_media(id),
                preset_uses_cookies(id),
                input,
            );
            &&& preset_source(id) == PresetSource::YouTube ==> {
                &&& has_option_value(args, "--impersonate"@, "chrome"@)
                &&& has_option_value(
                    args,
                    "--extractor-args"@,
                    "youtubepot-bgutilhttp:base_url="@ + POT_BASE_URL@,
                )
            }
            &&& preset_uses_cookies(id) ==> has_option_value(
                args,
                "--cookies"@,
                chosen_path(input.cookies_path, COOKIE_PATH@),
            )
        }),
{
    let args = command_args_of(preset_source(id), preset_media(id), preset_uses_cookies(id), input);
    let tail = media_args_of(preset_source(id), preset_media(id), preset_uses_cookies(id));
    let k: int = if preset_uses_cookies(id) {
        9
    } else {
        7
    };
    if preset_uses_cookies(id) {
        assert(args[5] == "--cookies"@);
        assert(args[6] == chosen_path(input.cookies_path, COOKIE_PATH@));
    }
    if preset_source(id) == PresetSource::YouTube {
        let y = tail.len() - 6;
        assert(args[k + y] == "--impersonate"@ && args[k + y + 1] == "chrome"@);
        assert(args[k + y + 4] == "--extractor-args"@);
        assert(args[k + y + 5] == "youtubepot-bgutilhttp:base_url="@ + POT_BASE_URL@);
    }
}


} // verus!
