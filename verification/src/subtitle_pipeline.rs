//! The advanced subtitle pipeline for YouTube videos: the command lines of the
//! subtitle download, of `ffprobe` and of `ffmpeg`, the parsing of their
//! output, and the names of the files it writes.

use vstd::prelude::*;
use crate::text::{
    concat2, concat3, decimal, decimal_digits, digit_char, owned, str_eq, trim, trimmed, trimmed_lines,
    trimmed_lines_of, views,
};
use crate::yt_dlp::{YtDlpCommandOutput, YtDlpOutputStream};

verus! {

/// A converted subtitle file and its language.
#[derive(Clone, Debug)]
pub struct SubtitleTrack {
    pub language: String,
    pub path: String,
}

/// A cover picture taken out of a media file before it is remuxed, with the
/// index of the video stream it came from.
#[derive(Clone, Debug)]
pub struct AttachedPicture {
    pub video_index: usize,
    pub path: String,
}

/// Each occurrence of `option` in `args` at `i` or later, with the argument
/// that follows it; an occurrence taken this way is not read again as a value.
pub open spec fn option_pairs_from(args: Seq<Seq<char>>, option: Seq<char>, i: int) -> Seq<
    Seq<char>,
>
    decreases args.len() - i,
{
    if 0 <= i && i + 1 < args.len() {
        if args[i] == option {
            seq![args[i], args[i + 1]] + option_pairs_from(args, option, i + 2)
        } else {
            option_pairs_from(args, option, i + 1)
        }
    } else {
        Seq::empty()
    }
}

/// Each occurrence of `option` in `args`, with the argument that follows it.
pub open spec fn option_pairs(args: Seq<Seq<char>>, option: Seq<char>) -> Seq<Seq<char>> {
    option_pairs_from(args, option, 0)
}

/// Appends to `output` each occurrence of `option` in `args` together with
/// the value that follows it.
pub fn copy_option_with_value(args: &Vec<String>, option: &str, output: &mut Vec<String>)
    ensures
        views(final(output)@) == views(old(output)@) + option_pairs(views(args@), option@),
{
    let ghost a = views(args@);
    let ghost start = views(output@);
    let mut index: usize = 0;
    while index < args.len() && index + 1 < args.len()
        invariant
            a == views(args@),
            index <= args@.len(),
            views(output@) + option_pairs_from(a, option@, index as int) == start
                + option_pairs(a, option@),
        decreases args@.len() - index,
    {
        let ghost before = views(output@);
        if str_eq(args[index].as_str(), option) {
            output.push(owned(args[index].as_str()));
            output.push(owned(args[index + 1].as_str()));
            assert(views(output@) =~= before + seq![a[index as int], a[index + 1]]);
            index = index + 2;
        } else {
            index = index + 1;
        }
    }
    assert(option_pairs_from(a, option@, index as int) =~= Seq::<Seq<char>>::empty());
    assert(views(output@) =~= views(output@) + option_pairs_from(a, option@, index as int));
}

/// The `yt-dlp` arguments that download only the `srv3` subtitles of `link`
/// into `subtitle_dir`, keeping the user's cookies, compatibility options and
/// extractor arguments.
pub open spec fn subtitle_download_args_of(
    args: Seq<Seq<char>>,
    link: Seq<char>,
    subtitle_dir: Seq<char>,
) -> Seq<Seq<char>> {
    seq![
        "-v"@,
        "--write-subs"@,
        "--sub-langs"@,
        "all"@,
        "--sub-format"@,
        "srv3"@,
        "--skip-download"@,
        "--windows-filenames"@,
        "-P"@,
        subtitle_dir,
    ] + option_pairs(args, "--cookies"@) + option_pairs(args, "--compat-options"@) + option_pairs(
        args,
        "--extractor-args"@,
    ) + seq![trimmed(link)]
}

/// The arguments of the subtitle-only download that precedes the main one.
pub fn subtitle_download_args(args: &Vec<String>, link: &str, subtitle_dir: &str) -> (r: Vec<
    String,
>)
    ensures
        views(r@) == subtitle_download_args_of(views(args@), link@, subtitle_dir@),
{
    let mut subtitle_args = vec![
        owned("-v"),
        owned("--write-subs"),
        owned("--sub-langs"),
        owned("all"),
        owned("--sub-format"),
        owned("srv3"),
        owned("--skip-download"),
        owned("--windows-filenames"),
        owned("-P"),
        owned(subtitle_dir),
    ];
    copy_option_with_value(args, "--cookies", &mut subtitle_args);
    copy_option_with_value(args, "--compat-options", &mut subtitle_args);
    copy_option_with_value(args, "--extractor-args", &mut subtitle_args);
    let ghost before = views(subtitle_args@);
    subtitle_args.push(owned(trim(link)));
    assert(views(subtitle_args@) =~= before + seq![trimmed(link@)]);
    assert(views(subtitle_args@) =~= subtitle_download_args_of(
        views(args@),
        link@,
        subtitle_dir@,
    ));
    subtitle_args
}

/// The main download's arguments: the user's, followed by the instruction to
/// write the final path of each downloaded file to `downloaded_paths_file`.
pub fn main_download_args(args: Vec<String>, downloaded_paths_file: &str) -> (r: Vec<String>)
    ensures
        views(r@) == views(args@) + seq![
            "--print-to-file"@,
            "after_move:filepath"@,
            downloaded_paths_file@,
        ],
{
    let mut args = args;
    let ghost before = views(args@);
    args.push(owned("--print-to-file"));
    args.push(owned("after_move:filepath"));
    args.push(owned(downloaded_paths_file));
    assert(views(args@) =~= before + seq![
        "--print-to-file"@,
        "after_move:filepath"@,
        downloaded_paths_file@,
    ]);
    args
}

/// The `ffprobe` arguments that list, for each video stream of `media_path`,
/// whether it is an attached picture.
pub open spec fn attached_picture_probe_args_of(media_path: Seq<char>) -> Seq<Seq<char>> {
    seq![
        "-v"@,
        "error"@,
        "-select_streams"@,
        "v"@,
        "-show_entries"@,
        "stream_disposition=attached_pic"@,
        "-of"@,
        "csv=p=0"@,
        media_path,
    ]
}

/// The `ffprobe` arguments that list, for each video stream of `media_path`,
/// whether it is an attached picture.
pub fn attached_picture_probe_args(media_path: &str) -> (r: Vec<String>)
    ensures
        views(r@) == attached_picture_probe_args_of(media_path@),
{
    let r = vec![
        owned("-v"),
        owned("error"),
        owned("-select_streams"),
        owned("v"),
        owned("-show_entries"),
        owned("stream_disposition=attached_pic"),
        owned("-of"),
        owned("csv=p=0"),
        owned(media_path),
    ];
    assert(views(r@) =~= seq![
        "-v"@,
        "error"@,
        "-select_streams"@,
        "v"@,
        "-show_entries"@,
        "stream_disposition=attached_pic"@,
        "-of"@,
        "csv=p=0"@,
        media_path@,
    ]);
    r
}

/// The `ffprobe` arguments that list the index of each stream of the kind
/// `stream_selector` in `media_path`.
pub open spec fn stream_count_probe_args_of(media_path: Seq<char>, stream_selector: Seq<char>) -> Seq<
    Seq<char>,
> {
    seq![
        "-v"@,
        "error"@,
        "-select_streams"@,
        stream_selector,
        "-show_entries"@,
        "stream=index"@,
        "-of"@,
        "csv=p=0"@,
        media_path,
    ]
}

/// The `ffprobe` arguments that list the index of each stream of the kind
/// `stream_selector` (`s` for subtitles, `t` for attachments) in `media_path`.
pub fn stream_count_probe_args(media_path: &str, stream_selector: &str) -> (r: Vec<String>)
    ensures
        views(r@) == stream_count_probe_args_of(media_path@, stream_selector@),
{
    let r = vec![
        owned("-v"),
        owned("error"),
        owned("-select_streams"),
        owned(stream_selector),
        owned("-show_entries"),
        owned("stream=index"),
        owned("-of"),
        owned("csv=p=0"),
        owned(media_path),
    ];
    assert(views(r@) =~= seq![
        "-v"@,
        "error"@,
        "-select_streams"@,
        stream_selector@,
        "-show_entries"@,
        "stream=index"@,
        "-of"@,
        "csv=p=0"@,
        media_path@,
    ]);
    r
}

/// The `ffmpeg` arguments that copy the first frame of video stream
/// `video_index` of `media_path` into `output_picture`.
pub open spec fn thumbnail_extract_args_of(
    media_path: Seq<char>,
    video_index: usize,
    output_picture: Seq<char>,
) -> Seq<Seq<char>> {
    seq![
        "-y"@,
        "-i"@,
        media_path,
        "-map"@,
        "0:v:"@ + decimal_digits(video_index as nat),
        "-frames:v"@,
        "1"@,
        "-c"@,
        "copy"@,
        output_picture,
    ]
}

/// The `ffmpeg` arguments that copy the first frame of video stream
/// `video_index` of `media_path` into `output_picture`.
pub fn thumbnail_extract_args(media_path: &str, video_index: usize, output_picture: &str) -> (r: Vec<
    String,
>)
    ensures
        views(r@) == thumbnail_extract_args_of(media_path@, video_index, output_picture@),
{
    let index = decimal(video_index as u128);
    let r = vec![
        owned("-y"),
        owned("-i"),
        owned(media_path),
        owned("-map"),
        concat2("0:v:", index.as_str()),
        owned("-frames:v"),
        owned("1"),
        owned("-c"),
        owned("copy"),
        owned(output_picture),
    ];
    assert(views(r@) =~= seq![
        "-y"@,
        "-i"@,
        media_path@,
        "-map"@,
        "0:v:"@ + decimal_digits(video_index as nat),
        "-frames:v"@,
        "1"@,
        "-c"@,
        "copy"@,
        output_picture@,
    ]);
    r
}

/// The positions of the lines that read `1` (after trimming), in order.
pub open spec fn positions_of_one(lines: Seq<Seq<char>>) -> Seq<usize>
    decreases lines.len(),
{
    if lines.len() == 0 {
        Seq::empty()
    } else {
        positions_of_one(lines.drop_last()) + (if lines.last() == "1"@ {
            seq![(lines.len() - 1) as usize]
        } else {
            Seq::empty()
        })
    }
}

/// The positions found are in increasing order and each names a line that
/// reads `1` (for any list of lines that a machine word can count).
pub proof fn law_positions_of_one_are_increasing(lines: Seq<Seq<char>>)
    requires
        lines.len() <= usize::MAX,
    ensures
        forall|i: int|
            0 <= i < positions_of_one(lines).len() ==> #[trigger] positions_of_one(lines)[i]
                < lines.len(),
        forall|i: int, j: int|
            0 <= i < j < positions_of_one(lines).len() ==> positions_of_one(lines)[i]
                < positions_of_one(lines)[j],
        forall|i: int|
            0 <= i < positions_of_one(lines).len() ==> lines[
                #[trigger] positions_of_one(lines)[i] as int
            ] == "1"@,
    decreases lines.len(),
{
    if lines.len() > 0 {
        let rest = lines.drop_last();
        law_positions_of_one_are_increasing(rest);
        let prev = positions_of_one(rest);
        let all = positions_of_one(lines);
        let extra: Seq<usize> = if lines.last() == "1"@ {
            seq![(lines.len() - 1) as usize]
        } else {
            Seq::empty()
        };
        assert(all == prev + extra);
        assert forall|i: int| 0 <= i < all.len() implies #[trigger] all[i] < lines.len() && lines[
            all[i] as int
        ] == "1"@ by {
            if i < prev.len() {
                assert(all[i] == prev[i]);
                assert(prev[i] < rest.len());
                assert(rest[prev[i] as int] == lines[prev[i] as int]);
            } else {
                assert(all[i] == extra[i - prev.len()]);
            }
        }
        assert forall|i: int, j: int| 0 <= i < j < all.len() implies all[i] < all[j] by {
            if j < prev.len() {
                assert(all[i] == prev[i] && all[j] == prev[j]);
            } else {
                assert(all[i] == prev[i]);
                assert(prev[i] < rest.len());
            }
        }
    }
}

/// From `ffprobe`'s list of attached-picture flags, one line per video stream,
/// the indices of the video streams that are attached pictures.
pub fn parse_attached_picture_video_indices(output: &str) -> (r: Vec<usize>)
    ensures
        r@ == positions_of_one(trimmed_lines_of(output@)),
{
    let lines = trimmed_lines(output);
    let ghost l = views(lines@);
    let mut r: Vec<usize> = Vec::new();
    let mut i: usize = 0;
    assert(l.take(0) =~= Seq::<Seq<char>>::empty());
    while i < lines.len()
        invariant
            l == views(lines@),
            i <= lines@.len(),
            r@ == positions_of_one(l.take(i as int)),
        decreases lines@.len() - i,
    {
        assert(l.take(i + 1).drop_last() =~= l.take(i as int));
        assert(l.take(i + 1).last() == lines@[i as int]@);
        if str_eq(lines[i].as_str(), "1") {
            r.push(i);
        }
        assert(r@ =~= positions_of_one(l.take(i + 1)));
        i = i + 1;
    }
    assert(l.take(lines@.len() as int) =~= l);
    r
}

/// How many of the lines are not blank.
pub open spec fn nonblank_count(lines: Seq<Seq<char>>) -> nat
    decreases lines.len(),
{
    if lines.len() == 0 {
        0
    } else {
        nonblank_count(lines.drop_last()) + (if lines.last().len() > 0 {
            1nat
        } else {
            0nat
        })
    }
}

/// The number of lines of `output` that are not blank: the number of streams
/// `ffprobe` listed.
pub fn count_nonblank_lines(output: &str) -> (r: usize)
    ensures
        r == nonblank_count(trimmed_lines_of(output@)),
{
    let lines = trimmed_lines(output);
    let ghost l = views(lines@);
    let mut count: usize = 0;
    let mut i: usize = 0;
    assert(l.take(0) =~= Seq::<Seq<char>>::empty());
    while i < lines.len()
        invariant
            l == views(lines@),
            i <= lines@.len(),
            count == nonblank_count(l.take(i as int)),
            count <= i,
        decreases lines@.len() - i,
    {
        assert(l.take(i + 1).drop_last() =~= l.take(i as int));
        assert(l.take(i + 1).last() == lines@[i as int]@);
        if !lines[i].as_str().is_empty() {
            count = count + 1;
        }
        i = i + 1;
    }
    assert(l.take(lines@.len() as int) =~= l);
    count
}

/// The name and the language of a subtitle file, from its file stem
/// `<name>.<language>`: split at the last dot. `None` when there is no dot.
pub fn subtitle_name_and_language(file_stem: &str) -> (r: Option<(String, String)>)
    ensures
        match r {
            Some((name, language)) => {
                &&& file_stem@ == name@ + seq!['.'] + language@
                &&& !language@.contains('.')
            },
            None => !file_stem@.contains('.'),
        },
{
    let n = file_stem.unicode_len();
    let mut i: usize = n;
    while i > 0
        invariant
            n == file_stem@.len(),
            i <= n,
            forall|j: int| i <= j < n ==> file_stem@[j] != '.',
        decreases i,
    {
        if file_stem.get_char(i - 1) == '.' {
            let name = file_stem.substring_char(0, i - 1);
            let language = file_stem.substring_char(i, n);
            assert(file_stem@ =~= name@ + seq!['.'] + language@);
            assert(!language@.contains('.')) by {
                assert forall|k: int| 0 <= k < language@.len() implies language@[k] != '.' by {
                    assert(language@[k] == file_stem@[i + k]);
                }
            }
            return Some((owned(name), owned(language)));
        }
        i = i - 1;
    }
    None
}

/// How one downloaded `srv3` file is converted: the file name of the `ass`
/// file to write beside it, the language of the subtitles, and the log line
/// to show on standard error.
#[derive(Clone, Debug)]
pub struct ConversionJob {
    pub ass_file_name: String,
    pub language: String,
    pub log: String,
}

/// The conversion of the `srv3` file with this file stem and file name: the
/// stem is `<name>.<language>`, and the `ass` file is `<name>.<language>.ass`.
/// `None` (the file is skipped) when the stem has no dot.
pub fn conversion_job(srv3_file_stem: &str, srv3_file_name: &str) -> (r: Option<ConversionJob>)
    ensures
        r is None <==> !srv3_file_stem@.contains('.'),
        r matches Some(job) ==> {
            &&& exists|name: Seq<char>| srv3_file_stem@ == name + seq!['.'] + job.language@
            &&& !job.language@.contains('.')
            &&& job.ass_file_name@ == srv3_file_stem@ + ".ass"@
            &&& job.log@ == "[quiver] Converting "@ + srv3_file_name@ + " to "@ + srv3_file_stem@
                + ".ass"@ + ".\n"@
        },
{
    match subtitle_name_and_language(srv3_file_stem) {
        None => None,
        Some((name, language)) => {
            let ass_file_name = ass_file_name(name.as_str(), language.as_str());
            proof {
                reveal_strlit(".");
                assert(ass_file_name@ =~= srv3_file_stem@ + ".ass"@);
                assert(srv3_file_stem@[name@.len() as int] == '.');
                assert(srv3_file_stem@ == name@ + seq!['.'] + language@);
            }
            let mut message = concat3("[quiver] Converting ", srv3_file_name, " to ");
            message.append(ass_file_name.as_str());
            message.append(".\n");
            Some(ConversionJob { ass_file_name, language, log: message })
        },
    }
}

/// The file name of the converted subtitle: `<name>.<language>.ass`.
pub fn ass_file_name(name: &str, language: &str) -> (r: String)
    ensures
        r@ == name@ + "."@ + language@ + ".ass"@,
{
    let mut r = concat3(name, ".", language);
    r.append(".ass");
    r
}

/// The name the media file is renamed to while it is remuxed: the first try
/// adds `.quiver-temp`, each later try `.quiver-temp-<n>`.
pub open spec fn temp_media_name_of(file_name: Seq<char>, attempt: nat) -> Seq<char> {
    if attempt == 0 {
        file_name + ".quiver-temp"@
    } else {
        file_name + ".quiver-temp-"@ + decimal_digits(attempt)
    }
}

/// The name the media file is renamed to while it is remuxed: the first try
/// adds `.quiver-temp`, each later try `.quiver-temp-<n>`.
pub fn temp_media_name(file_name: &str, attempt: usize) -> (r: String)
    ensures
        r@ == temp_media_name_of(file_name@, attempt as nat),
{
    if attempt == 0 {
        concat2(file_name, ".quiver-temp")
    } else {
        let n = decimal(attempt as u128);
        concat3(file_name, ".quiver-temp-", n.as_str())
    }
}

/// Distinct numbers have distinct decimal notations.
pub proof fn lemma_decimal_digits_injective(a: nat, b: nat)
    requires
        decimal_digits(a) == decimal_digits(b),
    ensures
        a == b,
    decreases a,
{
    lemma_decimal_digits_len(a);
    lemma_decimal_digits_len(b);
    if a >= 10 && b >= 10 {
        assert(decimal_digits(a).drop_last() =~= decimal_digits(a / 10));
        assert(decimal_digits(b).drop_last() =~= decimal_digits(b / 10));
        lemma_decimal_digits_injective(a / 10, b / 10);
        assert(decimal_digits(a).last() == digit_char((a % 10) as int));
        assert(decimal_digits(b).last() == digit_char((b % 10) as int));
        lemma_digit_char_injective((a % 10) as int, (b % 10) as int);
        assert(a == 10 * (a / 10) + a % 10);
        assert(b == 10 * (b / 10) + b % 10);
    } else if a < 10 && b < 10 {
        assert(decimal_digits(a) == seq![digit_char(a as int)]);
        assert(decimal_digits(b) == seq![digit_char(b as int)]);
        assert(decimal_digits(a)[0] == digit_char(a as int));
        assert(decimal_digits(b)[0] == digit_char(b as int));
        lemma_digit_char_injective(a as int, b as int);
    }
}

/// Distinct digits have distinct characters.
pub proof fn lemma_digit_char_injective(x: int, y: int)
    requires
        0 <= x < 10,
        0 <= y < 10,
        digit_char(x) == digit_char(y),
    ensures
        x == y,
{
}

/// A number below ten has one digit; any other has more.
pub proof fn lemma_decimal_digits_len(n: nat)
    ensures
        n < 10 ==> decimal_digits(n).len() == 1,
        n >= 10 ==> decimal_digits(n).len() >= 2,
    decreases n,
{
    if n >= 10 {
        lemma_decimal_digits_len(n / 10);
    }
}

/// The names tried for moving a file aside are all different, so trying them
/// in turn finds a free one.
pub proof fn law_temp_media_names_differ(file_name: Seq<char>, a: nat, b: nat)
    requires
        a != b,
    ensures
        temp_media_name_of(file_name, a) != temp_media_name_of(file_name, b),
{
    reveal_strlit(".quiver-temp");
    reveal_strlit(".quiver-temp-");
    lemma_decimal_digits_len(a);
    lemma_decimal_digits_len(b);
    let prefix = file_name + ".quiver-temp-"@;
    assert(temp_media_name_of(file_name, 0).len() == file_name.len() + 12);
    if a > 0 {
        assert(temp_media_name_of(file_name, a).len() == file_name.len() + 13 + decimal_digits(a).len());
    }
    if b > 0 {
        assert(temp_media_name_of(file_name, b).len() == file_name.len() + 13 + decimal_digits(b).len());
    }
    if a > 0 && b > 0 && temp_media_name_of(file_name, a) == temp_media_name_of(file_name, b) {
        assert(temp_media_name_of(file_name, a).skip(prefix.len() as int) =~= decimal_digits(a));
        assert(temp_media_name_of(file_name, b).skip(prefix.len() as int) =~= decimal_digits(b));
        lemma_decimal_digits_injective(a, b);
    }
}

/// Where the cover picture of a video stream is kept during the remux.
pub open spec fn attached_picture_path_of(temp_media_path: Seq<char>, video_index: usize) -> Seq<char> {
    temp_media_path + ".cover-"@ + decimal_digits(video_index as nat) + ".png"@
}

/// Where the cover picture of a video stream is kept during the remux:
/// `<temp media path>.cover-<index>.png`.
pub fn attached_picture_path(temp_media_path: &str, video_index: usize) -> (r: String)
    ensures
        r@ == attached_picture_path_of(temp_media_path@, video_index),
{
    let n = decimal(video_index as u128);
    let mut r = concat3(temp_media_path, ".cover-", n.as_str());
    r.append(".png");
    r
}

/// The main download's output with the subtitle download's output in front
/// of it on each stream, and `extra_stderr` after.
pub fn with_pipeline_output(
    main_output: YtDlpCommandOutput,
    subtitle_output: &YtDlpCommandOutput,
    extra_stderr: &str,
) -> (r: YtDlpCommandOutput)
    ensures
        r.exit_code == main_output.exit_code,
        r.success == main_output.success,
        r.stdout@ == subtitle_output.stdout@ + main_output.stdout@,
        r.stderr@ == subtitle_output.stderr@ + main_output.stderr@ + extra_stderr@,
{
    let mut main_output = main_output;
    main_output.stdout = concat2(subtitle_output.stdout.as_str(), main_output.stdout.as_str());
    main_output.stderr = concat3(
        subtitle_output.stderr.as_str(),
        main_output.stderr.as_str(),
        extra_stderr,
    );
    main_output
}

/// The character views of output pieces.
pub open spec fn chunk_views(v: Seq<(YtDlpOutputStream, String)>) -> Seq<
    (YtDlpOutputStream, Seq<char>),
> {
    v.map_values(|c: (YtDlpOutputStream, String)| (c.0, c.1@))
}

/// A log line of the pipeline, shown on standard error.
pub open spec fn log_chunk(message: Seq<char>) -> (YtDlpOutputStream, Seq<char>) {
    (YtDlpOutputStream::Stderr, "[quiver] "@ + message)
}

/// The output of a finished run as it is shown: standard output, then standard
/// error, each only when not empty.
pub open spec fn output_chunks_of(output: YtDlpCommandOutput) -> Seq<(YtDlpOutputStream, Seq<char>)> {
    (if output.stdout@.len() > 0 {
        seq![(YtDlpOutputStream::Stdout, output.stdout@)]
    } else {
        Seq::empty()
    }) + (if output.stderr@.len() > 0 {
        seq![(YtDlpOutputStream::Stderr, output.stderr@)]
    } else {
        Seq::empty()
    })
}

/// The pieces of a finished run to show the user: its standard output, then
/// its standard error, each only when it is not empty.
pub fn command_output_chunks(output: &YtDlpCommandOutput) -> (r: Vec<(YtDlpOutputStream, String)>)
    ensures
        chunk_views(r@) == output_chunks_of(*output),
{
    let mut r: Vec<(YtDlpOutputStream, String)> = Vec::new();
    if !output.stdout.as_str().is_empty() {
        r.push((YtDlpOutputStream::Stdout, owned(output.stdout.as_str())));
    }
    if !output.stderr.as_str().is_empty() {
        r.push((YtDlpOutputStream::Stderr, owned(output.stderr.as_str())));
    }
    assert(chunk_views(r@) =~= output_chunks_of(*output));
    r
}

/// A log line of the pipeline: the message behind the `[quiver] ` tag.
pub fn pipeline_log_line(message: &str) -> (r: String)
    ensures
        r@ == "[quiver] "@ + message@,
{
    concat2("[quiver] ", message)
}

/// The character code of `c` with ASCII capitals made small.
pub open spec fn ascii_lower_code(c: char) -> u32 {
    let u = c as u32;
    if 65 <= u <= 90 {
        (u + 32) as u32
    } else {
        u
    }
}

/// `a` and `b` are equal when ASCII letters are compared without case.
pub open spec fn eq_ignore_ascii_case(a: Seq<char>, b: Seq<char>) -> bool {
    &&& a.len() == b.len()
    &&& forall|i: int| 0 <= i < a.len() ==> ascii_lower_code(#[trigger] a[i]) == ascii_lower_code(
        b[i],
    )
}

fn lower_code(c: char) -> (r: u32)
    ensures
        r == ascii_lower_code(c),
{
    let u = c as u32;
    if 65 <= u && u <= 90 {
        u + 32
    } else {
        u
    }
}

/// `str::eq_ignore_ascii_case`: whether the file extension `path_extension`
/// is `extension`, ignoring the case of ASCII letters.
pub fn extension_matches(path_extension: &str, extension: &str) -> (r: bool)
    ensures
        r == eq_ignore_ascii_case(path_extension@, extension@),
{
    let n = path_extension.unicode_len();
    if n != extension.unicode_len() {
        return false;
    }
    let mut i: usize = 0;
    while i < n
        invariant
            n == path_extension@.len(),
            n == extension@.len(),
            i <= n,
            forall|j: int|
                0 <= j < i ==> ascii_lower_code(#[trigger] path_extension@[j]) == ascii_lower_code(
                    extension@[j],
                ),
        decreases n - i,
    {
        if lower_code(path_extension.get_char(i)) != lower_code(extension.get_char(i)) {
            return false;
        }
        i = i + 1;
    }
    true
}


/// `-i <path>` for each subtitle file, in order.
pub open spec fn subtitle_input_args(subtitles: Seq<SubtitleTrack>) -> Seq<Seq<char>>
    decreases subtitles.len(),
{
    if subtitles.len() == 0 {
        Seq::empty()
    } else {
        subtitle_input_args(subtitles.drop_last()) + seq!["-i"@, subtitles.last().path@]
    }
}

/// `-map -0:v:<index>` for each cover picture: the picture streams are left
/// out of the remuxed file and attached again as files.
pub open spec fn picture_map_args(pictures: Seq<AttachedPicture>) -> Seq<Seq<char>>
    decreases pictures.len(),
{
    if pictures.len() == 0 {
        Seq::empty()
    } else {
        picture_map_args(pictures.drop_last()) + seq![
            "-map"@,
            "-0:v:"@ + decimal_digits(pictures.last().video_index as nat),
        ]
    }
}

/// `-map <k>` for the inputs `1` to `count`: the subtitle files.
pub open spec fn subtitle_map_args(count: nat) -> Seq<Seq<char>>
    decreases count,
{
    if count == 0 {
        Seq::empty()
    } else {
        subtitle_map_args((count - 1) as nat) + seq!["-map"@, decimal_digits(count)]
    }
}

/// For each cover picture, the file to attach and its metadata, numbered from
/// `first_index` on among the attachment streams.
pub open spec fn attachment_args(pictures: Seq<AttachedPicture>, first_index: nat) -> Seq<
    Seq<char>,
>
    decreases pictures.len(),
{
    if pictures.len() == 0 {
        Seq::empty()
    } else {
        let tag = "-metadata:s:t:"@ + decimal_digits((first_index + pictures.len() - 1) as nat);
        attachment_args(pictures.drop_last(), first_index) + seq![
            "-attach"@,
            pictures.last().path@,
            tag,
            "mimetype=image/png"@,
            tag,
            "filename=cover.png"@,
        ]
    }
}

/// For each subtitle file, its language as the language, title and handler
/// name of the subtitle stream, numbered from `first_index` on among the
/// subtitle streams.
pub open spec fn subtitle_metadata_args(subtitles: Seq<SubtitleTrack>, first_index: nat) -> Seq<
    Seq<char>,
>
    decreases subtitles.len(),
{
    if subtitles.len() == 0 {
        Seq::empty()
    } else {
        let tag = "-metadata:s:s:"@ + decimal_digits((first_index + subtitles.len() - 1) as nat);
        let language = subtitles.last().language@;
        subtitle_metadata_args(subtitles.drop_last(), first_index) + seq![
            tag,
            "language="@ + language,
            tag,
            "title="@ + language,
            tag,
            "handler_name="@ + language,
        ]
    }
}

/// The `ffmpeg` arguments that copy every stream of `input_media` into
/// `output_media` with the subtitle files added as new subtitle streams, the
/// cover pictures re-attached, and metadata and chapters kept.
pub open spec fn ffmpeg_remux_args_of(
    input_media: Seq<char>,
    output_media: Seq<char>,
    subtitles: Seq<SubtitleTrack>,
    existing_subtitle_count: nat,
    existing_attachment_count: nat,
    attached_pictures: Seq<AttachedPicture>,
) -> Seq<Seq<char>> {
    seq!["-y"@, "-i"@, input_media] + subtitle_input_args(subtitles) + seq![
        "-map"@,
        "0"@,
        "-map_metadata"@,
        "0"@,
        "-map_chapters"@,
        "0"@,
    ] + picture_map_args(attached_pictures) + subtitle_map_args(subtitles.len()) + seq![
        "-c"@,
        "copy"@,
        "-max_interleave_delta"@,
        "0"@,
    ] + attachment_args(attached_pictures, existing_attachment_count) + subtitle_metadata_args(
        subtitles,
        existing_subtitle_count,
    ) + seq![output_media]
}

/// Appends `more` to `args`.
fn extend_args(args: &mut Vec<String>, more: Vec<String>)
    ensures
        views(final(args)@) == views(old(args)@) + views(more@),
{
    let mut more = more;
    let ghost a = views(old(args)@);
    let ghost m = views(more@);
    args.append(&mut more);
    assert(views(args@) =~= a + m);
}

fn push_subtitle_inputs(args: &mut Vec<String>, subtitles: &Vec<SubtitleTrack>)
    ensures
        views(final(args)@) == views(old(args)@) + subtitle_input_args(subtitles@),
{
    let ghost start = views(args@);
    let mut i: usize = 0;
    assert(subtitles@.take(0) =~= Seq::<SubtitleTrack>::empty());
    assert(start =~= start + subtitle_input_args(Seq::empty()));
    while i < subtitles.len()
        invariant
            i <= subtitles@.len(),
            views(args@) == start + subtitle_input_args(subtitles@.take(i as int)),
        decreases subtitles@.len() - i,
    {
        assert(subtitles@.take(i + 1).drop_last() =~= subtitles@.take(i as int));
        let ghost before = views(args@);
        args.push(owned("-i"));
        args.push(owned(subtitles[i].path.as_str()));
        assert(views(args@) =~= before + seq!["-i"@, subtitles@[i as int].path@]);
        i = i + 1;
    }
    assert(subtitles@.take(subtitles@.len() as int) =~= subtitles@);
}

fn push_picture_maps(args: &mut Vec<String>, pictures: &Vec<AttachedPicture>)
    ensures
        views(final(args)@) == views(old(args)@) + picture_map_args(pictures@),
{
    let ghost start = views(args@);
    let mut i: usize = 0;
    assert(pictures@.take(0) =~= Seq::<AttachedPicture>::empty());
    assert(start =~= start + picture_map_args(Seq::empty()));
    while i < pictures.len()
        invariant
            i <= pictures@.len(),
            views(args@) == start + picture_map_args(pictures@.take(i as int)),
        decreases pictures@.len() - i,
    {
        assert(pictures@.take(i + 1).drop_last() =~= pictures@.take(i as int));
        let ghost before = views(args@);
        let index = decimal(pictures[i].video_index as u128);
        args.push(owned("-map"));
        args.push(concat2("-0:v:", index.as_str()));
        assert(views(args@) =~= before + seq![
            "-map"@,
            "-0:v:"@ + decimal_digits(pictures@[i as int].video_index as nat),
        ]);
        i = i + 1;
    }
    assert(pictures@.take(pictures@.len() as int) =~= pictures@);
}

fn push_subtitle_maps(args: &mut Vec<String>, count: usize)
    ensures
        views(final(args)@) == views(old(args)@) + subtitle_map_args(count as nat),
{
    let ghost start = views(args@);
    let mut i: usize = 0;
    assert(start =~= start + subtitle_map_args(0));
    while i < count
        invariant
            i <= count,
            views(args@) == start + subtitle_map_args(i as nat),
        decreases count - i,
    {
        let ghost before = views(args@);
        let index = decimal(i as u128 + 1);
        args.push(owned("-map"));
        args.push(index);
        assert(views(args@) =~= before + seq!["-map"@, decimal_digits((i + 1) as nat)]);
        i = i + 1;
    }
}

fn push_attachments(args: &mut Vec<String>, pictures: &Vec<AttachedPicture>, first_index: usize)
    ensures
        views(final(args)@) == views(old(args)@) + attachment_args(pictures@, first_index as nat),
{
    let ghost start = views(args@);
    let mut i: usize = 0;
    assert(pictures@.take(0) =~= Seq::<AttachedPicture>::empty());
    assert(start =~= start + attachment_args(Seq::empty(), first_index as nat));
    while i < pictures.len()
        invariant
            i <= pictures@.len(),
            views(args@) == start + attachment_args(pictures@.take(i as int), first_index as nat),
        decreases pictures@.len() - i,
    {
        assert(pictures@.take(i + 1).drop_last() =~= pictures@.take(i as int));
        let ghost before = views(args@);
        let index = decimal(first_index as u128 + i as u128);
        args.push(owned("-attach"));
        args.push(owned(pictures[i].path.as_str()));
        args.push(concat2("-metadata:s:t:", index.as_str()));
        args.push(owned("mimetype=image/png"));
        args.push(concat2("-metadata:s:t:", index.as_str()));
        args.push(owned("filename=cover.png"));
        let ghost tag = "-metadata:s:t:"@ + decimal_digits((first_index + i) as nat);
        assert(views(args@) =~= before + seq![
            "-attach"@,
            pictures@[i as int].path@,
            tag,
            "mimetype=image/png"@,
            tag,
            "filename=cover.png"@,
        ]);
        i = i + 1;
    }
    assert(pictures@.take(pictures@.len() as int) =~= pictures@);
}

fn push_subtitle_metadata(args: &mut Vec<String>, subtitles: &Vec<SubtitleTrack>, first_index: usize)
    ensures
        views(final(args)@) == views(old(args)@) + subtitle_metadata_args(
            subtitles@,
            first_index as nat,
        ),
{
    let ghost start = views(args@);
    let mut i: usize = 0;
    assert(subtitles@.take(0) =~= Seq::<SubtitleTrack>::empty());
    assert(start =~= start + subtitle_metadata_args(Seq::empty(), first_index as nat));
    while i < subtitles.len()
        invariant
            i <= subtitles@.len(),
            views(args@) == start + subtitle_metadata_args(
                subtitles@.take(i as int),
                first_index as nat,
            ),
        decreases subtitles@.len() - i,
    {
        assert(subtitles@.take(i + 1).drop_last() =~= subtitles@.take(i as int));
        let ghost before = views(args@);
        let index = decimal(first_index as u128 + i as u128);
        let language = subtitles[i].language.as_str();
        args.push(concat2("-metadata:s:s:", index.as_str()));
        args.push(concat2("language=", language));
        args.push(concat2("-metadata:s:s:", index.as_str()));
        args.push(concat2("title=", language));
        args.push(concat2("-metadata:s:s:", index.as_str()));
        args.push(concat2("handler_name=", language));
        let ghost tag = "-metadata:s:s:"@ + decimal_digits((first_index + i) as nat);
        assert(views(args@) =~= before + seq![
            tag,
            "language="@ + language@,
            tag,
            "title="@ + language@,
            tag,
            "handler_name="@ + language@,
        ]);
        i = i + 1;
    }
    assert(subtitles@.take(subtitles@.len() as int) =~= subtitles@);
}

/// The `ffmpeg` arguments of the remux that adds the converted subtitles to a
/// downloaded file. The counts of the subtitle and attachment streams the file
/// already has number the new streams' metadata.
pub fn ffmpeg_remux_args(
    input_media: &str,
    output_media: &str,
    subtitles: &Vec<SubtitleTrack>,
    existing_subtitle_count: usize,
    existing_attachment_count: usize,
    attached_pictures: &Vec<AttachedPicture>,
) -> (r: Vec<String>)
    ensures
        views(r@) == ffmpeg_remux_args_of(
            input_media@,
            output_media@,
            subtitles@,
            existing_subtitle_count as nat,
            existing_attachment_count as nat,
            attached_pictures@,
        ),
{
    let mut args = vec![owned("-y"), owned("-i"), owned(input_media)];
    push_subtitle_inputs(&mut args, subtitles);
    extend_args(
        &mut args,
        vec![
            owned("-map"),
            owned("0"),
            owned("-map_metadata"),
            owned("0"),
            owned("-map_chapters"),
            owned("0"),
        ],
    );
    push_picture_maps(&mut args, attached_pictures);
    push_subtitle_maps(&mut args, subtitles.len());
    extend_args(
        &mut args,
        vec![owned("-c"), owned("copy"), owned("-max_interleave_delta"), owned("0")],
    );
    push_attachments(&mut args, attached_pictures, existing_attachment_count);
    push_subtitle_metadata(&mut args, subtitles, existing_subtitle_count);
    let ghost before = views(args@);
    args.push(owned(output_media));
    assert(views(args@) =~= before + seq![output_media@]);
    assert(views(args@) =~= ffmpeg_remux_args_of(
        input_media@,
        output_media@,
        subtitles@,
        existing_subtitle_count as nat,
        existing_attachment_count as nat,
        attached_pictures@,
    ));
    args
}

} // verus!
