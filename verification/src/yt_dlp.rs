//! The `yt-dlp` runner: which binary runs, the arguments that are put in front
//! of the user's, and how the output of a run is collected.

use vstd::prelude::*;
use crate::text::{concat2, ends_with, join, join_with, opt_view, owned, starts_with, str_eq, views};

verus! {

/// The outcome of one run of an external program.
#[derive(Clone, Debug)]
pub struct YtDlpCommandOutput {
    pub exit_code: Option<i32>,
    pub success: bool,
    pub stdout: String,
    pub stderr: String,
}

/// The stream a piece of output came from.
#[derive(Clone, Copy, Debug, PartialEq, Eq, Structural)]
pub enum YtDlpOutputStream {
    Stdout,
    Stderr,
}

/// Why `yt-dlp` could not be run: the binary is missing (with the paths that
/// were searched), or the process could not be started.
#[derive(Clone, Debug)]
pub enum YtDlpError {
    MissingBinary(Vec<String>),
    SpawnFailed(String),
}

/// The message of an error, as the user sees it.
pub open spec fn error_message(e: YtDlpError) -> Seq<char> {
    match e {
        YtDlpError::MissingBinary(paths) => "yt-dlp binary not found; searched "@ + join_with(
            views(paths@),
            ", "@,
        ),
        YtDlpError::SpawnFailed(error) => "failed to run yt-dlp: "@ + error@,
    }
}

impl YtDlpError {
    /// The message of the error, as the user sees it.
    pub fn message(&self) -> (r: String)
        ensures
            r@ == error_message(*self),
    {
        match self {
            YtDlpError::MissingBinary(paths) => {
                let searched = join(paths, ", ");
                concat2("yt-dlp binary not found; searched ", searched.as_str())
            },
            YtDlpError::SpawnFailed(error) => concat2("failed to run yt-dlp: ", error.as_str()),
        }
    }
}

/// Which `yt-dlp` runs: a binary named by the user, or the bundled one.
#[derive(Clone, Debug)]
pub enum YtDlpCommand {
    Override(String),
    Sidecar,
}

/// A configured `yt-dlp`: the binary, and the plugin directories it is given.
#[derive(Clone, Debug)]
pub struct YtDlpRunner {
    pub command: YtDlpCommand,
    pub plugin_dirs: Vec<String>,
}

/// Whether `args` holds `option`, alone or as `option=value`.
pub open spec fn has_option(args: Seq<Seq<char>>, option: Seq<char>) -> bool {
    exists|i: int|
        0 <= i < args.len() && (args[i] == option || (option + "="@).is_prefix_of(
            #[trigger] args[i],
        ))
}

/// `--plugin-dirs <dir>` for each directory, in order.
pub open spec fn plugin_dir_args(dirs: Seq<Seq<char>>) -> Seq<Seq<char>>
    decreases dirs.len(),
{
    if dirs.len() == 0 {
        Seq::empty()
    } else {
        plugin_dir_args(dirs.drop_last()) + seq!["--plugin-dirs"@, dirs.last()]
    }
}

/// The full argument list handed to `yt-dlp`: the bundled JavaScript runtime
/// and `ffmpeg` unless the user's arguments already choose them, the plugin
/// directories, then the user's arguments.
pub open spec fn runner_args_of(
    args: Seq<Seq<char>>,
    deno_path: Option<Seq<char>>,
    ffmpeg_location: Option<Seq<char>>,
    plugin_dirs: Seq<Seq<char>>,
) -> Seq<Seq<char>> {
    (match deno_path {
        Some(path) => if has_option(args, "--js-runtimes"@) {
            Seq::empty()
        } else {
            seq!["--js-runtimes"@, "deno:"@ + path]
        },
        None => Seq::empty(),
    }) + (match ffmpeg_location {
        Some(location) => if has_option(args, "--ffmpeg-location"@) {
            Seq::empty()
        } else {
            seq!["--ffmpeg-location"@, location]
        },
        None => Seq::empty(),
    }) + plugin_dir_args(plugin_dirs) + args
}

/// The user's arguments reach `yt-dlp` unchanged, after everything the runner
/// adds; the bundled JavaScript runtime and `ffmpeg` are only added when the
/// user's arguments do not choose them.
pub proof fn law_runner_keeps_user_args(
    args: Seq<Seq<char>>,
    deno_path: Option<Seq<char>>,
    ffmpeg_location: Option<Seq<char>>,
    plugin_dirs: Seq<Seq<char>>,
)
    ensures
        args.is_suffix_of(runner_args_of(args, deno_path, ffmpeg_location, plugin_dirs)),
        has_option(args, "--js-runtimes"@) && has_option(args, "--ffmpeg-location"@) ==> runner_args_of(
            args,
            deno_path,
            ffmpeg_location,
            plugin_dirs,
        ) == plugin_dir_args(plugin_dirs) + args,
{
    let all = runner_args_of(args, deno_path, ffmpeg_location, plugin_dirs);
    let front = all.len() - args.len();
    assert(all.skip(front) =~= args);
    if has_option(args, "--js-runtimes"@) && has_option(args, "--ffmpeg-location"@) {
        assert(all =~= plugin_dir_args(plugin_dirs) + args);
    }
}

/// Each plugin directory is given as `--plugin-dirs <dir>`, in order.
proof fn lemma_plugin_dir_args(dirs: Seq<Seq<char>>)
    ensures
        plugin_dir_args(dirs).len() == 2 * dirs.len(),
        forall|i: int| 0 <= i < dirs.len() ==> #[trigger] plugin_dir_args(dirs)[2 * i + 1] == dirs[i],
        forall|i: int| 0 <= i < dirs.len() ==> #[trigger] plugin_dir_args(dirs)[2 * i] == "--plugin-dirs"@,
    decreases dirs.len(),
{
    reveal_strlit("--plugin-dirs");
    if dirs.len() > 0 {
        let rest = dirs.drop_last();
        lemma_plugin_dir_args(rest);
        let pr = plugin_dir_args(rest);
        let all = plugin_dir_args(dirs);
        assert(all == pr + seq!["--plugin-dirs"@, dirs.last()]);
        assert forall|i: int| 0 <= i < dirs.len() implies #[trigger] all[2 * i] == "--plugin-dirs"@
            && all[2 * i + 1] == dirs[i] by {
            if i < rest.len() {
                assert(rest[i] == dirs[i]);
                assert(pr[2 * i] =~= "--plugin-dirs"@);
                assert(pr[2 * i + 1] == rest[i]);
                assert(all[2 * i] == pr[2 * i]);
                assert(all[2 * i + 1] == pr[2 * i + 1]);
            } else {
                assert(all[2 * i] =~= "--plugin-dirs"@);
                assert(all[2 * i + 1] == dirs.last());
            }
        }
    }
}

/// What the runner puts in front of the user's arguments, over all inputs: the
/// bundled JavaScript runtime as `--js-runtimes deno:<path>` first, whenever a
/// bundled Deno is known and the user chose no runtime, whatever is known of
/// `ffmpeg`; then `--ffmpeg-location <location>` whenever a bundled `ffmpeg`
/// location is known and the user chose none; then `--plugin-dirs <dir>` for
/// each plugin directory in order; nothing else.
pub proof fn law_runner_adds_bundled_tools(
    args: Seq<Seq<char>>,
    deno_path: Option<Seq<char>>,
    ffmpeg_location: Option<Seq<char>>,
    plugin_dirs: Seq<Seq<char>>,
)
    ensures
        ({
            let all = runner_args_of(args, deno_path, ffmpeg_location, plugin_dirs);
            let deno_added = deno_path is Some && !has_option(args, "--js-runtimes"@);
            let ffmpeg_added = ffmpeg_location is Some && !has_option(args, "--ffmpeg-location"@);
            let d: int = if deno_added { 2 } else { 0 };
            let f: int = if ffmpeg_added { 2 } else { 0 };
            &&& all.len() == d + f + 2 * plugin_dirs.len() + args.len()
            &&& deno_added ==> all[0] == "--js-runtimes"@ && all[1] == "deno:"@ + deno_path->0
            &&& ffmpeg_added ==> all[d] == "--ffmpeg-location"@ && all[d + 1]
                == ffmpeg_location->0
            &&& forall|i: int|
                0 <= i < plugin_dirs.len() ==> all[d + f + 2 * i] == "--plugin-dirs"@
                    && all[d + f + 2 * i + 1] == #[trigger] plugin_dirs[i]
            &&& forall|j: int| 0 <= j < args.len() ==> #[trigger] all[d + f + 2 * plugin_dirs.len() + j] == args[j]
        }),
{
    let all = runner_args_of(args, deno_path, ffmpeg_location, plugin_dirs);
    let deno_added = deno_path is Some && !has_option(args, "--js-runtimes"@);
    let ffmpeg_added = ffmpeg_location is Some && !has_option(args, "--ffmpeg-location"@);
    let d: int = if deno_added { 2 } else { 0 };
    let f: int = if ffmpeg_added { 2 } else { 0 };
    let dp: Seq<Seq<char>> = if deno_added {
        seq!["--js-runtimes"@, "deno:"@ + deno_path->0]
    } else {
        Seq::empty()
    };
    let fp: Seq<Seq<char>> = if ffmpeg_added {
        seq!["--ffmpeg-location"@, ffmpeg_location->0]
    } else {
        Seq::empty()
    };
    let pd = plugin_dir_args(plugin_dirs);
    lemma_plugin_dir_args(plugin_dirs);
    assert(all =~= dp + fp + pd + args);
    assert forall|i: int| 0 <= i < plugin_dirs.len() implies all[d + f + 2 * i] == "--plugin-dirs"@
        && all[d + f + 2 * i + 1] == #[trigger] plugin_dirs[i] by {
        assert(pd[2 * i + 1] == plugin_dirs[i]);
        assert(all[d + f + 2 * i] == pd[2 * i]);
        assert(all[d + f + 2 * i + 1] == pd[2 * i + 1]);
    }
    assert forall|j: int| 0 <= j < args.len() implies #[trigger] all[d + f + 2 * plugin_dirs.len() + j] == args[j] by {
        assert(all[d + f + pd.len() + j] == args[j]);
    }
}

/// Whether `args` holds `option`, alone or as `option=value`; `option_eq` is
/// `option` followed by `=`.
fn has_option_arg(args: &Vec<String>, option: &str, option_eq: &str) -> (r: bool)
    requires
        option_eq@ == option@ + "="@,
    ensures
        r == has_option(views(args@), option@),
{
    let mut i: usize = 0;
    while i < args.len()
        invariant
            i <= args@.len(),
            option_eq@ == option@ + "="@,
            forall|j: int|
                0 <= j < i ==> !(args@[j]@ == option@ || option_eq@.is_prefix_of(
                    #[trigger] args@[j]@,
                )),
        decreases args@.len() - i,
    {
        if str_eq(args[i].as_str(), option) || starts_with(args[i].as_str(), option_eq) {
            assert(views(args@)[i as int] == args@[i as int]@);
            return true;
        }
        i = i + 1;
    }
    assert forall|j: int|
        0 <= j < views(args@).len() implies !(views(args@)[j] == option@ || (option@
        + "="@).is_prefix_of(#[trigger] views(args@)[j])) by {
        assert(views(args@)[j] == args@[j]@);
    }
    false
}

/// Whether the arguments already choose a JavaScript runtime.
pub fn has_js_runtime_args(args: &Vec<String>) -> (r: bool)
    ensures
        r == has_option(views(args@), "--js-runtimes"@),
{
    proof {
        reveal_strlit("--js-runtimes");
        reveal_strlit("--js-runtimes=");
        reveal_strlit("=");
        assert("--js-runtimes="@ =~= "--js-runtimes"@ + "="@);
    }
    has_option_arg(args, "--js-runtimes", "--js-runtimes=")
}

/// Whether the arguments already choose where `ffmpeg` is.
pub fn has_ffmpeg_location_args(args: &Vec<String>) -> (r: bool)
    ensures
        r == has_option(views(args@), "--ffmpeg-location"@),
{
    proof {
        reveal_strlit("--ffmpeg-location");
        reveal_strlit("--ffmpeg-location=");
        reveal_strlit("=");
        assert("--ffmpeg-location="@ =~= "--ffmpeg-location"@ + "="@);
    }
    has_option_arg(args, "--ffmpeg-location", "--ffmpeg-location=")
}

impl YtDlpRunner {
    /// The runner for the binary the user configured, if any, else for the
    /// bundled one. `configured_is_file` says whether the configured path names
    /// a file; a configured path that does not is an error.
    pub fn from_environment_or_bundle(configured_path: Option<String>, configured_is_file: bool) -> (r:
        Result<Self, YtDlpError>)
        ensures
            match configured_path {
                Some(path) => if configured_is_file {
                    r matches Ok(runner) && runner.command == YtDlpCommand::Override(path)
                        && runner.plugin_dirs@.len() == 0
                } else {
                    r matches Err(YtDlpError::MissingBinary(paths)) && views(paths@) == seq![path@]
                },
                None => r matches Ok(runner) && runner.command == YtDlpCommand::Sidecar
                    && runner.plugin_dirs@.len() == 0,
            },
    {
        match configured_path {
            Some(path) => {
                if configured_is_file {
                    Ok(YtDlpRunner { command: YtDlpCommand::Override(path), plugin_dirs: Vec::new() })
                } else {
                    let ghost p = path@;
                    let paths = vec![path];
                    assert(views(paths@) =~= seq![p]);
                    Err(YtDlpError::MissingBinary(paths))
                }
            },
            None => Ok(YtDlpRunner { command: YtDlpCommand::Sidecar, plugin_dirs: Vec::new() }),
        }
    }

    /// The same runner with the given plugin directories.
    pub fn with_plugin_dirs(self, plugin_dirs: Vec<String>) -> (r: Self)
        ensures
            r.command == self.command,
            r.plugin_dirs == plugin_dirs,
    {
        let mut runner = self;
        runner.plugin_dirs = plugin_dirs;
        runner
    }

    /// The binary the user configured, if any.
    pub fn binary_path(&self) -> (r: Option<&str>)
        ensures
            match self.command {
                YtDlpCommand::Override(path) => r matches Some(p) && p@ == path@,
                YtDlpCommand::Sidecar => r is None,
            },
    {
        match &self.command {
            YtDlpCommand::Override(path) => Some(path.as_str()),
            YtDlpCommand::Sidecar => None,
        }
    }

    /// The argument list handed to `yt-dlp` for the user's `args`, given where
    /// the bundled JavaScript runtime and `ffmpeg` are, if they are.
    pub fn command_args(
        &self,
        args: Vec<String>,
        deno_path: Option<String>,
        ffmpeg_location: Option<String>,
    ) -> (r: Vec<String>)
        ensures
            views(r@) == runner_args_of(
                views(args@),
                opt_view(deno_path),
                opt_view(ffmpeg_location),
                views(self.plugin_dirs@),
            ),
    {
        let mut command_args: Vec<String> = Vec::new();
        let ghost a = views(args@);
        let ghost dirs = views(self.plugin_dirs@);
        let ghost plugin_start: Seq<Seq<char>>;
        if !has_js_runtime_args(&args) {
            if let Some(path) = &deno_path {
                command_args.push(owned("--js-runtimes"));
                command_args.push(concat2("deno:", path.as_str()));
            }
        }
        if !has_ffmpeg_location_args(&args) {
            if let Some(location) = &ffmpeg_location {
                command_args.push(owned("--ffmpeg-location"));
                command_args.push(owned(location.as_str()));
            }
        }
        proof {
            plugin_start = views(command_args@);
        }
        assert(views(self.plugin_dirs@).take(0) =~= Seq::<Seq<char>>::empty());
        assert(plugin_start =~= plugin_start + plugin_dir_args(Seq::empty()));
        let mut i: usize = 0;
        while i < self.plugin_dirs.len()
            invariant
                i <= self.plugin_dirs@.len(),
                dirs == views(self.plugin_dirs@),
                views(command_args@) == plugin_start + plugin_dir_args(dirs.take(i as int)),
            decreases self.plugin_dirs@.len() - i,
        {
            assert(dirs.take(i + 1).drop_last() =~= dirs.take(i as int));
            assert(dirs.take(i + 1).last() == self.plugin_dirs@[i as int]@);
            let ghost before = views(command_args@);
            command_args.push(owned("--plugin-dirs"));
            command_args.push(owned(self.plugin_dirs[i].as_str()));
            assert(views(command_args@) =~= before + seq!["--plugin-dirs"@, self.plugin_dirs@[i as int]@]);
            assert(views(command_args@) =~= plugin_start + plugin_dir_args(dirs.take(i + 1)));
            i = i + 1;
        }
        assert(dirs.take(self.plugin_dirs@.len() as int) =~= dirs);
        let mut args = args;
        let ghost before = views(command_args@);
        command_args.append(&mut args);
        assert(views(command_args@) =~= before + a);
        assert(views(command_args@) =~= runner_args_of(
            a,
            opt_view(deno_path),
            opt_view(ffmpeg_location),
            dirs,
        ));
        command_args
    }
}


/// The file name of a tool on a platform whose executables end in `extension`
/// (empty where they have none).
pub fn executable_name(name: &str, extension: &str) -> (r: String)
    ensures
        r@ == name@ + extension@,
{
    if extension.is_empty() {
        assert(name@ + extension@ =~= name@);
        owned(name)
    } else {
        concat2(name, extension)
    }
}

/// Whether a file in the development binaries directory is the sidecar build
/// of `name`: its file name starts with `name` and a hyphen (the target
/// triple follows) and ends with the executable extension.
pub fn is_sidecar_file_name(file_name: &str, name: &str, extension: &str) -> (r: bool)
    ensures
        r == ((name@ + "-"@).is_prefix_of(file_name@) && extension@.is_suffix_of(file_name@)),
{
    let prefix = concat2(name, "-");
    starts_with(file_name, prefix.as_str()) && ends_with(file_name, extension)
}

/// The character views of a sequence of paths, each a sequence of components.
pub open spec fn component_views(v: Seq<Vec<String>>) -> Seq<Seq<Seq<char>>> {
    v.map_values(|x: Vec<String>| views(x@))
}

/// The directories that may hold the bundled `yt-dlp` plugins, as path
/// components: under the source tree of the workspace, then directly under the
/// resource directory, then under its `resources` subdirectory.
pub open spec fn plugin_dir_candidates(
    workspace_root: Option<Seq<char>>,
    resource_dir: Option<Seq<char>>,
) -> Seq<Seq<Seq<char>>> {
    (match workspace_root {
        Some(root) => seq![seq![root, "src-tauri"@, "resources"@, "yt-dlp-plugins"@]],
        None => Seq::empty(),
    }) + (match resource_dir {
        Some(dir) => seq![seq![dir, "yt-dlp-plugins"@], seq![dir, "resources"@, "yt-dlp-plugins"@]],
        None => Seq::empty(),
    })
}

/// The candidate plugin directories, each as the list of path components to
/// join; only those that hold the `bgutil` plugin (see `plugin_dir_marker`)
/// are used.
pub fn candidate_plugin_dirs(workspace_root: Option<String>, resource_dir: Option<String>) -> (r:
    Vec<Vec<String>>)
    ensures
        component_views(r@) == plugin_dir_candidates(opt_view(workspace_root), opt_view(resource_dir)),
{
    let mut paths: Vec<Vec<String>> = Vec::new();
    let ghost first: Seq<Seq<Seq<char>>>;
    if let Some(root) = &workspace_root {
        let p = vec![owned(root.as_str()), owned("src-tauri"), owned("resources"), owned("yt-dlp-plugins")];
        assert(views(p@) =~= seq![root@, "src-tauri"@, "resources"@, "yt-dlp-plugins"@]);
        paths.push(p);
    }
    proof {
        first = component_views(paths@);
    }
    if let Some(dir) = &resource_dir {
        let p1 = vec![owned(dir.as_str()), owned("yt-dlp-plugins")];
        let p2 = vec![owned(dir.as_str()), owned("resources"), owned("yt-dlp-plugins")];
        assert(views(p1@) =~= seq![dir@, "yt-dlp-plugins"@]);
        assert(views(p2@) =~= seq![dir@, "resources"@, "yt-dlp-plugins"@]);
        paths.push(p1);
        paths.push(p2);
    }
    assert(component_views(paths@) =~= plugin_dir_candidates(
        opt_view(workspace_root),
        opt_view(resource_dir),
    ));
    paths
}

/// The path, relative to a candidate plugin directory, that must be a
/// directory for the candidate to be used.
pub fn plugin_dir_marker() -> (r: Vec<String>)
    ensures
        views(r@) == seq!["bgutil"@, "yt_dlp_plugins"@],
{
    let r = vec![owned("bgutil"), owned("yt_dlp_plugins")];
    assert(views(r@) =~= seq!["bgutil"@, "yt_dlp_plugins"@]);
    r
}

/// What a running `yt-dlp` reports: a piece of standard output or standard
/// error (already decoded), its exit code when it ends, an error of the
/// process, or anything else.
#[derive(Clone, Debug)]
pub enum ProcessEvent {
    Stdout(String),
    Stderr(String),
    Terminated(Option<i32>),
    Error(String),
    Other,
}

/// The output of a running process collected so far.
#[derive(Clone, Debug)]
pub struct OutputCollector {
    pub exit_code: Option<i32>,
    pub stdout: String,
    pub stderr: String,
}

impl OutputCollector {
    /// Nothing collected yet.
    pub fn new() -> (r: Self)
        ensures
            r.exit_code is None,
            r.stdout@.len() == 0,
            r.stderr@.len() == 0,
    {
        OutputCollector { exit_code: None, stdout: String::new(), stderr: String::new() }
    }

    /// Records one event and returns the piece of output to forward to the
    /// user, if any: output is appended to its stream, a process error to
    /// standard error, and the exit code is kept.
    pub fn on_event(&mut self, event: ProcessEvent) -> (r: Option<(YtDlpOutputStream, String)>)
        ensures
            match event {
                ProcessEvent::Stdout(chunk) => {
                    &&& final(self).stdout@ == old(self).stdout@ + chunk@
                    &&& final(self).stderr@ == old(self).stderr@
                    &&& final(self).exit_code == old(self).exit_code
                    &&& r matches Some((stream, c)) && stream == YtDlpOutputStream::Stdout && c@
                        == chunk@
                },
                ProcessEvent::Stderr(chunk) | ProcessEvent::Error(chunk) => {
                    &&& final(self).stdout@ == old(self).stdout@
                    &&& final(self).stderr@ == old(self).stderr@ + chunk@
                    &&& final(self).exit_code == old(self).exit_code
                    &&& r matches Some((stream, c)) && stream == YtDlpOutputStream::Stderr && c@
                        == chunk@
                },
                ProcessEvent::Terminated(code) => {
                    &&& final(self).stdout@ == old(self).stdout@
                    &&& final(self).stderr@ == old(self).stderr@
                    &&& final(self).exit_code == code
                    &&& r is None
                },
                ProcessEvent::Other => {
                    &&& final(self).stdout@ == old(self).stdout@
                    &&& final(self).stderr@ == old(self).stderr@
                    &&& final(self).exit_code == old(self).exit_code
                    &&& r is None
                },
            },
    {
        match event {
            ProcessEvent::Stdout(chunk) => {
                self.stdout.append(chunk.as_str());
                Some((YtDlpOutputStream::Stdout, chunk))
            },
            ProcessEvent::Stderr(chunk) => {
                self.stderr.append(chunk.as_str());
                Some((YtDlpOutputStream::Stderr, chunk))
            },
            ProcessEvent::Error(error) => {
                self.stderr.append(error.as_str());
                Some((YtDlpOutputStream::Stderr, error))
            },
            ProcessEvent::Terminated(code) => {
                self.exit_code = code;
                None
            },
            ProcessEvent::Other => None,
        }
    }

    /// The outcome of the run: successful exactly when the exit code is zero.
    pub fn finish(self) -> (r: YtDlpCommandOutput)
        ensures
            r.exit_code == self.exit_code,
            r.success == (self.exit_code == Some(0i32)),
            r.stdout@ == self.stdout@,
            r.stderr@ == self.stderr@,
    {
        let success = match self.exit_code {
            Some(code) => code == 0,
            None => false,
        };
        YtDlpCommandOutput {
            exit_code: self.exit_code,
            success,
            stdout: self.stdout,
            stderr: self.stderr,
        }
    }
}

} // verus!
