# Quiver

A small desktop front end for `yt-dlp`, built with Tauri. The logic of the
application is a library verified with Verus; the desktop shell around it is
ordinary Rust.

## Layout

- `src/` — the verified library (`quiver_lib`):
  - `presets.rs`: the eight download presets and the `yt-dlp` command line
    each one builds, with the laws that tie the presets to their options.
  - `yt_dlp.rs`: the runner configuration, the arguments put in front of the
    user's, the plugin directory candidates, and the collection of a run's
    output.
  - `subtitle_pipeline.rs`: the command lines of the subtitle download, of
    `ffprobe` and of `ffmpeg`, the parsing of their output, and the names of
    the files the advanced subtitle pipeline writes.
  - `pipeline.rs` and `remux.rs`: the advanced subtitle pipeline and the
    remux of one file, as state machines from state and event to next state
    and command.
  - `commands.rs`: the theme settings, the greeting and the other decisions
    behind the commands the user interface calls.
  - `pot_server.rs`: how the local proof-of-origin token server is started.
  - `text.rs`: string helpers stated over character sequences.
- `tests/` — tests of the library.
- `app/` — the Tauri application: commands, processes, files, and the loops
  that perform what the state machines of the library decide.
