//! Verified core of a small desktop front end for `yt-dlp`: download presets,
//! command-line construction for `yt-dlp`, `ffmpeg` and `ffprobe`, parsing of
//! their output, and the decisions of the advanced subtitle pipeline.

pub mod commands;
pub mod pot_server;
pub mod pipeline;
pub mod presets;
pub mod remux;
pub mod subtitle_pipeline;
pub mod text;
pub mod yt_dlp;
