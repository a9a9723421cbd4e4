//! Pieces of the video export pipeline: track alignment, codec presets,
//! the faststart remux decision, FFmpeg progress and exit parsing, and the
//! output tail.

pub mod align;
pub mod audio;
pub mod codec;
pub mod command;
pub mod faststart;
pub mod gif;
pub mod inputs;
pub mod progress;
pub mod run;
pub mod tail;
