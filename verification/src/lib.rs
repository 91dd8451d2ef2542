//! Batch editing of audio metadata across two tag formats, behind one
//! format-agnostic abstraction: track numbers are derived from filenames, a
//! one-shot operator confirmation separates planning from execution, and the
//! confirmed plan is applied concurrently with per-file progress reporting.

pub mod codec_id3;
pub mod codec_mp4;
pub mod confirm;
pub mod errors;
pub mod handle;
pub mod laws;
pub mod listing;
pub mod plan;
pub mod progress;
pub mod render;
pub mod run;
pub mod tag_state;
pub mod track;
