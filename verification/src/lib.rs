//! Verified core of the Recast desktop backend: the pure decisions behind
//! exports, the editor write-lock, recording profiles, the control channel and
//! the cloud uploader.

pub mod text;
pub mod binary32;
pub mod paths;
pub mod types;
pub mod editor_session;
pub mod export;
pub mod error;
pub mod cloud;
pub mod profiles;
pub mod control;
pub mod system;
pub mod ffmpeg;
pub mod screenshot;
pub mod export_queue;
pub mod assets;
pub mod music;
pub mod recordings;
pub mod cloud_upload;
