//! Orchestration core for an audio extraction and processing pipeline.
//!
//! The pipeline downloads a track, decodes it to PCM, optionally upscales
//! and loudness-normalizes it, encodes it to a target container, and embeds
//! metadata.  The stage adapters themselves are opaque external operations;
//! this crate holds the verified decision logic: stage sequencing, the
//! progress-event protocol, scratch-directory lifetime, argument and
//! filename construction, output parsing, and batch admission control.

pub mod batch;
pub mod config;
pub mod decoder;
pub mod downloader;
pub mod encoder;
pub mod error;
pub mod format;
pub mod jsonio;
pub mod metadata;
pub mod normalizer;
pub mod pipeline;
pub mod strutil;
pub mod upscale;

pub use config::Config;
pub use error::YtAudioError;
