//! A library for extracting the audio track of a video file into a target
//! audio container, with optional verification of the produced file.
//!
//! The library holds the tool's decision logic: input validation by
//! extension, the transcoder's argument list, the placeholder payload of the
//! degraded mode, the reading of a media probe's report, and the batch plan.
//! The effects themselves — file system and processes — are the embedding
//! program's: it drives an [`pipeline::Extraction`] step by step, performing
//! each [`pipeline::Action`] the run asks for and reporting the
//! [`pipeline::Event`] that came of it.
//!
//! Paths are handled as plain `/`-separated strings throughout.

pub mod args;
pub mod batch;
pub mod command;
pub mod errors;
pub mod extractor;
pub mod format;
pub mod paths;
pub mod pipeline;
pub mod placeholder;
pub mod probe;
pub mod text;
pub mod validate;
pub mod video;

pub use args::Args;
pub use errors::ExtractError;
pub use extractor::AudioExtractor;
pub use format::AudioFormat;
pub use pipeline::{Action, Event, Extraction, Phase};
pub use probe::AudioFileInfo;
