//! The extractor: validation, the entry points that begin a run, and
//! standalone verification.

use vstd::prelude::*;

use crate::args::Args;
use crate::errors::{ErrV, ExtractError};
use crate::format::AudioFormat;
use crate::pipeline::{start_spec, Extraction};
use crate::probe::{probe_outcome_view, standalone_spec, AudioFileInfo, AudioFileInfoV};
use crate::validate::{check_video_path, is_video_path, supported_video_exts, validate_spec};

verus! {

/// The mathematical image of a unit result.
pub open spec fn unit_result_view(r: Result<(), ExtractError>) -> Result<(), ErrV> {
    match r {
        Ok(u) => Ok(u),
        Err(e) => Err(e@),
    }
}

/// The mathematical image of a verification result.
pub open spec fn info_result_view(r: Result<AudioFileInfo, ExtractError>) -> Result<
    AudioFileInfoV,
    ErrV,
> {
    match r {
        Ok(i) => Ok(i@),
        Err(e) => Err(e@),
    }
}

/// The tool's front door: holds a run's configuration and answers for each
/// stage of the pipeline.
#[derive(Debug)]
pub struct AudioExtractor {
    /// The run's configuration.
    pub args: Args,
}

impl AudioExtractor {
    /// Wraps a configuration.
    pub fn new(args: Args) -> (r: Self)
        ensures
            r.args@ == args@,
    {
        AudioExtractor { args }
    }

    /// Begins an extraction run for the held configuration. The caller
    /// performs each action the run asks for and reports the event that came
    /// of it; see [`Extraction`].
    pub fn extract(&self) -> (e: Extraction)
        ensures
            e@ == start_spec(self.args@, e@.timestamp, false),
            e@.wf(),
    {
        Extraction::start(&self.args, false)
    }

    /// Like [`AudioExtractor::extract`], but the run keeps human-readable
    /// progress notes in its log as stages complete.
    pub fn extract_with_progress(&self) -> (e: Extraction)
        ensures
            e@ == start_spec(self.args@, e@.timestamp, true),
            e@.wf(),
    {
        Extraction::start(&self.args, true)
    }

    /// Validates the held input path, told whether it exists on disk: a
    /// missing input fails with `InputNotFound` first; an extension outside
    /// the allow-list fails with `UnsupportedInputFormat`, whatever the
    /// file's content.
    pub fn validate_input(&self, input_exists: bool) -> (r: Result<(), ExtractError>)
        ensures
            unit_result_view(r) == validate_spec(self.args@.input, input_exists),
    {
        if !input_exists {
            Err(ExtractError::InputNotFound(self.args.input.clone()))
        } else if !check_video_path(self.args.input.as_str()) {
            Err(ExtractError::UnsupportedInputFormat(self.args.input.clone()))
        } else {
            Ok(())
        }
    }

    /// Whether a path's extension, case-insensitively, is in the allow-list
    /// of video containers.
    pub fn is_video_file(&self, path: &String) -> (r: bool)
        ensures
            r == is_video_path(path@),
    {
        check_video_path(path.as_str())
    }

    /// Verifies an arbitrary audio file from its path, its existence on
    /// disk, its size, and the media probe's report on it: a missing file
    /// fails first, then an empty one, whatever its name, neither consulting
    /// the report; otherwise the probe's verdict is the result. The caller
    /// performs the probe — a media parser can choke on crafted headers —
    /// and this function answers for every report it can bring back.
    pub fn verify_standalone(
        path: &String,
        file_exists: bool,
        file_len: u64,
        probe: Result<AudioFileInfo, String>,
    ) -> (r: Result<AudioFileInfo, ExtractError>)
        ensures
            info_result_view(r) == standalone_spec(
                path@,
                file_exists,
                file_len,
                probe_outcome_view(probe),
            ),
    {
        if !file_exists {
            return Err(ExtractError::FileMissing(path.clone()));
        }
        if file_len == 0 {
            return Err(ExtractError::EmptyFile(path.clone()));
        }
        match probe {
            Ok(info) => Ok(info),
            Err(m) => Err(ExtractError::ProbeFailure(m)),
        }
    }

    /// The allow-list of video container extensions, in its published order.
    pub fn get_supported_video_formats() -> (r: Vec<&'static str>)
        ensures
            r.deep_view() == supported_video_exts(),
    {
        let mut r: Vec<&'static str> = Vec::new();
        r.push("mp4");
        r.push("avi");
        r.push("mkv");
        r.push("mov");
        r.push("wmv");
        r.push("flv");
        r.push("webm");
        proof {
            assert(r.deep_view() =~~= supported_video_exts());
        }
        r
    }

    /// The target audio formats, in their published order.
    pub fn get_supported_audio_formats() -> (r: Vec<AudioFormat>)
        ensures
            r@ == seq![AudioFormat::Mp3, AudioFormat::Wav, AudioFormat::Flac, AudioFormat::Aac],
    {
        let mut r: Vec<AudioFormat> = Vec::new();
        r.push(AudioFormat::Mp3);
        r.push(AudioFormat::Wav);
        r.push(AudioFormat::Flac);
        r.push(AudioFormat::Aac);
        proof {
            assert(r@ =~= seq![
                AudioFormat::Mp3,
                AudioFormat::Wav,
                AudioFormat::Flac,
                AudioFormat::Aac,
            ]);
        }
        r
    }
}

} // verus!
