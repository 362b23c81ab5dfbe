//! The errors the pipeline can end in.

use vstd::prelude::*;

verus! {

/// Why a stage of the pipeline failed. Path-shaped payloads name the file the
/// failure is about; the others carry the underlying diagnostic text.
#[derive(Debug, PartialEq, Eq)]
pub enum ExtractError {
    /// The input path does not exist on disk.
    InputNotFound(String),
    /// The input file's extension is not in the allow-list of video containers.
    UnsupportedInputFormat(String),
    /// The output's parent directories could not be created.
    DirectoryCreationError(String),
    /// The external transcoder exited non-zero; carries its diagnostic output.
    ExternalToolError(String),
    /// The placeholder payload of the degraded mode could not be written.
    PlaceholderWriteError(String),
    /// The produced output file to verify does not exist (pipeline
    /// verification).
    OutputMissing(String),
    /// The audio file to verify does not exist (standalone verification).
    FileMissing(String),
    /// The file to verify has size zero.
    EmptyFile(String),
    /// The media probe could not parse the file as audio.
    ProbeFailure(String),
}

/// The mathematical image of an [`ExtractError`].
pub enum ErrV {
    InputNotFound(Seq<char>),
    UnsupportedInputFormat(Seq<char>),
    DirectoryCreationError(Seq<char>),
    ExternalToolError(Seq<char>),
    PlaceholderWriteError(Seq<char>),
    OutputMissing(Seq<char>),
    FileMissing(Seq<char>),
    EmptyFile(Seq<char>),
    ProbeFailure(Seq<char>),
}

impl View for ExtractError {
    type V = ErrV;

    open spec fn view(&self) -> ErrV {
        match self {
            ExtractError::InputNotFound(p) => ErrV::InputNotFound(p@),
            ExtractError::UnsupportedInputFormat(p) => ErrV::UnsupportedInputFormat(p@),
            ExtractError::DirectoryCreationError(m) => ErrV::DirectoryCreationError(m@),
            ExtractError::ExternalToolError(m) => ErrV::ExternalToolError(m@),
            ExtractError::PlaceholderWriteError(m) => ErrV::PlaceholderWriteError(m@),
            ExtractError::OutputMissing(p) => ErrV::OutputMissing(p@),
            ExtractError::FileMissing(p) => ErrV::FileMissing(p@),
            ExtractError::EmptyFile(p) => ErrV::EmptyFile(p@),
            ExtractError::ProbeFailure(m) => ErrV::ProbeFailure(m@),
        }
    }
}

impl Clone for ExtractError {
    /// A clone carries the same kind and payload.
    fn clone(&self) -> (r: Self)
        ensures
            r@ == self@,
    {
        match self {
            ExtractError::InputNotFound(p) => ExtractError::InputNotFound(p.clone()),
            ExtractError::UnsupportedInputFormat(p) => ExtractError::UnsupportedInputFormat(
                p.clone(),
            ),
            ExtractError::DirectoryCreationError(m) => ExtractError::DirectoryCreationError(
                m.clone(),
            ),
            ExtractError::ExternalToolError(m) => ExtractError::ExternalToolError(m.clone()),
            ExtractError::PlaceholderWriteError(m) => ExtractError::PlaceholderWriteError(
                m.clone(),
            ),
            ExtractError::OutputMissing(p) => ExtractError::OutputMissing(p.clone()),
            ExtractError::FileMissing(p) => ExtractError::FileMissing(p.clone()),
            ExtractError::EmptyFile(p) => ExtractError::EmptyFile(p.clone()),
            ExtractError::ProbeFailure(m) => ExtractError::ProbeFailure(m.clone()),
        }
    }
}

/// The human-readable message of an error.
pub open spec fn message_spec(e: ErrV) -> Seq<char> {
    match e {
        ErrV::InputNotFound(p) => "Input file does not exist: "@ + p,
        ErrV::UnsupportedInputFormat(p) => "Input file is not a supported video format: "@ + p,
        ErrV::DirectoryCreationError(m) => "Failed to create output directory: "@ + m,
        ErrV::ExternalToolError(m) => "FFmpeg failed: "@ + m,
        ErrV::PlaceholderWriteError(m) => "Failed to write placeholder file: "@ + m,
        ErrV::OutputMissing(p) => "Output audio file does not exist: "@ + p,
        ErrV::FileMissing(p) => "Audio file does not exist: "@ + p,
        ErrV::EmptyFile(p) => "Audio file is empty: "@ + p,
        ErrV::ProbeFailure(m) => "Failed to probe audio file format: "@ + m,
    }
}

impl ExtractError {
    /// The human-readable message of the error.
    pub fn message(&self) -> (r: String)
        ensures
            r@ == message_spec(self@),
    {
        match self {
            ExtractError::InputNotFound(p) => {
                let mut r = "Input file does not exist: ".to_owned();
                r.append(p.as_str());
                r
            },
            ExtractError::UnsupportedInputFormat(p) => {
                let mut r = "Input file is not a supported video format: ".to_owned();
                r.append(p.as_str());
                r
            },
            ExtractError::DirectoryCreationError(m) => {
                let mut r = "Failed to create output directory: ".to_owned();
                r.append(m.as_str());
                r
            },
            ExtractError::ExternalToolError(m) => {
                let mut r = "FFmpeg failed: ".to_owned();
                r.append(m.as_str());
                r
            },
            ExtractError::PlaceholderWriteError(m) => {
                let mut r = "Failed to write placeholder file: ".to_owned();
                r.append(m.as_str());
                r
            },
            ExtractError::OutputMissing(p) => {
                let mut r = "Output audio file does not exist: ".to_owned();
                r.append(p.as_str());
                r
            },
            ExtractError::FileMissing(p) => {
                let mut r = "Audio file does not exist: ".to_owned();
                r.append(p.as_str());
                r
            },
            ExtractError::EmptyFile(p) => {
                let mut r = "Audio file is empty: ".to_owned();
                r.append(p.as_str());
                r
            },
            ExtractError::ProbeFailure(m) => {
                let mut r = "Failed to probe audio file format: ".to_owned();
                r.append(m.as_str());
                r
            },
        }
    }
}

} // verus!
