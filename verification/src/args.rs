//! The configuration of one extraction run.

use vstd::prelude::*;

use crate::format::AudioFormat;

verus! {

/// One extraction run's configuration, immutable once constructed: where to
/// read, where to write, the target format, the bitrate for lossy targets,
/// and whether to verify the produced file.
#[derive(Debug)]
pub struct Args {
    /// Input video file path.
    pub input: String,
    /// Output audio file path.
    pub output: String,
    /// Output audio format.
    pub format: AudioFormat,
    /// Audio quality (bitrate in kbps); meaningful for lossy formats only.
    pub quality: u32,
    /// Whether to verify the output audio file after extraction.
    pub verify: bool,
}

/// The mathematical image of an [`Args`].
pub struct ArgsV {
    pub input: Seq<char>,
    pub output: Seq<char>,
    pub format: AudioFormat,
    pub quality: u32,
    pub verify: bool,
}

impl View for Args {
    type V = ArgsV;

    open spec fn view(&self) -> ArgsV {
        ArgsV {
            input: self.input@,
            output: self.output@,
            format: self.format,
            quality: self.quality,
            verify: self.verify,
        }
    }
}

impl Clone for Args {
    /// A clone carries the same configuration.
    fn clone(&self) -> (r: Self)
        ensures
            r@ == self@,
    {
        Args {
            input: self.input.clone(),
            output: self.output.clone(),
            format: self.format,
            quality: self.quality,
            verify: self.verify,
        }
    }
}

} // verus!
