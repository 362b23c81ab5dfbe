//! The closed set of target audio formats.

use vstd::prelude::*;

verus! {

/// A target audio format. The set is closed: the transcoder is driven with a
/// fixed, format-specific argument set for each variant.
#[derive(Clone, Copy, Debug, PartialEq, Eq, Structural)]
pub enum AudioFormat {
    Mp3,
    Wav,
    Flac,
    Aac,
}

/// The name of a format, which doubles as the file extension of its container.
pub open spec fn format_name(f: AudioFormat) -> Seq<char> {
    match f {
        AudioFormat::Mp3 => "mp3"@,
        AudioFormat::Wav => "wav"@,
        AudioFormat::Flac => "flac"@,
        AudioFormat::Aac => "aac"@,
    }
}

impl AudioFormat {
    /// The format's name, as written in argument lists and file extensions.
    pub fn as_str(&self) -> (r: &'static str)
        ensures
            r@ == format_name(*self),
    {
        match self {
            AudioFormat::Mp3 => "mp3",
            AudioFormat::Wav => "wav",
            AudioFormat::Flac => "flac",
            AudioFormat::Aac => "aac",
        }
    }

    /// Whether the format is lossy, so that the configured bitrate applies to it.
    pub fn is_lossy(&self) -> (r: bool)
        ensures
            r == (*self == AudioFormat::Mp3 || *self == AudioFormat::Aac),
    {
        match self {
            AudioFormat::Mp3 => true,
            AudioFormat::Aac => true,
            AudioFormat::Wav => false,
            AudioFormat::Flac => false,
        }
    }
}

} // verus!
