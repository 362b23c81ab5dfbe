//! Verification of a produced audio file: a size check, then the verdict on
//! what the external media probe reported.
//!
//! The probe itself is an effect of the embedding program, like the file
//! system and the transcoder: media parsers choke — some even abort — on
//! crafted headers, so no contract can promise a normal return on every byte
//! string. The library instead states, for every value the probe can report,
//! what the verification answers.

use vstd::prelude::*;

use crate::errors::ErrV;

verus! {

/// What the media probe reports of an audio file. Each field past the codec
/// identifier is optional: not all codecs expose all of them.
#[derive(Debug)]
pub struct AudioFileInfo {
    /// The codec identifier, as the probing library prints it.
    pub format: String,
    /// Frame count and time-base denominator, when the codec exposes both;
    /// their quotient approximates the duration in seconds.
    pub duration_parts: Option<(u64, u32)>,
    /// Channel count, when exposed.
    pub channels: Option<usize>,
    /// Sample rate in Hz, when exposed.
    pub sample_rate: Option<u32>,
}

/// The mathematical image of an [`AudioFileInfo`].
pub struct AudioFileInfoV {
    pub format: Seq<char>,
    pub duration_parts: Option<(u64, u32)>,
    pub channels: Option<usize>,
    pub sample_rate: Option<u32>,
}

impl Clone for AudioFileInfo {
    /// A clone carries the same metadata.
    fn clone(&self) -> (r: Self)
        ensures
            r@ == self@,
    {
        AudioFileInfo {
            format: self.format.clone(),
            duration_parts: self.duration_parts,
            channels: self.channels,
            sample_rate: self.sample_rate,
        }
    }
}

impl View for AudioFileInfo {
    type V = AudioFileInfoV;

    open spec fn view(&self) -> AudioFileInfoV {
        AudioFileInfoV {
            format: self.format@,
            duration_parts: self.duration_parts,
            channels: self.channels,
            sample_rate: self.sample_rate,
        }
    }
}

/// The mathematical image of a probe report: the track's metadata, or the
/// diagnostic text of a failed parse.
pub open spec fn probe_outcome_view(r: Result<AudioFileInfo, String>) -> Result<
    AudioFileInfoV,
    Seq<char>,
> {
    match r {
        Ok(i) => Ok(i@),
        Err(m) => Err(m@),
    }
}

/// What standalone verification answers for a path, its existence, its size,
/// and the probe's report: a missing file fails first, then an empty one,
/// whatever its extension or name; only then does the probe's verdict become
/// the caller-visible result.
pub open spec fn standalone_spec(
    path: Seq<char>,
    file_exists: bool,
    file_len: u64,
    probe: Result<AudioFileInfoV, Seq<char>>,
) -> Result<AudioFileInfoV, ErrV> {
    if !file_exists {
        Err(ErrV::FileMissing(path))
    } else if file_len == 0 {
        Err(ErrV::EmptyFile(path))
    } else {
        match probe {
            Ok(v) => Ok(v),
            Err(m) => Err(ErrV::ProbeFailure(m)),
        }
    }
}

/// Verification of a zero-byte file always fails with the empty-file error,
/// independent of the file's extension or name, and of anything a probe
/// might have reported: no probe verdict is consulted.
pub proof fn lemma_zero_byte_fails(path: Seq<char>, probe: Result<AudioFileInfoV, Seq<char>>)
    ensures
        standalone_spec(path, true, 0, probe) == Err::<AudioFileInfoV, ErrV>(
            ErrV::EmptyFile(path),
        ),
{
}

} // verus!
