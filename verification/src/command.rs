//! The transcoder's argument list, built from a configuration.

use vstd::prelude::*;

use crate::args::{Args, ArgsV};
use crate::format::AudioFormat;
use crate::text::{dec_of, u32_dec};

verus! {

/// The configured bitrate as the transcoder writes it: the kbps value followed
/// by `k`.
pub open spec fn bitrate_spec(q: u32) -> Seq<char> {
    dec_of(q as nat) + "k"@
}

/// The codec-specific slice of the argument list: a lossy codec takes the
/// configured bitrate; `wav` is fixed PCM at 44.1 kHz and `flac` a fixed
/// compression level, the quality ignored.
pub open spec fn codec_args_spec(a: ArgsV) -> Seq<Seq<char>> {
    match a.format {
        AudioFormat::Mp3 => seq!["-c:a"@, "libmp3lame"@, "-b:a"@, bitrate_spec(a.quality)],
        AudioFormat::Wav => seq!["-c:a"@, "pcm_s16le"@, "-ar"@, "44100"@],
        AudioFormat::Flac => seq!["-c:a"@, "flac"@, "-compression_level"@, "5"@],
        AudioFormat::Aac => seq!["-c:a"@, "aac"@, "-b:a"@, bitrate_spec(a.quality)],
    }
}

/// The whole argument list handed to the transcoder: the input, the overwrite
/// flag, the codec-specific slice, the flag that strips video streams, and the
/// output.
pub open spec fn ffmpeg_args_spec(a: ArgsV) -> Seq<Seq<char>> {
    seq!["-i"@, a.input, "-y"@] + codec_args_spec(a) + seq!["-vn"@, a.output]
}

/// The configured bitrate, rendered.
pub fn bitrate_arg(q: u32) -> (r: String)
    ensures
        r@ == bitrate_spec(q),
{
    let mut r = u32_dec(q);
    r.append("k");
    r
}

/// Builds the transcoder's argument list for a configuration.
pub fn ffmpeg_args(a: &Args) -> (r: Vec<String>)
    ensures
        r.deep_view() == ffmpeg_args_spec(a@),
{
    let mut r: Vec<String> = Vec::new();
    r.push("-i".to_owned());
    r.push(a.input.clone());
    r.push("-y".to_owned());
    match a.format {
        AudioFormat::Mp3 => {
            r.push("-c:a".to_owned());
            r.push("libmp3lame".to_owned());
            r.push("-b:a".to_owned());
            r.push(bitrate_arg(a.quality));
        },
        AudioFormat::Wav => {
            r.push("-c:a".to_owned());
            r.push("pcm_s16le".to_owned());
            r.push("-ar".to_owned());
            r.push("44100".to_owned());
        },
        AudioFormat::Flac => {
            r.push("-c:a".to_owned());
            r.push("flac".to_owned());
            r.push("-compression_level".to_owned());
            r.push("5".to_owned());
        },
        AudioFormat::Aac => {
            r.push("-c:a".to_owned());
            r.push("aac".to_owned());
            r.push("-b:a".to_owned());
            r.push(bitrate_arg(a.quality));
        },
    }
    r.push("-vn".to_owned());
    r.push(a.output.clone());
    proof {
        assert(r.deep_view() =~~= ffmpeg_args_spec(a@));
    }
    r
}

} // verus!
