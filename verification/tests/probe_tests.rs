use audio_extractor::command::bitrate_arg;
use audio_extractor::placeholder::placeholder_content;
use audio_extractor::text::u32_dec;
use audio_extractor::video::scan_video_json;
use audio_extractor::{Args, AudioExtractor, AudioFileInfo, AudioFormat, ExtractError};

/// Probes in-memory bytes with symphonia, as the embedding program does for
/// a file on disk, reporting the default track's metadata or the diagnostic.
fn probe_bytes_raw(data: Vec<u8>) -> Result<AudioFileInfo, String> {
    let src = Box::new(std::io::Cursor::new(data));
    let mss = symphonia::core::io::MediaSourceStream::new(src, Default::default());
    let hint = symphonia::core::probe::Hint::new();
    match symphonia::default::get_probe().format(&hint, mss, &Default::default(), &Default::default())
    {
        Err(e) => Err(e.to_string()),
        Ok(p) => match p.format.default_track() {
            None => Err("No default audio track found".to_string()),
            Some(t) => {
                let c = &t.codec_params;
                Ok(AudioFileInfo {
                    format: c.codec.to_string(),
                    duration_parts: c.n_frames.zip(c.time_base).map(|(f, tb)| (f, tb.denom)),
                    channels: c.channels.map(|x| x.count()),
                    sample_rate: c.sample_rate,
                })
            }
        },
    }
}

/// A minimal mono 16-bit PCM WAV file at 44.1 kHz with four frames.
fn wav_bytes() -> Vec<u8> {
    let mut b: Vec<u8> = Vec::new();
    b.extend_from_slice(b"RIFF");
    b.extend_from_slice(&44u32.to_le_bytes());
    b.extend_from_slice(b"WAVE");
    b.extend_from_slice(b"fmt ");
    b.extend_from_slice(&16u32.to_le_bytes());
    b.extend_from_slice(&1u16.to_le_bytes()); // PCM
    b.extend_from_slice(&1u16.to_le_bytes()); // mono
    b.extend_from_slice(&44100u32.to_le_bytes());
    b.extend_from_slice(&88200u32.to_le_bytes());
    b.extend_from_slice(&2u16.to_le_bytes()); // block align
    b.extend_from_slice(&16u16.to_le_bytes()); // bits per sample
    b.extend_from_slice(b"data");
    b.extend_from_slice(&8u32.to_le_bytes());
    b.extend_from_slice(&[0, 0, 1, 0, 2, 0, 3, 0]);
    b
}

#[test]
fn test_verify_standalone_missing_file() {
    let r = AudioExtractor::verify_standalone(
        &"gone.mp3".to_string(),
        false,
        0,
        Err(String::new()),
    );
    assert!(matches!(r, Err(ExtractError::FileMissing(ref p)) if p == "gone.mp3"));
    let msg = r.unwrap_err().message();
    assert!(msg.contains("Audio file does not exist"));
}

#[test]
fn test_verify_standalone_empty_file_any_name() {
    for path in ["a.mp3", "b.xyz", "c", "d.wav"] {
        let r = AudioExtractor::verify_standalone(
            &path.to_string(),
            true,
            0,
            Err("never consulted".to_string()),
        );
        assert!(
            matches!(r, Err(ExtractError::EmptyFile(ref p)) if p == path),
            "path {}",
            path
        );
        assert!(r.unwrap_err().message().contains("Audio file is empty"));
    }
}

#[test]
fn test_verify_standalone_empty_file_ignores_probe_report() {
    let report = Ok(AudioFileInfo {
        format: "0x108".to_string(),
        duration_parts: None,
        channels: None,
        sample_rate: None,
    });
    let r = AudioExtractor::verify_standalone(&"a.wav".to_string(), true, 0, report);
    assert!(matches!(r, Err(ExtractError::EmptyFile(_))));
}

#[test]
fn test_verify_standalone_unparsable_bytes() {
    let data = b"# just a text placeholder".to_vec();
    let len = data.len() as u64;
    let probe = probe_bytes_raw(data);
    let r = AudioExtractor::verify_standalone(&"x.mp3".to_string(), true, len, probe);
    assert!(matches!(r, Err(ExtractError::ProbeFailure(_))));
}

#[test]
fn test_verify_standalone_parses_wav() {
    let data = wav_bytes();
    let len = data.len() as u64;
    let probe = probe_bytes_raw(data);
    let r = AudioExtractor::verify_standalone(&"x.wav".to_string(), true, len, probe);
    let info = r.expect("wav bytes should probe");
    // CODEC_TYPE_PCM_S16LE, printed in symphonia's hexadecimal notation.
    assert_eq!(info.format, "0x108");
    assert_eq!(info.sample_rate, Some(44100));
    assert_eq!(info.channels, Some(1));
    let (frames, denom) = info.duration_parts.expect("wav exposes frames and time base");
    assert_eq!(frames, 4);
    assert_eq!(denom, 44100);
    let duration = frames as f64 / denom as f64;
    assert!((duration - 4.0 / 44100.0).abs() < 1e-12);
}

#[test]
fn test_error_messages_name_each_failure() {
    let cases = vec![
        (
            ExtractError::InputNotFound("a".to_string()),
            "Input file does not exist: a",
        ),
        (
            ExtractError::UnsupportedInputFormat("b".to_string()),
            "Input file is not a supported video format: b",
        ),
        (
            ExtractError::DirectoryCreationError("c".to_string()),
            "Failed to create output directory: c",
        ),
        (ExtractError::ExternalToolError("d".to_string()), "FFmpeg failed: d"),
        (
            ExtractError::PlaceholderWriteError("e".to_string()),
            "Failed to write placeholder file: e",
        ),
        (
            ExtractError::OutputMissing("f".to_string()),
            "Output audio file does not exist: f",
        ),
        (
            ExtractError::FileMissing("i".to_string()),
            "Audio file does not exist: i",
        ),
        (ExtractError::EmptyFile("g".to_string()), "Audio file is empty: g"),
        (
            ExtractError::ProbeFailure("h".to_string()),
            "Failed to probe audio file format: h",
        ),
    ];
    for (err, expected) in cases {
        assert_eq!(err.message(), expected);
    }
}

#[test]
fn test_decimal_rendering() {
    assert_eq!(u32_dec(0), "0");
    assert_eq!(u32_dec(7), "7");
    assert_eq!(u32_dec(128), "128");
    assert_eq!(u32_dec(305), "305");
    assert_eq!(u32_dec(u32::MAX), "4294967295");
}

#[test]
fn test_bitrate_rendering() {
    assert_eq!(bitrate_arg(128), "128k");
    assert_eq!(bitrate_arg(320), "320k");
}

#[test]
fn test_placeholder_embeds_configuration() {
    let a = Args {
        input: "movies/clip.mp4".to_string(),
        output: "x.aac".to_string(),
        format: AudioFormat::Aac,
        quality: 256,
        verify: false,
    };
    let content = placeholder_content(&a, "2024-01-02 03:04:05 UTC");
    assert!(content.starts_with("# Audio Extraction Placeholder"));
    assert!(content.contains("movies/clip.mp4"));
    assert!(content.contains("Target format: aac"));
    assert!(content.contains("Target quality: 256 kbps"));
    assert!(content.contains("2024-01-02 03:04:05 UTC"));
    assert!(content.ends_with('\n'));
}

#[test]
fn test_scan_report_with_duration_and_audio() {
    let json = r#"{"streams":[{"codec_type":"audio"}],"format":{"duration":"12.34","size":"1"}}"#;
    let s = scan_video_json(json);
    assert!(s.has_audio);
    assert_eq!(s.duration_text.as_deref(), Some("12.34"));
}

#[test]
fn test_scan_report_without_audio_stream() {
    let json = r#"{"streams":[{"codec_type":"video"}],"format":{"duration":"5.0","x":"y"}}"#;
    let s = scan_video_json(json);
    assert!(!s.has_audio);
    assert_eq!(s.duration_text.as_deref(), Some("5.0"));
}

#[test]
fn test_scan_report_without_duration() {
    let s = scan_video_json(r#"{"format":{"size":"1"}}"#);
    assert!(s.duration_text.is_none());
    let no_comma = scan_video_json(r#"{"format":{"duration":"9.9"}}"#);
    assert!(no_comma.duration_text.is_none());
}
