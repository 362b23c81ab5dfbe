use audio_extractor::{Args, AudioExtractor, AudioFormat, ExtractError};

fn args(input: &str, output: &str) -> Args {
    Args {
        input: input.to_string(),
        output: output.to_string(),
        format: AudioFormat::Mp3,
        quality: 128,
        verify: false,
    }
}

#[test]
fn test_validate_missing_input() {
    let extractor = AudioExtractor::new(args("clip.mp4", "out.mp3"));
    let r = extractor.validate_input(false);
    assert!(matches!(r, Err(ExtractError::InputNotFound(ref p)) if p == "clip.mp4"));
    let msg = r.unwrap_err().message();
    assert!(msg.contains("Input file does not exist"));
}

#[test]
fn test_validate_unsupported_extension() {
    let extractor = AudioExtractor::new(args("notes.txt", "out.mp3"));
    let r = extractor.validate_input(true);
    assert!(matches!(r, Err(ExtractError::UnsupportedInputFormat(ref p)) if p == "notes.txt"));
    let msg = r.unwrap_err().message();
    assert!(msg.contains("not a supported video format"));
}

#[test]
fn test_validate_accepts_video() {
    let extractor = AudioExtractor::new(args("clip.mp4", "out.mp3"));
    assert!(extractor.validate_input(true).is_ok());
}

#[test]
fn test_missing_input_reported_before_extension() {
    let extractor = AudioExtractor::new(args("notes.txt", "out.mp3"));
    let r = extractor.validate_input(false);
    assert!(matches!(r, Err(ExtractError::InputNotFound(_))));
}

#[test]
fn test_is_video_file_case_insensitive() {
    let extractor = AudioExtractor::new(args("x.mp4", "out.mp3"));
    assert!(extractor.is_video_file(&"MOVIE.MP4".to_string()));
    assert!(extractor.is_video_file(&"a.MkV".to_string()));
    assert!(extractor.is_video_file(&"clip.WebM".to_string()));
    // The kelvin sign lowercases to an ASCII k.
    assert!(extractor.is_video_file(&"clip.m\u{212A}v".to_string()));
}

#[test]
fn test_is_video_file_rejects_others() {
    let extractor = AudioExtractor::new(args("x.mp4", "out.mp3"));
    assert!(!extractor.is_video_file(&"notes.txt".to_string()));
    assert!(!extractor.is_video_file(&"archive.mp3".to_string()));
    assert!(!extractor.is_video_file(&"noextension".to_string()));
    assert!(!extractor.is_video_file(&String::new()));
}

#[test]
fn test_is_video_file_dotfile_has_no_extension() {
    let extractor = AudioExtractor::new(args("x.mp4", "out.mp3"));
    assert!(!extractor.is_video_file(&".mp4".to_string()));
    assert!(extractor.is_video_file(&"dir/.hidden.mp4".to_string()));
}

#[test]
fn test_is_video_file_every_allowed_extension() {
    let extractor = AudioExtractor::new(args("x.mp4", "out.mp3"));
    for ext in ["mp4", "avi", "mkv", "mov", "wmv", "flv", "webm"] {
        let lower = format!("movie.{}", ext);
        let upper = format!("movie.{}", ext.to_uppercase());
        assert!(extractor.is_video_file(&lower), "{}", lower);
        assert!(extractor.is_video_file(&upper), "{}", upper);
    }
}

#[test]
fn test_supported_video_formats_list() {
    let v = AudioExtractor::get_supported_video_formats();
    assert_eq!(v, vec!["mp4", "avi", "mkv", "mov", "wmv", "flv", "webm"]);
}

#[test]
fn test_supported_audio_formats_list() {
    let v = AudioExtractor::get_supported_audio_formats();
    assert_eq!(
        v,
        vec![AudioFormat::Mp3, AudioFormat::Wav, AudioFormat::Flac, AudioFormat::Aac]
    );
}

#[test]
fn test_format_names() {
    assert_eq!(AudioFormat::Mp3.as_str(), "mp3");
    assert_eq!(AudioFormat::Wav.as_str(), "wav");
    assert_eq!(AudioFormat::Flac.as_str(), "flac");
    assert_eq!(AudioFormat::Aac.as_str(), "aac");
    assert!(AudioFormat::Mp3.is_lossy());
    assert!(AudioFormat::Aac.is_lossy());
    assert!(!AudioFormat::Wav.is_lossy());
    assert!(!AudioFormat::Flac.is_lossy());
}
