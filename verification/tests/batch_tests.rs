use audio_extractor::batch::collect_batch;
use audio_extractor::{AudioExtractor, AudioFormat, ExtractError};

#[test]
fn test_batch_plans_one_output_per_input() {
    let inputs = vec!["a.mp4".to_string(), "b.avi".to_string()];
    let plans = AudioExtractor::extract_batch(
        &inputs,
        &"out".to_string(),
        AudioFormat::Mp3,
        128,
        false,
    );
    assert_eq!(plans.len(), 2);
    let a = plans[0].as_ref().unwrap();
    assert_eq!(a.input, "a.mp4");
    assert_eq!(a.output, "out/a.mp3");
    assert_eq!(a.quality, 128);
    assert!(!a.verify);
    let b = plans[1].as_ref().unwrap();
    assert_eq!(b.output, "out/b.mp3");
}

#[test]
fn test_batch_isolates_one_failure() {
    let inputs = vec!["a.mp4".to_string(), "b.mp4".to_string(), "c.mp4".to_string()];
    let plans = AudioExtractor::extract_batch(
        &inputs,
        &"out".to_string(),
        AudioFormat::Wav,
        128,
        false,
    );
    let runs: Vec<Result<(), ExtractError>> = vec![
        Ok(()),
        Err(ExtractError::InputNotFound("b.mp4".to_string())),
        Ok(()),
    ];
    let results = collect_batch(&plans, &runs);
    assert_eq!(results.len(), 3);
    assert_eq!(results[0].as_ref().unwrap(), "out/a.wav");
    assert!(matches!(
        results[1],
        Err(ExtractError::InputNotFound(ref p)) if p == "b.mp4"
    ));
    assert_eq!(results[2].as_ref().unwrap(), "out/c.wav");
}

#[test]
fn test_batch_input_without_stem_fails_its_slot_only() {
    let inputs = vec!["".to_string(), "a.mp4".to_string()];
    let plans = AudioExtractor::extract_batch(
        &inputs,
        &"out".to_string(),
        AudioFormat::Flac,
        128,
        false,
    );
    assert!(matches!(plans[0], Err(ExtractError::UnsupportedInputFormat(_))));
    assert!(plans[1].is_ok());
    let runs: Vec<Result<(), ExtractError>> = vec![Ok(()), Ok(())];
    let results = collect_batch(&plans, &runs);
    assert!(results[0].is_err());
    assert_eq!(results[1].as_ref().unwrap(), "out/a.flac");
}

#[test]
fn test_batch_output_directory_joining() {
    let inputs = vec!["dir/a.mp4".to_string()];
    let trailing = AudioExtractor::extract_batch(
        &inputs,
        &"out/".to_string(),
        AudioFormat::Aac,
        128,
        false,
    );
    assert_eq!(trailing[0].as_ref().unwrap().output, "out/a.aac");
    let empty = AudioExtractor::extract_batch(
        &inputs,
        &String::new(),
        AudioFormat::Aac,
        128,
        false,
    );
    assert_eq!(empty[0].as_ref().unwrap().output, "a.aac");
}

#[test]
fn test_batch_keeps_input_order() {
    let inputs: Vec<String> = (0..5).map(|i| format!("clip{}.mp4", i)).collect();
    let plans = AudioExtractor::extract_batch(
        &inputs,
        &"out".to_string(),
        AudioFormat::Mp3,
        128,
        true,
    );
    let runs: Vec<Result<(), ExtractError>> = (0..5).map(|_| Ok(())).collect();
    let results = collect_batch(&plans, &runs);
    for (i, r) in results.iter().enumerate() {
        assert_eq!(r.as_ref().unwrap(), &format!("out/clip{}.mp3", i));
    }
}
