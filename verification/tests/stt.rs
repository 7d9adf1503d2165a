use std::path::PathBuf;

use backend::stt::{
    join_words, opus_sample_rate, OpusSampleRate, STTDecoderBuilder, SttError, StreamOutput,
    DEFAULT_MAX_OPUS_FRAME_SAMPLES, DEFAULT_WHISPER_SAMPLE_RATE,
};
use backend::transcript::Transcript;

#[test]
fn settings_with_defaults() {
    let settings = STTDecoderBuilder::default()
        .language("en")
        .whisper_model_path(PathBuf::from("models/ggml-tiny.en.bin"))
        .vad_model_path(PathBuf::from("models/ggml-silero-v6.2.0.bin"))
        .settings()
        .unwrap();
    assert_eq!(settings.language, "en");
    assert_eq!(settings.whisper_model_path, PathBuf::from("models/ggml-tiny.en.bin"));
    assert_eq!(settings.vad_model_path, PathBuf::from("models/ggml-silero-v6.2.0.bin"));
    assert_eq!(settings.whisper_sample_rate, 16_000);
    assert_eq!(settings.max_opus_frame_samples, 1_920);
    assert_eq!(DEFAULT_WHISPER_SAMPLE_RATE, 16_000);
    assert_eq!(DEFAULT_MAX_OPUS_FRAME_SAMPLES, 1_920);
}

#[test]
fn settings_keep_what_was_set() {
    let settings = STTDecoderBuilder::new()
        .whisper_sample_rate(48_000)
        .max_opus_frame_samples(5_760)
        .vad_model_path(PathBuf::from("v"))
        .whisper_model_path(PathBuf::from("w"))
        .language("ja")
        .language("de")
        .settings()
        .unwrap();
    assert_eq!(settings.language, "de");
    assert_eq!(settings.whisper_sample_rate, 48_000);
    assert_eq!(settings.max_opus_frame_samples, 5_760);
}

#[test]
fn settings_errors_in_order() {
    assert_eq!(STTDecoderBuilder::new().settings().unwrap_err(), SttError::MissingLanguage);
    assert_eq!(
        STTDecoderBuilder::new().vad_model_path(PathBuf::from("v")).settings().unwrap_err(),
        SttError::MissingLanguage
    );
    assert_eq!(
        STTDecoderBuilder::new().language("en").settings().unwrap_err(),
        SttError::MissingWhisperModelPath
    );
    assert_eq!(
        STTDecoderBuilder::new()
            .language("en")
            .whisper_model_path(PathBuf::from("w"))
            .settings()
            .unwrap_err(),
        SttError::MissingVadModelPath
    );
}

#[test]
fn opus_rates() {
    assert_eq!(opus_sample_rate(8_000), Ok(OpusSampleRate::Hz8000));
    assert_eq!(opus_sample_rate(12_000), Ok(OpusSampleRate::Hz12000));
    assert_eq!(opus_sample_rate(16_000), Ok(OpusSampleRate::Hz16000));
    assert_eq!(opus_sample_rate(24_000), Ok(OpusSampleRate::Hz24000));
    assert_eq!(opus_sample_rate(48_000), Ok(OpusSampleRate::Hz48000));
    assert_eq!(opus_sample_rate(44_100), Err(SttError::UnsupportedSampleRate(44_100)));
    assert_eq!(opus_sample_rate(0), Err(SttError::UnsupportedSampleRate(0)));
}

#[test]
fn words_are_joined() {
    let words = vec![" Hello".to_string(), " there".to_string()];
    assert_eq!(join_words(&words, ""), Some(" Hello there".to_string()));
    assert_eq!(join_words(&words, " "), Some(" Hello  there".to_string()));
    assert_eq!(join_words(&[], " "), None);
}

#[test]
fn stream_output_text() {
    assert!(!StreamOutput::default().has_text());
    let output = StreamOutput::from_words(&["maybe".to_string()], &[], " ");
    assert!(output.has_text());
    assert_eq!(output.tentative_text.as_deref(), Some("maybe"));
    assert_eq!(output.committed_text, None);
    let output = StreamOutput::from_words(&[], &["yes".to_string(), "sir".to_string()], " ");
    assert!(output.has_text());
    assert_eq!(output.committed_text.as_deref(), Some("yes sir"));
    assert!(!StreamOutput::from_words(&[], &[], " ").has_text());
}

#[test]
fn transcript_collects_and_commits() {
    let mut transcript = Transcript::new();
    assert_eq!(transcript.take_prompt(), None);

    let step = transcript.on_output(StreamOutput {
        tentative_text: Some("I'd like".to_string()),
        committed_text: None,
    });
    assert!(step.reset_deadline);
    assert_eq!(step.buffered, None);

    let step = transcript.on_output(StreamOutput {
        tentative_text: None,
        committed_text: Some("I'd like a coffee".to_string()),
    });
    assert!(step.reset_deadline);
    assert_eq!(step.buffered.as_deref(), Some("I'd like a coffee"));

    let step = transcript.on_output(StreamOutput::default());
    assert!(!step.reset_deadline);
    assert_eq!(step.buffered, None);

    transcript.on_output(StreamOutput {
        tentative_text: None,
        committed_text: Some("with milk".to_string()),
    });
    assert_eq!(transcript.take_prompt().as_deref(), Some("I'd like a coffee with milk"));
    assert_eq!(transcript.take_prompt(), None);
}
