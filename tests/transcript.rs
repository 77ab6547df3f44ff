use speech_to_text::engine::FinalResult;
use speech_to_text::session::{extract_final_text, RecognitionConfig, SAMPLE_RATE_HZ};

#[test]
fn no_alternative_gives_empty_transcript() {
    assert_eq!(extract_final_text(&FinalResult::Multiple(Vec::new())), "");
}

#[test]
fn first_alternative_wins() {
    let alts = vec!["hello world".to_string(), "yellow word".to_string()];
    assert_eq!(extract_final_text(&FinalResult::Multiple(alts)), "hello world");
}

#[test]
fn single_result_text() {
    assert_eq!(extract_final_text(&FinalResult::Single("good morning".to_string())), "good morning");
}

#[test]
fn config_fixes_policy() {
    let c = RecognitionConfig::new("models/en", SAMPLE_RATE_HZ);
    assert_eq!(c.model_path, "models/en");
    assert_eq!(c.sample_rate_hz, 16000);
    assert_eq!(c.max_alternatives, 1);
    assert!(!c.words);
    assert!(!c.partial_words);
}
