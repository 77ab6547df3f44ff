use speech_to_text::errors::{check_inputs, RecognitionError};
use speech_to_text::file_handler::{text_filename_from_parts, transcript_file_contents, FileHandler};

#[test]
fn filename_in_same_directory() {
    assert_eq!(FileHandler::generate_text_filename("samples/hello.wav"), "samples/text_hello.txt");
}

#[test]
fn filename_without_directory() {
    assert_eq!(FileHandler::generate_text_filename("hello.wav"), "text_hello.txt");
}

#[test]
fn filename_keeps_only_last_extension() {
    assert_eq!(FileHandler::generate_text_filename("a/b/talk.final.mp3"), "a/b/text_talk.final.txt");
}

#[test]
fn filename_without_extension() {
    assert_eq!(FileHandler::generate_text_filename("/data/record"), "/data/text_record.txt");
}

#[test]
fn filename_without_stem_falls_back() {
    assert_eq!(FileHandler::generate_text_filename(""), "text_unknown_audio.txt");
}

#[test]
fn filename_from_parts() {
    assert_eq!(text_filename_from_parts(Some("dir"), Some("x")), "dir/text_x.txt");
    assert_eq!(text_filename_from_parts(Some(""), Some("x")), "text_x.txt");
    assert_eq!(text_filename_from_parts(None, Some("x")), "text_x.txt");
    assert_eq!(text_filename_from_parts(None, None), "text_unknown_audio.txt");
}

#[test]
fn contents_end_in_one_newline() {
    assert_eq!(transcript_file_contents("hello world"), "hello world\n");
    assert_eq!(transcript_file_contents(""), "\n");
}

#[test]
fn missing_audio_is_reported_as_audio() {
    assert_eq!(check_inputs(true, false), Err(RecognitionError::AudioNotFound));
}

#[test]
fn missing_model_is_reported_first() {
    assert_eq!(check_inputs(false, false), Err(RecognitionError::ModelNotFound));
    assert_eq!(check_inputs(false, true), Err(RecognitionError::ModelNotFound));
    assert_eq!(check_inputs(true, true), Ok(()));
}
