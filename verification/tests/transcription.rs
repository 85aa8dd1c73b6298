use whispr::transcription::transcript_from_output;
use whispr::config::AppConfig;
use whispr::error::WhisprError;
use whispr::transcription::{launch_error, whisper_invocation, whisper_language, whisper_transcript, BANGLA_WHISPER_PROMPT};

fn config(language: &str) -> AppConfig {
    let mut c = AppConfig::default_with_models_dir("/m".to_string());
    c.language = language.to_string();
    c.whisper_binary_path = "/usr/bin/whisper-cli".to_string();
    c
}

#[test]
fn bangla_is_named_bengali_for_the_recogniser() {
    assert_eq!(whisper_language("bn"), "bengali");
    assert_eq!(whisper_language("en"), "en");
    assert_eq!(whisper_language("auto"), "auto");
}

#[test]
fn invocation_lists_model_file_language_and_no_timestamps() {
    let run = whisper_invocation(&config("en"), "/m/ggml-base.bin", true).unwrap();
    assert_eq!(run.program, "/usr/bin/whisper-cli");
    assert_eq!(run.leading, vec!["-m", "/m/ggml-base.bin", "-f"]);
    assert_eq!(run.trailing, vec!["-l", "en", "-nt"]);
}

#[test]
fn bangla_invocation_adds_the_steering_prompt() {
    let run = whisper_invocation(&config("bn"), "m.bin", true).unwrap();
    assert_eq!(run.leading, vec!["-m", "m.bin", "-f"]);
    assert_eq!(run.trailing, vec!["-l", "bengali", "--prompt", BANGLA_WHISPER_PROMPT, "-nt"]);
}

#[test]
fn missing_model_stops_the_invocation() {
    match whisper_invocation(&config("en"), "m.bin", false) {
        Err(e) => assert_eq!(e.message(), "selected Whisper model is not installed"),
        Ok(_) => panic!("expected an error"),
    }
}

#[test]
fn successful_run_gives_trimmed_output() {
    let t = whisper_transcript(true, " Hello world.\n".as_bytes(), b"ignored").unwrap();
    assert_eq!(t, "Hello world.");
    let t = whisper_transcript(true, "আমি ভালো\n".as_bytes(), b"").unwrap();
    assert_eq!(t, "আমি ভালো");
}

#[test]
fn malformed_output_is_read_lossily() {
    let t = whisper_transcript(true, &[b'a', 0xff, b'b'], b"").unwrap();
    assert_eq!(t, "a\u{FFFD}b");
}

#[test]
fn failed_run_reports_trimmed_error_output() {
    match whisper_transcript(false, b"out", b"  boom\n") {
        Err(e) => assert_eq!(e.message(), "whisper.cpp failed: boom"),
        Ok(_) => panic!("expected an error"),
    }
}

#[test]
fn launch_errors_tell_a_missing_program_apart() {
    assert!(matches!(launch_error(true, "x".to_string()), WhisprError::WhisperNotFound));
    assert_eq!(
        launch_error(true, "x".to_string()).message(),
        "Whisper binary not found. Install whisper.cpp with `brew install whisper-cpp`, then set the Whisper binary path to `whisper-cli` or the full path shown by `which whisper-cli`."
    );
    assert_eq!(
        launch_error(false, "permission denied".to_string()).message(),
        "failed to run whisper.cpp: permission denied"
    );
}

#[test]
fn decoded_output_is_trimmed() {
    assert_eq!(transcript_from_output(true, "  a b \n", "e").unwrap(), "a b");
    match transcript_from_output(false, "o", "\n err \n") {
        Err(WhisprError::WhisperFailed(d)) => assert_eq!(d, "err"),
        other => panic!("unexpected {:?}", other),
    }
}
