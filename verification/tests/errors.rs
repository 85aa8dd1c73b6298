use whispr::error::WhisprError;

#[test]
fn every_error_has_its_message() {
    assert_eq!(WhisprError::UnknownModel("tiny".to_string()).message(), "unknown model 'tiny'");
    assert_eq!(WhisprError::ModelNotInstalled.message(), "selected Whisper model is not installed");
    assert!(WhisprError::WhisperNotFound.message().starts_with("Whisper binary not found."));
    assert_eq!(
        WhisprError::WhisperLaunchFailed("denied".to_string()).message(),
        "failed to run whisper.cpp: denied"
    );
    assert_eq!(WhisprError::WhisperFailed("bad".to_string()).message(), "whisper.cpp failed: bad");
}
