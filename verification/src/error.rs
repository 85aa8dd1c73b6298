//! The errors that the library reports, with the messages shown to the user.
use vstd::prelude::*;
use crate::text::{concat_str, owned};

verus! {

pub const UNKNOWN_MODEL_PREFIX: &'static str = "unknown model '";

pub const MODEL_NOT_INSTALLED: &'static str = "selected Whisper model is not installed";

pub const WHISPER_NOT_FOUND: &'static str = "Whisper binary not found. Install whisper.cpp with `brew install whisper-cpp`, then set the Whisper binary path to `whisper-cli` or the full path shown by `which whisper-cli`.";

pub const WHISPER_LAUNCH_PREFIX: &'static str = "failed to run whisper.cpp: ";

pub const WHISPER_FAILED_PREFIX: &'static str = "whisper.cpp failed: ";

/// What can go wrong in choosing a speech model or running the recogniser.
#[derive(Debug)]
pub enum WhisprError {
    /// No model of the catalog has this id.
    UnknownModel(String),
    /// The selected model's file is not on disk.
    ModelNotInstalled,
    /// The recogniser's program could not be found.
    WhisperNotFound,
    /// The recogniser could not be started, for the reason given.
    WhisperLaunchFailed(String),
    /// The recogniser ran and failed; its trimmed error output.
    WhisperFailed(String),
}

/// The message of an error, as the user reads it.
pub open spec fn error_message(e: WhisprError) -> Seq<char> {
    match e {
        WhisprError::UnknownModel(id) => UNKNOWN_MODEL_PREFIX@ + id@ + "'"@,
        WhisprError::ModelNotInstalled => MODEL_NOT_INSTALLED@,
        WhisprError::WhisperNotFound => WHISPER_NOT_FOUND@,
        WhisprError::WhisperLaunchFailed(detail) => WHISPER_LAUNCH_PREFIX@ + detail@,
        WhisprError::WhisperFailed(stderr) => WHISPER_FAILED_PREFIX@ + stderr@,
    }
}

impl WhisprError {
    /// The message of this error.
    pub fn message(&self) -> (m: String)
        ensures
            m@ == error_message(*self),
    {
        match self {
            WhisprError::UnknownModel(id) => {
                let head = concat_str(UNKNOWN_MODEL_PREFIX, id.as_str());
                let m = concat_str(head.as_str(), "'");
                m
            },
            WhisprError::ModelNotInstalled => owned(MODEL_NOT_INSTALLED),
            WhisprError::WhisperNotFound => owned(WHISPER_NOT_FOUND),
            WhisprError::WhisperLaunchFailed(detail) => concat_str(WHISPER_LAUNCH_PREFIX, detail.as_str()),
            WhisprError::WhisperFailed(stderr) => concat_str(WHISPER_FAILED_PREFIX, stderr.as_str()),
        }
    }
}


/// The error messages, word for word.
pub proof fn law_error_texts()
    ensures
        UNKNOWN_MODEL_PREFIX@ == "unknown model '"@,
        MODEL_NOT_INSTALLED@ == "selected Whisper model is not installed"@,
        WHISPER_NOT_FOUND@ == "Whisper binary not found. Install whisper.cpp with `brew install whisper-cpp`, then set the Whisper binary path to `whisper-cli` or the full path shown by `which whisper-cli`."@,
        WHISPER_LAUNCH_PREFIX@ == "failed to run whisper.cpp: "@,
        WHISPER_FAILED_PREFIX@ == "whisper.cpp failed: "@,
{
}

} // verus!
