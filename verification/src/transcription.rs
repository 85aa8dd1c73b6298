//! Running the speech recogniser: its command line, and what its output and
//! its failures mean.
use vstd::prelude::*;
use crate::config::{AppConfig, BANGLA, is_bangla};
use crate::error::WhisprError;
use crate::text::{owned, str_eq, trim_text, trimmed};
use vstd::utf8::{decode_utf8, valid_utf8};

verus! {

/// The recogniser's name for Bangla.
pub const WHISPER_BENGALI: &'static str = "bengali";

/// The initial prompt that steers the recogniser towards Bengali script.
pub const BANGLA_WHISPER_PROMPT: &'static str = "বাংলা ভাষা। বাংলা লিপিতে লিখুন। উদাহরণ: আমি আজকে ভালো আছি। ধন্যবাদ।";

pub const MODEL_FLAG: &'static str = "-m";
pub const FILE_FLAG: &'static str = "-f";
pub const LANGUAGE_FLAG: &'static str = "-l";
pub const PROMPT_FLAG: &'static str = "--prompt";
pub const NO_TIMESTAMPS_FLAG: &'static str = "-nt";

/// The recogniser's name of the language setting: `bengali` for `bn`, the
/// setting itself otherwise.
pub open spec fn whisper_language_name(language: Seq<char>) -> Seq<char> {
    if is_bangla(language) {
        WHISPER_BENGALI@
    } else {
        language
    }
}

/// The recogniser's name of the language setting.
pub fn whisper_language(language: &str) -> (name: String)
    ensures
        name@ == whisper_language_name(language@),
{
    if str_eq(language, BANGLA) {
        owned(WHISPER_BENGALI)
    } else {
        owned(language)
    }
}

/// The recogniser's arguments before the audio file: the model, then the flag
/// that introduces the audio file.
pub open spec fn leading_args(model_path: Seq<char>) -> Seq<Seq<char>> {
    seq![MODEL_FLAG@, model_path, FILE_FLAG@]
}

/// The recogniser's arguments after the audio file: the language, for Bangla
/// the steering prompt, and no timestamps.
pub open spec fn trailing_args(language: Seq<char>) -> Seq<Seq<char>> {
    let prompt = if is_bangla(language) {
        seq![PROMPT_FLAG@, BANGLA_WHISPER_PROMPT@]
    } else {
        seq![]
    };
    seq![LANGUAGE_FLAG@, whisper_language_name(language)] + prompt + seq![NO_TIMESTAMPS_FLAG@]
}

/// A run of the recogniser: the program, and the arguments that go before and
/// after the audio file's path, which is passed between them as it is.
#[derive(Debug)]
pub struct WhisperInvocation {
    pub program: String,
    pub leading: Vec<String>,
    pub trailing: Vec<String>,
}

/// The views of some strings.
pub open spec fn views(v: Seq<String>) -> Seq<Seq<char>> {
    v.map_values(|s: String| s@)
}

/// How to run the recogniser with the model file at `model_path`;
/// `ModelNotInstalled` when that file is not there.
pub fn whisper_invocation(config: &AppConfig, model_path: &str, model_installed: bool) -> (r: Result<WhisperInvocation, WhisprError>)
    ensures
        model_installed ==> (r matches Ok(run) && run.program@ == config.whisper_binary_path@
            && views(run.leading@) == leading_args(model_path@) && views(run.trailing@)
            == trailing_args(config.language@)),
        !model_installed ==> r matches Err(WhisprError::ModelNotInstalled),
{
    if !model_installed {
        return Err(WhisprError::ModelNotInstalled);
    }
    let mut leading: Vec<String> = Vec::new();
    leading.push(owned(MODEL_FLAG));
    leading.push(owned(model_path));
    leading.push(owned(FILE_FLAG));
    let mut trailing: Vec<String> = Vec::new();
    trailing.push(owned(LANGUAGE_FLAG));
    trailing.push(whisper_language(config.language.as_str()));
    if config.is_bangla() {
        trailing.push(owned(PROMPT_FLAG));
        trailing.push(owned(BANGLA_WHISPER_PROMPT));
    }
    trailing.push(owned(NO_TIMESTAMPS_FLAG));
    assert(views(leading@) =~= leading_args(model_path@));
    assert(views(trailing@) =~= trailing_args(config.language@));
    Ok(WhisperInvocation { program: owned(config.whisper_binary_path.as_str()), leading, trailing })
}

/// The text that `String::from_utf8_lossy` reads from `bytes`.
pub uninterp spec fn lossy_utf8(bytes: Seq<u8>) -> Seq<char>;

/// `String::from_utf8_lossy`. Well-formed UTF-8 is decoded as it is; how
/// malformed sequences are replaced is left to the name `lossy_utf8`.
#[verifier::external_body]
fn text_from_bytes(bytes: &[u8]) -> (s: String)
    ensures
        s@ == lossy_utf8(bytes@),
        valid_utf8(bytes@) ==> s@ == decode_utf8(bytes@),
{
    String::from_utf8_lossy(bytes).into_owned()
}

/// What a finished run of the recogniser gives: on success the trimmed text
/// of its output, else `WhisperFailed` with the trimmed text of its error
/// output.
pub open spec fn run_outcome(success: bool, stdout: Seq<u8>, stderr: Seq<u8>) -> Result<Seq<char>, Seq<char>> {
    if success {
        Ok(trimmed(lossy_utf8(stdout)))
    } else {
        Err(trimmed(lossy_utf8(stderr)))
    }
}

/// Reads the transcript from the decoded output of a finished run of the
/// recogniser: on success its trimmed output, else `WhisperFailed` with its
/// trimmed error output.
pub fn transcript_from_output(success: bool, stdout: &str, stderr: &str) -> (r: Result<String, WhisprError>)
    ensures
        success ==> (r matches Ok(text) && text@ == trimmed(stdout@)),
        !success ==> (r matches Err(WhisprError::WhisperFailed(detail)) && detail@ == trimmed(stderr@)),
{
    if success {
        Ok(trim_text(stdout))
    } else {
        Err(WhisprError::WhisperFailed(trim_text(stderr)))
    }
}

/// Reads the transcript from a finished run of the recogniser: decodes the
/// output that matters and reads it.
pub fn whisper_transcript(success: bool, stdout: &[u8], stderr: &[u8]) -> (r: Result<String, WhisprError>)
    ensures
        match run_outcome(success, stdout@, stderr@) {
            Ok(t) => r matches Ok(text) && text@ == t,
            Err(e) => r matches Err(WhisprError::WhisperFailed(detail)) && detail@ == e,
        },
{
    if success {
        let out = text_from_bytes(stdout);
        let empty = String::new();
        transcript_from_output(true, out.as_str(), empty.as_str())
    } else {
        let err = text_from_bytes(stderr);
        let empty = String::new();
        transcript_from_output(false, empty.as_str(), err.as_str())
    }
}

/// The error of a recogniser that could not be started: `WhisperNotFound`
/// when its program does not exist, else `WhisperLaunchFailed` with the reason.
pub fn launch_error(program_missing: bool, detail: String) -> (e: WhisprError)
    ensures
        program_missing ==> e matches WhisprError::WhisperNotFound,
        !program_missing ==> (e matches WhisprError::WhisperLaunchFailed(d) && d@ == detail@),
{
    if program_missing {
        WhisprError::WhisperNotFound
    } else {
        WhisprError::WhisperLaunchFailed(detail)
    }
}


/// The recogniser is steered only for Bangla: for every other setting, such as
/// `auto`, the arguments after the audio file are exactly `-l`, the setting
/// itself and `-nt`; for `bn` they are `-l bengali`, the steering prompt and
/// `-nt`.
pub proof fn law_steering_prompt_only_for_bangla(language: Seq<char>)
    ensures
        language != "bn"@ ==> trailing_args(language) == seq!["-l"@, language, "-nt"@],
        language == "bn"@ ==> trailing_args(language) == seq![
            "-l"@,
            "bengali"@,
            "--prompt"@,
            "বাংলা ভাষা। বাংলা লিপিতে লিখুন। উদাহরণ: আমি আজকে ভালো আছি। ধন্যবাদ।"@,
            "-nt"@,
        ],
{
    assert(trailing_args(language) =~= if language == "bn"@ {
        seq![
            "-l"@,
            "bengali"@,
            "--prompt"@,
            "বাংলা ভাষা। বাংলা লিপিতে লিখুন। উদাহরণ: আমি আজকে ভালো আছি। ধন্যবাদ।"@,
            "-nt"@,
        ]
    } else {
        seq!["-l"@, language, "-nt"@]
    });
}


/// The recogniser's command line starts with the model file, then the flag
/// for the audio file: `-m`, the model's path, `-f`.
pub proof fn law_leading_arguments(model_path: Seq<char>)
    ensures
        leading_args(model_path) == seq!["-m"@, model_path, "-f"@],
{
}

/// The recogniser's name of a language setting: `bengali` for `bn`, the
/// setting itself for any other.
pub proof fn law_whisper_language_name(language: Seq<char>)
    ensures
        language == "bn"@ ==> whisper_language_name(language) == "bengali"@,
        language != "bn"@ ==> whisper_language_name(language) == language,
{
}


/// The recogniser's flags, Bangla name and steering prompt, word for word.
pub proof fn law_transcription_texts()
    ensures
        WHISPER_BENGALI@ == "bengali"@,
        BANGLA_WHISPER_PROMPT@ == "বাংলা ভাষা। বাংলা লিপিতে লিখুন। উদাহরণ: আমি আজকে ভালো আছি। ধন্যবাদ।"@,
        MODEL_FLAG@ == "-m"@,
        FILE_FLAG@ == "-f"@,
        LANGUAGE_FLAG@ == "-l"@,
        PROMPT_FLAG@ == "--prompt"@,
        NO_TIMESTAMPS_FLAG@ == "-nt"@,
{
}

} // verus!
