//! The user's settings.
use vstd::prelude::*;
use crate::models::{recommended_model_id, recommended_id};
use crate::text::{owned, str_eq};

verus! {

pub const DEFAULT_WHISPER_BINARY: &'static str = "whisper-cli";

pub const DEFAULT_OLLAMA_URL: &'static str = "http://localhost:11434";

pub const DEFAULT_OLLAMA_MODEL: &'static str = "llama3.2:3b";

pub const DEFAULT_LANGUAGE: &'static str = "auto";

/// The language code that selects Bangla.
pub const BANGLA: &'static str = "bn";

/// The language code that selects English.
pub const ENGLISH: &'static str = "en";

/// The settings of the application.
#[derive(Debug)]
pub struct AppConfig {
    /// The speech recogniser's program.
    pub whisper_binary_path: String,
    /// The folder that holds the speech models.
    pub models_dir: String,
    /// The id of the speech model in use.
    pub selected_model_id: String,
    /// Whether transcripts go through the language model before they are pasted.
    pub cleanup_enabled: bool,
    /// Where the local language model server listens.
    pub ollama_url: String,
    /// The language model that cleans transcripts.
    pub ollama_model: String,
    /// The spoken language: a code such as `bn` or `en`, or `auto`.
    pub language: String,
    /// Whether a finished Bangla dictation is reported to the settings window.
    pub bangla_debug_enabled: bool,
}

/// The language setting selects Bangla.
pub open spec fn is_bangla(language: Seq<char>) -> bool {
    language == BANGLA@
}

impl AppConfig {
    /// The settings of a first start, with the speech models kept in
    /// `models_dir`.
    pub fn default_with_models_dir(models_dir: String) -> (c: AppConfig)
        ensures
            c.whisper_binary_path@ == DEFAULT_WHISPER_BINARY@,
            c.models_dir@ == models_dir@,
            c.selected_model_id@ == recommended_id(),
            c.cleanup_enabled,
            c.ollama_url@ == DEFAULT_OLLAMA_URL@,
            c.ollama_model@ == DEFAULT_OLLAMA_MODEL@,
            c.language@ == DEFAULT_LANGUAGE@,
            !c.bangla_debug_enabled,
    {
        AppConfig {
            whisper_binary_path: owned(DEFAULT_WHISPER_BINARY),
            models_dir,
            selected_model_id: recommended_model_id(),
            cleanup_enabled: true,
            ollama_url: owned(DEFAULT_OLLAMA_URL),
            ollama_model: owned(DEFAULT_OLLAMA_MODEL),
            language: owned(DEFAULT_LANGUAGE),
            bangla_debug_enabled: false,
        }
    }

    /// Whether the language setting selects Bangla.
    pub fn is_bangla(&self) -> (b: bool)
        ensures
            b == is_bangla(self.language@),
    {
        str_eq(self.language.as_str(), BANGLA)
    }

    /// Whether a finished dictation is reported to the settings window: only
    /// in Bangla, and only when the user asked for it.
    pub fn emits_bangla_debug(&self) -> (b: bool)
        ensures
            b == (is_bangla(self.language@) && self.bangla_debug_enabled),
    {
        self.is_bangla() && self.bangla_debug_enabled
    }
}


/// The first-start settings and language codes, word for word.
pub proof fn law_config_texts()
    ensures
        DEFAULT_WHISPER_BINARY@ == "whisper-cli"@,
        DEFAULT_OLLAMA_URL@ == "http://localhost:11434"@,
        DEFAULT_OLLAMA_MODEL@ == "llama3.2:3b"@,
        DEFAULT_LANGUAGE@ == "auto"@,
        BANGLA@ == "bn"@,
        ENGLISH@ == "en"@,
{
}

} // verus!
