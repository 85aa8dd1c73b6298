//! Cleaning a transcript with the local language model: which request to
//! make, how to judge the reply and what to paste in the end, with a record of
//! how the decision went.
use vstd::prelude::*;
use crate::config::{AppConfig, is_bangla};
use crate::ollama::{
    GENERATE_PATH, build_bangla_prompt, build_cleanup_prompt, build_conversion_prompt,
    bangla_prompt, cleanup_prompt, conversion_prompt, endpoint, ollama_endpoint,
};
use crate::text::{
    Script, concat_str, count_scripts, eq_ignore_ascii_case, eq_ignore_case, looks_english,
    looks_like_english_sentence, owned, script_count, trim_text, trimmed, law_trim_idempotent,
};

verus! {

/// The answer of a model that could not make sense of its input.
pub const UNCLEAR: &'static str = "[unclear]";

pub const EMPTY_TRANSCRIPT: &'static str = "Empty transcript";

pub const CLEANUP_DISABLED: &'static str = "AI cleanup disabled";

pub const ENGLISH_REJECTED: &'static str = "Raw Whisper text looks English; Bangla cleanup translation was rejected";

pub const ARABIC_LOW_CONFIDENCE: &'static str = "Low confidence: Whisper returned Arabic/Urdu script while Bangla was selected";

pub const NO_BENGALI_SCRIPT: &'static str = "Bangla cleanup did not produce Bengali script";

pub const BANGLA_FAILED_PREFIX: &'static str = "Bangla cleanup failed: ";

pub const CONVERTED: &'static str = "Converted cleaned text to Bengali script";

pub const CONVERSION_FAILED: &'static str = "Bengali script conversion failed";

pub const RAW_NEEDS_CONVERSION: &'static str = "Raw Bangla transcript needs Bengali script conversion";

pub const CLEANUP_REJECTED: &'static str = "Cleanup result was rejected";

pub const CLEANUP_FAILED_PREFIX: &'static str = "Cleanup failed: ";

/// How a transcript was turned into the text that is pasted.
#[derive(Debug)]
pub struct TranscriptionDebug {
    /// The transcript, trimmed.
    pub raw: String,
    /// What the language model answered, where it answered.
    pub cleaned: String,
    /// The text that is pasted.
    pub final_text: String,
    /// Whether the pasted text is the language model's.
    pub cleanup_used: bool,
    /// Why the language model's answer was not used as it stands, if it was not.
    pub fallback_reason: Option<String>,
}

/// A `TranscriptionDebug`, as the contracts see it.
pub struct DebugRecord {
    pub raw: Seq<char>,
    pub cleaned: Seq<char>,
    pub final_text: Seq<char>,
    pub cleanup_used: bool,
    pub fallback_reason: Option<Seq<char>>,
}

impl View for TranscriptionDebug {
    type V = DebugRecord;

    open spec fn view(&self) -> DebugRecord {
        DebugRecord {
            raw: self.raw@,
            cleaned: self.cleaned@,
            final_text: self.final_text@,
            cleanup_used: self.cleanup_used,
            fallback_reason: match self.fallback_reason {
                Some(r) => Some(r@),
                None => None,
            },
        }
    }
}

/// The record of the given parts.
pub open spec fn record(
    raw: Seq<char>,
    cleaned: Seq<char>,
    final_text: Seq<char>,
    cleanup_used: bool,
    fallback_reason: Option<Seq<char>>,
) -> DebugRecord {
    DebugRecord { raw, cleaned, final_text, cleanup_used, fallback_reason }
}

/// A record with copies of the given parts.
pub fn debug_result(
    raw: &str,
    cleaned: &str,
    final_text: &str,
    cleanup_used: bool,
    fallback_reason: Option<&str>,
) -> (d: TranscriptionDebug)
    ensures
        d@ == record(
            raw@,
            cleaned@,
            final_text@,
            cleanup_used,
            match fallback_reason {
                Some(r) => Some(r@),
                None => None,
            },
        ),
{
    TranscriptionDebug {
        raw: owned(raw),
        cleaned: owned(cleaned),
        final_text: owned(final_text),
        cleanup_used,
        fallback_reason: match fallback_reason {
            Some(r) => Some(owned(r)),
            None => None,
        },
    }
}

/// A language model's answer is fit to paste: trimmed, it is not empty, it is
/// not `[unclear]` in any ASCII case, and, when the language is Bangla, it has
/// Bengali characters and no Arabic ones.
pub open spec fn accepts_cleaned(language: Seq<char>, cleaned: Seq<char>) -> bool {
    let t = trimmed(cleaned);
    &&& t.len() > 0
    &&& !eq_ignore_ascii_case(t, UNCLEAR@)
    &&& is_bangla(language) ==> script_count(t, Script::Bengali) > 0 && script_count(
        t,
        Script::Arabic,
    ) == 0
}

/// Decides `accepts_cleaned` for the configured language.
pub fn should_use_cleaned_text(config: &AppConfig, cleaned: &str) -> (b: bool)
    ensures
        b == accepts_cleaned(config.language@, cleaned@),
{
    let t = trim_text(cleaned);
    if t.unicode_len() == 0 {
        return false;
    }
    if eq_ignore_case(t.as_str(), UNCLEAR) {
        return false;
    }
    if config.is_bangla() {
        let counts = count_scripts(t.as_str());
        return counts.bengali > 0 && counts.arabic == 0;
    }
    true
}

/// A text is Bangla that still has to be written in Bengali script: it has
/// Arabic or Latin letters and no Bengali ones.
pub open spec fn needs_conversion(text: Seq<char>) -> bool {
    &&& (script_count(text, Script::Arabic) > 0 || script_count(text, Script::Latin) > 0)
    &&& script_count(text, Script::Bengali) == 0
}

/// Decides `needs_conversion`.
pub fn needs_bengali_script_conversion(text: &str) -> (b: bool)
    ensures
        b == needs_conversion(text@),
{
    let counts = count_scripts(text);
    (counts.arabic > 0 || counts.latin > 0) && counts.bengali == 0
}


/// A request to the language model that the cleanup waits on.
#[derive(Debug)]
pub enum CleanupRequest {
    /// Correct a Bangla dictation into Bengali script.
    BanglaCorrection,
    /// Clean the transcript in its own language.
    General,
    /// Write the given cleaned text in Bengali script.
    ScriptConversion(String),
}

/// A `CleanupRequest`, as the contracts see it.
pub enum RequestView {
    BanglaCorrection,
    General,
    ScriptConversion(Seq<char>),
}

impl View for CleanupRequest {
    type V = RequestView;

    open spec fn view(&self) -> RequestView {
        match self {
            CleanupRequest::BanglaCorrection => RequestView::BanglaCorrection,
            CleanupRequest::General => RequestView::General,
            CleanupRequest::ScriptConversion(c) => RequestView::ScriptConversion(c@),
        }
    }
}

/// What the cleanup does next: ask the language model, or finish with a record
/// whose final text is pasted.
#[derive(Debug)]
pub enum CleanupStep {
    Ask(CleanupRequest),
    Done(TranscriptionDebug),
}

/// A `CleanupStep`, as the contracts see it.
pub enum StepView {
    Ask(RequestView),
    Done(DebugRecord),
}

impl View for CleanupStep {
    type V = StepView;

    open spec fn view(&self) -> StepView {
        match self {
            CleanupStep::Ask(r) => StepView::Ask(r@),
            CleanupStep::Done(d) => StepView::Done(d@),
        }
    }
}

/// The language model's reply to a request: its answer, or the message of the
/// error that kept it from answering.
pub open spec fn reply_view(reply: Result<String, String>) -> Result<Seq<char>, Seq<char>> {
    match reply {
        Ok(a) => Ok(a@),
        Err(e) => Err(e@),
    }
}

/// The first step of cleaning `transcript`: finish at once when the trimmed
/// transcript is empty or cleanup is switched off, otherwise ask for a Bangla
/// correction (Bangla selected) or a general cleanup.
pub open spec fn first_step(enabled: bool, language: Seq<char>, transcript: Seq<char>) -> StepView {
    let raw = trimmed(transcript);
    if raw.len() == 0 {
        StepView::Done(record(raw, seq![], seq![], false, Some(EMPTY_TRANSCRIPT@)))
    } else if !enabled {
        StepView::Done(record(raw, seq![], raw, false, Some(CLEANUP_DISABLED@)))
    } else if is_bangla(language) {
        StepView::Ask(RequestView::BanglaCorrection)
    } else {
        StepView::Ask(RequestView::General)
    }
}

/// The outcome of a Bangla correction. An answer is refused when the
/// transcript reads as English and has no Bengali characters; it is used, with
/// a warning, only when fit to paste if the transcript came in Arabic script
/// without Bengali characters; otherwise it is used when it is fit to paste.
pub open spec fn bangla_outcome(
    language: Seq<char>,
    transcript: Seq<char>,
    reply: Result<Seq<char>, Seq<char>>,
) -> DebugRecord {
    let raw = trimmed(transcript);
    let has_bengali = script_count(raw, Script::Bengali) > 0;
    let has_arabic = script_count(raw, Script::Arabic) > 0;
    match reply {
        Ok(answer) => {
            let cleaned = trimmed(answer);
            if looks_english(raw) && !has_bengali {
                record(raw, cleaned, raw, false, Some(ENGLISH_REJECTED@))
            } else if has_arabic && !has_bengali {
                let used = accepts_cleaned(language, cleaned);
                record(
                    raw,
                    cleaned,
                    if used {
                        cleaned
                    } else {
                        raw
                    },
                    used,
                    Some(ARABIC_LOW_CONFIDENCE@),
                )
            } else if accepts_cleaned(language, cleaned) {
                record(raw, cleaned, cleaned, true, None)
            } else {
                record(raw, cleaned, raw, false, Some(NO_BENGALI_SCRIPT@))
            }
        },
        Err(e) => record(raw, seq![], raw, false, Some(BANGLA_FAILED_PREFIX@ + e)),
    }
}

/// The outcome of a general cleanup: the trimmed answer when it is fit to
/// paste; else, for Bangla, a request to write the answer in Bengali script
/// when it needs that; else the trimmed transcript, with the reason.
pub open spec fn general_outcome(
    language: Seq<char>,
    transcript: Seq<char>,
    reply: Result<Seq<char>, Seq<char>>,
) -> StepView {
    let raw = trimmed(transcript);
    match reply {
        Ok(answer) => if accepts_cleaned(language, answer) {
            StepView::Done(record(raw, trimmed(answer), trimmed(answer), true, None))
        } else if is_bangla(language) && needs_conversion(answer) {
            StepView::Ask(RequestView::ScriptConversion(answer))
        } else if is_bangla(language) && needs_conversion(transcript) {
            StepView::Done(record(raw, answer, raw, false, Some(RAW_NEEDS_CONVERSION@)))
        } else {
            StepView::Done(record(raw, answer, raw, false, Some(CLEANUP_REJECTED@)))
        },
        Err(e) => StepView::Done(
            record(raw, seq![], raw, false, Some(CLEANUP_FAILED_PREFIX@ + e)),
        ),
    }
}

/// The outcome of a script conversion of `cleaned`: the trimmed answer when it
/// is fit to paste, else the trimmed transcript.
pub open spec fn conversion_outcome(
    language: Seq<char>,
    transcript: Seq<char>,
    cleaned: Seq<char>,
    reply: Result<Seq<char>, Seq<char>>,
) -> DebugRecord {
    let raw = trimmed(transcript);
    match reply {
        Ok(answer) => if accepts_cleaned(language, answer) {
            record(raw, cleaned, trimmed(answer), true, Some(CONVERTED@))
        } else {
            record(raw, cleaned, raw, false, Some(CONVERSION_FAILED@))
        },
        Err(_) => record(raw, cleaned, raw, false, Some(CONVERSION_FAILED@)),
    }
}

/// The step after `request` was answered with `reply`.
pub open spec fn next_step(
    language: Seq<char>,
    transcript: Seq<char>,
    request: RequestView,
    reply: Result<Seq<char>, Seq<char>>,
) -> StepView {
    match request {
        RequestView::BanglaCorrection => StepView::Done(bangla_outcome(language, transcript, reply)),
        RequestView::General => general_outcome(language, transcript, reply),
        RequestView::ScriptConversion(cleaned) => StepView::Done(
            conversion_outcome(language, transcript, cleaned, reply),
        ),
    }
}

/// A finished record with the given parts; `cleaned` empty.
fn finished_without_answer(raw: &str, final_text: &str, reason: String) -> (s: CleanupStep)
    ensures
        s@ == StepView::Done(record(raw@, seq![], final_text@, false, Some(reason@))),
{
    let empty = String::new();
    CleanupStep::Done(TranscriptionDebug {
        raw: owned(raw),
        cleaned: empty,
        final_text: owned(final_text),
        cleanup_used: false,
        fallback_reason: Some(reason),
    })
}

/// Starts cleaning `transcript` under `config`.
pub fn start_cleanup(config: &AppConfig, transcript: &str) -> (s: CleanupStep)
    ensures
        s@ == first_step(config.cleanup_enabled, config.language@, transcript@),
{
    let raw = trim_text(transcript);
    if raw.unicode_len() == 0 {
        let empty = String::new();
        return finished_without_answer(raw.as_str(), empty.as_str(), owned(EMPTY_TRANSCRIPT));
    }
    if !config.cleanup_enabled {
        return finished_without_answer(raw.as_str(), raw.as_str(), owned(CLEANUP_DISABLED));
    }
    if config.is_bangla() {
        CleanupStep::Ask(CleanupRequest::BanglaCorrection)
    } else {
        CleanupStep::Ask(CleanupRequest::General)
    }
}

fn bangla_step(config: &AppConfig, transcript: &str, reply: Result<String, String>) -> (d: TranscriptionDebug)
    ensures
        d@ == bangla_outcome(config.language@, transcript@, reply_view(reply)),
{
    let raw = trim_text(transcript);
    let counts = count_scripts(raw.as_str());
    let has_bengali = counts.bengali > 0;
    let has_arabic = counts.arabic > 0;
    let looks_english = looks_like_english_sentence(raw.as_str());
    match reply {
        Ok(answer) => {
            let cleaned = trim_text(answer.as_str());
            if looks_english && !has_bengali {
                debug_result(raw.as_str(), cleaned.as_str(), raw.as_str(), false, Some(ENGLISH_REJECTED))
            } else if has_arabic && !has_bengali {
                let used = should_use_cleaned_text(config, cleaned.as_str());
                let final_text = if used {
                    cleaned.as_str()
                } else {
                    raw.as_str()
                };
                debug_result(raw.as_str(), cleaned.as_str(), final_text, used, Some(ARABIC_LOW_CONFIDENCE))
            } else if should_use_cleaned_text(config, cleaned.as_str()) {
                debug_result(raw.as_str(), cleaned.as_str(), cleaned.as_str(), true, None)
            } else {
                debug_result(raw.as_str(), cleaned.as_str(), raw.as_str(), false, Some(NO_BENGALI_SCRIPT))
            }
        },
        Err(e) => {
            let reason = concat_str(BANGLA_FAILED_PREFIX, e.as_str());
            let empty = String::new();
            TranscriptionDebug {
                raw: owned(raw.as_str()),
                cleaned: empty,
                final_text: owned(raw.as_str()),
                cleanup_used: false,
                fallback_reason: Some(reason),
            }
        },
    }
}

fn general_step(config: &AppConfig, transcript: &str, reply: Result<String, String>) -> (s: CleanupStep)
    ensures
        s@ == general_outcome(config.language@, transcript@, reply_view(reply)),
{
    let raw = trim_text(transcript);
    match reply {
        Ok(answer) => {
            if should_use_cleaned_text(config, answer.as_str()) {
                let cleaned = trim_text(answer.as_str());
                CleanupStep::Done(debug_result(raw.as_str(), cleaned.as_str(), cleaned.as_str(), true, None))
            } else if config.is_bangla() && needs_bengali_script_conversion(answer.as_str()) {
                CleanupStep::Ask(CleanupRequest::ScriptConversion(answer))
            } else if config.is_bangla() && needs_bengali_script_conversion(transcript) {
                CleanupStep::Done(debug_result(raw.as_str(), answer.as_str(), raw.as_str(), false, Some(RAW_NEEDS_CONVERSION)))
            } else {
                CleanupStep::Done(debug_result(raw.as_str(), answer.as_str(), raw.as_str(), false, Some(CLEANUP_REJECTED)))
            }
        },
        Err(e) => {
            let reason = concat_str(CLEANUP_FAILED_PREFIX, e.as_str());
            finished_without_answer(raw.as_str(), raw.as_str(), reason)
        },
    }
}

fn conversion_step(
    config: &AppConfig,
    transcript: &str,
    cleaned: &str,
    reply: Result<String, String>,
) -> (d: TranscriptionDebug)
    ensures
        d@ == conversion_outcome(config.language@, transcript@, cleaned@, reply_view(reply)),
{
    let raw = trim_text(transcript);
    match reply {
        Ok(answer) => {
            if should_use_cleaned_text(config, answer.as_str()) {
                let converted = trim_text(answer.as_str());
                debug_result(raw.as_str(), cleaned, converted.as_str(), true, Some(CONVERTED))
            } else {
                debug_result(raw.as_str(), cleaned, raw.as_str(), false, Some(CONVERSION_FAILED))
            }
        },
        Err(_) => debug_result(raw.as_str(), cleaned, raw.as_str(), false, Some(CONVERSION_FAILED)),
    }
}

/// The step after `request`, made while cleaning `transcript` under `config`,
/// was answered with `reply`.
pub fn continue_cleanup(
    config: &AppConfig,
    transcript: &str,
    request: &CleanupRequest,
    reply: Result<String, String>,
) -> (s: CleanupStep)
    ensures
        s@ == next_step(config.language@, transcript@, request@, reply_view(reply)),
{
    match request {
        CleanupRequest::BanglaCorrection => CleanupStep::Done(bangla_step(config, transcript, reply)),
        CleanupRequest::General => general_step(config, transcript, reply),
        CleanupRequest::ScriptConversion(cleaned) => CleanupStep::Done(
            conversion_step(config, transcript, cleaned.as_str(), reply),
        ),
    }
}


/// The sampling settings that a request asks the language model for; each
/// names a fixed set of settings that the caller supplies.
#[derive(Debug, PartialEq, Eq, Structural, Clone, Copy)]
pub enum Sampling {
    /// Those of a general cleanup.
    Cleanup,
    /// Those of a Bangla correction, with a repetition penalty.
    BanglaCorrection,
    /// Those of a script conversion.
    ScriptConversion,
}

/// A generation request to send: where, to which model, with which prompt and
/// sampling settings; the answer is not streamed.
#[derive(Debug)]
pub struct GenerateCall {
    pub url: String,
    pub model: String,
    pub prompt: String,
    pub sampling: Sampling,
}

/// The prompt of `request` while cleaning `transcript`.
pub open spec fn request_prompt(language: Seq<char>, transcript: Seq<char>, request: RequestView) -> Seq<char> {
    match request {
        RequestView::BanglaCorrection => bangla_prompt(transcript),
        RequestView::General => cleanup_prompt(language, transcript),
        RequestView::ScriptConversion(cleaned) => conversion_prompt(cleaned),
    }
}

/// The sampling settings of `request`.
pub open spec fn request_sampling(request: RequestView) -> Sampling {
    match request {
        RequestView::BanglaCorrection => Sampling::BanglaCorrection,
        RequestView::General => Sampling::Cleanup,
        RequestView::ScriptConversion(_) => Sampling::ScriptConversion,
    }
}

/// The generation request that carries `request`, made while cleaning
/// `transcript` under `config`.
pub fn generate_call(config: &AppConfig, transcript: &str, request: &CleanupRequest) -> (g: GenerateCall)
    ensures
        g.url@ == endpoint(config.ollama_url@, GENERATE_PATH@),
        g.model@ == config.ollama_model@,
        g.prompt@ == request_prompt(config.language@, transcript@, request@),
        g.sampling == request_sampling(request@),
{
    let url = ollama_endpoint(config.ollama_url.as_str(), GENERATE_PATH);
    let model = owned(config.ollama_model.as_str());
    match request {
        CleanupRequest::BanglaCorrection => GenerateCall {
            url,
            model,
            prompt: build_bangla_prompt(transcript),
            sampling: Sampling::BanglaCorrection,
        },
        CleanupRequest::General => GenerateCall {
            url,
            model,
            prompt: build_cleanup_prompt(config.language.as_str(), transcript),
            sampling: Sampling::Cleanup,
        },
        CleanupRequest::ScriptConversion(cleaned) => GenerateCall {
            url,
            model,
            prompt: build_conversion_prompt(cleaned.as_str()),
            sampling: Sampling::ScriptConversion,
        },
    }
}


/// A finished record is consistent: its raw text is the trimmed transcript;
/// when the language model's answer was used, the pasted text is that answer,
/// trimmed and fit to paste; when it was not, the pasted text is the trimmed
/// transcript.
pub open spec fn consistent_record(language: Seq<char>, transcript: Seq<char>, d: DebugRecord) -> bool {
    &&& d.raw == trimmed(transcript)
    &&& d.cleanup_used ==> accepts_cleaned(language, d.final_text) && d.final_text == trimmed(
        d.final_text,
    )
    &&& !d.cleanup_used ==> d.final_text == d.raw
}

/// Every record with which the cleanup finishes is consistent, whatever the
/// settings, the transcript, the request and the reply.
pub proof fn law_finished_records_are_consistent(
    enabled: bool,
    language: Seq<char>,
    transcript: Seq<char>,
    request: RequestView,
    reply: Result<Seq<char>, Seq<char>>,
)
    ensures
        first_step(enabled, language, transcript) matches StepView::Done(d) ==> consistent_record(
            language,
            transcript,
            d,
        ),
        next_step(language, transcript, request, reply) matches StepView::Done(d)
            ==> consistent_record(language, transcript, d),
{
    let raw = trimmed(transcript);
    if raw.len() == 0 {
        assert(raw =~= seq![]);
    }
    if let Ok(answer) = reply {
        law_trim_idempotent(answer);
    }
}

/// When the language model cannot be reached, or fails, the cleanup falls
/// back to the raw transcript: it finishes at once, pasting the trimmed
/// transcript, with cleanup not used.
pub proof fn law_failure_falls_back_to_raw(
    language: Seq<char>,
    transcript: Seq<char>,
    request: RequestView,
    error: Seq<char>,
)
    ensures
        next_step(language, transcript, request, Err(error)) matches StepView::Done(d) && {
            &&& d.final_text == trimmed(transcript)
            &&& !d.cleanup_used
            &&& d.fallback_reason is Some
        },
{
}

/// The cleanup asks the language model at most twice: it starts with a Bangla
/// correction or a general cleanup, a Bangla correction and a script
/// conversion are always followed by the end, and a general cleanup by the end
/// or a script conversion.
pub proof fn law_at_most_two_requests(
    enabled: bool,
    language: Seq<char>,
    transcript: Seq<char>,
    reply: Result<Seq<char>, Seq<char>>,
    cleaned: Seq<char>,
)
    ensures
        !(first_step(enabled, language, transcript) matches StepView::Ask(
            RequestView::ScriptConversion(_),
        )),
        next_step(language, transcript, RequestView::BanglaCorrection, reply) is Done,
        next_step(language, transcript, RequestView::ScriptConversion(cleaned), reply) is Done,
        next_step(language, transcript, RequestView::General, reply) is Done || next_step(
            language,
            transcript,
            RequestView::General,
            reply,
        ) matches StepView::Ask(RequestView::ScriptConversion(_)),
{
}

/// With Bangla selected, a pasted answer of the language model always holds
/// Bengali characters and no Arabic ones.
pub proof fn law_bangla_paste_is_bengali(
    language: Seq<char>,
    transcript: Seq<char>,
    request: RequestView,
    reply: Result<Seq<char>, Seq<char>>,
)
    requires
        is_bangla(language),
    ensures
        next_step(language, transcript, request, reply) matches StepView::Done(d) ==> (
        d.cleanup_used ==> script_count(d.final_text, Script::Bengali) > 0 && script_count(
            d.final_text,
            Script::Arabic,
        ) == 0),
{
    law_finished_records_are_consistent(true, language, transcript, request, reply);
}

/// An answer that is `[unclear]` in any ASCII case, or only white space, is
/// never fit to paste.
pub proof fn law_unclear_or_blank_is_refused(language: Seq<char>, answer: Seq<char>)
    ensures
        eq_ignore_ascii_case(trimmed(answer), UNCLEAR@) ==> !accepts_cleaned(language, answer),
        trimmed(answer).len() == 0 ==> !accepts_cleaned(language, answer),
{
}


/// For every language setting other than `bn`, an answer is fit to paste
/// exactly when, trimmed, it is not empty and not `[unclear]` in any ASCII
/// case: no script is required of it. So a general cleanup under such a
/// setting that gets such an answer pastes the trimmed answer.
pub proof fn law_non_bangla_accepts_any_clear_answer(
    language: Seq<char>,
    transcript: Seq<char>,
    answer: Seq<char>,
)
    requires
        language != "bn"@,
    ensures
        accepts_cleaned(language, answer) <==> (trimmed(answer).len() > 0 && !eq_ignore_ascii_case(
            trimmed(answer),
            "[unclear]"@,
        )),
        trimmed(answer).len() > 0 && !eq_ignore_ascii_case(trimmed(answer), "[unclear]"@) ==> next_step(
            language,
            transcript,
            RequestView::General,
            Ok(answer),
        ) == StepView::Done(
            record(trimmed(transcript), trimmed(answer), trimmed(answer), true, None),
        ),
{
}


/// Why the cleanup falls back, in the words the user reads: an empty
/// transcript and switched-off cleanup finish at once with their reasons, and
/// a failed request carries the failure's message after a prefix that names
/// the request.
pub proof fn law_fallback_reasons(
    enabled: bool,
    language: Seq<char>,
    transcript: Seq<char>,
    cleaned: Seq<char>,
    error: Seq<char>,
)
    ensures
        trimmed(transcript).len() == 0 ==> first_step(enabled, language, transcript) == StepView::Done(
            record(seq![], seq![], seq![], false, Some("Empty transcript"@)),
        ),
        trimmed(transcript).len() > 0 && !enabled ==> first_step(enabled, language, transcript)
            == StepView::Done(
            record(trimmed(transcript), seq![], trimmed(transcript), false, Some("AI cleanup disabled"@)),
        ),
        trimmed(transcript).len() > 0 && enabled ==> first_step(enabled, language, transcript) == if language
            == "bn"@ {
            StepView::Ask(RequestView::BanglaCorrection)
        } else {
            StepView::Ask(RequestView::General)
        },
        next_step(language, transcript, RequestView::General, Err(error)) == StepView::Done(
            record(trimmed(transcript), seq![], trimmed(transcript), false, Some("Cleanup failed: "@ + error)),
        ),
        next_step(language, transcript, RequestView::BanglaCorrection, Err(error)) == StepView::Done(
            record(
                trimmed(transcript),
                seq![],
                trimmed(transcript),
                false,
                Some("Bangla cleanup failed: "@ + error),
            ),
        ),
        next_step(language, transcript, RequestView::ScriptConversion(cleaned), Err(error))
            == StepView::Done(
            record(
                trimmed(transcript),
                cleaned,
                trimmed(transcript),
                false,
                Some("Bengali script conversion failed"@),
            ),
        ),
{
    if trimmed(transcript).len() == 0 {
        assert(trimmed(transcript) =~= seq![]);
    }
}

/// A Bangla correction never replaces speech that reads as English and has
/// no Bengali characters: the trimmed transcript is pasted, whatever the
/// model answered.
pub proof fn law_english_speech_is_kept(language: Seq<char>, transcript: Seq<char>, answer: Seq<char>)
    requires
        looks_english(trimmed(transcript)),
        script_count(trimmed(transcript), Script::Bengali) == 0,
    ensures
        next_step(language, transcript, RequestView::BanglaCorrection, Ok(answer)) matches StepView::Done(d)
            && !d.cleanup_used && d.final_text == trimmed(transcript) && d.fallback_reason == Some(
            "Raw Whisper text looks English; Bangla cleanup translation was rejected"@,
        ),
{
}

/// A Bangla correction is used exactly when it is fit to paste, unless the
/// transcript reads as English without Bengali characters; when the
/// transcript came in Arabic script without Bengali characters, a warning is
/// recorded either way.
pub proof fn law_bangla_correction_used_when_fit(language: Seq<char>, transcript: Seq<char>, answer: Seq<char>)
    requires
        !(looks_english(trimmed(transcript)) && script_count(trimmed(transcript), Script::Bengali) == 0),
    ensures
        next_step(language, transcript, RequestView::BanglaCorrection, Ok(answer)) matches StepView::Done(d)
            && d.cleanup_used == accepts_cleaned(language, answer) && d.cleaned == trimmed(answer) && (
        d.cleanup_used ==> d.final_text == trimmed(answer)),
        script_count(trimmed(transcript), Script::Arabic) > 0 && script_count(trimmed(transcript), Script::Bengali)
            == 0 ==> (next_step(language, transcript, RequestView::BanglaCorrection, Ok(answer)) matches StepView::Done(
            d,
        ) && d.fallback_reason == Some(
            "Low confidence: Whisper returned Arabic/Urdu script while Bangla was selected"@,
        )),
{
    law_trim_idempotent(answer);
}

/// With Bangla selected, a general cleanup whose answer is not fit to paste
/// but still needs Bengali script asks to convert that very answer; with any
/// other setting a general cleanup never asks again.
pub proof fn law_conversion_only_for_bangla(language: Seq<char>, transcript: Seq<char>, answer: Seq<char>)
    ensures
        language == "bn"@ && !accepts_cleaned(language, answer) && needs_conversion(answer) ==> next_step(
            language,
            transcript,
            RequestView::General,
            Ok(answer),
        ) == StepView::Ask(RequestView::ScriptConversion(answer)),
        language != "bn"@ ==> next_step(language, transcript, RequestView::General, Ok(answer)) is Done,
{
}


/// The reasons that the cleanup records, word for word.
pub proof fn law_cleanup_texts()
    ensures
        UNCLEAR@ == "[unclear]"@,
        EMPTY_TRANSCRIPT@ == "Empty transcript"@,
        CLEANUP_DISABLED@ == "AI cleanup disabled"@,
        ENGLISH_REJECTED@ == "Raw Whisper text looks English; Bangla cleanup translation was rejected"@,
        ARABIC_LOW_CONFIDENCE@ == "Low confidence: Whisper returned Arabic/Urdu script while Bangla was selected"@,
        NO_BENGALI_SCRIPT@ == "Bangla cleanup did not produce Bengali script"@,
        BANGLA_FAILED_PREFIX@ == "Bangla cleanup failed: "@,
        CONVERTED@ == "Converted cleaned text to Bengali script"@,
        CONVERSION_FAILED@ == "Bengali script conversion failed"@,
        RAW_NEEDS_CONVERSION@ == "Raw Bangla transcript needs Bengali script conversion"@,
        CLEANUP_REJECTED@ == "Cleanup result was rejected"@,
        CLEANUP_FAILED_PREFIX@ == "Cleanup failed: "@,
{
}

} // verus!
