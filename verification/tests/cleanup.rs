use whispr::cleanup::{
    continue_cleanup, debug_result, generate_call, needs_bengali_script_conversion,
    should_use_cleaned_text, start_cleanup, CleanupRequest, CleanupStep, Sampling,
    TranscriptionDebug,
};
use whispr::config::AppConfig;
use whispr::ollama::{AUTO_INSTRUCTION, BANGLA_INSTRUCTION, ENGLISH_INSTRUCTION};

fn config(language: &str, enabled: bool) -> AppConfig {
    let mut c = AppConfig::default_with_models_dir("/models".to_string());
    c.language = language.to_string();
    c.cleanup_enabled = enabled;
    c
}

fn done(step: CleanupStep) -> TranscriptionDebug {
    match step {
        CleanupStep::Done(d) => d,
        CleanupStep::Ask(r) => panic!("expected the end, got a request {:?}", r),
    }
}

fn ok(s: &str) -> Result<String, String> {
    Ok(s.to_string())
}

fn err(s: &str) -> Result<String, String> {
    Err(s.to_string())
}

#[test]
fn debug_result_copies_its_parts() {
    let d = debug_result("raw", "clean", "final", true, Some("why"));
    assert_eq!(d.raw, "raw");
    assert_eq!(d.cleaned, "clean");
    assert_eq!(d.final_text, "final");
    assert!(d.cleanup_used);
    assert_eq!(d.fallback_reason.as_deref(), Some("why"));
    assert_eq!(debug_result("a", "", "a", false, None).fallback_reason, None);
}

#[test]
fn cleaned_text_is_refused_when_blank_or_unclear() {
    let en = config("en", true);
    assert!(should_use_cleaned_text(&en, " Hello. "));
    assert!(!should_use_cleaned_text(&en, "   "));
    assert!(!should_use_cleaned_text(&en, "[unclear]"));
    assert!(!should_use_cleaned_text(&en, "  [UNCLEAR]\n"));
    assert!(should_use_cleaned_text(&en, "[unclear] maybe"));
}

#[test]
fn bangla_cleaned_text_needs_bengali_and_no_arabic() {
    let bn = config("bn", true);
    assert!(should_use_cleaned_text(&bn, "আমি ভালো আছি।"));
    assert!(!should_use_cleaned_text(&bn, "ami bhalo achi"));
    assert!(!should_use_cleaned_text(&bn, "আমি سلام"));
    assert!(should_use_cleaned_text(&bn, "আমি office"));
}

#[test]
fn conversion_is_needed_for_latin_or_arabic_without_bengali() {
    assert!(needs_bengali_script_conversion("ami bhalo achi"));
    assert!(needs_bengali_script_conversion("سلام"));
    assert!(!needs_bengali_script_conversion("আমি ami"));
    assert!(!needs_bengali_script_conversion("123 !"));
}

#[test]
fn empty_transcript_finishes_at_once() {
    let d = done(start_cleanup(&config("en", true), "  \n "));
    assert_eq!(d.raw, "");
    assert_eq!(d.cleaned, "");
    assert_eq!(d.final_text, "");
    assert!(!d.cleanup_used);
    assert_eq!(d.fallback_reason.as_deref(), Some("Empty transcript"));
}

#[test]
fn disabled_cleanup_pastes_the_trimmed_transcript() {
    let d = done(start_cleanup(&config("en", false), "  hello there "));
    assert_eq!(d.raw, "hello there");
    assert_eq!(d.final_text, "hello there");
    assert!(!d.cleanup_used);
    assert_eq!(d.fallback_reason.as_deref(), Some("AI cleanup disabled"));
}

#[test]
fn first_request_depends_on_the_language() {
    assert!(matches!(
        start_cleanup(&config("bn", true), "ami"),
        CleanupStep::Ask(CleanupRequest::BanglaCorrection)
    ));
    assert!(matches!(
        start_cleanup(&config("en", true), "hi"),
        CleanupStep::Ask(CleanupRequest::General)
    ));
    assert!(matches!(
        start_cleanup(&config("auto", true), "hi"),
        CleanupStep::Ask(CleanupRequest::General)
    ));
}

#[test]
fn general_cleanup_uses_the_trimmed_answer() {
    let c = config("en", true);
    let d = done(continue_cleanup(&c, " hello there ", &CleanupRequest::General, ok("  Hello there. ")));
    assert_eq!(d.raw, "hello there");
    assert_eq!(d.cleaned, "Hello there.");
    assert_eq!(d.final_text, "Hello there.");
    assert!(d.cleanup_used);
    assert_eq!(d.fallback_reason, None);
}

#[test]
fn rejected_general_answer_falls_back() {
    let c = config("en", true);
    let d = done(continue_cleanup(&c, "hello", &CleanupRequest::General, ok(" [unclear] ")));
    assert_eq!(d.cleaned, " [unclear] ");
    assert_eq!(d.final_text, "hello");
    assert!(!d.cleanup_used);
    assert_eq!(d.fallback_reason.as_deref(), Some("Cleanup result was rejected"));
}

#[test]
fn unreachable_model_falls_back_to_raw_transcript() {
    let c = config("en", true);
    let d = done(continue_cleanup(&c, " hi ", &CleanupRequest::General, err("connection refused")));
    assert_eq!(d.final_text, "hi");
    assert_eq!(d.cleaned, "");
    assert!(!d.cleanup_used);
    assert_eq!(d.fallback_reason.as_deref(), Some("Cleanup failed: connection refused"));

    let bn = config("bn", true);
    let d = done(continue_cleanup(&bn, "ami", &CleanupRequest::BanglaCorrection, err("timeout")));
    assert_eq!(d.final_text, "ami");
    assert!(!d.cleanup_used);
    assert_eq!(d.fallback_reason.as_deref(), Some("Bangla cleanup failed: timeout"));

    let conv = CleanupRequest::ScriptConversion("ami".to_string());
    let d = done(continue_cleanup(&bn, "ami", &conv, err("timeout")));
    assert_eq!(d.final_text, "ami");
    assert_eq!(d.cleaned, "ami");
    assert!(!d.cleanup_used);
    assert_eq!(d.fallback_reason.as_deref(), Some("Bengali script conversion failed"));
}

#[test]
fn bangla_correction_in_bengali_is_used() {
    let bn = config("bn", true);
    let d = done(continue_cleanup(&bn, " ami bhalo achi ", &CleanupRequest::BanglaCorrection, ok(" আমি ভালো আছি। ")));
    assert_eq!(d.raw, "ami bhalo achi");
    assert_eq!(d.cleaned, "আমি ভালো আছি।");
    assert_eq!(d.final_text, "আমি ভালো আছি।");
    assert!(d.cleanup_used);
    assert_eq!(d.fallback_reason, None);
}

#[test]
fn bangla_correction_of_english_speech_is_refused() {
    let bn = config("bn", true);
    let d = done(continue_cleanup(&bn, "You can hear me", &CleanupRequest::BanglaCorrection, ok("আপনি আমাকে শুনতে পাচ্ছেন")));
    assert_eq!(d.final_text, "You can hear me");
    assert!(!d.cleanup_used);
    assert_eq!(
        d.fallback_reason.as_deref(),
        Some("Raw Whisper text looks English; Bangla cleanup translation was rejected")
    );
}

#[test]
fn bangla_correction_of_arabic_script_warns() {
    let bn = config("bn", true);
    let d = done(continue_cleanup(&bn, "سلام", &CleanupRequest::BanglaCorrection, ok("সালাম")));
    assert_eq!(d.final_text, "সালাম");
    assert!(d.cleanup_used);
    assert_eq!(
        d.fallback_reason.as_deref(),
        Some("Low confidence: Whisper returned Arabic/Urdu script while Bangla was selected")
    );
    let d = done(continue_cleanup(&bn, "سلام", &CleanupRequest::BanglaCorrection, ok("salam")));
    assert_eq!(d.final_text, "سلام");
    assert!(!d.cleanup_used);
}

#[test]
fn bangla_correction_without_bengali_script_falls_back() {
    let bn = config("bn", true);
    let d = done(continue_cleanup(&bn, "ami", &CleanupRequest::BanglaCorrection, ok("[unclear]")));
    assert_eq!(d.final_text, "ami");
    assert!(!d.cleanup_used);
    assert_eq!(d.fallback_reason.as_deref(), Some("Bangla cleanup did not produce Bengali script"));
}

#[test]
fn bangla_general_answer_in_latin_asks_for_conversion() {
    let bn = config("bn", true);
    match continue_cleanup(&bn, "ami", &CleanupRequest::General, ok(" ami bhalo ")) {
        CleanupStep::Ask(CleanupRequest::ScriptConversion(c)) => assert_eq!(c, " ami bhalo "),
        other => panic!("expected a conversion request, got {:?}", other),
    }
    let conv = CleanupRequest::ScriptConversion(" ami bhalo ".to_string());
    let d = done(continue_cleanup(&bn, "ami", &conv, ok(" আমি ভালো ")));
    assert_eq!(d.cleaned, " ami bhalo ");
    assert_eq!(d.final_text, "আমি ভালো");
    assert!(d.cleanup_used);
    assert_eq!(d.fallback_reason.as_deref(), Some("Converted cleaned text to Bengali script"));
}

#[test]
fn bangla_general_answer_that_cannot_be_converted() {
    let bn = config("bn", true);
    let d = done(continue_cleanup(&bn, "ami", &CleanupRequest::General, ok("123")));
    assert_eq!(d.final_text, "ami");
    assert_eq!(d.fallback_reason.as_deref(), Some("Raw Bangla transcript needs Bengali script conversion"));
    let d = done(continue_cleanup(&bn, "১২৩", &CleanupRequest::General, ok("123")));
    assert_eq!(d.fallback_reason.as_deref(), Some("Cleanup result was rejected"));
}

#[test]
fn at_most_two_requests_are_made() {
    let bn = config("bn", true);
    let replies = ["", "ami", "আমি", "[unclear]", "سلام"];
    for r in replies {
        assert!(matches!(continue_cleanup(&bn, "ami", &CleanupRequest::BanglaCorrection, ok(r)), CleanupStep::Done(_)));
        let conv = CleanupRequest::ScriptConversion("x".to_string());
        assert!(matches!(continue_cleanup(&bn, "ami", &conv, ok(r)), CleanupStep::Done(_)));
        match continue_cleanup(&bn, "ami", &CleanupRequest::General, ok(r)) {
            CleanupStep::Done(_) | CleanupStep::Ask(CleanupRequest::ScriptConversion(_)) => {}
            other => panic!("unexpected step {:?}", other),
        }
    }
}

#[test]
fn not_used_means_raw_is_pasted() {
    let en = config("en", true);
    for r in ["", " ", "[unclear]", "fine"] {
        let d = done(continue_cleanup(&en, "  raw text ", &CleanupRequest::General, ok(r)));
        if !d.cleanup_used {
            assert_eq!(d.final_text, d.raw);
        } else {
            assert_eq!(d.final_text, r.trim());
        }
    }
}

#[test]
fn generate_calls_carry_prompt_model_and_sampling() {
    let mut c = config("en", true);
    c.ollama_url = "http://localhost:11434/".to_string();
    c.ollama_model = "m".to_string();
    let g = generate_call(&c, " hi ", &CleanupRequest::General);
    assert_eq!(g.url, "http://localhost:11434/api/generate");
    assert_eq!(g.model, "m");
    assert_eq!(g.sampling, Sampling::Cleanup);
    assert_eq!(
        g.prompt,
        format!(
            "Clean this dictation transcript before paste. Fix punctuation, casing, grammar, and obvious speech artifacts. {} Return only the cleaned text.\n\nTranscript:\n hi ",
            ENGLISH_INSTRUCTION
        )
    );
    c.language = "bn".to_string();
    assert!(generate_call(&c, "x", &CleanupRequest::General).prompt.contains(BANGLA_INSTRUCTION));
    c.language = "fr".to_string();
    assert!(generate_call(&c, "x", &CleanupRequest::General).prompt.contains(AUTO_INSTRUCTION));

    let g = generate_call(&c, "ami", &CleanupRequest::BanglaCorrection);
    assert_eq!(g.sampling, Sampling::BanglaCorrection);
    assert!(g.prompt.starts_with("You are correcting Bangla dictation."));
    assert!(g.prompt.ends_with("Input:\nami\n\nCorrect text:"));

    let g = generate_call(&c, "ami", &CleanupRequest::ScriptConversion("tumi".to_string()));
    assert_eq!(g.sampling, Sampling::ScriptConversion);
    assert!(g.prompt.starts_with("Convert Bangla speech text into Bengali script only."));
    assert!(g.prompt.ends_with("Input:\ntumi\n\nBengali script:"));
}
