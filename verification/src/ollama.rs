//! What is sent to the local language model server: the addresses, the
//! prompts and the sampling profile of each request, and how its answer to a
//! health check reads.
use vstd::prelude::*;
use crate::config::{AppConfig, BANGLA, ENGLISH};
use crate::text::{concat_str, owned, push_char, str_eq};

verus! {

pub const CLEANUP_PROMPT_HEAD: &'static str = "Clean this dictation transcript before paste. Fix punctuation, casing, grammar, and obvious speech artifacts. ";

pub const CLEANUP_PROMPT_MIDDLE: &'static str = " Return only the cleaned text.\n\nTranscript:\n";

pub const BANGLA_PROMPT_HEAD: &'static str = "You are correcting Bangla dictation.\n\nTask:\nConvert Bangla speech into correct, natural Bengali script.\n\nRules:\n- The input is intended to be Bangla speech recognized imperfectly by Whisper.\n- It may appear in Romanized Bangla, Bengali script with mistakes, Arabic/Urdu script, or mixed script.\n- Preserve the speaker's intended meaning.\n- Fix obvious ASR mistakes, word boundaries, punctuation, and spelling.\n- Use modern standard Bengali spelling.\n- Keep common English technical words only when the speaker clearly used English, but write Bangla words in Bengali script.\n- If the input is clear English, return the English text unchanged. Do not translate English into Bangla.\n- Do not add new information.\n- Do not replace unclear text with a common Bangla phrase.\n- Do not copy or imitate the examples unless the input clearly says the same thing.\n- If the input is too unclear to recover, return exactly: [unclear]\n- Return only the corrected text or [unclear].\n\nExamples:\nami bhalo achi -> আমি ভালো আছি।\najke ami office e jabo -> আজকে আমি অফিসে যাবো।\namar nam rafi -> আমার নাম রাফি।\nami ekta email likhte chai -> আমি একটা ইমেইল লিখতে চাই।\nYou can hear me -> You can hear me\n\nInput:\n";

pub const BANGLA_PROMPT_TAIL: &'static str = "\n\nCorrect text:";

pub const CONVERSION_PROMPT_HEAD: &'static str = "Convert Bangla speech text into Bengali script only.\n\nRules:\n- The input may be Romanized Bangla, English-looking Bangla, Arabic script, or Urdu script.\n- Transliterate the Bangla sounds into natural Bengali letters.\n- Do not translate to English.\n- Do not explain.\n- Do not use Roman, Arabic, Urdu, Hindi, or Devanagari letters.\n- Return only Bengali text.\n\nExamples:\nami bhalo achi -> আমি ভালো আছি\napni kemon achen -> আপনি কেমন আছেন\najke ami office e jabo -> আজকে আমি অফিসে যাবো\namar nam rafi -> আমার নাম রাফি\n\nInput:\n";

pub const CONVERSION_PROMPT_TAIL: &'static str = "\n\nBengali script:";

pub const BANGLA_INSTRUCTION: &'static str = "The user selected Bangla. Return Bengali script only for Bangla speech. Do not use Arabic, Urdu, Hindi, Devanagari, Romanized Bangla, or English transliteration.";

pub const ENGLISH_INSTRUCTION: &'static str = "The user selected English. Return natural English text.";

pub const AUTO_INSTRUCTION: &'static str = "Preserve the detected language and script. If the transcript is Bangla, return Bengali script, not Romanized Bangla.";

pub const TAGS_PATH: &'static str = "/api/tags";

pub const GENERATE_PATH: &'static str = "/api/generate";

pub const OLLAMA_RUNNING: &'static str = "Ollama is running";

pub const OLLAMA_UNREACHABLE: &'static str = "Ollama is not reachable";

pub const OLLAMA_RESPONDED_PREFIX: &'static str = "Ollama responded with ";

pub const UNKNOWN_STATUS_REASON: &'static str = "<unknown status code>";

/// `s` without the `/` characters at its end, as `str::trim_end_matches('/')`
/// leaves it.
pub open spec fn without_trailing_slashes(s: Seq<char>) -> Seq<char>
    decreases s.len(),
{
    if s.len() > 0 && s.last() == '/' {
        without_trailing_slashes(s.drop_last())
    } else {
        s
    }
}

proof fn lemma_without_trailing_slashes_at(s: Seq<char>, j: int)
    requires
        0 <= j <= s.len(),
        forall|k: int| j <= k < s.len() ==> #[trigger] s[k] == '/',
        j == 0 || s[j - 1] != '/',
    ensures
        without_trailing_slashes(s) == s.subrange(0, j),
    decreases s.len() - j,
{
    if j == s.len() {
        assert(s.subrange(0, j) =~= s);
    } else {
        let t = s.drop_last();
        assert forall|k: int| j <= k < t.len() implies #[trigger] t[k] == '/' by {
            assert(t[k] == s[k]);
        }
        if j > 0 {
            assert(t[j - 1] == s[j - 1]);
        }
        lemma_without_trailing_slashes_at(t, j);
        assert(t.subrange(0, j) =~= s.subrange(0, j));
    }
}

/// The address of `path` on the server at `base`: the base address without
/// its trailing slashes, then the path.
pub open spec fn endpoint(base: Seq<char>, path: Seq<char>) -> Seq<char> {
    without_trailing_slashes(base) + path
}

/// The address of `path` on the server whose address is `base`.
pub fn ollama_endpoint(base: &str, path: &str) -> (url: String)
    ensures
        url@ == endpoint(base@, path@),
{
    let n = base.unicode_len();
    let mut j: usize = n;
    loop
        invariant
            n == base@.len(),
            j <= n,
            forall|k: int| j <= k < n ==> #[trigger] base@[k] == '/',
        ensures
            j <= n,
            forall|k: int| j <= k < n ==> #[trigger] base@[k] == '/',
            j == 0 || base@[j - 1] != '/',
        decreases j,
    {
        if j == 0 {
            break;
        }
        if base.get_char(j - 1) != '/' {
            break;
        }
        j = j - 1;
    }
    proof {
        lemma_without_trailing_slashes_at(base@, j as int);
    }
    let head = base.substring_char(0, j);
    concat_str(head, path)
}

/// The instruction on the language of the answer, for the language setting.
pub open spec fn language_instruction(language: Seq<char>) -> Seq<char> {
    if language == BANGLA@ {
        BANGLA_INSTRUCTION@
    } else if language == ENGLISH@ {
        ENGLISH_INSTRUCTION@
    } else {
        AUTO_INSTRUCTION@
    }
}

/// The prompt that asks for a cleaned transcript.
pub open spec fn cleanup_prompt(language: Seq<char>, transcript: Seq<char>) -> Seq<char> {
    CLEANUP_PROMPT_HEAD@ + language_instruction(language) + CLEANUP_PROMPT_MIDDLE@ + transcript
}

/// The prompt that asks to correct a Bangla dictation into Bengali script.
pub open spec fn bangla_prompt(text: Seq<char>) -> Seq<char> {
    BANGLA_PROMPT_HEAD@ + text + BANGLA_PROMPT_TAIL@
}

/// The prompt that asks to write Bangla text in Bengali script.
pub open spec fn conversion_prompt(text: Seq<char>) -> Seq<char> {
    CONVERSION_PROMPT_HEAD@ + text + CONVERSION_PROMPT_TAIL@
}

/// The instruction on the language of the answer.
pub fn language_instruction_for(language: &str) -> (s: &'static str)
    ensures
        s@ == language_instruction(language@),
{
    if str_eq(language, BANGLA) {
        BANGLA_INSTRUCTION
    } else if str_eq(language, ENGLISH) {
        ENGLISH_INSTRUCTION
    } else {
        AUTO_INSTRUCTION
    }
}

/// Builds `cleanup_prompt`.
pub fn build_cleanup_prompt(language: &str, transcript: &str) -> (p: String)
    ensures
        p@ == cleanup_prompt(language@, transcript@),
{
    let mut p = owned(CLEANUP_PROMPT_HEAD);
    p.append(language_instruction_for(language));
    p.append(CLEANUP_PROMPT_MIDDLE);
    p.append(transcript);
    p
}

/// Builds `bangla_prompt`.
pub fn build_bangla_prompt(text: &str) -> (p: String)
    ensures
        p@ == bangla_prompt(text@),
{
    let mut p = owned(BANGLA_PROMPT_HEAD);
    p.append(text);
    p.append(BANGLA_PROMPT_TAIL);
    p
}

/// Builds `conversion_prompt`.
pub fn build_conversion_prompt(text: &str) -> (p: String)
    ensures
        p@ == conversion_prompt(text@),
{
    let mut p = owned(CONVERSION_PROMPT_HEAD);
    p.append(text);
    p.append(CONVERSION_PROMPT_TAIL);
    p
}


/// The character of the decimal digit `d`.
pub open spec fn digit_char(d: int) -> char {
    (('0' as int) + d) as char
}

/// `n` written in decimal, without leading zeros.
pub open spec fn decimal(n: nat) -> Seq<char>
    decreases n,
{
    if n < 10 {
        seq![digit_char(n as int)]
    } else {
        decimal(n / 10).push(digit_char((n % 10) as int))
    }
}

/// Appends `n` written in decimal.
fn push_decimal(s: &mut String, n: u16)
    ensures
        final(s)@ == old(s)@ + decimal(n as nat),
    decreases n,
{
    if n >= 10 {
        push_decimal(s, n / 10);
    }
    let d: u8 = (n % 10) as u8;
    let c: char = (48u8 + d) as char;
    push_char(s, c);
    proof {
        if n >= 10 {
            assert(decimal(n as nat) == decimal((n / 10) as nat).push(digit_char((n % 10) as int)));
        }
    }
}

/// The reason phrase that the HTTP registry gives the status `code`, as
/// `StatusCode::canonical_reason` reports it; `None` for an unregistered code.
pub uninterp spec fn canonical_reason(code: u16) -> Option<Seq<char>>;

/// `StatusCode::canonical_reason` of the status `code`, which must be one that
/// `StatusCode::from_u16` accepts. The reason table is not restated here.
#[verifier::external_body]
fn status_reason(code: u16) -> (r: Option<String>)
    requires
        100 <= code <= 999,
    ensures
        match r {
            Some(reason) => canonical_reason(code) == Some(reason@),
            None => canonical_reason(code) == None::<Seq<char>>,
        },
{
    match reqwest::StatusCode::from_u16(code) {
        Ok(status) => match status.canonical_reason() {
            Some(reason) => Some(reason.to_string()),
            None => None,
        },
        Err(_) => None,
    }
}

/// How a status code reads: its number, a space and its reason phrase, or
/// `<unknown status code>` when it has none.
pub open spec fn status_text(code: u16) -> Seq<char> {
    let reason = if 100 <= code <= 999 && canonical_reason(code) is Some {
        canonical_reason(code)->0
    } else {
        UNKNOWN_STATUS_REASON@
    };
    decimal(code as nat) + " "@ + reason
}

/// A status line: the code in decimal, a space, and the reason phrase, or
/// `<unknown status code>` when there is none.
pub open spec fn status_line_text(code: u16, reason: Option<Seq<char>>) -> Seq<char> {
    decimal(code as nat) + " "@ + match reason {
        Some(r) => r,
        None => UNKNOWN_STATUS_REASON@,
    }
}

/// Writes `status_line_text` for a code and its reason phrase.
pub fn status_line(code: u16, reason: Option<&str>) -> (s: String)
    ensures
        s@ == status_line_text(
            code,
            match reason {
                Some(r) => Some(r@),
                None => None,
            },
        ),
{
    let mut s = String::new();
    push_decimal(&mut s, code);
    s.append(" ");
    match reason {
        Some(r) => s.append(r),
        None => s.append(UNKNOWN_STATUS_REASON),
    }
    s
}

/// Writes `status_text`: looks up the reason phrase of `code` and writes the
/// status line.
pub fn status_display(code: u16) -> (s: String)
    ensures
        s@ == status_text(code),
{
    let reason = if 100 <= code && code <= 999 {
        status_reason(code)
    } else {
        None
    };
    match reason {
        Some(r) => status_line(code, Some(r.as_str())),
        None => status_line(code, None),
    }
}

/// Whether the local language model server answers, and a line that says so.
#[derive(Debug)]
pub struct OllamaStatus {
    pub available: bool,
    pub message: String,
}

/// A status code of the success class, 200 to 299.
pub open spec fn is_success(code: u16) -> bool {
    200 <= code < 300
}

/// The availability that the server's answer to a health check shows:
/// `reply` is the status code of the answer, or `None` when no answer came.
pub open spec fn status_available(reply: Option<u16>) -> bool {
    reply matches Some(code) && is_success(code)
}

/// The line that reports the server's answer to a health check.
pub open spec fn status_message(reply: Option<u16>) -> Seq<char> {
    match reply {
        None => OLLAMA_UNREACHABLE@,
        Some(code) => if is_success(code) {
            OLLAMA_RUNNING@
        } else {
            OLLAMA_RESPONDED_PREFIX@ + status_text(code)
        },
    }
}

/// Judges the server's answer to a health check: available when it answered
/// with a success status.
pub fn ollama_status(reply: Option<u16>) -> (st: OllamaStatus)
    ensures
        st.available == status_available(reply),
        st.message@ == status_message(reply),
{
    match reply {
        None => OllamaStatus { available: false, message: owned(OLLAMA_UNREACHABLE) },
        Some(code) => {
            if 200 <= code && code < 300 {
                OllamaStatus { available: true, message: owned(OLLAMA_RUNNING) }
            } else {
                let text = status_display(code);
                OllamaStatus { available: false, message: concat_str(OLLAMA_RESPONDED_PREFIX, text.as_str()) }
            }
        },
    }
}


/// Slashes at the end of the server's address do not change any address on
/// it.
pub proof fn law_endpoint_ignores_trailing_slash(base: Seq<char>, path: Seq<char>)
    ensures
        endpoint(base.push('/'), path) == endpoint(base, path),
{
    assert(base.push('/').drop_last() =~= base);
}

/// The base part of an address never ends with a slash, so no address on the
/// server doubles the slash before a path.
pub proof fn law_endpoint_base_has_no_trailing_slash(base: Seq<char>)
    ensures
        without_trailing_slashes(base).len() == 0 || without_trailing_slashes(base).last() != '/',
    decreases base.len(),
{
    if base.len() > 0 && base.last() == '/' {
        law_endpoint_base_has_no_trailing_slash(base.drop_last());
    }
}

/// The server is reported available exactly when it answered with a success
/// status, and then the report reads "Ollama is running"; no answer reads
/// "Ollama is not reachable".
pub proof fn law_health_check(reply: Option<u16>)
    ensures
        status_available(reply) <==> (reply is Some && 200 <= reply->0 < 300),
        status_available(reply) ==> status_message(reply) == OLLAMA_RUNNING@,
        reply is None ==> status_message(reply) == OLLAMA_UNREACHABLE@,
{
}


/// The English instruction goes only with the setting `en`, the Bangla one
/// only with `bn`; every other setting, such as `auto`, gets the instruction
/// to keep the detected language and script, and so does the cleanup prompt.
pub proof fn law_language_instruction_by_setting(language: Seq<char>, transcript: Seq<char>)
    ensures
        language_instruction(language) == ENGLISH_INSTRUCTION@ ==> language == "en"@,
        language_instruction(language) == BANGLA_INSTRUCTION@ ==> language == "bn"@,
        language != "bn"@ && language != "en"@ ==> language_instruction(language)
            == "Preserve the detected language and script. If the transcript is Bangla, return Bengali script, not Romanized Bangla."@,
        language != "bn"@ && language != "en"@ ==> cleanup_prompt(language, transcript)
            == CLEANUP_PROMPT_HEAD@
            + "Preserve the detected language and script. If the transcript is Bangla, return Bengali script, not Romanized Bangla."@
            + CLEANUP_PROMPT_MIDDLE@ + transcript,
        language == "en"@ ==> language_instruction(language) == "The user selected English. Return natural English text."@,
{
    reveal_strlit("The user selected Bangla. Return Bengali script only for Bangla speech. Do not use Arabic, Urdu, Hindi, Devanagari, Romanized Bangla, or English transliteration.");
    reveal_strlit("The user selected English. Return natural English text.");
    reveal_strlit("Preserve the detected language and script. If the transcript is Bangla, return Bengali script, not Romanized Bangla.");
    reveal_strlit("bn");
    reveal_strlit("en");
    assert("en"@[0] != "bn"@[0]);
    assert(BANGLA_INSTRUCTION@.len() != ENGLISH_INSTRUCTION@.len());
    assert(AUTO_INSTRUCTION@.len() != ENGLISH_INSTRUCTION@.len());
    assert(AUTO_INSTRUCTION@.len() != BANGLA_INSTRUCTION@.len());
}


/// The numeric value of a string of decimal digits.
pub open spec fn digits_value(s: Seq<char>) -> int
    decreases s.len(),
{
    if s.len() == 0 {
        0
    } else {
        digits_value(s.drop_last()) * 10 + ((s.last() as int) - ('0' as int))
    }
}

/// Writing a number in decimal and reading it back gives the number; the
/// writing has only digits, and no leading zero unless the number is 0.
pub proof fn law_decimal_reads_back(n: nat)
    ensures
        digits_value(decimal(n)) == n,
        decimal(n).len() > 0,
        forall|i: int| 0 <= i < decimal(n).len() ==> '0' <= #[trigger] decimal(n)[i] <= '9',
        n > 0 ==> decimal(n)[0] != '0',
    decreases n,
{
    let last = (n % 10) as int;
    assert(digit_char(last) as int == ('0' as int) + last);
    if n >= 10 {
        law_decimal_reads_back(n / 10);
        let d = decimal(n);
        assert(n == (n / 10) * 10 + n % 10);
        assert(d.drop_last() =~= decimal(n / 10));
        assert forall|i: int| 0 <= i < d.len() implies '0' <= #[trigger] d[i] <= '9' by {
            if i < d.len() - 1 {
                assert(d[i] == decimal(n / 10)[i]);
            }
        }
        assert(d[0] == decimal(n / 10)[0]);
        assert(d.last() == digit_char(last));
        assert(digits_value(d) == digits_value(decimal(n / 10)) * 10 + last);
    } else {
        let d = decimal(n);
        assert(d.drop_last() =~= Seq::<char>::empty());
        assert(n % 10 == n);
        assert(d.last() == digit_char(last));
        assert(digits_value(d) == digits_value(d.drop_last()) * 10 + last);
    }
}

/// Addresses on the server: the server's address, without its trailing
/// slashes, then the path; a server address that does not end in a slash is
/// kept as it is.
pub proof fn law_endpoint_joins_address_and_path(base: Seq<char>, path: Seq<char>)
    ensures
        (base.len() == 0 || base.last() != '/') ==> endpoint(base, path) == base + path,
        exists|k: int|
            0 <= k <= base.len() && endpoint(base, path) == base.subrange(0, k) + path && (forall|i: int|
                k <= i < base.len() ==> #[trigger] base[i] == '/'),
    decreases base.len(),
{
    if base.len() > 0 && base.last() == '/' {
        let t = base.drop_last();
        law_endpoint_joins_address_and_path(t, path);
        let k = choose|k: int|
            0 <= k <= t.len() && endpoint(t, path) == t.subrange(0, k) + path && (forall|i: int|
                k <= i < t.len() ==> #[trigger] t[i] == '/');
        assert(t.subrange(0, k) =~= base.subrange(0, k));
        assert forall|i: int| k <= i < base.len() implies #[trigger] base[i] == '/' by {
            if i < base.len() - 1 {
                assert(base[i] == t[i]);
            }
        }
    } else {
        assert(base.subrange(0, base.len() as int) =~= base);
    }
}

/// The health check's report in the words the user reads: "Ollama is
/// running" for a success status, "Ollama responded with" and the status line
/// for any other answer, "Ollama is not reachable" without an answer.
pub proof fn law_health_check_messages(code: u16)
    ensures
        200 <= code < 300 ==> status_message(Some(code)) == "Ollama is running"@ && status_available(Some(code)),
        !(200 <= code < 300) ==> status_message(Some(code)) == "Ollama responded with "@ + decimal(code as nat)
            + " "@ + (if 100 <= code <= 999 && canonical_reason(code) is Some {
            canonical_reason(code)->0
        } else {
            "<unknown status code>"@
        }) && !status_available(Some(code)),
        status_message(None) == "Ollama is not reachable"@ && !status_available(None),
{
}


/// The prompts, instructions, paths and health-check lines, word for word.
pub proof fn law_ollama_texts()
    ensures
        CLEANUP_PROMPT_HEAD@ == "Clean this dictation transcript before paste. Fix punctuation, casing, grammar, and obvious speech artifacts. "@,
        BANGLA_INSTRUCTION@ == "The user selected Bangla. Return Bengali script only for Bangla speech. Do not use Arabic, Urdu, Hindi, Devanagari, Romanized Bangla, or English transliteration."@,
        ENGLISH_INSTRUCTION@ == "The user selected English. Return natural English text."@,
        AUTO_INSTRUCTION@ == "Preserve the detected language and script. If the transcript is Bangla, return Bengali script, not Romanized Bangla."@,
        TAGS_PATH@ == "/api/tags"@,
        GENERATE_PATH@ == "/api/generate"@,
        OLLAMA_RUNNING@ == "Ollama is running"@,
        OLLAMA_UNREACHABLE@ == "Ollama is not reachable"@,
        OLLAMA_RESPONDED_PREFIX@ == "Ollama responded with "@,
        UNKNOWN_STATUS_REASON@ == "<unknown status code>"@,
{
}

} // verus!
