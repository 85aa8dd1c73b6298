//! Character classification and the string operations that the rest of the
//! library is specified over: trimming, ASCII case folding, script counts and
//! word splitting.
use vstd::prelude::*;

verus! {

/// Whether `c` has the Unicode `White_Space` property, which `char::is_whitespace`
/// and `str::trim` go by: U+0009 to U+000D, U+0020, U+0085, U+00A0, U+1680,
/// U+2000 to U+200A, U+2028, U+2029, U+202F, U+205F and U+3000.
pub open spec fn white_space(c: char) -> bool {
    ||| '\u{0009}' <= c && c <= '\u{000D}'
    ||| c == '\u{0020}'
    ||| c == '\u{0085}'
    ||| c == '\u{00A0}'
    ||| c == '\u{1680}'
    ||| '\u{2000}' <= c && c <= '\u{200A}'
    ||| c == '\u{2028}'
    ||| c == '\u{2029}'
    ||| c == '\u{202F}'
    ||| c == '\u{205F}'
    ||| c == '\u{3000}'
}

/// Decides `white_space`, as `char::is_whitespace` does.
pub fn is_whitespace_char(c: char) -> (b: bool)
    ensures
        b == white_space(c),
{
    ('\u{0009}' <= c && c <= '\u{000D}') || c == '\u{0020}' || c == '\u{0085}' || c == '\u{00A0}'
        || c == '\u{1680}' || ('\u{2000}' <= c && c <= '\u{200A}') || c == '\u{2028}' || c
        == '\u{2029}' || c == '\u{202F}' || c == '\u{205F}' || c == '\u{3000}'
}

/// `String::push`: appends one character.
#[verifier::external_body]
pub(crate) fn push_char(s: &mut String, c: char)
    ensures
        final(s)@ == old(s)@.push(c),
{
    s.push(c);
}

/// `s` without its leading white space.
pub open spec fn trim_start(s: Seq<char>) -> Seq<char>
    decreases s.len(),
{
    if s.len() > 0 && white_space(s[0]) {
        trim_start(s.drop_first())
    } else {
        s
    }
}

/// `s` without its trailing white space.
pub open spec fn trim_end(s: Seq<char>) -> Seq<char>
    decreases s.len(),
{
    if s.len() > 0 && white_space(s.last()) {
        trim_end(s.drop_last())
    } else {
        s
    }
}

/// What `str::trim` leaves of `s`: white space removed at both ends.
pub open spec fn trimmed(s: Seq<char>) -> Seq<char> {
    trim_end(trim_start(s))
}

proof fn lemma_trim_start_at(s: Seq<char>, i: int)
    requires
        0 <= i <= s.len(),
        forall|k: int| 0 <= k < i ==> white_space(#[trigger] s[k]),
        i == s.len() || !white_space(s[i]),
    ensures
        trim_start(s) == s.subrange(i, s.len() as int),
    decreases i,
{
    if i == 0 {
        assert(s.subrange(0, s.len() as int) =~= s);
    } else {
        let t = s.drop_first();
        assert forall|k: int| 0 <= k < i - 1 implies white_space(#[trigger] t[k]) by {
            assert(t[k] == s[k + 1]);
        }
        if i - 1 < t.len() {
            assert(t[i - 1] == s[i]);
        }
        lemma_trim_start_at(t, i - 1);
        assert(t.subrange(i - 1, t.len() as int) =~= s.subrange(i, s.len() as int));
    }
}

proof fn lemma_trim_end_at(s: Seq<char>, j: int)
    requires
        0 <= j <= s.len(),
        forall|k: int| j <= k < s.len() ==> white_space(#[trigger] s[k]),
        j == 0 || !white_space(s[j - 1]),
    ensures
        trim_end(s) == s.subrange(0, j),
    decreases s.len() - j,
{
    if j == s.len() {
        assert(s.subrange(0, j) =~= s);
    } else {
        let t = s.drop_last();
        assert forall|k: int| j <= k < t.len() implies white_space(#[trigger] t[k]) by {
            assert(t[k] == s[k]);
        }
        if j > 0 {
            assert(t[j - 1] == s[j - 1]);
        }
        lemma_trim_end_at(t, j);
        assert(t.subrange(0, j) =~= s.subrange(0, j));
    }
}

/// The characters of `s`, in order.
pub fn chars_of(s: &str) -> (v: Vec<char>)
    ensures
        v@ == s@,
{
    let n = s.unicode_len();
    let mut v: Vec<char> = Vec::new();
    let mut i: usize = 0;
    while i < n
        invariant
            n == s@.len(),
            i <= n,
            v@ == s@.subrange(0, i as int),
        decreases n - i,
    {
        v.push(s.get_char(i));
        i = i + 1;
        assert(v@ =~= s@.subrange(0, i as int));
    }
    assert(v@ =~= s@);
    v
}

/// `str::trim`: white space removed at both ends.
pub fn trim_text(s: &str) -> (t: String)
    ensures
        t@ == trimmed(s@),
{
    let n = s.unicode_len();
    let mut i: usize = 0;
    loop
        invariant
            n == s@.len(),
            i <= n,
            forall|k: int| 0 <= k < i ==> white_space(#[trigger] s@[k]),
        ensures
            i <= n,
            forall|k: int| 0 <= k < i ==> white_space(#[trigger] s@[k]),
            i == n || !white_space(s@[i as int]),
        decreases n - i,
    {
        if i == n {
            break;
        }
        if !is_whitespace_char(s.get_char(i)) {
            break;
        }
        i = i + 1;
    }
    let mut j: usize = n;
    loop
        invariant
            n == s@.len(),
            i <= j <= n,
            forall|k: int| j <= k < n ==> white_space(#[trigger] s@[k]),
            i == n || !white_space(s@[i as int]),
        ensures
            i <= j <= n,
            forall|k: int| j <= k < n ==> white_space(#[trigger] s@[k]),
            j == i || !white_space(s@[j - 1]),
        decreases j - i,
    {
        if j == i {
            break;
        }
        if !is_whitespace_char(s.get_char(j - 1)) {
            break;
        }
        j = j - 1;
    }
    proof {
        lemma_trim_start_at(s@, i as int);
        let u = s@.subrange(i as int, n as int);
        if j == i && i < n {
            assert(white_space(s@[i as int]));
        }
        assert forall|k: int| j - i <= k < u.len() implies white_space(#[trigger] u[k]) by {
            assert(u[k] == s@[k + i]);
        }
        if j > i {
            assert(u[j - i - 1] == s@[j - 1]);
        }
        lemma_trim_end_at(u, j - i);
        assert(u.subrange(0, j - i) =~= s@.subrange(i as int, j as int));
    }
    let part = s.substring_char(i, j);
    let mut t = String::new();
    t.append(part);
    t
}

/// Characters are equal: the view of `a` is the view of `b`.
pub fn str_eq(a: &str, b: &str) -> (r: bool)
    ensures
        r == (a@ == b@),
{
    let n = a.unicode_len();
    if n != b.unicode_len() {
        return false;
    }
    let mut i: usize = 0;
    while i < n
        invariant
            n == a@.len(),
            n == b@.len(),
            i <= n,
            forall|k: int| 0 <= k < i ==> a@[k] == b@[k],
        decreases n - i,
    {
        if a.get_char(i) != b.get_char(i) {
            return false;
        }
        i = i + 1;
    }
    assert(a@ =~= b@);
    true
}

/// The characters held in `w` are those of `lit`.
pub fn chars_eq_str(w: &Vec<char>, lit: &str) -> (r: bool)
    ensures
        r == (w@ == lit@),
{
    let n = lit.unicode_len();
    if n != w.len() {
        return false;
    }
    let mut i: usize = 0;
    while i < n
        invariant
            n == lit@.len(),
            n == w@.len(),
            i <= n,
            forall|k: int| 0 <= k < i ==> w@[k] == lit@[k],
        decreases n - i,
    {
        if w[i] != lit.get_char(i) {
            return false;
        }
        i = i + 1;
    }
    assert(w@ =~= lit@);
    true
}

/// A string built from its characters.
pub fn string_from_chars(v: &Vec<char>) -> (s: String)
    ensures
        s@ == v@,
{
    let mut s = String::new();
    let mut i: usize = 0;
    while i < v.len()
        invariant
            i <= v.len(),
            s@ == v@.subrange(0, i as int),
        decreases v.len() - i,
    {
        push_char(&mut s, v[i]);
        i = i + 1;
        assert(s@ =~= v@.subrange(0, i as int));
    }
    assert(v@.subrange(0, v.len() as int) =~= v@);
    s
}

/// An owned copy of `s`.
pub fn owned(s: &str) -> (r: String)
    ensures
        r@ == s@,
{
    let mut r = String::new();
    r.append(s);
    assert(r@ =~= s@);
    r
}

/// The string `a` followed by `b`.
pub fn concat_str(a: &str, b: &str) -> (s: String)
    ensures
        s@ == a@ + b@,
{
    let mut s = String::new();
    s.append(a);
    s.append(b);
    assert(s@ =~= a@ + b@);
    s
}


/// A character of the Bengali block, U+0980 to U+09FF.
pub open spec fn is_bengali(c: char) -> bool {
    '\u{0980}' <= c && c <= '\u{09FF}'
}

/// A character of the Arabic blocks: U+0600 to U+06FF, U+0750 to U+077F and
/// U+08A0 to U+08FF.
pub open spec fn is_arabic(c: char) -> bool {
    ||| '\u{0600}' <= c && c <= '\u{06FF}'
    ||| '\u{0750}' <= c && c <= '\u{077F}'
    ||| '\u{08A0}' <= c && c <= '\u{08FF}'
}

/// An ASCII letter, as `char::is_ascii_alphabetic` decides.
pub open spec fn is_ascii_letter(c: char) -> bool {
    ('A' <= c && c <= 'Z') || ('a' <= c && c <= 'z')
}

/// Decides `is_bengali`.
pub fn is_bengali_char(c: char) -> (b: bool)
    ensures
        b == is_bengali(c),
{
    '\u{0980}' <= c && c <= '\u{09FF}'
}

/// Decides `is_arabic`.
pub fn is_arabic_char(c: char) -> (b: bool)
    ensures
        b == is_arabic(c),
{
    ('\u{0600}' <= c && c <= '\u{06FF}') || ('\u{0750}' <= c && c <= '\u{077F}') || ('\u{08A0}'
        <= c && c <= '\u{08FF}')
}

/// Decides `is_ascii_letter`: the Latin letters that the script checks count.
pub fn is_latin_char(c: char) -> (b: bool)
    ensures
        b == is_ascii_letter(c),
{
    ('A' <= c && c <= 'Z') || ('a' <= c && c <= 'z')
}

/// The scripts whose characters the cleanup rules count.
pub enum Script {
    Bengali,
    Arabic,
    Latin,
}

/// Whether `c` belongs to `script`.
pub open spec fn in_script(c: char, script: Script) -> bool {
    match script {
        Script::Bengali => is_bengali(c),
        Script::Arabic => is_arabic(c),
        Script::Latin => is_ascii_letter(c),
    }
}

/// How many characters of `s` belong to `script`.
pub open spec fn script_count(s: Seq<char>, script: Script) -> nat
    decreases s.len(),
{
    if s.len() == 0 {
        0
    } else {
        script_count(s.drop_last(), script) + if in_script(s.last(), script) {
            1nat
        } else {
            0nat
        }
    }
}

/// The number of Bengali, Arabic and Latin characters in a text.
pub struct ScriptCounts {
    pub bengali: usize,
    pub arabic: usize,
    pub latin: usize,
}

/// Counts, in one pass, the characters of `s` in each script.
pub fn count_scripts(s: &str) -> (r: ScriptCounts)
    ensures
        r.bengali == script_count(s@, Script::Bengali),
        r.arabic == script_count(s@, Script::Arabic),
        r.latin == script_count(s@, Script::Latin),
{
    let v = chars_of(s);
    let mut bengali: usize = 0;
    let mut arabic: usize = 0;
    let mut latin: usize = 0;
    let mut i: usize = 0;
    while i < v.len()
        invariant
            v@ == s@,
            i <= v.len(),
            bengali == script_count(v@.subrange(0, i as int), Script::Bengali),
            arabic == script_count(v@.subrange(0, i as int), Script::Arabic),
            latin == script_count(v@.subrange(0, i as int), Script::Latin),
            bengali <= i,
            arabic <= i,
            latin <= i,
        decreases v.len() - i,
    {
        let c = v[i];
        let ghost before = v@.subrange(0, i as int);
        assert(v@.subrange(0, i + 1).drop_last() =~= before);
        if is_bengali_char(c) {
            bengali = bengali + 1;
        }
        if is_arabic_char(c) {
            arabic = arabic + 1;
        }
        if is_latin_char(c) {
            latin = latin + 1;
        }
        i = i + 1;
    }
    assert(v@.subrange(0, v.len() as int) =~= s@);
    ScriptCounts { bengali, arabic, latin }
}

/// ASCII lower case of `c`; other characters are left as they are.
pub open spec fn ascii_lower(c: char) -> char {
    if 'A' <= c && c <= 'Z' {
        ((c as int) + 32) as char
    } else {
        c
    }
}

/// `char::to_ascii_lowercase`.
pub fn to_ascii_lower(c: char) -> (r: char)
    ensures
        r == ascii_lower(c),
{
    if 'A' <= c && c <= 'Z' {
        let b: u8 = c as u8;
        ((b + 32) as u8) as char
    } else {
        c
    }
}

/// Equal but for the case of ASCII letters, as `str::eq_ignore_ascii_case`
/// decides on UTF-8 text.
pub open spec fn eq_ignore_ascii_case(a: Seq<char>, b: Seq<char>) -> bool {
    &&& a.len() == b.len()
    &&& forall|i: int| 0 <= i < a.len() ==> ascii_lower(#[trigger] a[i]) == ascii_lower(b[i])
}

/// Decides `eq_ignore_ascii_case`.
pub fn eq_ignore_case(a: &str, b: &str) -> (r: bool)
    ensures
        r == eq_ignore_ascii_case(a@, b@),
{
    let n = a.unicode_len();
    if n != b.unicode_len() {
        return false;
    }
    let mut i: usize = 0;
    while i < n
        invariant
            n == a@.len(),
            n == b@.len(),
            i <= n,
            forall|k: int| 0 <= k < i ==> ascii_lower(#[trigger] a@[k]) == ascii_lower(b@[k]),
        decreases n - i,
    {
        if to_ascii_lower(a.get_char(i)) != to_ascii_lower(b.get_char(i)) {
            return false;
        }
        i = i + 1;
    }
    true
}


/// The maximal runs of ASCII letters in `s`, in order: what splitting `s` at
/// every other character and dropping the empty pieces gives.
pub open spec fn words(s: Seq<char>) -> Seq<Seq<char>>
    decreases s.len(),
{
    if s.len() == 0 {
        seq![]
    } else {
        let before = words(s.drop_last());
        let c = s.last();
        if !is_ascii_letter(c) {
            before
        } else if s.len() >= 2 && is_ascii_letter(s[s.len() - 2]) && before.len() > 0 {
            before.drop_last().push(before.last().push(c))
        } else {
            before.push(seq![c])
        }
    }
}

/// `w` in ASCII lower case.
pub open spec fn lower_word(w: Seq<char>) -> Seq<char> {
    w.map_values(|c: char| ascii_lower(c))
}

/// The common English words that mark a transcript as English.
pub open spec fn is_common_english_word(w: Seq<char>) -> bool {
    ||| w == "a"@
    ||| w == "an"@
    ||| w == "and"@
    ||| w == "are"@
    ||| w == "be"@
    ||| w == "can"@
    ||| w == "could"@
    ||| w == "do"@
    ||| w == "for"@
    ||| w == "from"@
    ||| w == "have"@
    ||| w == "hear"@
    ||| w == "hello"@
    ||| w == "i"@
    ||| w == "in"@
    ||| w == "is"@
    ||| w == "it"@
    ||| w == "me"@
    ||| w == "my"@
    ||| w == "of"@
    ||| w == "on"@
    ||| w == "please"@
    ||| w == "that"@
    ||| w == "the"@
    ||| w == "this"@
    ||| w == "to"@
    ||| w == "was"@
    ||| w == "we"@
    ||| w == "what"@
    ||| w == "with"@
    ||| w == "you"@
    ||| w == "your"@
}

/// How many of `ws`, lower-cased, are common English words.
pub open spec fn english_hits(ws: Seq<Seq<char>>) -> nat
    decreases ws.len(),
{
    if ws.len() == 0 {
        0
    } else {
        english_hits(ws.drop_last()) + if is_common_english_word(lower_word(ws.last())) {
            1nat
        } else {
            0nat
        }
    }
}

/// A text reads as an English sentence: it has at least three words, and at
/// least two of them are common English words.
pub open spec fn looks_english(s: Seq<char>) -> bool {
    words(s).len() >= 3 && english_hits(words(s)) >= 2
}

/// Decides `is_common_english_word`.
pub fn is_common_english(w: &Vec<char>) -> (r: bool)
    ensures
        r == is_common_english_word(w@),
{
    chars_eq_str(w, "a") ||
    chars_eq_str(w, "an") ||
    chars_eq_str(w, "and") ||
    chars_eq_str(w, "are") ||
    chars_eq_str(w, "be") ||
    chars_eq_str(w, "can") ||
    chars_eq_str(w, "could") ||
    chars_eq_str(w, "do") ||
    chars_eq_str(w, "for") ||
    chars_eq_str(w, "from") ||
    chars_eq_str(w, "have") ||
    chars_eq_str(w, "hear") ||
    chars_eq_str(w, "hello") ||
    chars_eq_str(w, "i") ||
    chars_eq_str(w, "in") ||
    chars_eq_str(w, "is") ||
    chars_eq_str(w, "it") ||
    chars_eq_str(w, "me") ||
    chars_eq_str(w, "my") ||
    chars_eq_str(w, "of") ||
    chars_eq_str(w, "on") ||
    chars_eq_str(w, "please") ||
    chars_eq_str(w, "that") ||
    chars_eq_str(w, "the") ||
    chars_eq_str(w, "this") ||
    chars_eq_str(w, "to") ||
    chars_eq_str(w, "was") ||
    chars_eq_str(w, "we") ||
    chars_eq_str(w, "what") ||
    chars_eq_str(w, "with") ||
    chars_eq_str(w, "you") ||
    chars_eq_str(w, "your")
}

/// Decides `looks_english`: splits `text` into runs of ASCII letters,
/// lower-cases them and counts the common English words among them.
pub fn looks_like_english_sentence(text: &str) -> (r: bool)
    ensures
        r == looks_english(text@),
{
    let v = chars_of(text);
    let mut current: Vec<char> = Vec::new();
    let mut finished: usize = 0;
    let mut hits: usize = 0;
    let mut i: usize = 0;
    while i < v.len()
        invariant
            v@ == text@,
            i <= v.len(),
            finished <= i,
            hits <= finished,
            current@.len() > 0 ==> finished < i,
            current@.len() == 0 ==> {
                &&& finished == words(v@.subrange(0, i as int)).len()
                &&& hits == english_hits(words(v@.subrange(0, i as int)))
                &&& (i == 0 || !is_ascii_letter(v@[i - 1]))
            },
            current@.len() > 0 ==> {
                let ws = words(v@.subrange(0, i as int));
                &&& ws.len() == finished + 1
                &&& hits == english_hits(ws.drop_last())
                &&& current@ == lower_word(ws.last())
                &&& i > 0
                &&& is_ascii_letter(v@[i - 1])
            },
        decreases v.len() - i,
    {
        let c = v[i];
        let ghost prefix = v@.subrange(0, i as int);
        let ghost next = v@.subrange(0, i + 1);
        proof {
            assert(next.drop_last() =~= prefix);
            assert(next.last() == c);
            if i > 0 {
                assert(next[next.len() - 2] == v@[i - 1]);
            }
        }
        if is_latin_char(c) {
            let ghost old_current = current@;
            current.push(to_ascii_lower(c));
            proof {
                let ws = words(prefix);
                if old_current.len() > 0 {
                    let nws = words(next);
                    assert(nws == ws.drop_last().push(ws.last().push(c)));
                    assert(nws.drop_last() =~= ws.drop_last());
                    assert(lower_word(ws.last().push(c)) =~= lower_word(ws.last()).push(
                        ascii_lower(c),
                    ));
                } else {
                    let nws = words(next);
                    assert(nws == ws.push(seq![c]));
                    assert(nws.drop_last() =~= ws);
                    assert(lower_word(seq![c]) =~= seq![ascii_lower(c)]);
                    assert(current@ =~= seq![ascii_lower(c)]);
                }
            }
        } else {
            if current.len() > 0 {
                let hit = is_common_english(&current);
                proof {
                    let ws = words(prefix);
                    assert(ws =~= ws.drop_last().push(ws.last()));
                }
                finished = finished + 1;
                if hit {
                    hits = hits + 1;
                }
                current = Vec::new();
            }
        }
        i = i + 1;
    }
    proof {
        assert(v@.subrange(0, v.len() as int) =~= text@);
    }
    if current.len() > 0 {
        let hit = is_common_english(&current);
        proof {
            let ws = words(text@);
            assert(ws =~= ws.drop_last().push(ws.last()));
        }
        finished = finished + 1;
        if hit {
            hits = hits + 1;
        }
    }
    finished >= 3 && hits >= 2
}


proof fn lemma_trim_start_shape(s: Seq<char>)
    ensures
        trim_start(s).len() == 0 || !white_space(trim_start(s)[0]),
    decreases s.len(),
{
    if s.len() > 0 && white_space(s[0]) {
        lemma_trim_start_shape(s.drop_first());
    }
}

proof fn lemma_trim_end_shape(s: Seq<char>)
    ensures
        trim_end(s).len() <= s.len(),
        trim_end(s) == s.subrange(0, trim_end(s).len() as int),
        trim_end(s).len() == 0 || !white_space(trim_end(s).last()),
    decreases s.len(),
{
    if s.len() > 0 && white_space(s.last()) {
        let t = s.drop_last();
        lemma_trim_end_shape(t);
        assert(t.subrange(0, trim_end(t).len() as int) =~= s.subrange(0, trim_end(t).len() as int));
    } else {
        assert(s.subrange(0, s.len() as int) =~= s);
    }
}

/// Trimming twice leaves what trimming once leaves.
pub proof fn law_trim_idempotent(s: Seq<char>)
    ensures
        trimmed(trimmed(s)) == trimmed(s),
{
    let u = trim_start(s);
    let v = trim_end(u);
    lemma_trim_start_shape(s);
    lemma_trim_end_shape(u);
    if v.len() > 0 {
        assert(v[0] == u[0]);
    }
    assert(trim_start(v) == v);
    assert(trim_end(v) == v);
}

/// A trimmed text neither starts nor ends with white space.
pub proof fn law_trimmed_has_no_outer_space(s: Seq<char>)
    ensures
        trimmed(s).len() > 0 ==> !white_space(trimmed(s)[0]) && !white_space(trimmed(s).last()),
{
    let u = trim_start(s);
    lemma_trim_start_shape(s);
    lemma_trim_end_shape(u);
    if trim_end(u).len() > 0 {
        assert(trim_end(u)[0] == u[0]);
    }
}


/// ASCII upper case of `c`; other characters are left as they are.
pub open spec fn ascii_upper(c: char) -> char {
    if 'a' <= c && c <= 'z' {
        ((c as int) - 32) as char
    } else {
        c
    }
}

/// `s` in ASCII upper case, as `str::to_ascii_uppercase` gives it.
pub open spec fn upper_text(s: Seq<char>) -> Seq<char> {
    s.map_values(|c: char| ascii_upper(c))
}

proof fn lemma_upper_char(c: char)
    ensures
        is_ascii_letter(ascii_upper(c)) == is_ascii_letter(c),
        ascii_lower(ascii_upper(c)) == ascii_lower(c),
{
}

proof fn lemma_words_upper(s: Seq<char>)
    ensures
        words(upper_text(s)) == words(s).map_values(|w: Seq<char>| upper_text(w)),
    decreases s.len(),
{
    let u = upper_text(s);
    if s.len() == 0 {
        assert(words(s).map_values(|w: Seq<char>| upper_text(w)) =~= seq![]);
    } else {
        let t = s.drop_last();
        lemma_words_upper(t);
        assert(u.drop_last() =~= upper_text(t));
        let c = s.last();
        lemma_upper_char(c);
        assert(u.last() == ascii_upper(c));
        let before = words(t);
        let ubefore = words(upper_text(t));
        if s.len() >= 2 {
            lemma_upper_char(s[s.len() - 2]);
            assert(u[u.len() - 2] == ascii_upper(s[s.len() - 2]));
        }
        if !is_ascii_letter(c) {
        } else if s.len() >= 2 && is_ascii_letter(s[s.len() - 2]) && before.len() > 0 {
            assert(upper_text(before.last().push(c)) =~= upper_text(before.last()).push(ascii_upper(c)));
            assert(before.drop_last().push(before.last().push(c)).map_values(|w: Seq<char>| upper_text(w))
                =~= ubefore.drop_last().push(ubefore.last().push(ascii_upper(c))));
        } else {
            assert(upper_text(seq![c]) =~= seq![ascii_upper(c)]);
            assert(before.push(seq![c]).map_values(|w: Seq<char>| upper_text(w)) =~= ubefore.push(
                seq![ascii_upper(c)],
            ));
        }
    }
}

proof fn lemma_hits_upper(ws: Seq<Seq<char>>)
    ensures
        english_hits(ws.map_values(|w: Seq<char>| upper_text(w))) == english_hits(ws),
    decreases ws.len(),
{
    if ws.len() > 0 {
        let m = ws.map_values(|w: Seq<char>| upper_text(w));
        lemma_hits_upper(ws.drop_last());
        assert(m.drop_last() =~= ws.drop_last().map_values(|w: Seq<char>| upper_text(w)));
        let w = ws.last();
        assert forall|i: int| 0 <= i < w.len() implies ascii_lower(#[trigger] upper_text(w)[i]) == ascii_lower(w[i]) by {
            lemma_upper_char(w[i]);
        }
        assert(lower_word(m.last()) =~= lower_word(w));
    }
}

/// The English check does not depend on ASCII case.
pub proof fn law_english_check_ignores_case(s: Seq<char>)
    ensures
        looks_english(upper_text(s)) == looks_english(s),
{
    lemma_words_upper(s);
    lemma_hits_upper(words(s));
}

proof fn lemma_words_after_space(a: Seq<char>, b: Seq<char>)
    ensures
        words(a + seq![' '] + b) == words(a) + words(b),
    decreases b.len(),
{
    let s = a + seq![' '] + b;
    if b.len() == 0 {
        assert(s =~= a.push(' '));
        assert(s.drop_last() =~= a);
        assert(words(a) + words(b) =~= words(a));
    } else {
        let bt = b.drop_last();
        lemma_words_after_space(a, bt);
        assert(s.drop_last() =~= a + seq![' '] + bt);
        let c = b.last();
        assert(s.last() == c);
        let wa = words(a);
        let wb = words(bt);
        if b.len() >= 2 {
            assert(s[s.len() - 2] == b[b.len() - 2]);
            if is_ascii_letter(b[b.len() - 2]) {
                assert(bt.last() == b[b.len() - 2]);
                assert(wb.len() > 0);
            }
        } else {
            assert(s[s.len() - 2] == ' ');
        }
        if !is_ascii_letter(c) {
        } else if b.len() >= 2 && is_ascii_letter(b[b.len() - 2]) {
            assert((wa + wb).drop_last() =~= wa + wb.drop_last());
            assert((wa + wb).last() == wb.last());
            assert((wa + wb.drop_last()).push(wb.last().push(c)) =~= wa + wb.drop_last().push(
                wb.last().push(c),
            ));
        } else {
            assert((wa + wb).push(seq![c]) =~= wa + wb.push(seq![c]));
        }
    }
}

proof fn lemma_hits_concat(x: Seq<Seq<char>>, y: Seq<Seq<char>>)
    ensures
        english_hits(x + y) == english_hits(x) + english_hits(y),
    decreases y.len(),
{
    if y.len() == 0 {
        assert(x + y =~= x);
    } else {
        lemma_hits_concat(x, y.drop_last());
        assert((x + y).drop_last() =~= x + y.drop_last());
        assert((x + y).last() == y.last());
    }
}

/// A text that reads as English still does when more words follow it after a
/// space.
pub proof fn law_english_check_survives_appending(a: Seq<char>, b: Seq<char>)
    requires
        looks_english(a),
    ensures
        looks_english(a + seq![' '] + b),
{
    lemma_words_after_space(a, b);
    lemma_hits_concat(words(a), words(b));
}


/// Each of these words counts as a common English word: a, an, and, are, be,
/// can, could, do, for, from, have, hear, hello, i, in, is, it, me, my, of,
/// on, please, that, the, this, to, was, we, what, with, you, your.
pub proof fn law_common_english_words()
    ensures
        is_common_english_word("a"@),
        is_common_english_word("an"@),
        is_common_english_word("and"@),
        is_common_english_word("are"@),
        is_common_english_word("be"@),
        is_common_english_word("can"@),
        is_common_english_word("could"@),
        is_common_english_word("do"@),
        is_common_english_word("for"@),
        is_common_english_word("from"@),
        is_common_english_word("have"@),
        is_common_english_word("hear"@),
        is_common_english_word("hello"@),
        is_common_english_word("i"@),
        is_common_english_word("in"@),
        is_common_english_word("is"@),
        is_common_english_word("it"@),
        is_common_english_word("me"@),
        is_common_english_word("my"@),
        is_common_english_word("of"@),
        is_common_english_word("on"@),
        is_common_english_word("please"@),
        is_common_english_word("that"@),
        is_common_english_word("the"@),
        is_common_english_word("this"@),
        is_common_english_word("to"@),
        is_common_english_word("was"@),
        is_common_english_word("we"@),
        is_common_english_word("what"@),
        is_common_english_word("with"@),
        is_common_english_word("you"@),
        is_common_english_word("your"@),
{
}


/// "It is raining" reads as English: three words, two of them common.
pub proof fn law_it_is_raining_reads_as_english()
    ensures
        looks_english("It is raining"@),
{
    reveal_strlit("It is raining");
    reveal_strlit("it");
    reveal_strlit("is");
    let s = "It is raining"@;
    assert(s.subrange(0, 0) =~= Seq::<char>::empty());
    assert(words(s.subrange(0, 0)) =~= Seq::<Seq<char>>::empty());
    assert(s[0] == 'I');
    assert(s[1] == 't');
    assert(s[2] == ' ');
    assert(s[3] == 'i');
    assert(s[4] == 's');
    assert(s[5] == ' ');
    assert(s[6] == 'r');
    assert(s[7] == 'a');
    assert(s[8] == 'i');
    assert(s[9] == 'n');
    assert(s[10] == 'i');
    assert(s[11] == 'n');
    assert(s[12] == 'g');
    assert(s.subrange(0, 1).drop_last() =~= s.subrange(0, 0));
    assert(s.subrange(0, 1).last() == s[0]);
    assert(seq![s[0]] =~= s.subrange(0, 1));
    assert(words(s.subrange(0, 1)) =~= seq![s.subrange(0, 1)]);
    assert(s.subrange(0, 2).drop_last() =~= s.subrange(0, 1));
    assert(s.subrange(0, 2).last() == s[1]);
    assert(s.subrange(0, 2)[0] == s[0]);
    assert(s.subrange(0, 1).push(s[1]) =~= s.subrange(0, 2));
    assert(words(s.subrange(0, 2)) =~= seq![s.subrange(0, 2)]);
    assert(s.subrange(0, 3).drop_last() =~= s.subrange(0, 2));
    assert(s.subrange(0, 3).last() == s[2]);
    assert(s.subrange(0, 3)[1] == s[1]);
    assert(words(s.subrange(0, 3)) =~= seq![s.subrange(0, 2)]);
    assert(s.subrange(0, 4).drop_last() =~= s.subrange(0, 3));
    assert(s.subrange(0, 4).last() == s[3]);
    assert(s.subrange(0, 4)[2] == s[2]);
    assert(seq![s[3]] =~= s.subrange(3, 4));
    assert(words(s.subrange(0, 4)) =~= seq![s.subrange(0, 2), s.subrange(3, 4)]);
    assert(s.subrange(0, 5).drop_last() =~= s.subrange(0, 4));
    assert(s.subrange(0, 5).last() == s[4]);
    assert(s.subrange(0, 5)[3] == s[3]);
    assert(s.subrange(3, 4).push(s[4]) =~= s.subrange(3, 5));
    assert(words(s.subrange(0, 5)) =~= seq![s.subrange(0, 2), s.subrange(3, 5)]);
    assert(s.subrange(0, 6).drop_last() =~= s.subrange(0, 5));
    assert(s.subrange(0, 6).last() == s[5]);
    assert(s.subrange(0, 6)[4] == s[4]);
    assert(words(s.subrange(0, 6)) =~= seq![s.subrange(0, 2), s.subrange(3, 5)]);
    assert(s.subrange(0, 7).drop_last() =~= s.subrange(0, 6));
    assert(s.subrange(0, 7).last() == s[6]);
    assert(s.subrange(0, 7)[5] == s[5]);
    assert(seq![s[6]] =~= s.subrange(6, 7));
    assert(words(s.subrange(0, 7)) =~= seq![s.subrange(0, 2), s.subrange(3, 5), s.subrange(6, 7)]);
    assert(s.subrange(0, 8).drop_last() =~= s.subrange(0, 7));
    assert(s.subrange(0, 8).last() == s[7]);
    assert(s.subrange(0, 8)[6] == s[6]);
    assert(s.subrange(6, 7).push(s[7]) =~= s.subrange(6, 8));
    assert(words(s.subrange(0, 8)) =~= seq![s.subrange(0, 2), s.subrange(3, 5), s.subrange(6, 8)]);
    assert(s.subrange(0, 9).drop_last() =~= s.subrange(0, 8));
    assert(s.subrange(0, 9).last() == s[8]);
    assert(s.subrange(0, 9)[7] == s[7]);
    assert(s.subrange(6, 8).push(s[8]) =~= s.subrange(6, 9));
    assert(words(s.subrange(0, 9)) =~= seq![s.subrange(0, 2), s.subrange(3, 5), s.subrange(6, 9)]);
    assert(s.subrange(0, 10).drop_last() =~= s.subrange(0, 9));
    assert(s.subrange(0, 10).last() == s[9]);
    assert(s.subrange(0, 10)[8] == s[8]);
    assert(s.subrange(6, 9).push(s[9]) =~= s.subrange(6, 10));
    assert(words(s.subrange(0, 10)) =~= seq![s.subrange(0, 2), s.subrange(3, 5), s.subrange(6, 10)]);
    assert(s.subrange(0, 11).drop_last() =~= s.subrange(0, 10));
    assert(s.subrange(0, 11).last() == s[10]);
    assert(s.subrange(0, 11)[9] == s[9]);
    assert(s.subrange(6, 10).push(s[10]) =~= s.subrange(6, 11));
    assert(words(s.subrange(0, 11)) =~= seq![s.subrange(0, 2), s.subrange(3, 5), s.subrange(6, 11)]);
    assert(s.subrange(0, 12).drop_last() =~= s.subrange(0, 11));
    assert(s.subrange(0, 12).last() == s[11]);
    assert(s.subrange(0, 12)[10] == s[10]);
    assert(s.subrange(6, 11).push(s[11]) =~= s.subrange(6, 12));
    assert(words(s.subrange(0, 12)) =~= seq![s.subrange(0, 2), s.subrange(3, 5), s.subrange(6, 12)]);
    assert(s.subrange(0, 13).drop_last() =~= s.subrange(0, 12));
    assert(s.subrange(0, 13).last() == s[12]);
    assert(s.subrange(0, 13)[11] == s[11]);
    assert(s.subrange(6, 12).push(s[12]) =~= s.subrange(6, 13));
    assert(words(s.subrange(0, 13)) =~= seq![s.subrange(0, 2), s.subrange(3, 5), s.subrange(6, 13)]);
    assert(s.subrange(0, 13) =~= s);
    let ws = words(s);
    assert(lower_word(ws[0]) =~= "it"@);
    assert(lower_word(ws[1]) =~= "is"@);
    assert(ws.drop_last().drop_last().drop_last() =~= Seq::<Seq<char>>::empty());
    assert(english_hits(ws.drop_last().drop_last()) >= 1);
    assert(english_hits(ws.drop_last()) >= 2);
}


/// The characters classified by code point: Bengali is U+0980 to U+09FF;
/// Arabic is U+0600 to U+06FF, U+0750 to U+077F and U+08A0 to U+08FF; the
/// Latin letters are U+0041 to U+005A and U+0061 to U+007A; white space is
/// U+0009 to U+000D, U+0020, U+0085, U+00A0, U+1680, U+2000 to U+200A,
/// U+2028, U+2029, U+202F, U+205F and U+3000.
pub proof fn law_character_classes(c: char)
    ensures
        is_bengali(c) <==> 0x980 <= (c as u32) && (c as u32) <= 0x9FF,
        is_arabic(c) <==> (0x600 <= (c as u32) && (c as u32) <= 0x6FF) || (0x750 <= (c as u32) && (c as u32)
            <= 0x77F) || (0x8A0 <= (c as u32) && (c as u32) <= 0x8FF),
        is_ascii_letter(c) <==> (0x41 <= (c as u32) && (c as u32) <= 0x5A) || (0x61 <= (c as u32) && (c as u32)
            <= 0x7A),
        white_space(c) <==> (9 <= (c as u32) && (c as u32) <= 13) || (c as u32) == 32 || (c as u32) == 0x85
            || (c as u32) == 0xA0 || (c as u32) == 0x1680 || (0x2000 <= (c as u32) && (c as u32) <= 0x200A)
            || (c as u32) == 0x2028 || (c as u32) == 0x2029 || (c as u32) == 0x202F || (c as u32) == 0x205F
            || (c as u32) == 0x3000,
        ascii_lower(c) as int == if 0x41 <= (c as u32) && (c as u32) <= 0x5A {
            (c as int) + 32
        } else {
            c as int
        },
{
}

/// A script occurs in a text exactly when one of its characters belongs to it.
pub proof fn law_script_count_detects_script(s: Seq<char>, script: Script)
    ensures
        script_count(s, script) > 0 <==> exists|i: int| 0 <= i < s.len() && in_script(#[trigger] s[i], script),
        script_count(s, script) <= s.len(),
    decreases s.len(),
{
    if s.len() > 0 {
        let t = s.drop_last();
        law_script_count_detects_script(t, script);
        if script_count(t, script) > 0 {
            let i = choose|i: int| 0 <= i < t.len() && in_script(#[trigger] t[i], script);
            assert(s[i] == t[i]);
        }
        if exists|i: int| 0 <= i < s.len() && in_script(#[trigger] s[i], script) {
            let i = choose|i: int| 0 <= i < s.len() && in_script(#[trigger] s[i], script);
            if i < s.len() - 1 {
                assert(t[i] == s[i]);
            }
        }
    }
}

/// The common English words are exactly a, an, and, are, be, can, could, do,
/// for, from, have, hear, hello, i, in, is, it, me, my, of, on, please, that,
/// the, this, to, was, we, what, with, you and your.
pub proof fn law_common_english_word_set(w: Seq<char>)
    ensures
        is_common_english_word(w) <==> set!["a"@, "an"@, "and"@, "are"@, "be"@, "can"@, "could"@, "do"@, "for"@, "from"@, "have"@, "hear"@, "hello"@, "i"@, "in"@, "is"@, "it"@, "me"@, "my"@, "of"@, "on"@, "please"@, "that"@, "the"@, "this"@, "to"@, "was"@, "we"@, "what"@, "with"@, "you"@, "your"@].contains(w),
{
}

proof fn lemma_trim_start_index(s: Seq<char>) -> (i: int)
    ensures
        0 <= i <= s.len(),
        trim_start(s) == s.subrange(i, s.len() as int),
        forall|k: int| 0 <= k < i ==> white_space(#[trigger] s[k]),
    decreases s.len(),
{
    if s.len() > 0 && white_space(s[0]) {
        let t = s.drop_first();
        let j = lemma_trim_start_index(t);
        assert(t.subrange(j, t.len() as int) =~= s.subrange(j + 1, s.len() as int));
        assert forall|k: int| 0 <= k < j + 1 implies white_space(#[trigger] s[k]) by {
            if k > 0 {
                assert(s[k] == t[k - 1]);
            }
        }
        j + 1
    } else {
        assert(s.subrange(0, s.len() as int) =~= s);
        0
    }
}

proof fn lemma_trim_end_index(s: Seq<char>) -> (j: int)
    ensures
        0 <= j <= s.len(),
        trim_end(s) == s.subrange(0, j),
        forall|k: int| j <= k < s.len() ==> white_space(#[trigger] s[k]),
    decreases s.len(),
{
    if s.len() > 0 && white_space(s.last()) {
        let t = s.drop_last();
        let j = lemma_trim_end_index(t);
        assert(t.subrange(0, j) =~= s.subrange(0, j));
        assert forall|k: int| j <= k < s.len() implies white_space(#[trigger] s[k]) by {
            if k < s.len() - 1 {
                assert(s[k] == t[k]);
            }
        }
        j
    } else {
        assert(s.subrange(0, s.len() as int) =~= s);
        s.len() as int
    }
}

/// Trimming keeps a run of the text and removes only white space around it.
pub proof fn law_trim_removes_only_outer_space(s: Seq<char>)
    ensures
        exists|i: int, j: int|
            0 <= i <= j <= s.len() && trimmed(s) == s.subrange(i, j) && (forall|k: int|
                0 <= k < i ==> white_space(#[trigger] s[k])) && (forall|k: int|
                j <= k < s.len() ==> white_space(#[trigger] s[k])),
{
    let i = lemma_trim_start_index(s);
    let u = s.subrange(i, s.len() as int);
    let m = lemma_trim_end_index(u);
    assert(u.subrange(0, m) =~= s.subrange(i, i + m));
    assert forall|k: int| i + m <= k < s.len() implies white_space(#[trigger] s[k]) by {
        assert(s[k] == u[k - i]);
    }
    assert(trimmed(s) == s.subrange(i, i + m));
}

proof fn lemma_words_of_letters(w: Seq<char>)
    requires
        w.len() > 0,
        forall|k: int| 0 <= k < w.len() ==> is_ascii_letter(#[trigger] w[k]),
    ensures
        words(w) == seq![w],
    decreases w.len(),
{
    if w.len() == 1 {
        assert(w.drop_last() =~= Seq::<char>::empty());
        assert(words(w.drop_last()) =~= Seq::<Seq<char>>::empty());
        assert(seq![w[0]] =~= w);
    } else {
        let t = w.drop_last();
        assert forall|k: int| 0 <= k < t.len() implies is_ascii_letter(#[trigger] t[k]) by {
            assert(t[k] == w[k]);
        }
        lemma_words_of_letters(t);
        assert(is_ascii_letter(w[w.len() - 2]));
        assert(t.push(w.last()) =~= w);
        assert(seq![t].drop_last().push(t.push(w.last())) =~= seq![w]);
    }
}

/// A word made of ASCII letters.
pub open spec fn is_letter_word(w: Seq<char>) -> bool {
    w.len() > 0 && forall|k: int| 0 <= k < w.len() ==> is_ascii_letter(#[trigger] w[k])
}

/// Two words separated by a space never read as an English sentence, and three
/// words do when the first two are common English words in any ASCII case.
pub proof fn law_english_needs_three_words_two_common(x: Seq<char>, y: Seq<char>, z: Seq<char>)
    requires
        is_letter_word(x),
        is_letter_word(y),
        is_letter_word(z),
    ensures
        !looks_english(x + seq![' '] + y),
        is_common_english_word(lower_word(x)) && is_common_english_word(lower_word(y)) ==> looks_english(
            x + seq![' '] + y + seq![' '] + z,
        ),
        !is_common_english_word(lower_word(x)) && !is_common_english_word(lower_word(y)) ==> !looks_english(
            x + seq![' '] + y + seq![' '] + z,
        ),
{
    lemma_words_of_letters(x);
    lemma_words_of_letters(y);
    lemma_words_of_letters(z);
    lemma_words_after_space(x, y);
    let xy = x + seq![' '] + y;
    lemma_words_after_space(xy, z);
    assert(words(xy) =~= seq![x, y]);
    let ws = words(xy) + words(z);
    assert(ws =~= seq![x, y, z]);
    assert(ws.drop_last() =~= seq![x, y]);
    assert(ws.drop_last().drop_last() =~= seq![x]);
    assert(ws.drop_last().drop_last().drop_last() =~= Seq::<Seq<char>>::empty());
    assert(seq![x, y].drop_last() =~= seq![x]);
    assert(seq![x].drop_last() =~= Seq::<Seq<char>>::empty());
    reveal_with_fuel(english_hits, 4);
}

} // verus!
