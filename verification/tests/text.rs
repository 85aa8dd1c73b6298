use whispr::text::{
    chars_of, concat_str, count_scripts, eq_ignore_case, is_arabic_char, is_bengali_char, is_latin_char,
    is_whitespace_char, looks_like_english_sentence, str_eq, string_from_chars, to_ascii_lower,
    trim_text,
};

#[test]
fn trim_removes_ascii_space_at_both_ends() {
    assert_eq!(trim_text("  hello world \n\t"), "hello world");
}

#[test]
fn trim_removes_unicode_white_space() {
    assert_eq!(trim_text("\u{3000}\u{00A0}x y\u{2028}"), "x y");
}

#[test]
fn trim_of_blank_text_is_empty() {
    assert_eq!(trim_text(" \n \t "), "");
    assert_eq!(trim_text(""), "");
}

#[test]
fn trim_twice_is_trim_once() {
    for s in ["  a b  ", "\n\nx", "y\t", "", "   ", "আমি ভালো আছি। "] {
        let once = trim_text(s);
        assert_eq!(trim_text(&once), once);
    }
}

#[test]
fn script_characters_are_classified_by_block() {
    assert!(is_bengali_char('আ'));
    assert!(is_bengali_char('\u{0980}'));
    assert!(is_bengali_char('\u{09FF}'));
    assert!(!is_bengali_char('\u{0A00}'));
    assert!(is_arabic_char('ا'));
    assert!(is_arabic_char('\u{0750}'));
    assert!(is_arabic_char('\u{08FF}'));
    assert!(!is_arabic_char('\u{0700}'));
    assert!(is_latin_char('a'));
    assert!(is_latin_char('Z'));
    assert!(!is_latin_char('é'));
    assert!(!is_latin_char('1'));
}

#[test]
fn scripts_are_counted() {
    let counts = count_scripts("ami আমি سلام!");
    assert_eq!(counts.latin, 3);
    assert_eq!(counts.bengali, 3);
    assert_eq!(counts.arabic, 4);
}

#[test]
fn ascii_case_is_folded_only_for_ascii_letters() {
    assert_eq!(to_ascii_lower('Q'), 'q');
    assert_eq!(to_ascii_lower('q'), 'q');
    assert_eq!(to_ascii_lower('Ä'), 'Ä');
    assert!(eq_ignore_case("[UNCLEAR]", "[unclear]"));
    assert!(eq_ignore_case("[Unclear]", "[unclear]"));
    assert!(!eq_ignore_case("[unclear] ", "[unclear]"));
    assert!(!eq_ignore_case("Äb", "äb"));
}

#[test]
fn english_sentence_needs_three_words_two_common() {
    assert!(looks_like_english_sentence("You can hear me"));
    assert!(looks_like_english_sentence("Is it on?"));
    assert!(!looks_like_english_sentence("hello there"));
    assert!(!looks_like_english_sentence("ami bhalo achi"));
    assert!(!looks_like_english_sentence("I said nothing"));
    assert!(looks_like_english_sentence("THE cat, THE hat"));
}

#[test]
fn english_words_are_split_at_every_non_letter() {
    assert!(looks_like_english_sentence("to-be-or"));
    assert!(!looks_like_english_sentence("tobe or"));
    assert!(looks_like_english_sentence("123 you2me3x"));
}

#[test]
fn strings_compare_and_build() {
    assert!(str_eq("bn", "bn"));
    assert!(!str_eq("bn", "bnx"));
    assert_eq!(concat_str("ab", "cd"), "abcd");
    let v = chars_of("aআb");
    assert_eq!(v, vec!['a', 'আ', 'b']);
    assert_eq!(string_from_chars(&v), "aআb");
}

#[test]
fn white_space_is_decided_as_std_decides_it() {
    for code in 0u32..=0x10FFFF {
        if let Some(c) = char::from_u32(code) {
            assert_eq!(is_whitespace_char(c), c.is_whitespace(), "U+{:04X}", code);
        }
    }
}

#[test]
fn trim_agrees_with_std_trim() {
    for s in [" \n\t ", "\u{0085}a\u{200B}", "\u{180E}x\u{180E}", "\u{1680}y\u{205F}", "z"] {
        assert_eq!(trim_text(s), s.trim());
    }
}

#[test]
fn english_check_ignores_ascii_case() {
    for t in ["You can hear me", "ami bhalo achi", "is it on", "Hello world", "THE end of it"] {
        assert_eq!(looks_like_english_sentence(t), looks_like_english_sentence(&t.to_ascii_uppercase()));
    }
}

#[test]
fn english_check_survives_appending_words() {
    for a in ["You can hear me", "is it on"] {
        for b in ["", "ami bhalo", "আমি", "x y z"] {
            assert!(looks_like_english_sentence(&format!("{a} {b}")));
        }
    }
}
