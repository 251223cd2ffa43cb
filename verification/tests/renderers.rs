use heck::render::{lowercase, titlecase, uppercase};
use heck::tables::{
    allowed_in_word, is_non_greek_titlecase, is_nonspacing_mark, letter_casing, to_titlecase,
    CasedLetterKind,
};
use heck::text::{chars_of, to_ascii_lower, to_ascii_upper};

fn lower(s: &str) -> String {
    let mut out = String::new();
    lowercase(s, &mut out);
    out
}

fn upper(s: &str) -> String {
    let mut out = String::new();
    uppercase(s, &mut out);
    out
}

fn title(s: &str) -> String {
    let mut out = String::new();
    titlecase(s, &mut out);
    out
}

#[test]
fn final_sigma() {
    assert_eq!(lower("\u{0391}\u{03A3}"), "\u{03B1}\u{03C2}");
    assert_eq!(lower("\u{03A3}\u{0391}"), "\u{03C3}\u{03B1}");
    assert_eq!(lower("\u{03A3}\u{03A3}"), "\u{03C3}\u{03C2}");
    assert_eq!(lower("\u{03A3}"), "\u{03C2}");
    assert_eq!(lower("X\u{03A3}X\u{03A3}"), "x\u{03C3}x\u{03C2}");
}

#[test]
fn lowercase_maps_every_character() {
    assert_eq!(lower("ABC"), "abc");
    assert_eq!(lower("aBc1"), "abc1");
    assert_eq!(lower(""), "");
    // U+0130 has a lowercase mapping of two characters.
    assert_eq!(lower("\u{0130}"), "i\u{0307}");
}

#[test]
fn lowercase_appends() {
    let mut out = String::from("x=");
    lowercase("AB", &mut out);
    assert_eq!(out, "x=ab");
    uppercase("cd", &mut out);
    assert_eq!(out, "x=abCD");
    titlecase("eF", &mut out);
    assert_eq!(out, "x=abCDEf");
}

#[test]
fn uppercase_may_expand() {
    assert_eq!(upper("abc"), "ABC");
    assert_eq!(upper("stra\u{00DF}e"), "STRASSE");
    assert_eq!(upper("ba\u{FB04}e"), "BAFFLE");
    assert_eq!(upper(""), "");
    assert_eq!(upper("X\u{03A3}"), "X\u{03A3}");
}

#[test]
fn titlecase_capitalizes_the_first_character() {
    assert_eq!(title("hello"), "Hello");
    assert_eq!(title("HELLO"), "Hello");
    assert_eq!(title("h"), "H");
    assert_eq!(title(""), "");
    assert_eq!(title("\u{FB04}ololo"), "Fflololo");
    assert_eq!(title("\u{01C4}O"), "\u{01C5}o");
    assert_eq!(title("\u{00DF}A"), "Ssa");
    assert_eq!(title("A\u{03A3}"), "A\u{03C2}");
    // Only the first character is capitalized, cased or not.
    assert_eq!(title("99BOTTLES"), "99bottles");
}

#[test]
fn titlecase_mappings() {
    assert_eq!(to_titlecase('a'), "A");
    assert_eq!(to_titlecase('Z'), "Z");
    assert_eq!(to_titlecase('7'), "7");
    assert_eq!(to_titlecase('\u{00DF}'), "Ss");
    assert_eq!(to_titlecase('\u{01C6}'), "\u{01C5}");
    assert_eq!(to_titlecase('\u{01C4}'), "\u{01C5}");
    assert_eq!(to_titlecase('\u{FB03}'), "Ffi");
    assert_eq!(to_titlecase('\u{1FB7}'), "\u{0391}\u{0342}\u{0345}");
    // Georgian: the titlecase mapping is the letter itself, the uppercase
    // mapping is another.
    assert_eq!(to_titlecase('\u{10D0}'), "\u{10D0}");
    // Not listed: the uppercase mapping.
    assert_eq!(to_titlecase('\u{00E9}'), "\u{00C9}");
    assert_eq!(to_titlecase('\u{0149}'), "\u{02BC}N");
    assert_eq!(to_titlecase('\u{5531}'), "\u{5531}");
}

#[test]
fn ascii_uppercase() {
    assert_eq!(to_ascii_upper('a'), 'A');
    assert_eq!(to_ascii_upper('z'), 'Z');
    assert_eq!(to_ascii_upper('A'), 'A');
    assert_eq!(to_ascii_upper('`'), '`');
    assert_eq!(to_ascii_upper('{'), '{');
    assert_eq!(to_ascii_upper('\u{00E9}'), '\u{00E9}');
}

#[test]
fn characters_of_a_string() {
    assert_eq!(chars_of("a\u{0301}B"), vec!['a', '\u{0301}', 'B']);
    assert_eq!(chars_of(""), Vec::<char>::new());
}

#[test]
fn word_characters() {
    for c in ['a', 'Z', '0', '9', '\u{00B7}', '\u{05F3}', '\u{05F4}', '\u{0F0B}', '\u{0301}', '\u{200D}'] {
        assert!(allowed_in_word(c), "{:?}", c);
    }
    for c in [' ', '_', '-', '.', ',', '(', ')', '"', '\u{2615}', '\u{20E3}', '\u{FF01}', '\0'] {
        assert!(!allowed_in_word(c), "{:?}", c);
    }
    // Unassigned and private-use characters are allowed.
    assert!(allowed_in_word('\u{E000}'));
    assert!(allowed_in_word('\u{10FFFF}'));
    assert!(allowed_in_word('\u{0378}'));
    // Superscript digits are, superscript parentheses are not.
    assert!(allowed_in_word('\u{2074}'));
    assert!(!allowed_in_word('\u{207D}'));
}

#[test]
fn nonspacing_marks() {
    assert!(is_nonspacing_mark('\u{0300}'));
    assert!(is_nonspacing_mark('\u{036F}'));
    assert!(is_nonspacing_mark('\u{20E3}'));
    assert!(is_nonspacing_mark('\u{FE0F}'));
    assert!(is_nonspacing_mark('\u{E0100}'));
    assert!(!is_nonspacing_mark('a'));
    assert!(!is_nonspacing_mark('\u{02FF}'));
    assert!(!is_nonspacing_mark('\u{0370}'));
    // A spacing mark is no nonspacing mark.
    assert!(!is_nonspacing_mark('\u{0903}'));
}

#[test]
fn letter_casings() {
    assert_eq!(letter_casing('a'), Some(CasedLetterKind::Lowercase));
    assert_eq!(letter_casing('A'), Some(CasedLetterKind::Uppercase));
    assert_eq!(letter_casing('\u{01C5}'), Some(CasedLetterKind::Titlecase));
    assert_eq!(letter_casing('\u{1F88}'), Some(CasedLetterKind::Titlecase));
    assert_eq!(letter_casing('\u{03A3}'), Some(CasedLetterKind::Uppercase));
    assert_eq!(letter_casing('\u{03C2}'), Some(CasedLetterKind::Lowercase));
    assert_eq!(letter_casing('\u{1D400}'), Some(CasedLetterKind::Uppercase));
    assert_eq!(letter_casing('1'), None);
    assert_eq!(letter_casing('_'), None);
    assert_eq!(letter_casing('\u{5531}'), None);
    // A feminine ordinal indicator is a letter without case.
    assert_eq!(letter_casing('\u{00AA}'), None);
    assert_eq!(letter_casing('\u{10FFFF}'), None);
}

#[test]
fn non_greek_titlecase() {
    for c in ['\u{01C5}', '\u{01C8}', '\u{01CB}', '\u{01F2}'] {
        assert!(is_non_greek_titlecase(c));
    }
    assert!(!is_non_greek_titlecase('\u{1F88}'));
    assert!(!is_non_greek_titlecase('\u{01C4}'));
    assert!(!is_non_greek_titlecase('A'));
}

#[test]
fn case_mappings_stay_within_words() {
    for c in '\0'..=char::MAX {
        if allowed_in_word(c) {
            assert!(c.to_uppercase().all(allowed_in_word), "{:?}", c);
            assert!(c.to_lowercase().all(allowed_in_word), "{:?}", c);
            assert!(to_titlecase(c).chars().all(allowed_in_word), "{:?}", c);
        }
    }
}

#[test]
fn lists_agree_with_the_standard_library() {
    for c in '\0'..=char::MAX {
        // Latin up to Latin Extended-B, Greek and Cyrillic: what the
        // standard library knows of these has long been settled.
        let settled = c < '\u{0250}' || ('\u{0370}'..'\u{0530}').contains(&c);
        match letter_casing(c) {
            Some(CasedLetterKind::Lowercase) => assert!(!settled || c.is_lowercase(), "{:?}", c),
            Some(CasedLetterKind::Uppercase) => assert!(!settled || c.is_uppercase(), "{:?}", c),
            Some(CasedLetterKind::Titlecase) => {
                assert!(!c.is_lowercase() && !c.is_uppercase(), "{:?}", c);
                assert_eq!(to_titlecase(c), c.to_string());
            }
            None => assert!(!settled || !c.is_alphabetic() || c.to_lowercase().eq(c.to_uppercase()), "{:?}", c),
        }
        if c.is_alphanumeric() {
            assert!(allowed_in_word(c), "{:?}", c);
        }
        if c.is_ascii() {
            assert_eq!(allowed_in_word(c), c.is_ascii_alphanumeric());
            assert_eq!(is_nonspacing_mark(c), false);
            assert_eq!(to_titlecase(c), c.to_ascii_uppercase().to_string());
        }
        if is_non_greek_titlecase(c) {
            assert_eq!(letter_casing(c), Some(CasedLetterKind::Titlecase));
        }
        let mapping = to_titlecase(c).chars().count();
        assert!(1 <= mapping && mapping <= 3, "{:?}", c);
    }
}

#[test]
fn ascii_characters_are_mapped_as_the_standard_library_maps_them() {
    for c in '\0'..='\u{007F}' {
        assert_eq!(to_ascii_lower(c), c.to_ascii_lowercase());
        assert_eq!(to_ascii_upper(c), c.to_ascii_uppercase());
        assert_eq!(lower(&c.to_string()), c.to_lowercase().to_string());
        assert_eq!(upper(&c.to_string()), c.to_uppercase().to_string());
    }
    assert_eq!(to_ascii_lower('\u{00C9}'), '\u{00C9}');
    assert_eq!(lower("A\u{00C9}Z@[`{"), "a\u{00E9}z@[`{");
    assert_eq!(upper("a\u{00E9}z@[`{"), "A\u{00C9}Z@[`{");
}
