use heck::segment::{is_digit, role_of, segment, Event, Role};
use heck::transform::split_words;

fn words(s: &str) -> Vec<String> {
    split_words(s, false)
}

fn events(s: &str, digits: bool) -> Vec<Event> {
    let chars: Vec<char> = s.chars().collect();
    segment(&chars, digits)
}

fn word_count_of(events: &[Event]) -> usize {
    events.iter().filter(|e| matches!(e, Event::Word { .. })).count()
}

fn boundary_count_of(events: &[Event]) -> usize {
    events.iter().filter(|e| matches!(e, Event::Boundary)).count()
}

#[test]
fn uppercase_run_is_split_before_its_last_letter() {
    assert_eq!(words("XMLHttpRequest"), vec!["XML", "Http", "Request"]);
}

#[test]
fn camel_case_boundary() {
    assert_eq!(words("fooBar"), vec!["foo", "Bar"]);
}

#[test]
fn marks_are_transparent() {
    assert_eq!(words("a\u{0301}B"), vec!["a\u{0301}", "B"]);
    assert_eq!(words("A\u{0301}B\u{0301}c"), vec!["A\u{0301}", "B\u{0301}c"]);
    assert_eq!(words("aB"), vec!["a", "B"]);
    assert_eq!(words("ABc"), vec!["A", "Bc"]);
}

#[test]
fn mark_at_the_start_of_a_run() {
    // The mark follows no letter: it makes a word with what comes before the
    // boundary that the uppercase letter before a lowercase letter opens.
    assert_eq!(words("\u{0301}Ab"), vec!["\u{0301}", "Ab"]);
    assert_eq!(words("\u{0301}ab"), vec!["\u{0301}ab"]);
}

#[test]
fn digraphs_always_start_a_word() {
    assert_eq!(words("a\u{01C5}"), vec!["a", "\u{01C5}"]);
    assert_eq!(words("A\u{01C5}"), vec!["A", "\u{01C5}"]);
    assert_eq!(words("1\u{01C5}"), vec!["1", "\u{01C5}"]);
    assert_eq!(words("\u{01C5}a"), vec!["\u{01C5}a"]);
    // A digraph counts as lowercase for the letter after it.
    assert_eq!(words("\u{01C5}A"), vec!["\u{01C5}", "A"]);
    assert_eq!(words("\u{01C5}\u{01C5}"), vec!["\u{01C5}", "\u{01C5}"]);
}

#[test]
fn greek_titlecase_counts_as_uppercase() {
    // U+1F88 is a Greek titlecase letter.
    assert_eq!(words("A\u{1F88}"), vec!["A\u{1F88}"]);
    assert_eq!(words("a\u{1F88}"), vec!["a", "\u{1F88}"]);
    assert_eq!(words("A\u{1F88}a"), vec!["A", "\u{1F88}a"]);
}

#[test]
fn digits_reset_the_letter_rules() {
    assert_eq!(words("a1B"), vec!["a1B"]);
    assert_eq!(words("A1b"), vec!["A1b"]);
    assert_eq!(words("abc123DEf456"), vec!["abc123D", "Ef456"]);
}

#[test]
fn separators_are_dropped() {
    assert_eq!(words("_foo__bar_"), vec!["foo", "bar"]);
    assert_eq!(words("mixed_up snake_case"), vec!["mixed", "up", "snake", "case"]);
    assert!(words("").is_empty());
    assert!(words("-- __ ..").is_empty());
    assert!(words("\u{2615}").is_empty());
}

#[test]
fn digits_start_words_when_asked() {
    assert_eq!(split_words("aes128Key", true), vec!["aes", "128", "Key"]);
    assert_eq!(split_words("aes128Key", false), vec!["aes128", "Key"]);
    assert_eq!(split_words("99BOTTLES", true), vec!["99", "BOTTLES"]);
    assert_eq!(
        split_words("ABC123dEEf456FOO", true),
        vec!["ABC", "123", "d", "E", "Ef", "456", "FOO"]
    );
    // A mark goes with the character before it, digit or not.
    assert_eq!(split_words("1\u{0301}a", true), vec!["1\u{0301}", "a"]);
    assert_eq!(split_words("a\u{0301}1", true), vec!["a\u{0301}", "1"]);
}

#[test]
fn events_alternate_words_and_boundaries() {
    assert_eq!(
        events("fooBar baz", false),
        vec![
            Event::Word { start: 0, end: 3 },
            Event::Boundary,
            Event::Word { start: 3, end: 6 },
            Event::Boundary,
            Event::Word { start: 7, end: 10 },
        ]
    );
    assert_eq!(events("", false), vec![]);
    assert_eq!(events("  ", true), vec![]);
    assert_eq!(events("x", true), vec![Event::Word { start: 0, end: 1 }]);
}

#[test]
fn one_boundary_less_than_words() {
    for s in ["XMLHttpRequest", "a", "mixed_up snake_case with some _spaces", "aes128Key"] {
        for digits in [false, true] {
            let ev = events(s, digits);
            assert_eq!(word_count_of(&ev), boundary_count_of(&ev) + 1);
        }
    }
    for s in ["", "_", " - . "] {
        let ev = events(s, false);
        assert_eq!(word_count_of(&ev), 0);
        assert_eq!(boundary_count_of(&ev), 0);
    }
}

#[test]
fn roles() {
    assert_eq!(role_of('a'), Role::Lower);
    assert_eq!(role_of('A'), Role::Upper);
    assert_eq!(role_of('1'), Role::Plain);
    assert_eq!(role_of('_'), Role::Separator);
    assert_eq!(role_of(' '), Role::Separator);
    assert_eq!(role_of('\u{0301}'), Role::Mark);
    assert_eq!(role_of('\u{01C5}'), Role::Digraph);
    assert_eq!(role_of('\u{1F88}'), Role::Upper);
    // An enclosing mark that cannot be part of a word is a separator.
    assert_eq!(role_of('\u{20E3}'), Role::Separator);
    assert_eq!(role_of('\u{5531}'), Role::Plain);
}

#[test]
fn ascii_digits() {
    assert!(is_digit('0'));
    assert!(is_digit('9'));
    assert!(!is_digit('a'));
    assert!(!is_digit('/'));
    assert!(!is_digit(':'));
    assert!(!is_digit('\u{0663}'));
}
