use heck::camel::CamelCase;
use heck::compact_lower::{AsCompactLowercase, ToCompactLowercase};
use heck::compact_upper::{AsCompactUppercase, ToCompactUppercase};
use heck::dot::{AsDotCase, ToDotCase};
use heck::human::{AsHumanCase, ToHumanCase};
use heck::kebab::{to_kebab, AsKebabCase, ToKebabCase};
use heck::lower_camel::{to_lower_camel_case, AsLowerCamelCase, ToLowerCamelCase};
use heck::mid_sentence::{AsMidSentenceCase, ToMidSentenceCase};
use heck::shouty_dot::{AsShoutyDotCase, ToShoutyDotCase};
use heck::shouty_kebab::{to_shouty_kebab_case, AsShoutyKebabCase, ToShoutyKebabCase};
use heck::shouty_snake::{
    to_shouty_snake_case, AsShoutySnakeCase, ToShoutySnakeCase, ToShoutySnekCase,
};
use heck::snake::{to_snake_case, AsSnakeCase, SnakeCase, SnekCase};
use heck::title::{to_title_case, AsTitleCase, ToTitleCase};
use heck::train::{AsTrainCase, ToTrainCase};
use heck::transform::{transform, Pattern, WordCase};
use heck::upper::{AsUpperCase, ToUpperCase};
use heck::upper_camel::{to_upper_camel_case, AsUpperCamelCase, ToPascalCase, ToUpperCamelCase};

#[test]
fn idempotent_on_text_in_its_case() {
    assert_eq!("camel_case".to_snake_case(), "camel_case");
    assert_eq!("kebab-case".to_kebab_case(), "kebab-case");
    assert_eq!("SHOUTY_SNAKE_CASE".to_shouty_snake_case(), "SHOUTY_SNAKE_CASE");
    assert_eq!("UpperCamelCase".to_upper_camel_case(), "UpperCamelCase");
    assert_eq!("lowerCamelCase".to_lower_camel_case(), "lowerCamelCase");
    assert_eq!("Title Case".to_title_case(), "Title Case");
    assert_eq!("Train-Case".to_train_case(), "Train-Case");
    assert_eq!("SHOUTY.DOT.CASE".to_shouty_dot_case(), "SHOUTY.DOT.CASE");
    assert_eq!("dot.case".to_dot_case(), "dot.case");
}

#[test]
fn a_converted_text_need_not_be_in_its_case() {
    // U+1D400 is an uppercase letter without a lowercase mapping: it stays
    // as it is, and then follows lowercase letters.
    assert_eq!("AB\u{1D400}".to_snake_case(), "ab\u{1D400}");
    assert_eq!("ab\u{1D400}".to_snake_case(), "ab_\u{1D400}");
}

#[test]
fn snake_case_of_ascii_text_is_its_own_snake_case() {
    let texts = [
        "",
        "_",
        "a",
        "A",
        "aB",
        "ABc",
        "XMLHttpRequest",
        "__mixed__UP  snake_CASE-with 99Bottles_",
        "a1B2c3",
        "\t~!@#$%^&*()+",
        "already_in_snake_case_42",
    ];
    for text in texts {
        let once = text.to_snake_case();
        assert_eq!(once.to_snake_case(), once, "{:?}", text);
        assert!(!once.starts_with('_') && !once.ends_with('_') && !once.contains("__"));
        assert!(once.chars().all(|c| c == '_' || c.is_ascii_lowercase() || c.is_ascii_digit()));
        assert_eq!(once.is_empty(), !text.chars().any(|c| c.is_ascii_alphanumeric()));
    }
}

#[test]
fn disallowed_characters_are_dropped() {
    assert_eq!(
        "mixed_up snake_case with some _spaces".to_snake_case(),
        "mixed_up_snake_case_with_some_spaces"
    );
}

#[test]
fn end_to_end() {
    assert_eq!("XMLHttpRequest".to_kebab_case(), "xml-http-request");
    assert_eq!("This is Human case.".to_upper_camel_case(), "ThisIsHumanCase");
    assert_eq!("SHOUTY_SNAKE_CASE".to_lower_camel_case(), "shoutySnakeCase");
}

#[test]
fn empty_and_wordless_text() {
    assert_eq!("".to_snake_case(), "");
    assert_eq!("  -- ".to_kebab_case(), "");
    assert_eq!("\u{2615}".to_train_case(), "");
    assert_eq!("_".to_upper_camel_case(), "");
}

#[test]
fn kebab_case() {
    let cases = [
        ("CamelCase", "camel-case"),
        ("This is Human case.", "this-is-human-case"),
        ("MixedUP CamelCase, with some Spaces", "mixed-up-camel-case-with-some-spaces"),
        ("mixed_up_ snake_case with some _spaces", "mixed-up-snake-case-with-some-spaces"),
        ("kebab-case", "kebab-case"),
        ("SHOUTY_SNAKE_CASE", "shouty-snake-case"),
        ("snake_case", "snake-case"),
        ("this-contains_ ALLKinds OfWord_Boundaries", "this-contains-all-kinds-of-word-boundaries"),
        ("X\u{03A3}X\u{03A3} ba\u{FB04}e", "x\u{03C3}x\u{03C2}-ba\u{FB04}e"),
        ("XMLHttpRequest", "xml-http-request"),
        ("\u{30D5}\u{30A1}\u{30A4}\u{30EB}\u{3092}\u{8AAD}\u{307F}\u{8FBC}\u{307F}", "\u{30D5}\u{30A1}\u{30A4}\u{30EB}\u{3092}\u{8AAD}\u{307F}\u{8FBC}\u{307F}"),
        ("sek6 sat1 si1 si6", "sek6-sat1-si1-si6"),
        ("YouTube", "you-tube"),
    ];
    for (input, expected) in cases {
        assert_eq!(input.to_kebab_case(), expected);
        assert_eq!(to_kebab(input, false), expected);
        assert_eq!(AsKebabCase(input).to_string(), expected);
    }
    assert_eq!(to_kebab("Aes128", true), "aes-128");
}

#[test]
fn shouty_kebab_case() {
    let cases = [
        ("CamelCase", "CAMEL-CASE"),
        ("This is Human case.", "THIS-IS-HUMAN-CASE"),
        ("XMLHttpRequest", "XML-HTTP-REQUEST"),
        ("X\u{03A3}X\u{03A3} ba\u{FB04}e", "X\u{03A3}X\u{03A3}-BAFFLE"),
    ];
    for (input, expected) in cases {
        assert_eq!(input.to_shouty_kebab_case(), expected);
        assert_eq!(to_shouty_kebab_case(input, false), expected);
        assert_eq!(AsShoutyKebabCase(input).to_string(), expected);
    }
    assert_eq!(to_shouty_kebab_case("Aes128", true), "AES-128");
}

#[test]
fn snake_case() {
    let cases = [
        ("CamelCase", "camel_case"),
        ("This is Human case.", "this_is_human_case"),
        ("MixedUP CamelCase, with some Spaces", "mixed_up_camel_case_with_some_spaces"),
        ("kebab-case", "kebab_case"),
        ("SHOUTY_SNAKE_CASE", "shouty_snake_case"),
        ("snake_case", "snake_case"),
        ("this-contains_ ALLKinds OfWord_Boundaries", "this_contains_all_kinds_of_word_boundaries"),
        ("X\u{03A3}X\u{03A3} ba\u{FB04}e", "x\u{03C3}x\u{03C2}_ba\u{FB04}e"),
        ("XMLHttpRequest", "xml_http_request"),
    ];
    for (input, expected) in cases {
        assert_eq!(input.to_snake_case(), expected);
        assert_eq!(input.to_snek_case(), expected);
        assert_eq!(to_snake_case(input, false), expected);
        assert_eq!(AsSnakeCase(input).to_string(), expected);
    }
    assert_eq!(to_snake_case("abc123DEF456", true), "abc_123_def_456");
}

#[test]
fn shouty_snake_case() {
    let cases = [
        ("CamelCase", "CAMEL_CASE"),
        ("This is Human case.", "THIS_IS_HUMAN_CASE"),
        ("MixedUP CamelCase, with some Spaces", "MIXED_UP_CAMEL_CASE_WITH_SOME_SPACES"),
        ("mixed_up_snake_case with some _spaces", "MIXED_UP_SNAKE_CASE_WITH_SOME_SPACES"),
        ("kebab-case", "KEBAB_CASE"),
        ("SHOUTY_SNAKE_CASE", "SHOUTY_SNAKE_CASE"),
        ("snake_case", "SNAKE_CASE"),
        ("this-contains_ ALLKinds OfWord_Boundaries", "THIS_CONTAINS_ALL_KINDS_OF_WORD_BOUNDARIES"),
        ("X\u{03A3}X\u{03A3} ba\u{FB04}e", "X\u{03A3}X\u{03A3}_BAFFLE"),
        ("XMLHttpRequest", "XML_HTTP_REQUEST"),
    ];
    for (input, expected) in cases {
        assert_eq!(input.to_shouty_snake_case(), expected);
        assert_eq!(input.TO_SHOUTY_SNEK_CASE(), expected);
        assert_eq!(to_shouty_snake_case(input, false), expected);
        assert_eq!(AsShoutySnakeCase(input).to_string(), expected);
    }
    assert_eq!(to_shouty_snake_case("aes128", true), "AES_128");
}

#[test]
fn upper_camel_case() {
    let cases = [
        ("CamelCase", "CamelCase"),
        ("This is Human case.", "ThisIsHumanCase"),
        ("MixedUP_CamelCase, with some Spaces", "MixedUpCamelCaseWithSomeSpaces"),
        ("mixed_up_ snake_case, with some _spaces", "MixedUpSnakeCaseWithSomeSpaces"),
        ("kebab-case", "KebabCase"),
        ("SHOUTY_SNAKE_CASE", "ShoutySnakeCase"),
        ("snake_case", "SnakeCase"),
        ("this-contains_ ALLKinds OfWord_Boundaries", "ThisContainsAllKindsOfWordBoundaries"),
        ("X\u{03A3}X\u{03A3} ba\u{FB04}e", "X\u{03C3}x\u{03C2}Ba\u{FB04}e"),
        ("XMLHttpRequest", "XmlHttpRequest"),
    ];
    for (input, expected) in cases {
        assert_eq!(input.to_upper_camel_case(), expected);
        assert_eq!(input.to_pascal_case(), expected);
        assert_eq!(input.to_camel_case(), expected);
        assert_eq!(to_upper_camel_case(input, false), expected);
        assert_eq!(AsUpperCamelCase(input).to_string(), expected);
    }
    assert_eq!(to_upper_camel_case("aes128key", true), "Aes128Key");
}

#[test]
fn lower_camel_case() {
    let cases = [
        ("CamelCase", "camelCase"),
        ("This is Human case.", "thisIsHumanCase"),
        ("MixedUP CamelCase, with some Spaces", "mixedUpCamelCaseWithSomeSpaces"),
        ("mixed_up_ snake_case, with some _spaces", "mixedUpSnakeCaseWithSomeSpaces"),
        ("kebab-case", "kebabCase"),
        ("SHOUTY_SNAKE_CASE", "shoutySnakeCase"),
        ("snake_case", "snakeCase"),
        ("this-contains_ ALLKinds OfWord_Boundaries", "thisContainsAllKindsOfWordBoundaries"),
        ("X\u{03A3}X\u{03A3} ba\u{FB04}e", "x\u{03C3}x\u{03C2}Ba\u{FB04}e"),
        ("XMLHttpRequest", "xmlHttpRequest"),
    ];
    for (input, expected) in cases {
        assert_eq!(input.to_lower_camel_case(), expected);
        assert_eq!(to_lower_camel_case(input, false), expected);
        assert_eq!(AsLowerCamelCase(input).to_string(), expected);
    }
    assert_eq!(to_lower_camel_case("AES128key", true), "aes128Key");
}

#[test]
fn title_case() {
    let cases = [
        ("CamelCase", "Camel Case"),
        ("This is Human case.", "This Is Human Case"),
        ("MixedUP CamelCase, with some Spaces", "Mixed Up Camel Case With Some Spaces"),
        ("kebab-case", "Kebab Case"),
        ("SHOUTY_SNAKE_CASE", "Shouty Snake Case"),
        ("X\u{03A3}X\u{03A3} ba\u{FB04}e", "X\u{03C3}x\u{03C2} Ba\u{FB04}e"),
        ("XMLHttpRequest", "Xml Http Request"),
    ];
    for (input, expected) in cases {
        assert_eq!(input.to_title_case(), expected);
        assert_eq!(to_title_case(input, false), expected);
        assert_eq!(AsTitleCase(input).to_string(), expected);
    }
    assert_eq!(to_title_case("AES128BitKey", true), "Aes 128 Bit Key");
}

#[test]
fn train_case() {
    let cases = [
        ("CamelCase", "Camel-Case"),
        ("This is Human case.", "This-Is-Human-Case"),
        ("MixedUP CamelCase, with some Spaces", "Mixed-Up-Camel-Case-With-Some-Spaces"),
        ("mixed_up_ snake_case with some _spaces", "Mixed-Up-Snake-Case-With-Some-Spaces"),
        ("kebab-case", "Kebab-Case"),
        ("SHOUTY_SNAKE_CASE", "Shouty-Snake-Case"),
        ("snake_case", "Snake-Case"),
        ("this-contains_ ALLKinds OfWord_Boundaries", "This-Contains-All-Kinds-Of-Word-Boundaries"),
        ("XMLHttpRequest", "Xml-Http-Request"),
        ("FIELD_NAME11", "Field-Name11"),
        ("FieldNamE11", "Field-Nam-E11"),
        ("abc123def456", "Abc123def456"),
        ("abc123DEF456", "Abc123def456"),
        ("abc123Def456", "Abc123-Def456"),
        ("abc123DEf456", "Abc123d-Ef456"),
        ("ABC123def456", "Abc123def456"),
        ("ABC123DEF456", "Abc123def456"),
        ("ABC123Def456", "Abc123-Def456"),
        ("ABC123DEf456", "Abc123d-Ef456"),
        ("ABC123dEEf456FOO", "Abc123d-E-Ef456foo"),
        ("abcDEF", "Abc-Def"),
        ("ABcDE", "A-Bc-De"),
        ("\u{01C4}O", "\u{01C5}o"),
        ("\u{01C6}O", "\u{01C5}-O"),
        ("\u{01C6}o", "\u{01C5}o"),
        ("\u{1F408}\u{200D}\u{2B1B}\u{1F408}", "\u{200D}"),
        ("\u{1F408}\u{200D}\u{2B1B}\u{1F408}a", "\u{200D}-A"),
        ("A\u{1F408}\u{200D}\u{2B1B}\u{1F408}a", "A-\u{200D}-A"),
        ("\u{2615}", ""),
        ("a*\u{FE0F}\u{20E3}b", "A-\u{FE0F}-B"),
        ("a*b", "A-B"),
        ("a\u{0301}B", "A\u{0301}-B"),
        ("\u{FB04}ololo", "Fflololo"),
        ("TypeII", "Type-Ii"),
        ("OCaml", "O-Caml"),
        ("HTTP\u{0417}\u{0430}\u{043F}\u{0440}\u{043E}\u{0441}", "Http-\u{0417}\u{0430}\u{043F}\u{0440}\u{043E}\u{0441}"),
        ("UAX9ClauseHL4", "Uax9-Clause-Hl4"),
        ("LOUD_SNAKE", "Loud-Snake"),
        ("Fancy_Snake", "Fancy-Snake"),
        ("snake-kebab", "Snake-Kebab"),
        ("Paral\u{00B7}lel", "Paral\u{00B7}lel"),
        ("dromedaryCamel", "Dromedary-Camel"),
        ("snakeELEPHANTSnake", "Snake-Elephant-Snake"),
        // Only the first character of a word is capitalized.
        ("99BOTTLES", "99bottles"),
    ];
    for (input, expected) in cases {
        assert_eq!(input.to_train_case(), expected, "{:?}", input);
        assert_eq!(AsTrainCase(input).to_string(), expected);
    }
}

#[test]
fn dot_case() {
    let cases = [
        ("CamelCase", "camel.case"),
        ("This is Human case.", "this.is.human.case"),
        ("kebab-case", "kebab.case"),
        ("X\u{03A3}X\u{03A3} ba\u{FB04}e", "x\u{03C3}x\u{03C2}.ba\u{FB04}e"),
        ("XMLHttpRequest", "xml.http.request"),
        ("\u{795D}\u{4F60}\u{4E00}\u{5929}\u{8FC7}\u{5F97}\u{6109}\u{5FEB}", "\u{795D}\u{4F60}\u{4E00}\u{5929}\u{8FC7}\u{5F97}\u{6109}\u{5FEB}"),
    ];
    for (input, expected) in cases {
        assert_eq!(input.to_dot_case(), expected);
        assert_eq!(AsDotCase(input).to_string(), expected);
    }
}

#[test]
fn shouty_dot_case() {
    let cases = [
        ("CamelCase", "CAMEL.CASE"),
        ("This is Human case.", "THIS.IS.HUMAN.CASE"),
        ("XMLHttpRequest", "XML.HTTP.REQUEST"),
        ("SHOUTY.DOT.CASE", "SHOUTY.DOT.CASE"),
        ("dot.case", "DOT.CASE"),
        ("mixed.up. dot.case with some .spaces", "MIXED.UP.DOT.CASE.WITH.SOME.SPACES"),
    ];
    for (input, expected) in cases {
        assert_eq!(input.to_shouty_dot_case(), expected);
        assert_eq!(AsShoutyDotCase(input).to_string(), expected);
    }
}

#[test]
fn upper_case() {
    let cases = [
        ("CamelCase", "CAMEL CASE"),
        ("This is upper case.", "THIS IS UPPER CASE"),
        ("we-are-going-to-inherit-the-earth.", "WE ARE GOING TO INHERIT THE EARTH"),
        ("X\u{03A3}X\u{03A3} ba\u{FB04}e", "X\u{03A3}X\u{03A3} BAFFLE"),
        ("XMLHttpRequest", "XML HTTP REQUEST"),
    ];
    for (input, expected) in cases {
        assert_eq!(input.to_upper_case(), expected);
        assert_eq!(AsUpperCase(input).to_string(), expected);
    }
}

#[test]
fn mid_sentence_case() {
    let cases = [
        ("CamelCase", "camel case"),
        ("This is Human case.", "this is human case"),
        ("X\u{03A3}X\u{03A3} ba\u{FB04}e", "x\u{03C3}x\u{03C2} ba\u{FB04}e"),
        ("XMLHttpRequest", "xml http request"),
        (
            "We have always lived in slums and holes in the wall.",
            "we have always lived in slums and holes in the wall",
        ),
    ];
    for (input, expected) in cases {
        assert_eq!(input.to_mid_sentence_case(), expected);
        assert_eq!(AsMidSentenceCase(input).to_string(), expected);
    }
}

#[test]
fn human_case() {
    let cases = [
        ("CamelCase", "Camel case"),
        ("This is Human case.", "This is human case"),
        ("MixedUP CamelCase, with some Spaces", "Mixed up camel case with some spaces"),
        ("mixed_up_ snake_case, with some _spaces", "Mixed up snake case with some spaces"),
        ("kebab-case", "Kebab case"),
        ("SHOUTY_SNAKE_CASE", "Shouty snake case"),
        ("snake_case", "Snake case"),
        ("this-contains_ ALLKinds OfWord_Boundaries", "This contains all kinds of word boundaries"),
        ("X\u{03A3}X\u{03A3} ba\u{FB04}e", "X\u{03C3}x\u{03C2} ba\u{FB04}e"),
        ("XMLHttpRequest", "Xml http request"),
        ("we-are-going-to-inherit-the-earth.", "We are going to inherit the earth"),
    ];
    for (input, expected) in cases {
        assert_eq!(input.to_human_case(), expected);
        assert_eq!(AsHumanCase(input).to_string(), expected);
    }
}

#[test]
fn compact_lowercase() {
    let cases = [
        ("CamelCase", "camelcase"),
        ("This is Human case.", "thisishumancase"),
        ("X\u{03A3}X\u{03A3} ba\u{FB04}e", "x\u{03C3}x\u{03C2}ba\u{FB04}e"),
        ("XMLHttpRequest", "xmlhttprequest"),
        ("FIELD_NAME11", "fieldname11"),
        ("99BOTTLES", "99bottles"),
        ("ABC123dEEf456FOO", "abc123deef456foo"),
        ("ABcDE", "abcde"),
    ];
    for (input, expected) in cases {
        assert_eq!(input.to_compact_lowercase(), expected);
        assert_eq!(AsCompactLowercase(input).to_string(), expected);
    }
}

#[test]
fn compact_uppercase() {
    let cases = [
        ("CamelCase", "CAMELCASE"),
        ("This is Human case.", "THISISHUMANCASE"),
        ("X\u{03A3}X\u{03A3} ba\u{FB04}e", "X\u{03A3}X\u{03A3}BAFFLE"),
        ("XMLHttpRequest", "XMLHTTPREQUEST"),
        ("FIELD_NAME11", "FIELDNAME11"),
        ("99BOTTLES", "99BOTTLES"),
        ("ABC123dEEf456FOO", "ABC123DEEF456FOO"),
        ("ABcDE", "ABCDE"),
    ];
    for (input, expected) in cases {
        assert_eq!(input.to_compact_uppercase(), expected);
        assert_eq!(AsCompactUppercase(input).to_string(), expected);
    }
}

#[test]
fn transform_writes_what_the_pattern_says() {
    let pattern = Pattern { first: WordCase::Upper, rest: WordCase::Title, separator: Some('+') };
    assert_eq!(transform("fooBar baz", false, pattern), "FOO+Bar+Baz");
    let pattern = Pattern { first: WordCase::Title, rest: WordCase::Lower, separator: None };
    assert_eq!(transform("fooBar baz1x", true, pattern), "Foobarbaz1x");
    assert_eq!(transform("", true, pattern), "");
}
