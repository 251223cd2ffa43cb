use heck::convert_case::{convert_case, Case, ConvertCase, ConvertCaseOpt};

#[test]
fn number_starts_word_kebab_simple() {
    assert_eq!(
        "aes128".convert_case(ConvertCaseOpt {
            case: Case::Kebab,
            number_starts_word: true
        }),
        "aes-128"
    );
}

#[test]
fn number_starts_word_kebab_complex() {
    assert_eq!(
        "aes128Key".convert_case(ConvertCaseOpt {
            case: Case::Kebab,
            number_starts_word: true
        }),
        "aes-128-key"
    );
}

#[test]
fn number_starts_word_kebab_complex_underscore() {
    assert_eq!(
        "aes128 Key".convert_case(ConvertCaseOpt {
            case: Case::Kebab,
            number_starts_word: true
        }),
        "aes-128-key"
    );
}

#[test]
fn number_starts_word_false_kebab_complex_underscore() {
    assert_eq!(
        "aes128 Key".convert_case(ConvertCaseOpt {
            case: Case::Kebab,
            number_starts_word: false
        }),
        "aes128-key"
    );
}

#[test]
fn number_starts_word_true_title_case() {
    assert_eq!(
        "AES128BitKey".convert_case(ConvertCaseOpt {
            case: Case::Title,
            number_starts_word: true
        }),
        "Aes 128 Bit Key"
    );
}

#[test]
fn number_starts_word_true_snake_case() {
    assert_eq!(
        "99BOTTLES".convert_case(ConvertCaseOpt {
            case: Case::Snake,
            number_starts_word: true
        }),
        "99_bottles"
    );
}

#[test]
fn number_starts_word_true_snake_case_2() {
    assert_eq!(
        "abc123DEF456".convert_case(ConvertCaseOpt {
            case: Case::Snake,
            number_starts_word: true
        }),
        "abc_123_def_456"
    );
}

#[test]
fn number_starts_word_true_snake_case_3() {
    assert_eq!(
        "ABC123dEEf456FOO".convert_case(ConvertCaseOpt {
            case: Case::Snake,
            number_starts_word: true
        }),
        "abc_123_d_e_ef_456_foo"
    );
}

#[test]
fn convert_case_reaches_every_case() {
    let cases = [
        (Case::Kebab, "xml-http-request"),
        (Case::LowerCamel, "xmlHttpRequest"),
        (Case::ShoutyKebab, "XML-HTTP-REQUEST"),
        (Case::ShoutySnake, "XML_HTTP_REQUEST"),
        (Case::Snake, "xml_http_request"),
        (Case::Title, "Xml Http Request"),
        (Case::UpperCamel, "XmlHttpRequest"),
    ];
    for (case, expected) in cases {
        let opt = ConvertCaseOpt { case, number_starts_word: false };
        assert_eq!(convert_case("XMLHttpRequest", opt), expected);
    }
}
