use heck::generate::allowed_in_word::{
    allowed_in_word, punctuation_non_other, table as word_table, unassigned_private_use,
};
use heck::generate::bits::{CodepointBitArr, CODE_POINTS};
use heck::generate::letter_casing::{
    build_casing_tree, code, kind_of, letter_casing, table as casing_table,
};
use heck::generate::nonspacing_marks::{nonspacing_marks, table as marks_table};
use heck::generate::scan::{hex_digit, is_white_space, lines, parse_hex, strip_suffix, trim};
use heck::generate::table::{bit_table, last_with, list_of_ranges};
use heck::generate::titlecase::{max_expansion, titlecases, words};
use heck::generate::nonspacing_marks::build_tree as build_marks_tree;
use heck::generate::tree::{build_tree, chunk_at, intern, tree_lookup};
use heck::generate::unicode_data::{
    apply_category_line, apply_prop_line, set_by_general_category, set_by_prop, set_range,
    DataFiles, TableError,
};
use heck::tables::CasedLetterKind;

const UNICODE_DATA: &str = "\
0020;SPACE;Zs;0;WS;;;;;N;;;;;
0028;LEFT PARENTHESIS;Ps;0;ON;;;;;Y;OPENING PARENTHESIS;;;;
002D;HYPHEN-MINUS;Pd;0;ES;;;;;N;;;;;
002E;FULL STOP;Po;0;CS;;;;;N;PERIOD;;;;
0030;DIGIT ZERO;Nd;0;EN;;0;0;0;N;;;;;
0031;DIGIT ONE;Nd;0;EN;;1;1;1;N;;;;;
0041;LATIN CAPITAL LETTER A;Lu;0;L;;;;;N;;;;0061;
0042;LATIN CAPITAL LETTER B;Lu;0;L;;;;;N;;;;0062;
005F;LOW LINE;Pc;0;ON;;;;;N;SPACING UNDERSCORE;;;;
0061;LATIN SMALL LETTER A;Ll;0;L;;;;;N;;;0041;;0041
0062;LATIN SMALL LETTER B;Ll;0;L;;;;;N;;;0042;;0042
00DF;LATIN SMALL LETTER SHARP S;Ll;0;L;;;;;N;;;;;
01C4;LATIN CAPITAL LETTER DZ WITH CARON;Lu;0;L;<compat> 0044 017D;;;;N;LATIN CAPITAL LETTER D Z HACEK;;;01C6;01C5
01C5;LATIN CAPITAL LETTER D WITH SMALL LETTER Z WITH CARON;Lt;0;L;<compat> 0044 017E;;;;N;LATIN LETTER CAPITAL D SMALL Z HACEK;;01C4;01C6;01C5
01C6;LATIN SMALL LETTER DZ WITH CARON;Ll;0;L;<compat> 0064 017E;;;;N;LATIN SMALL LETTER D Z HACEK;;01C4;;01C5
0301;COMBINING ACUTE ACCENT;Mn;230;NSM;;;;;N;NON-SPACING ACUTE;;;;
05F3;HEBREW PUNCTUATION GERESH;Po;0;R;;;;;N;;;;;
1F88;GREEK CAPITAL LETTER ALPHA WITH PSILI AND PROSGEGRAMMENI;Lt;0;L;1F08 0345;;;;N;;;;1F80;
20E3;COMBINING ENCLOSING KEYCAP;Me;0;NSM;;;;;N;;;;;
3400;<CJK Ideograph Extension A, First>;Lo;0;L;;;;;N;;;;;
4DBF;<CJK Ideograph Extension A, Last>;Lo;0;L;;;;;N;;;;;
E000;<Private Use, First>;Co;0;L;;;;;N;;;;;
F8FF;<Private Use, Last>;Co;0;L;;;;;N;;;;;
";

const DERIVED_CORE_PROPERTIES: &str = "\
# DerivedCoreProperties
0041..0042    ; Alphabetic # L&   [2] LATIN CAPITAL LETTER A..LATIN CAPITAL LETTER B
0061..0062    ; Alphabetic # L&   [2] LATIN SMALL LETTER A..LATIN SMALL LETTER B
01C4..01C6    ; Alphabetic # L&   [3] LATIN CAPITAL LETTER DZ WITH CARON..
3400..4DBF    ; Alphabetic # Lo [6592] CJK UNIFIED IDEOGRAPH-3400..CJK UNIFIED IDEOGRAPH-4DBF

0030..0031    ; ID_Continue # Nd   [2] DIGIT ZERO..DIGIT ONE
005F          ; ID_Continue # Pc       LOW LINE
0301          ; ID_Continue # Mn       COMBINING ACUTE ACCENT
1F88          ; Alphabetic # Lt       GREEK CAPITAL LETTER ALPHA WITH PSILI AND PROSGEGRAMMENI
0061..0062    ; Lowercase # L&   [2] LATIN SMALL LETTER A..LATIN SMALL LETTER B
";

const PROP_LIST: &str = "\
00B2..00B3    ; ID_Compat_Math_Continue # No   [2] SUPERSCRIPT TWO..SUPERSCRIPT THREE
0020          ; White_Space # Zs       SPACE
";

const SCRIPTS: &str = "\
0041..0042    ; Latin # L&   [2] LATIN CAPITAL LETTER A..LATIN CAPITAL LETTER B
1F88          ; Greek # Lt       GREEK CAPITAL LETTER ALPHA WITH PSILI AND PROSGEGRAMMENI
";

const SPECIAL_CASING: &str = "\
# SpecialCasing
00DF; 00DF; 0053 0073; 0053 0053; # LATIN SMALL LETTER SHARP S
FB00; FB00; 0046 0066; 0046 0046; # LATIN SMALL LIGATURE FF
0149; 0149; 02BC 004E; 02BC 004E; # LATIN SMALL LETTER N PRECEDED BY APOSTROPHE
03A3; 03C2; 03A3; 03A3; Final_Sigma; # GREEK CAPITAL LETTER SIGMA
";

fn data() -> DataFiles {
    DataFiles {
        unicode_data: UNICODE_DATA.to_string(),
        derived_core_properties: DERIVED_CORE_PROPERTIES.to_string(),
        prop_list: PROP_LIST.to_string(),
        scripts: SCRIPTS.to_string(),
        special_casing: SPECIAL_CASING.to_string(),
    }
}

fn data_with_unicode_data(unicode_data: &str) -> DataFiles {
    DataFiles { unicode_data: unicode_data.to_string(), ..data() }
}

fn members(arr: &CodepointBitArr) -> Vec<(u32, u32)> {
    list_of_ranges(arr, 0, true)
}

fn cell(text: &str) -> Option<String> {
    Some(text.to_string())
}

#[test]
fn hexadecimal_numbers() {
    assert_eq!(parse_hex("0041"), Some(0x41));
    assert_eq!(parse_hex("10FFFF"), Some(0x10FFFF));
    assert_eq!(parse_hex("0"), Some(0));
    assert_eq!(parse_hex("FFFFFFFF"), Some(u32::MAX));
    assert_eq!(parse_hex("0000000000FF"), Some(0xFF));
    assert_eq!(parse_hex("100000000"), None);
    assert_eq!(parse_hex(""), None);
    assert_eq!(parse_hex("G"), None);
    assert_eq!(parse_hex("ff"), None);
    assert_eq!(parse_hex("+1"), None);
    assert_eq!(parse_hex("1 "), None);
    assert_eq!(hex_digit('0'), Some(0));
    assert_eq!(hex_digit('9'), Some(9));
    assert_eq!(hex_digit('A'), Some(10));
    assert_eq!(hex_digit('F'), Some(15));
    assert_eq!(hex_digit('G'), None);
    assert_eq!(hex_digit('a'), None);
    assert_eq!(hex_digit('/'), None);
    assert_eq!(hex_digit(':'), None);
    assert_eq!(hex_digit('@'), None);
}

#[test]
fn lines_of_a_text() {
    assert_eq!(lines("a\nb\r\nc"), vec!["a", "b", "c"]);
    assert_eq!(lines("a\n"), vec!["a"]);
    assert_eq!(lines("\n\n"), vec!["", ""]);
    assert_eq!(lines("a\r"), vec!["a\r"]);
    assert_eq!(lines("\r\n"), vec![""]);
    assert_eq!(lines("a\n\nb"), vec!["a", "", "b"]);
    assert_eq!(lines("a\rb\n"), vec!["a\rb"]);
    assert_eq!(lines(""), Vec::<String>::new());
    for text in ["", "x", "x\n", "x\r\n\r\ny", "\n", "\r", "a\n\r\nb\r"] {
        let expected: Vec<&str> = text.lines().collect();
        assert_eq!(lines(text), expected);
    }
}

#[test]
fn endings() {
    assert_eq!(strip_suffix("<CJK, First>", ", First>"), cell("<CJK"));
    assert_eq!(strip_suffix("<CJK, Last>", ", First>"), None);
    assert_eq!(strip_suffix("st>", ", First>"), None);
    assert_eq!(strip_suffix(", First>", ", First>"), cell(""));
    assert_eq!(strip_suffix("abc", ""), cell("abc"));
    assert_eq!(strip_suffix("", "a"), None);
}

#[test]
fn white_space() {
    for c in '\0'..=char::MAX {
        assert_eq!(is_white_space(c), c.is_whitespace(), "{:?}", c);
    }
    for text in ["", " ", "a", " a", "a ", "  a b  ", "\t\u{3000}a\u{00A0}\n", " \u{200B} ", "\n\n"] {
        assert_eq!(trim(text), text.trim(), "{:?}", text);
        let expected: Vec<&str> = text.split_whitespace().collect();
        assert_eq!(words(text), expected, "{:?}", text);
    }
}

#[test]
fn words_between_spaces() {
    assert_eq!(words("0053 0073"), vec!["0053", "0073"]);
    assert_eq!(words(" 0053  0073 "), vec!["0053", "0073"]);
    assert_eq!(words("0053"), vec!["0053"]);
    assert_eq!(words(""), Vec::<String>::new());
    assert_eq!(words("   "), Vec::<String>::new());
}

#[test]
fn code_point_sets() {
    let mut arr = CodepointBitArr::new();
    assert_eq!(members(&arr), vec![]);
    assert!(!arr.get(0));
    arr.set(0x41, true);
    arr.set(0x10FFFF, true);
    assert!(arr.get(0x41));
    assert!(!arr.get(0x40));
    assert!(!arr.get(0x42));
    assert!(arr.get(0x10FFFF));
    assert!(!arr.get(0x110000));
    assert!(!arr.get(u32::MAX));
    arr.set(0x41, false);
    assert!(!arr.get(0x41));
    set_range(&mut arr, 0x30, 0x39, true);
    set_range(&mut arr, 0x3A, 0x3C, true);
    set_range(&mut arr, 0x40, 0x3F, true);
    set_range(&mut arr, 0x35, 0x36, false);
    assert_eq!(members(&arr), vec![(0x30, 0x34), (0x37, 0x3C), (0x10FFFF, 0x10FFFF)]);
    assert_eq!(list_of_ranges(&arr, 0x38, true), vec![(0x38, 0x3C), (0x10FFFF, 0x10FFFF)]);
    assert_eq!(list_of_ranges(&arr, 0x10FFFF, false), vec![]);
    assert_eq!(list_of_ranges(&arr, CODE_POINTS, true), vec![]);
    assert_eq!(
        list_of_ranges(&arr, 0x2F, false),
        vec![(0x2F, 0x2F), (0x35, 0x36), (0x3D, 0x10FFFE)]
    );
    assert_eq!(last_with(&arr, 0x40000, true), Some(0x3C));
    assert_eq!(last_with(&arr, 0x3C, true), Some(0x3B));
    assert_eq!(last_with(&arr, 0x30, true), None);
    assert_eq!(last_with(&arr, CODE_POINTS, true), Some(0x10FFFF));
    assert_eq!(last_with(&arr, 0x40, false), Some(0x3F));
    assert_eq!(last_with(&arr, 0, false), None);
}

#[test]
fn properties() {
    let mut arr = CodepointBitArr::new();
    assert_eq!(set_by_prop(&mut arr, DERIVED_CORE_PROPERTIES, "ID_Continue|Alphabetic", true), Ok(()));
    assert_eq!(
        members(&arr),
        vec![
            (0x30, 0x31),
            (0x41, 0x42),
            (0x5F, 0x5F),
            (0x61, 0x62),
            (0x1C4, 0x1C6),
            (0x301, 0x301),
            (0x1F88, 0x1F88),
            (0x3400, 0x4DBF),
        ]
    );
    assert_eq!(set_by_prop(&mut arr, DERIVED_CORE_PROPERTIES, "Lowercase", false), Ok(()));
    assert_eq!(set_by_prop(&mut arr, DERIVED_CORE_PROPERTIES, "Nothing", false), Ok(()));
    assert_eq!(
        members(&arr),
        vec![
            (0x30, 0x31),
            (0x41, 0x42),
            (0x5F, 0x5F),
            (0x1C4, 0x1C6),
            (0x301, 0x301),
            (0x1F88, 0x1F88),
            (0x3400, 0x4DBF),
        ]
    );
}

#[test]
fn property_errors() {
    let mut arr = CodepointBitArr::new();
    assert_eq!(set_by_prop(&mut arr, "0041 ; X", "(", true), Err(TableError::Pattern));
    assert_eq!(set_by_prop(&mut arr, "110000 ; X", "X", true), Err(TableError::CodePoint));
    assert_eq!(set_by_prop(&mut arr, "0041..110000 ; X", "X", true), Err(TableError::CodePoint));
    assert_eq!(
        set_by_prop(&mut arr, "0030 ; X\n100000000 ; X\n0031 ; X", "X", true),
        Err(TableError::CodePoint)
    );
    // The lines before the failing one have been applied.
    assert_eq!(members(&arr), vec![(0x30, 0x30)]);
    // A range that ends before it begins names no code point.
    assert_eq!(set_by_prop(&mut arr, "0042..0041 ; X", "X", true), Ok(()));
    assert_eq!(set_by_prop(&mut arr, "110000..0041 ; X", "X", true), Ok(()));
    assert_eq!(members(&arr), vec![(0x30, 0x30)]);
    assert_eq!(set_by_prop(&mut arr, "0041..10FFFF ; X", "X", true), Ok(()));
    assert_eq!(members(&arr), vec![(0x30, 0x30), (0x41, 0x10FFFF)]);
}

#[test]
fn one_line_of_a_property_file() {
    let mut arr = CodepointBitArr::new();
    assert_eq!(apply_prop_line(&mut arr, &None, true), Ok(()));
    let groups = Some(vec![cell("0041..0043 ; X"), cell("0041"), cell("0043")]);
    assert_eq!(apply_prop_line(&mut arr, &groups, true), Ok(()));
    assert_eq!(members(&arr), vec![(0x41, 0x43)]);
    let groups = Some(vec![cell("0042 ; X"), cell("0042"), None]);
    assert_eq!(apply_prop_line(&mut arr, &groups, false), Ok(()));
    assert_eq!(members(&arr), vec![(0x41, 0x41), (0x43, 0x43)]);
    for groups in [
        vec![cell("0042"), cell("0042")],
        vec![cell("0042"), None, None],
        vec![cell("0042"), cell("x"), None],
        vec![cell("0042"), cell("0042"), cell("")],
        vec![cell("0042"), cell("0042"), cell("110000")],
        vec![],
    ] {
        assert_eq!(apply_prop_line(&mut arr, &Some(groups), true), Err(TableError::CodePoint));
    }
    assert_eq!(members(&arr), vec![(0x41, 0x41), (0x43, 0x43)]);
}

#[test]
fn general_categories() {
    let data = data();
    let mut arr = CodepointBitArr::new();
    assert_eq!(set_by_general_category(&mut arr, &data, "Lu|Lo", true), Ok(()));
    assert_eq!(members(&arr), vec![(0x41, 0x42), (0x1C4, 0x1C4), (0x3400, 0x4DBF)]);
    assert_eq!(set_by_general_category(&mut arr, &data, "Lo", false), Ok(()));
    assert_eq!(members(&arr), vec![(0x41, 0x42), (0x1C4, 0x1C4)]);
    let mut arr = CodepointBitArr::new();
    assert_eq!(set_by_general_category(&mut arr, &data, "[A-Za-z]+", true), Ok(()));
    assert_eq!(
        members(&arr),
        vec![
            (0x20, 0x20),
            (0x28, 0x28),
            (0x2D, 0x2E),
            (0x30, 0x31),
            (0x41, 0x42),
            (0x5F, 0x5F),
            (0x61, 0x62),
            (0xDF, 0xDF),
            (0x1C4, 0x1C6),
            (0x301, 0x301),
            (0x5F3, 0x5F3),
            (0x1F88, 0x1F88),
            (0x20E3, 0x20E3),
            (0x3400, 0x4DBF),
            (0xE000, 0xF8FF),
        ]
    );
}

#[test]
fn general_category_errors() {
    let mut arr = CodepointBitArr::new();
    let run = |arr: &mut CodepointBitArr, text: &str, categories: &str| {
        set_by_general_category(arr, &data_with_unicode_data(text), categories, true)
    };
    assert_eq!(run(&mut arr, "0041;A;Lu;", "(Lu"), Err(TableError::Pattern));
    assert_eq!(run(&mut arr, "110000;A;Lu;", "Lu"), Err(TableError::CodePoint));
    // A range that is opened and not closed.
    assert_eq!(run(&mut arr, "3400;<X, First>;Lo;", "Lo"), Err(TableError::Range));
    // A line of another category between the two lines of a range.
    assert_eq!(
        run(&mut arr, "3400;<X, First>;Lo;\n3401;A;Lu;\n4DBF;<X, Last>;Lo;", "Lo"),
        Err(TableError::Range)
    );
    // The two lines of a range name different things.
    assert_eq!(
        run(&mut arr, "3400;<X, First>;Lo;\n4DBF;<Y, Last>;Lo;", "Lo"),
        Err(TableError::Range)
    );
    assert_eq!(
        run(&mut arr, "3400;<X, First>;Lo;\n4DBF;<X, Last>;Lu;", "Lo|Lu"),
        Err(TableError::Range)
    );
    assert_eq!(
        run(&mut arr, "3400;<X, First>;Lo;\n4DBF;<X, First>;Lo;", "Lo"),
        Err(TableError::Range)
    );
    assert_eq!(
        run(&mut arr, "3400;<X, First>;Lo;\n110000;<X, Last>;Lo;", "Lo"),
        Err(TableError::CodePoint)
    );
    assert_eq!(members(&arr), vec![]);
    // A line `Last` that closes nothing names one code point.
    assert_eq!(run(&mut arr, "4DBF;<X, Last>;Lo;", "Lo"), Ok(()));
    assert_eq!(members(&arr), vec![(0x4DBF, 0x4DBF)]);
}

#[test]
fn one_line_of_unicode_data() {
    let mut arr = CodepointBitArr::new();
    let line = |code: &str, name: &str, category: &str| {
        Some(vec![cell("whole"), cell(code), cell(name), cell(category)])
    };
    let open = apply_category_line(&mut arr, None, &line("3400", "<X, First>", "Lo"), true);
    let open = open.expect("a range is opened");
    let start = open.as_ref().expect("a range is open");
    assert_eq!((start.cp, start.prefix.as_str(), start.category.as_str()), (0x3400, "<X", "Lo"));
    assert_eq!(members(&arr), vec![]);
    let open = apply_category_line(&mut arr, open, &line("3402", "<X, Last>", "Lo"), true);
    assert!(matches!(open, Ok(None)));
    assert_eq!(members(&arr), vec![(0x3400, 0x3402)]);
    assert!(matches!(apply_category_line(&mut arr, None, &None, true), Ok(None)));
    assert!(matches!(apply_category_line(&mut arr, None, &line("0041", "A", "Lu"), true), Ok(None)));
    assert_eq!(members(&arr), vec![(0x41, 0x41), (0x3400, 0x3402)]);
    let short = Some(vec![cell("whole"), cell("0041"), cell("A")]);
    assert!(matches!(
        apply_category_line(&mut arr, None, &short, true),
        Err(TableError::CodePoint)
    ));
    let absent = Some(vec![cell("whole"), cell("0041"), None, cell("Lu")]);
    assert!(matches!(
        apply_category_line(&mut arr, None, &absent, true),
        Err(TableError::CodePoint)
    ));
}

#[test]
fn word_characters_of_the_data() {
    let data = data();
    let punctuation = punctuation_non_other(&data).expect("the data are sound");
    assert_eq!(members(&punctuation), vec![(0x28, 0x28), (0x2D, 0x2D), (0x5F, 0x5F)]);
    let open = unassigned_private_use(&data).expect("the data are sound");
    assert!(open.get(0));
    assert!(open.get(0x10FFFF));
    assert!(open.get(0xE000));
    assert!(open.get(0xF8FF));
    assert!(!open.get(0x41));
    assert!(!open.get(0x3400));
    assert!(!open.get(0x4000));
    assert!(!open.get(0x4DBF));
    assert!(open.get(0x4DC0));
    let allowed = allowed_in_word(&data).expect("the data are sound");
    for cp in [0x30, 0x31, 0x41, 0x61, 0xB2, 0xB3, 0x1C5, 0x301, 0x5F3, 0x5F4, 0xF0B, 0x3400, 0xE000, 0x40] {
        assert!(allowed.get(cp), "{:X}", cp);
    }
    for cp in [0x20, 0x28, 0x2D, 0x2E, 0x5F, 0x20E3, 0xDF] {
        assert!(!allowed.get(cp), "{:X}", cp);
    }
}

#[test]
fn marks_of_the_data() {
    let marks = nonspacing_marks(&data()).expect("the data are sound");
    assert_eq!(members(&marks), vec![(0x301, 0x301), (0x20E3, 0x20E3)]);
    let table = marks_table(&marks).expect("few leaves");
    assert_eq!(table.first_cp_not_in_tree, 0x2100);
    assert_eq!(table.root.len(), 0x2100 / 128);
    assert_eq!(table.root[0x301 / 128], 1);
    assert_eq!(table.root[0x20E3 / 128], 2);
    assert_eq!(table.leaves, vec![0, 1 << 1, 1u128 << 0x63]);
    assert_eq!(table.late, vec![]);
    for cp in 0..CODE_POINTS as u32 {
        assert_eq!(table.contains(cp), cp == 0x301 || cp == 0x20E3);
    }
}

#[test]
fn tables_hold_their_sets() {
    let mut arr = CodepointBitArr::new();
    for (lo, hi) in [(0x30, 0x39), (0x41, 0x5A), (0x61, 0x7A), (0x100, 0x3FFF0), (0x50000, 0x10FFFD)] {
        set_range(&mut arr, lo, hi, true);
    }
    arr.set(0x60000, false);
    let table = word_table(&arr).expect("few leaves");
    assert!(table.background);
    assert_eq!(table.first_cp_not_in_tree, 0x40000);
    assert_eq!(table.leaves[0], u64::MAX);
    assert_eq!(table.late, vec![(0x40000, 0x4FFFF), (0x60000, 0x60000), (0x10FFFE, 0x10FFFF)]);
    for cp in 0..CODE_POINTS as u32 {
        assert_eq!(table.contains(cp), arr.get(cp), "{:X}", cp);
    }
    let table = bit_table(&arr, false).expect("few leaves");
    assert_eq!(table.first_cp_not_in_tree, 0x40000);
    assert_eq!(table.leaves[0], 0);
    assert_eq!(table.late, vec![(0x50000, 0x5FFFF), (0x60001, 0x10FFFD)]);
    for cp in 0..CODE_POINTS as u32 {
        assert_eq!(table.contains(cp), arr.get(cp), "{:X}", cp);
    }
    // A set that is all background needs no tree.
    let table = bit_table(&CodepointBitArr::new(), false).expect("no leaves");
    assert_eq!(table.first_cp_not_in_tree, 0);
    assert_eq!(table.root, vec![]);
    assert_eq!(table.leaves, vec![0]);
    assert!(!table.contains(0x41));
}

#[test]
fn trees() {
    let mut arr = CodepointBitArr::new();
    arr.set(0, true);
    arr.set(63, true);
    arr.set(64, true);
    arr.set(130, true);
    arr.set(192, true);
    assert_eq!(chunk_at(&arr, 0), 1 | 1 << 63);
    assert_eq!(chunk_at(&arr, 64), 1);
    assert_eq!(chunk_at(&arr, 1), 1 << 62 | 1 << 63);
    let (root, leaves) = build_tree(&arr, 320, 0).expect("few leaves");
    assert_eq!(leaves, vec![0, 1 | 1 << 63, 1, 1 << 2]);
    assert_eq!(root, vec![1, 2, 3, 2, 0]);
    for i in 0..320 {
        assert_eq!(tree_lookup(&root, &leaves, i), arr.get(i as u32));
    }
    let (root, leaves) = build_tree(&arr, 0, 7).expect("no leaves");
    assert_eq!((root, leaves), (vec![], vec![7]));
}

#[test]
fn trees_of_wide_leaves() {
    let mut arr = CodepointBitArr::new();
    arr.set(0, true);
    arr.set(127, true);
    arr.set(128, true);
    arr.set(384, true);
    let (root, leaves) = build_marks_tree(&arr, 512, 0).expect("few leaves");
    assert_eq!(leaves, vec![0, 1 | 1u128 << 127, 1]);
    assert_eq!(root, vec![1, 2, 0, 2]);
}

#[test]
fn equal_leaves_are_stored_once() {
    assert_eq!(intern(&vec![5, 6, 5, 0, 6], Some(0)), Ok((vec![1, 2, 1, 0, 2], vec![0, 5, 6])));
    assert_eq!(intern(&vec![5, 6, 5, 0, 6], None), Ok((vec![0, 1, 0, 2, 1], vec![5, 6, 0])));
    assert_eq!(intern::<u64>(&vec![], None), Ok((vec![], vec![])));
    assert_eq!(intern(&vec![7u128, 7, 1 << 100], Some(0)), Ok((vec![1, 1, 2], vec![0, 7, 1 << 100])));
    let many: Vec<u64> = (0..256).collect();
    let (root, leaves) = intern(&many, None).expect("256 leaves are not too many");
    assert_eq!(leaves, many);
    assert_eq!(root[255], 255);
    assert_eq!(intern(&many, Some(0)).map(|tree| tree.1), Ok(many.clone()));
    assert_eq!(intern(&many, Some(256)), Err(TableError::Leaves));
    let more: Vec<u64> = (0..257).collect();
    assert_eq!(intern(&more, None), Err(TableError::Leaves));
}

#[test]
fn cases_of_the_data() {
    let data = data();
    let allowed = allowed_in_word(&data).expect("the data are sound");
    let (casings, non_greek) = letter_casing(&data, &allowed).expect("the data are sound");
    assert_eq!(casings.len(), 0x1F89);
    assert_eq!(non_greek, vec![0x1C5]);
    for (cp, kind) in casings.iter().enumerate() {
        let expected = match cp {
            0x41 | 0x42 | 0x1C4 => Some(CasedLetterKind::Uppercase),
            0x61 | 0x62 | 0x1C6 => Some(CasedLetterKind::Lowercase),
            0x1C5 | 0x1F88 => Some(CasedLetterKind::Titlecase),
            // U+00DF is a lowercase letter, but the data do not allow it
            // in a word.
            _ => None,
        };
        assert_eq!(*kind, expected, "{:X}", cp);
    }
    let table = casing_table(casings, non_greek).expect("few leaves");
    assert_eq!(table.first_cp_not_in_tree, 0x1FC0);
    assert_eq!(table.root.len(), 0x1FC0 / 64);
    assert_eq!(table.letter_casing(0x41), Some(CasedLetterKind::Uppercase));
    assert_eq!(table.letter_casing(0x61), Some(CasedLetterKind::Lowercase));
    assert_eq!(table.letter_casing(0x1C5), Some(CasedLetterKind::Titlecase));
    assert_eq!(table.letter_casing(0x1F88), Some(CasedLetterKind::Titlecase));
    assert_eq!(table.letter_casing(0x1F89), None);
    assert_eq!(table.letter_casing(0x40), None);
    assert_eq!(table.letter_casing(0x10FFFF), None);
    assert!(table.is_non_greek_titlecase(0x1C5));
    assert!(!table.is_non_greek_titlecase(0x1F88));
}

#[test]
fn casing_trees() {
    let mut casings = vec![None; 64];
    casings[0] = Some(CasedLetterKind::Lowercase);
    casings[1] = Some(CasedLetterKind::Uppercase);
    casings[31] = Some(CasedLetterKind::Titlecase);
    casings[32] = Some(CasedLetterKind::Lowercase);
    casings[33] = Some(CasedLetterKind::Uppercase);
    casings[63] = Some(CasedLetterKind::Titlecase);
    let (root, leaves) = build_casing_tree(&casings).expect("one leaf");
    assert_eq!(leaves, vec![1 | 2 << 2 | 3 << 62 | 1 << 64 | 2 << 66 | 3u128 << 126]);
    assert_eq!(root, vec![0]);
    // Two halves that differ make one leaf, as two leaves that are equal do.
    let mut twice = casings.clone();
    twice.extend(casings.iter().copied());
    let (root, leaves) = build_casing_tree(&twice).expect("one leaf");
    assert_eq!((root, leaves.len()), (vec![0, 0], 1));
    // 512 different halves in 256 leaves are not too many.
    let mut many = Vec::new();
    for i in 0..512u32 {
        for k in 0..32 {
            let kind = match (i >> k) & 1 {
                0 => None,
                _ => Some(CasedLetterKind::Lowercase),
            };
            many.push(if k < 9 { kind } else { None });
        }
    }
    let (root, leaves) = build_casing_tree(&many).expect("256 leaves");
    assert_eq!((root.len(), leaves.len()), (256, 256));
    assert_eq!(build_casing_tree(&vec![]), Ok((vec![], vec![])));
    assert_eq!(code(None), 0);
    assert_eq!(code(Some(CasedLetterKind::Lowercase)), 1);
    assert_eq!(code(Some(CasedLetterKind::Uppercase)), 2);
    assert_eq!(code(Some(CasedLetterKind::Titlecase)), 3);
    for bits in 0..4 {
        assert_eq!(code(kind_of(bits)), bits);
    }
    let table = casing_table(vec![Some(CasedLetterKind::Uppercase)], vec![]).expect("one leaf");
    assert_eq!(table.first_cp_not_in_tree, 64);
    assert_eq!(table.leaves, vec![2]);
    assert_eq!(table.letter_casing(0), Some(CasedLetterKind::Uppercase));
    assert_eq!(table.letter_casing(1), None);
    assert_eq!(table.letter_casing(63), None);
    assert_eq!(table.letter_casing(64), None);
    let table = casing_table(vec![], vec![]).expect("no leaf");
    assert_eq!(table.first_cp_not_in_tree, 0);
    assert_eq!(table.letter_casing(0), None);
}

#[test]
fn titlecase_mappings_of_the_data() {
    let found = titlecases(&data()).expect("the data are sound");
    assert_eq!(
        found,
        vec![
            ('\u{00DF}', vec!['S', 's']),
            ('\u{01C4}', vec!['\u{01C5}']),
            ('\u{01C5}', vec!['\u{01C5}']),
            ('\u{01C6}', vec!['\u{01C5}']),
            ('\u{FB00}', vec!['F', 'f']),
        ]
    );
    assert_eq!(max_expansion(&found), 2);
    assert_eq!(max_expansion(&vec![]), 0);
    assert_eq!(max_expansion(&vec![('a', vec![]), ('b', vec!['x', 'y', 'z']), ('c', vec!['x'])]), 3);
}

#[test]
fn titlecase_mapping_errors() {
    let run = |unicode_data: &str, special_casing: &str| {
        titlecases(&DataFiles {
            unicode_data: unicode_data.to_string(),
            special_casing: special_casing.to_string(),
            ..data()
        })
    };
    let dz = "01C4;DZ;Lu;0;L;;;;;N;;;;01C6;01C5\n";
    assert_eq!(run(dz, ""), Ok(vec![('\u{01C4}', vec!['\u{01C5}'])]));
    // A character with two mappings.
    assert_eq!(run(dz, "01C4; 01C6; 0044 007A; 0044 005A; # DZ"), Err(TableError::Mapping));
    let twice = "01C4;DZ;Lu;0;L;;;;;N;;;;01C6;01C5\n01C4;DZ;Lu;0;L;;;;;N;;;;01C6;01C5\n";
    assert_eq!(run(twice, ""), Err(TableError::Mapping));
    // A surrogate is no character.
    assert_eq!(run("D800;X;Lu;0;L;;;;;N;;;;01C6;01C5\n", ""), Err(TableError::CodePoint));
    assert_eq!(run("01C4;X;Lu;0;L;;;;;N;;;;01C6;D800\n", ""), Err(TableError::CodePoint));
    assert_eq!(run("", "00DF; 00DF; 0053 110000; 0053 0053; # X"), Err(TableError::CodePoint));
    // White space around a mapping makes no difference, white space
    // within it does.
    assert_eq!(run("", "00DF; 00DF;0053 0053  ; 0053 0053; # X"), Ok(vec![]));
    assert_eq!(
        run("", "00DF; 00DF;0053  0053 ; 0053 0053; # X"),
        Ok(vec![('\u{00DF}', vec!['S', 'S'])])
    );
    // The entries come out in ascending order, whatever the order of the
    // lines.
    assert_eq!(
        run("", "FB00; FB00; 0046 0066; 0046 0046; # FF\n00DF; 00DF; 0053 0073; 0053 0053; # SS\n"),
        Ok(vec![('\u{00DF}', vec!['S', 's']), ('\u{FB00}', vec!['F', 'f'])])
    );
}
