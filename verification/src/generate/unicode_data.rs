//! The data files of the Unicode Character Database, and the sets of code
//! points that their lines describe.
//!
//! A line is recognised by a regular expression. What the expression
//! captures is checked here: a code point is a hexadecimal number below
//! `CODE_POINTS`, and a range that `UnicodeData.txt` opens with a line
//! `<.., First>` is closed by the next line, `<.., Last>`, of the same
//! category.

use crate::generate::bits::{bit_len, bits_of, set_bit, CodepointBitArr, CODE_POINTS};
use crate::generate::pattern::{captures, compile, compiles, groups_of, pattern_of};
use crate::generate::scan::{
    lines, parse_hex, spec_lines, spec_parse_hex, spec_strip_suffix, strip_suffix,
};
use vstd::prelude::*;
use vstd::string::StringExecFns;

verus! {

/// The text of the data files that the tables are made from.
#[derive(Debug)]
pub struct DataFiles {
    /// `UnicodeData.txt`
    pub unicode_data: String,
    /// `DerivedCoreProperties.txt`
    pub derived_core_properties: String,
    /// `PropList.txt`
    pub prop_list: String,
    /// `Scripts.txt`
    pub scripts: String,
    /// `SpecialCasing.txt`
    pub special_casing: String,
}

/// Why no table can be made.
#[derive(Clone, Copy, Debug, PartialEq, Eq, Structural)]
pub enum TableError {
    /// A regular expression was not accepted.
    Pattern,
    /// A line lacks a code point, or holds a number that is none.
    CodePoint,
    /// A range of `UnicodeData.txt` is not opened and closed by two lines
    /// that follow each other and agree.
    Range,
    /// A table needs more leaves than a byte can count.
    Leaves,
    /// A character has two mappings.
    Mapping,
}

/// What the groups of a match hold, group by group.
pub type Groups = Seq<Option<Seq<char>>>;

/// `bits` with the bits from `lo` to `hi`, both included, set to `value`.
pub open spec fn with_range(bits: Seq<bool>, lo: int, hi: int, value: bool) -> Seq<bool> {
    Seq::new(
        bits.len(),
        |i: int|
            if lo <= i <= hi {
                value
            } else {
                bits[i]
            },
    )
}

/// Sets the bits from `lo` to `hi`, both included, to `value`.
pub fn set_range(arr: &mut CodepointBitArr, lo: u32, hi: u32, value: bool)
    requires
        lo <= hi ==> hi < CODE_POINTS,
    ensures
        bits_of(*final(arr)) == with_range(bits_of(*old(arr)), lo as int, hi as int, value),
{
    let len = bit_len(arr);
    if lo > hi {
        assert(bits_of(*arr) =~= with_range(bits_of(*old(arr)), lo as int, hi as int, value));
        return ;
    }
    let mut cp: u32 = lo;
    assert(bits_of(*arr) =~= with_range(bits_of(*old(arr)), lo as int, lo - 1, value));
    while cp < hi
        invariant
            lo <= cp <= hi < bits_of(*old(arr)).len(),
            bits_of(*arr) == with_range(bits_of(*old(arr)), lo as int, cp - 1, value),
        decreases hi - cp,
    {
        set_bit(arr, cp as usize, value);
        assert(bits_of(*arr) =~= with_range(bits_of(*old(arr)), lo as int, cp as int, value));
        cp = cp + 1;
    }
    set_bit(arr, hi as usize, value);
    assert(bits_of(*arr) =~= with_range(bits_of(*old(arr)), lo as int, hi as int, value));
}

/// The regular expression for a line of a property file that gives one of
/// the properties `props` to a code point or to a range of code points.
pub open spec fn prop_pattern(props: Seq<char>) -> Seq<char> {
    "^([0-9A-F]+)(?:\\.\\.([0-9A-F]+))?\\s*;\\s*(?:"@ + props + ")"@
}

/// The range of code points that the groups of a line of a property file
/// name: from the first group to the second, or the first alone.
pub open spec fn prop_range(groups: Groups) -> Result<(u32, u32), TableError> {
    if groups.len() < 3 || groups[1] is None {
        Err(TableError::CodePoint)
    } else {
        match (spec_parse_hex(groups[1]->0), groups[2]) {
            (None, _) => Err(TableError::CodePoint),
            (Some(start), None) => Ok((start, start)),
            (Some(start), Some(text)) => match spec_parse_hex(text) {
                None => Err(TableError::CodePoint),
                Some(end) => Ok((start, end)),
            },
        }
    }
}

/// The bits after a line of a property file whose match, if any, captured
/// `groups`.
pub open spec fn after_prop_line(bits: Seq<bool>, groups: Option<Groups>, set_to: bool) -> Result<
    Seq<bool>,
    TableError,
> {
    match groups {
        None => Ok(bits),
        Some(groups) => match prop_range(groups) {
            Err(e) => Err(e),
            Ok((lo, hi)) => if lo <= hi && hi >= bits.len() {
                Err(TableError::CodePoint)
            } else {
                Ok(with_range(bits, lo as int, hi as int, set_to))
            },
        },
    }
}

/// The bits after the lines `lines` of a property file, each matched
/// against `pattern`; the first line that fails decides.
pub open spec fn after_prop_lines(
    bits: Seq<bool>,
    pattern: Seq<char>,
    lines: Seq<Seq<char>>,
    set_to: bool,
) -> Result<Seq<bool>, TableError>
    decreases lines.len(),
{
    if lines.len() == 0 {
        Ok(bits)
    } else {
        match after_prop_lines(bits, pattern, lines.drop_last(), set_to) {
            Err(e) => Err(e),
            Ok(before) => after_prop_line(before, groups_of(pattern, lines.last()), set_to),
        }
    }
}

/// The bits that the lines `lines` of a property file leave behind: those
/// after the last line, or those before the first line that failed.
pub open spec fn left_by_prop_lines(
    bits: Seq<bool>,
    pattern: Seq<char>,
    lines: Seq<Seq<char>>,
    set_to: bool,
) -> Seq<bool>
    decreases lines.len(),
{
    if lines.len() == 0 {
        bits
    } else {
        match after_prop_lines(bits, pattern, lines, set_to) {
            Ok(after) => after,
            Err(_) => left_by_prop_lines(bits, pattern, lines.drop_last(), set_to),
        }
    }
}

/// The bits that `set_by_prop` leaves behind, whether it fails or not.
pub open spec fn left_by_set_by_prop(
    bits: Seq<bool>,
    data_file: Seq<char>,
    props: Seq<char>,
    set_to: bool,
) -> Seq<bool> {
    if !compiles(prop_pattern(props)) {
        bits
    } else {
        left_by_prop_lines(bits, prop_pattern(props), spec_lines(data_file), set_to)
    }
}

/// The bits after `set_by_prop`.
pub open spec fn spec_set_by_prop(
    bits: Seq<bool>,
    data_file: Seq<char>,
    props: Seq<char>,
    set_to: bool,
) -> Result<Seq<bool>, TableError> {
    if !compiles(prop_pattern(props)) {
        Err(TableError::Pattern)
    } else {
        after_prop_lines(bits, prop_pattern(props), spec_lines(data_file), set_to)
    }
}

/// Reads the code point in a group that must be there.
fn code_point_in(group: &Option<String>) -> (number: Option<u32>)
    ensures
        number == match group.deep_view() {
            Some(text) => spec_parse_hex(text),
            None => None,
        },
{
    match group {
        Some(text) => parse_hex(text.as_str()),
        None => None,
    }
}

/// Applies one line of a property file, whose match captured `groups`: the
/// code points that the line names get the bit `set_to`.
pub fn apply_prop_line(
    arr: &mut CodepointBitArr,
    groups: &Option<Vec<Option<String>>>,
    set_to: bool,
) -> (done: Result<(), TableError>)
    ensures
        match after_prop_line(bits_of(*old(arr)), groups.deep_view(), set_to) {
            Ok(bits) => done is Ok && bits_of(*final(arr)) == bits,
            Err(e) => done == Err::<(), TableError>(e) && bits_of(*final(arr)) == bits_of(
                *old(arr),
            ),
        },
{
    match groups {
        None => Ok(()),
        Some(groups) => {
            assert(groups.deep_view().len() == groups@.len());
            if groups.len() < 3 {
                return Err(TableError::CodePoint);
            }
            assert(groups.deep_view()[1] == groups@[1].deep_view());
            assert(groups.deep_view()[2] == groups@[2].deep_view());
            let start = match code_point_in(&groups[1]) {
                Some(start) => start,
                None => {
                    return Err(TableError::CodePoint);
                },
            };
            let end = match &groups[2] {
                None => start,
                Some(text) => match parse_hex(text.as_str()) {
                    Some(end) => end,
                    None => {
                        return Err(TableError::CodePoint);
                    },
                },
            };
            if start <= end && end as usize >= bit_len(arr) {
                return Err(TableError::CodePoint);
            }
            set_range(arr, start, end, set_to);
            Ok(())
        },
    }
}

/// Sets the bits of the code points to which a property file gives one of
/// the properties that `props` matches.
///
/// - `arr`: bit array (1 bit per code point)
/// - `data_file`: the text of the property file
/// - `props`: regular expression that matches one or more properties
/// - `set_to`: what the bits of the matching code points are set to
///
/// After an error the bit array holds what the lines before the failing
/// one made of it.
pub fn set_by_prop(arr: &mut CodepointBitArr, data_file: &str, props: &str, set_to: bool) -> (done:
    Result<(), TableError>)
    ensures
        match spec_set_by_prop(bits_of(*old(arr)), data_file@, props@, set_to) {
            Ok(bits) => done is Ok && bits_of(*final(arr)) == bits,
            Err(e) => done == Err::<(), TableError>(e),
        },
        bits_of(*final(arr)) == left_by_set_by_prop(bits_of(*old(arr)), data_file@, props@, set_to),
{
    let mut pattern = "^([0-9A-F]+)(?:\\.\\.([0-9A-F]+))?\\s*;\\s*(?:".to_owned();
    pattern.append(props);
    pattern.append(")");
    let regex = match compile(pattern.as_str()) {
        Some(regex) => regex,
        None => {
            return Err(TableError::Pattern);
        },
    };
    let all = lines(data_file);
    let ghost texts = spec_lines(data_file@);
    let mut i: usize = 0;
    assert(texts.take(0) =~= Seq::<Seq<char>>::empty());
    while i < all.len()
        invariant
            all.deep_view() == texts,
            0 <= i <= all@.len(),
            pattern_of(regex) == pattern@,
            pattern@ == prop_pattern(props@),
            compiles(pattern@),
            texts == spec_lines(data_file@),
            after_prop_lines(bits_of(*old(arr)), pattern@, texts.take(i as int), set_to) == Ok::<
                Seq<bool>,
                TableError,
            >(bits_of(*arr)),
            left_by_prop_lines(bits_of(*old(arr)), pattern@, texts.take(i as int), set_to)
                == bits_of(*arr),
        decreases all.len() - i,
    {
        let ghost more = texts.take(i + 1);
        assert(more.drop_last() =~= texts.take(i as int));
        assert(more.last() == all@[i as int]@) by {
            assert(all.deep_view()[i as int] == all@[i as int].deep_view());
        }
        let groups = captures(&regex, all[i].as_str());
        match apply_prop_line(arr, &groups, set_to) {
            Ok(()) => {},
            Err(e) => {
                proof {
                    assert(after_prop_lines(bits_of(*old(arr)), pattern@, more, set_to) == Err::<
                        Seq<bool>,
                        TableError,
                    >(e));
                    lemma_prop_lines_fail(
                        bits_of(*old(arr)),
                        pattern@,
                        texts,
                        set_to,
                        i + 1,
                        texts.len() as int,
                    );
                    assert(texts.take(texts.len() as int) =~= texts);
                }
                return Err(e);
            },
        }
        i = i + 1;
    }
    assert(texts.take(all@.len() as int) =~= texts);
    Ok(())
}

/// Once a line has failed, more lines change nothing.
proof fn lemma_prop_lines_fail(
    bits: Seq<bool>,
    pattern: Seq<char>,
    lines: Seq<Seq<char>>,
    set_to: bool,
    n: int,
    m: int,
)
    requires
        0 <= n <= m <= lines.len(),
        after_prop_lines(bits, pattern, lines.take(n), set_to) is Err,
    ensures
        after_prop_lines(bits, pattern, lines.take(m), set_to) == after_prop_lines(
            bits,
            pattern,
            lines.take(n),
            set_to,
        ),
        left_by_prop_lines(bits, pattern, lines.take(m), set_to) == left_by_prop_lines(
            bits,
            pattern,
            lines.take(n),
            set_to,
        ),
    decreases m - n,
{
    if n < m {
        lemma_prop_lines_fail(bits, pattern, lines, set_to, n, m - 1);
        assert(lines.take(m).drop_last() =~= lines.take(m - 1));
    }
}

/// The regular expression for a line of `UnicodeData.txt` whose general
/// category is one that `categories` matches.
pub open spec fn category_pattern(categories: Seq<char>) -> Seq<char> {
    "^([0-9A-F]+);(.*?);("@ + categories + ");"@
}

/// The line that opened a range which is not yet closed: its code point,
/// its name without `, First>`, and its category.
pub struct RangeStart {
    pub cp: u32,
    pub prefix: String,
    pub category: String,
}

impl DeepView for RangeStart {
    type V = (u32, Seq<char>, Seq<char>);

    open spec fn deep_view(&self) -> (u32, Seq<char>, Seq<char>) {
        (self.cp, self.prefix@, self.category@)
    }
}

/// The bits and the open range after a line of `UnicodeData.txt` whose
/// match, if any, captured `groups`.
///
/// A line that matches closes the open range, if there is one, and must
/// then be its `Last` line; else it opens a range, if it is a `First`
/// line, or names one code point. A line that does not match must find no
/// range open.
pub open spec fn after_category_line(
    bits: Seq<bool>,
    open: Option<(u32, Seq<char>, Seq<char>)>,
    groups: Option<Groups>,
    set_to: bool,
) -> Result<(Seq<bool>, Option<(u32, Seq<char>, Seq<char>)>), TableError> {
    match groups {
        None => if open is Some {
            Err(TableError::Range)
        } else {
            Ok((bits, None))
        },
        Some(groups) => if groups.len() < 4 || groups[1] is None || groups[2] is None
            || groups[3] is None {
            Err(TableError::CodePoint)
        } else {
            match spec_parse_hex(groups[1]->0) {
                None => Err(TableError::CodePoint),
                Some(cp) => match open {
                    Some((start, prefix, category)) => if spec_strip_suffix(
                        groups[2]->0,
                        ", Last>"@,
                    ) != Some(prefix) || category != groups[3]->0 {
                        Err(TableError::Range)
                    } else if start <= cp && cp >= bits.len() {
                        Err(TableError::CodePoint)
                    } else {
                        Ok((with_range(bits, start as int, cp as int, set_to), None))
                    },
                    None => match spec_strip_suffix(groups[2]->0, ", First>"@) {
                        Some(prefix) => Ok((bits, Some((cp, prefix, groups[3]->0)))),
                        None => if cp >= bits.len() {
                            Err(TableError::CodePoint)
                        } else {
                            Ok((bits.update(cp as int, set_to), None))
                        },
                    },
                },
            }
        },
    }
}

/// The bits and the open range after the lines `lines` of
/// `UnicodeData.txt`, each matched against `pattern`; the first line that
/// fails decides.
pub open spec fn after_category_lines(
    bits: Seq<bool>,
    pattern: Seq<char>,
    lines: Seq<Seq<char>>,
    set_to: bool,
) -> Result<(Seq<bool>, Option<(u32, Seq<char>, Seq<char>)>), TableError>
    decreases lines.len(),
{
    if lines.len() == 0 {
        Ok((bits, None))
    } else {
        match after_category_lines(bits, pattern, lines.drop_last(), set_to) {
            Err(e) => Err(e),
            Ok((before, open)) => after_category_line(
                before,
                open,
                groups_of(pattern, lines.last()),
                set_to,
            ),
        }
    }
}

/// The bits that the lines `lines` of `UnicodeData.txt` leave behind:
/// those after the last line, or those before the first line that failed.
pub open spec fn left_by_category_lines(
    bits: Seq<bool>,
    pattern: Seq<char>,
    lines: Seq<Seq<char>>,
    set_to: bool,
) -> Seq<bool>
    decreases lines.len(),
{
    if lines.len() == 0 {
        bits
    } else {
        match after_category_lines(bits, pattern, lines, set_to) {
            Ok((after, _)) => after,
            Err(_) => left_by_category_lines(bits, pattern, lines.drop_last(), set_to),
        }
    }
}

/// The bits that `set_by_general_category` leaves behind, whether it fails
/// or not.
pub open spec fn left_by_set_by_general_category(
    bits: Seq<bool>,
    unicode_data: Seq<char>,
    categories: Seq<char>,
    set_to: bool,
) -> Seq<bool> {
    if !compiles(category_pattern(categories)) {
        bits
    } else {
        left_by_category_lines(
            bits,
            category_pattern(categories),
            spec_lines(unicode_data),
            set_to,
        )
    }
}

/// The bits after `set_by_general_category`: those after the last line,
/// which must leave no range open.
pub open spec fn spec_set_by_general_category(
    bits: Seq<bool>,
    unicode_data: Seq<char>,
    categories: Seq<char>,
    set_to: bool,
) -> Result<Seq<bool>, TableError> {
    if !compiles(category_pattern(categories)) {
        Err(TableError::Pattern)
    } else {
        match after_category_lines(
            bits,
            category_pattern(categories),
            spec_lines(unicode_data),
            set_to,
        ) {
            Err(e) => Err(e),
            Ok((after, open)) => if open is Some {
                Err(TableError::Range)
            } else {
                Ok(after)
            },
        }
    }
}

/// Applies one line of `UnicodeData.txt`, whose match captured `groups`,
/// and returns the range that is open after it.
pub fn apply_category_line(
    arr: &mut CodepointBitArr,
    open: Option<RangeStart>,
    groups: &Option<Vec<Option<String>>>,
    set_to: bool,
) -> (done: Result<Option<RangeStart>, TableError>)
    ensures
        match after_category_line(
            bits_of(*old(arr)),
            open.deep_view(),
            groups.deep_view(),
            set_to,
        ) {
            Ok((bits, still_open)) => done is Ok && done->Ok_0.deep_view() == still_open
                && bits_of(*final(arr)) == bits,
            Err(e) => done == Err::<Option<RangeStart>, TableError>(e) && bits_of(*final(arr))
                == bits_of(*old(arr)),
        },
{
    let groups = match groups {
        None => {
            return match open {
                Some(_) => Err(TableError::Range),
                None => Ok(None),
            };
        },
        Some(groups) => groups,
    };
    assert(groups.deep_view().len() == groups@.len());
    if groups.len() < 4 {
        return Err(TableError::CodePoint);
    }
    assert(groups.deep_view()[1] == groups@[1].deep_view());
    assert(groups.deep_view()[2] == groups@[2].deep_view());
    assert(groups.deep_view()[3] == groups@[3].deep_view());
    let (code, name, category) = match (&groups[1], &groups[2], &groups[3]) {
        (Some(code), Some(name), Some(category)) => (code, name, category),
        _ => {
            return Err(TableError::CodePoint);
        },
    };
    let cp = match parse_hex(code.as_str()) {
        Some(cp) => cp,
        None => {
            return Err(TableError::CodePoint);
        },
    };
    match open {
        Some(start) => {
            let closes = match strip_suffix(name.as_str(), ", Last>") {
                Some(prefix) => prefix == start.prefix,
                None => false,
            };
            if !closes || !(start.category == *category) {
                return Err(TableError::Range);
            }
            if start.cp <= cp && cp as usize >= bit_len(arr) {
                return Err(TableError::CodePoint);
            }
            set_range(arr, start.cp, cp, set_to);
            Ok(None)
        },
        None => match strip_suffix(name.as_str(), ", First>") {
            Some(prefix) => Ok(Some(RangeStart { cp, prefix, category: category.clone() })),
            None => {
                if cp as usize >= bit_len(arr) {
                    return Err(TableError::CodePoint);
                }
                set_bit(arr, cp as usize, set_to);
                Ok(None)
            },
        },
    }
}

/// Once a line has failed, more lines change nothing.
proof fn lemma_category_lines_fail(
    bits: Seq<bool>,
    pattern: Seq<char>,
    lines: Seq<Seq<char>>,
    set_to: bool,
    n: int,
    m: int,
)
    requires
        0 <= n <= m <= lines.len(),
        after_category_lines(bits, pattern, lines.take(n), set_to) is Err,
    ensures
        after_category_lines(bits, pattern, lines.take(m), set_to) == after_category_lines(
            bits,
            pattern,
            lines.take(n),
            set_to,
        ),
        left_by_category_lines(bits, pattern, lines.take(m), set_to) == left_by_category_lines(
            bits,
            pattern,
            lines.take(n),
            set_to,
        ),
    decreases m - n,
{
    if n < m {
        lemma_category_lines_fail(bits, pattern, lines, set_to, n, m - 1);
        assert(lines.take(m).drop_last() =~= lines.take(m - 1));
    }
}

/// Sets the bits of the code points whose general category in
/// `UnicodeData.txt` is one that `categories` matches.
///
/// - `arr`: bit array (1 bit per code point)
/// - `data`: the data files, of which `UnicodeData.txt` is read
/// - `categories`: regular expression that matches one or more general
///   categories
/// - `set_to`: what the bits of the matching code points are set to
///
/// After an error the bit array holds what the lines before the failing
/// one made of it; a range that the last line leaves open is an error
/// after all of them.
pub fn set_by_general_category(
    arr: &mut CodepointBitArr,
    data: &DataFiles,
    categories: &str,
    set_to: bool,
) -> (done: Result<(), TableError>)
    ensures
        match spec_set_by_general_category(
            bits_of(*old(arr)),
            data.unicode_data@,
            categories@,
            set_to,
        ) {
            Ok(bits) => done is Ok && bits_of(*final(arr)) == bits,
            Err(e) => done == Err::<(), TableError>(e),
        },
        bits_of(*final(arr)) == left_by_set_by_general_category(
            bits_of(*old(arr)),
            data.unicode_data@,
            categories@,
            set_to,
        ),
{
    let mut pattern = "^([0-9A-F]+);(.*?);(".to_owned();
    pattern.append(categories);
    pattern.append(");");
    let regex = match compile(pattern.as_str()) {
        Some(regex) => regex,
        None => {
            return Err(TableError::Pattern);
        },
    };
    let all = lines(data.unicode_data.as_str());
    let ghost texts = spec_lines(data.unicode_data@);
    let mut range_start: Option<RangeStart> = None;
    let mut i: usize = 0;
    assert(texts.take(0) =~= Seq::<Seq<char>>::empty());
    while i < all.len()
        invariant
            all.deep_view() == texts,
            0 <= i <= all@.len(),
            pattern_of(regex) == pattern@,
            pattern@ == category_pattern(categories@),
            compiles(pattern@),
            texts == spec_lines(data.unicode_data@),
            after_category_lines(bits_of(*old(arr)), pattern@, texts.take(i as int), set_to)
                == Ok::<(Seq<bool>, Option<(u32, Seq<char>, Seq<char>)>), TableError>(
                (bits_of(*arr), range_start.deep_view()),
            ),
            left_by_category_lines(bits_of(*old(arr)), pattern@, texts.take(i as int), set_to)
                == bits_of(*arr),
        decreases all.len() - i,
    {
        let ghost more = texts.take(i + 1);
        assert(more.drop_last() =~= texts.take(i as int));
        assert(more.last() == all@[i as int]@) by {
            assert(all.deep_view()[i as int] == all@[i as int].deep_view());
        }
        let groups = captures(&regex, all[i].as_str());
        match apply_category_line(arr, range_start, &groups, set_to) {
            Ok(still_open) => {
                range_start = still_open;
            },
            Err(e) => {
                proof {
                    assert(after_category_lines(bits_of(*old(arr)), pattern@, more, set_to)
                        == Err::<(Seq<bool>, Option<(u32, Seq<char>, Seq<char>)>), TableError>(e));
                    lemma_category_lines_fail(
                        bits_of(*old(arr)),
                        pattern@,
                        texts,
                        set_to,
                        i + 1,
                        texts.len() as int,
                    );
                    assert(texts.take(texts.len() as int) =~= texts);
                }
                return Err(e);
            },
        }
        i = i + 1;
    }
    assert(texts.take(all@.len() as int) =~= texts);
    match range_start {
        Some(_) => Err(TableError::Range),
        None => Ok(()),
    }
}

} // verus!
