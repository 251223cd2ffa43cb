//! What reading a data file takes: its lines, the hexadecimal numbers in
//! them, and the endings of its fields.

use crate::text::chars_of;
use crate::transform::string_of;
use vstd::prelude::*;

verus! {

/// The value of an uppercase hexadecimal digit.
pub open spec fn spec_hex_digit(c: char) -> Option<int> {
    if '0' <= c <= '9' {
        Some(c as int - '0' as int)
    } else if 'A' <= c <= 'F' {
        Some(c as int - 'A' as int + 10)
    } else {
        None
    }
}

/// The number that the digits of `s` write in base 16, where all of them
/// are hexadecimal digits.
pub open spec fn spec_hex_value(s: Seq<char>) -> int
    decreases s.len(),
{
    if s.len() == 0 {
        0
    } else {
        spec_hex_value(s.drop_last()) * 16 + spec_hex_digit(s.last())->0
    }
}

/// `s` is made of uppercase hexadecimal digits, one at least.
pub open spec fn all_hex(s: Seq<char>) -> bool {
    s.len() > 0 && forall|i: int| 0 <= i < s.len() ==> spec_hex_digit(#[trigger] s[i]) is Some
}

/// The number that `s` writes in uppercase hexadecimal digits, if it
/// writes one and the number fits in 32 bits.
pub open spec fn spec_parse_hex(s: Seq<char>) -> Option<u32> {
    if all_hex(s) && spec_hex_value(s) <= u32::MAX {
        Some(spec_hex_value(s) as u32)
    } else {
        None
    }
}

/// The numbers that longer texts of digits write are no smaller.
proof fn lemma_hex_value_grows(s: Seq<char>, n: int)
    requires
        all_hex(s),
        0 <= n <= s.len(),
    ensures
        0 <= spec_hex_value(s.take(n)) <= spec_hex_value(s),
    decreases s.len() - n,
{
    if n < s.len() {
        let longer = s.take(n + 1);
        assert(longer.drop_last() =~= s.take(n));
        assert(longer.last() == s[n]);
        lemma_hex_value_grows(s, n + 1);
        lemma_hex_value_nonnegative(s.take(n));
    } else {
        assert(s.take(n) =~= s);
        lemma_hex_value_nonnegative(s);
    }
}

proof fn lemma_hex_value_nonnegative(s: Seq<char>)
    requires
        forall|i: int| 0 <= i < s.len() ==> spec_hex_digit(#[trigger] s[i]) is Some,
    ensures
        0 <= spec_hex_value(s),
    decreases s.len(),
{
    if s.len() > 0 {
        lemma_hex_value_nonnegative(s.drop_last());
    }
}

/// The value of an uppercase hexadecimal digit.
pub fn hex_digit(c: char) -> (digit: Option<u32>)
    ensures
        match spec_hex_digit(c) {
            Some(value) => digit == Some(value as u32) && 0 <= value < 16,
            None => digit is None,
        },
{
    if '0' <= c && c <= '9' {
        Some(c as u32 - '0' as u32)
    } else if 'A' <= c && c <= 'F' {
        Some(c as u32 - 'A' as u32 + 10)
    } else {
        None
    }
}

/// Reads a number in uppercase hexadecimal digits. A text that holds
/// anything else, or none, or a number that does not fit in 32 bits, gives
/// `None`.
pub fn parse_hex(s: &str) -> (number: Option<u32>)
    ensures
        number == spec_parse_hex(s@),
{
    let chars = chars_of(s);
    if chars.len() == 0 {
        return None;
    }
    let mut value: u32 = 0;
    let mut i: usize = 0;
    while i < chars.len()
        invariant
            chars@ == s@,
            0 <= i <= chars@.len(),
            forall|k: int| 0 <= k < i ==> spec_hex_digit(#[trigger] chars@[k]) is Some,
            value == spec_hex_value(chars@.take(i as int)),
        decreases chars.len() - i,
    {
        let ghost done = chars@.take(i as int);
        let ghost more = chars@.take(i + 1);
        assert(more.drop_last() =~= done);
        assert(more.last() == chars@[i as int]);
        match hex_digit(chars[i]) {
            Some(digit) => {
                if value > (u32::MAX - digit) / 16 {
                    proof {
                        if all_hex(s@) {
                            lemma_hex_value_grows(s@, i + 1);
                        }
                    }
                    return None;
                }
                value = value * 16 + digit;
            },
            None => {
                return None;
            },
        }
        i = i + 1;
    }
    assert(chars@.take(chars@.len() as int) =~= s@);
    Some(value)
}

/// Where the line that begins at `start` ends: at the next line feed, or
/// at the end of the text.
pub open spec fn line_end(s: Seq<char>, start: int) -> int
    decreases s.len() - start,
{
    if start >= s.len() || s[start] == '\n' {
        start
    } else {
        line_end(s, start + 1)
    }
}

/// The line from `start` to the line feed at `end`, without the carriage
/// return that may stand before the line feed. A last line that no line
/// feed ends is taken as it is.
pub open spec fn line_text(s: Seq<char>, start: int, end: int) -> Seq<char> {
    if end < s.len() && start < end && s[end - 1] == '\r' {
        s.subrange(start, end - 1)
    } else {
        s.subrange(start, end)
    }
}

/// The lines of the text from `start` on.
pub open spec fn lines_from(s: Seq<char>, start: int) -> Seq<Seq<char>>
    decreases s.len() - start,
{
    if start < 0 || start >= s.len() {
        Seq::empty()
    } else {
        let end = line_end(s, start);
        let line = line_text(s, start, end);
        if start <= end < s.len() {
            seq![line] + lines_from(s, end + 1)
        } else {
            seq![line]
        }
    }
}

/// The lines of a text. A line ends with a line feed, or with a carriage
/// return and a line feed, neither of which belongs to it; the last line
/// needs no such end.
pub open spec fn spec_lines(s: Seq<char>) -> Seq<Seq<char>> {
    lines_from(s, 0)
}

/// The lines of a text.
pub fn lines(text: &str) -> (out: Vec<String>)
    ensures
        out.deep_view() == spec_lines(text@),
{
    let chars = chars_of(text);
    let mut out: Vec<String> = Vec::new();
    let mut start: usize = 0;
    assert(out.deep_view() =~= Seq::<Seq<char>>::empty());
    while start < chars.len()
        invariant
            chars@ == text@,
            0 <= start <= chars@.len(),
            out.deep_view() + lines_from(text@, start as int) == spec_lines(text@),
        decreases chars.len() - start,
    {
        let mut end: usize = start;
        while end < chars.len() && chars[end] != '\n'
            invariant
                start <= end <= chars@.len(),
                line_end(chars@, end as int) == line_end(chars@, start as int),
            decreases chars.len() - end,
        {
            end = end + 1;
        }
        assert(line_end(chars@, start as int) == end);
        let stop: usize = if end < chars.len() && start < end && chars[end - 1] == '\r' {
            end - 1
        } else {
            end
        };
        let line = string_of(&chars, start, stop);
        let ghost before = out.deep_view();
        out.push(line);
        assert(out.deep_view() =~= before.push(line_text(text@, start as int, end as int))) by {
            assert(out@.len() == before.len() + 1);
            assert forall|k: int| 0 <= k < out@.len() implies #[trigger] out.deep_view()[k]
                == before.push(line_text(text@, start as int, end as int))[k] by {
                if k < before.len() {
                    assert(out.deep_view()[k] == out@[k].deep_view());
                }
            }
        }
        if end == chars.len() {
            assert(out.deep_view() =~= before + lines_from(text@, start as int));
            return out;
        }
        assert(before.push(line_text(text@, start as int, end as int)) + lines_from(
            text@,
            end + 1,
        ) =~= before + lines_from(text@, start as int));
        start = end + 1;
    }
    assert(lines_from(text@, start as int) =~= Seq::<Seq<char>>::empty());
    assert(out.deep_view() + Seq::<Seq<char>>::empty() =~= out.deep_view());
    out
}

/// `c` is white space, as the Unicode property `White_Space` has it.
pub open spec fn spec_is_white_space(c: char) -> bool {
    ||| '\u{0009}' <= c <= '\u{000D}'
    ||| c == ' '
    ||| c == '\u{0085}'
    ||| c == '\u{00A0}'
    ||| c == '\u{1680}'
    ||| '\u{2000}' <= c <= '\u{200A}'
    ||| c == '\u{2028}'
    ||| c == '\u{2029}'
    ||| c == '\u{202F}'
    ||| c == '\u{205F}'
    ||| c == '\u{3000}'
}

/// Whether a character is white space.
pub fn is_white_space(c: char) -> (white: bool)
    ensures
        white == spec_is_white_space(c),
{
    ('\u{0009}' <= c && c <= '\u{000D}') || c == ' ' || c == '\u{0085}' || c == '\u{00A0}' || c
        == '\u{1680}' || ('\u{2000}' <= c && c <= '\u{200A}') || c == '\u{2028}' || c == '\u{2029}'
        || c == '\u{202F}' || c == '\u{205F}' || c == '\u{3000}'
}

/// The first place from `i` on that holds no white space, or the length
/// of `s`.
pub open spec fn trim_start(s: Seq<char>, i: int) -> int
    decreases s.len() - i,
{
    if i >= s.len() || !spec_is_white_space(s[i]) {
        i
    } else {
        trim_start(s, i + 1)
    }
}

/// The place behind the last character before `n` that is no white space,
/// or 0.
pub open spec fn trim_end(s: Seq<char>, n: int) -> int
    decreases n,
{
    if n <= 0 || !spec_is_white_space(s[n - 1]) {
        n
    } else {
        trim_end(s, n - 1)
    }
}

/// `s` without the white space at its start and at its end.
pub open spec fn spec_trim(s: Seq<char>) -> Seq<char> {
    let start = trim_start(s, 0);
    let end = trim_end(s, s.len() as int);
    if 0 <= start <= end <= s.len() {
        s.subrange(start, end)
    } else {
        Seq::empty()
    }
}

/// A text without the white space at its start and at its end.
pub fn trim(text: &str) -> (out: String)
    ensures
        out@ == spec_trim(text@),
{
    let chars = chars_of(text);
    let mut start: usize = 0;
    while start < chars.len() && is_white_space(chars[start])
        invariant
            0 <= start <= chars@.len(),
            trim_start(chars@, start as int) == trim_start(chars@, 0),
        decreases chars.len() - start,
    {
        start = start + 1;
    }
    let mut end: usize = chars.len();
    while end > 0 && is_white_space(chars[end - 1])
        invariant
            0 <= end <= chars@.len(),
            trim_end(chars@, end as int) == trim_end(chars@, chars@.len() as int),
        decreases end,
    {
        end = end - 1;
    }
    if start <= end {
        string_of(&chars, start, end)
    } else {
        String::new()
    }
}

/// `s` without the ending `suffix`, if it ends with it.
pub open spec fn spec_strip_suffix(s: Seq<char>, suffix: Seq<char>) -> Option<Seq<char>> {
    if s.len() >= suffix.len() && s.subrange(s.len() - suffix.len(), s.len() as int) == suffix {
        Some(s.subrange(0, s.len() - suffix.len()))
    } else {
        None
    }
}

/// `s` without the ending `suffix`, if it ends with it.
pub fn strip_suffix(s: &str, suffix: &str) -> (stem: Option<String>)
    ensures
        stem.deep_view() == spec_strip_suffix(s@, suffix@),
{
    let chars = chars_of(s);
    let tail = chars_of(suffix);
    if chars.len() < tail.len() {
        return None;
    }
    let offset: usize = chars.len() - tail.len();
    let mut i: usize = 0;
    while i < tail.len()
        invariant
            chars@ == s@,
            tail@ == suffix@,
            offset + tail@.len() == chars@.len(),
            0 <= i <= tail@.len(),
            forall|k: int| 0 <= k < i ==> chars@[offset + k] == #[trigger] tail@[k],
        decreases tail.len() - i,
    {
        assert(offset + i < chars.len());
        if chars[offset + i] != tail[i] {
            assert(s@.subrange(offset as int, s@.len() as int)[i as int] != suffix@[i as int]);
            return None;
        }
        i = i + 1;
    }
    assert(s@.subrange(offset as int, s@.len() as int) =~= suffix@);
    Some(string_of(&chars, 0, offset))
}

} // verus!
