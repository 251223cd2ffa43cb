//! Conversion to a case that is chosen at run time, with the option to let
//! numbers start a word.

use crate::kebab::{spec_kebab, to_kebab};
use crate::lower_camel::{spec_lower_camel, to_lower_camel_case};
use crate::shouty_kebab::{spec_shouty_kebab, to_shouty_kebab_case};
use crate::shouty_snake::{spec_shouty_snake, to_shouty_snake_case};
use crate::snake::{spec_snake, to_snake_case};
use crate::text::Text;
use crate::title::{spec_title, to_title_case};
use crate::upper_camel::{spec_upper_camel, to_upper_camel_case};
use vstd::prelude::*;

verus! {

/// Supported cases.
#[derive(Clone, Copy, Debug, PartialEq, Eq, Structural)]
pub enum Case {
    /// kebab-case
    Kebab,
    /// lowerCamelCase
    LowerCamel,
    /// SHOUTY-KEBAB-CASE
    ShoutyKebab,
    /// SHOUTY_SNAKE_CASE
    ShoutySnake,
    /// snake_case
    Snake,
    /// Title Case
    Title,
    /// UpperCamelCase
    UpperCamel,
}

/// Options to tweak how `convert_case` will behave.
#[derive(Clone, Copy, Debug, PartialEq, Eq, Structural)]
pub struct ConvertCaseOpt {
    /// Supported case.
    pub case: Case,
    /// Whether numbers should start a new word.
    pub number_starts_word: bool,
}

/// `s` in the case that `opt` names, segmented as `opt` says.
pub open spec fn spec_convert_case(s: Seq<char>, opt: ConvertCaseOpt) -> Seq<char> {
    match opt.case {
        Case::Kebab => spec_kebab(s, opt.number_starts_word),
        Case::LowerCamel => spec_lower_camel(s, opt.number_starts_word),
        Case::ShoutyKebab => spec_shouty_kebab(s, opt.number_starts_word),
        Case::ShoutySnake => spec_shouty_snake(s, opt.number_starts_word),
        Case::Snake => spec_snake(s, opt.number_starts_word),
        Case::Title => spec_title(s, opt.number_starts_word),
        Case::UpperCamel => spec_upper_camel(s, opt.number_starts_word),
    }
}

/// Converts `s` to the case that `opt` names.
pub fn convert_case(s: &str, opt: ConvertCaseOpt) -> (out: String)
    ensures
        out@ == spec_convert_case(s@, opt),
{
    match opt.case {
        Case::Kebab => to_kebab(s, opt.number_starts_word),
        Case::LowerCamel => to_lower_camel_case(s, opt.number_starts_word),
        Case::ShoutyKebab => to_shouty_kebab_case(s, opt.number_starts_word),
        Case::ShoutySnake => to_shouty_snake_case(s, opt.number_starts_word),
        Case::Snake => to_snake_case(s, opt.number_starts_word),
        Case::Title => to_title_case(s, opt.number_starts_word),
        Case::UpperCamel => to_upper_camel_case(s, opt.number_starts_word),
    }
}

/// This trait defines a conversion to a case chosen at run time, which the
/// options can tweak.
pub trait ConvertCase: Text {
    /// Convert this type to supported cases with options.
    fn convert_case(&self, opt: ConvertCaseOpt) -> (out: String)
        ensures
            out@ == spec_convert_case(self.text(), opt),
    ;
}

impl ConvertCase for str {
    fn convert_case(&self, opt: ConvertCaseOpt) -> (out: String) {
        convert_case(self, opt)
    }
}

} // verus!
