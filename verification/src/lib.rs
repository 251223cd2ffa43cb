//! A case conversion library.
//!
//! This library converts a text between common cases such as CamelCase and
//! snake_case. It first segments the text into words, and then writes the
//! words again as the target case writes them.
//!
//! ## Definition of a word boundary
//!
//! The definition of a word boundary is based on the identifier chunks of
//! Unicode Technical Standard 55. The rules are as follows:
//!
//! - The characters that can be in a word are those with the property
//!   `ID_Continue`, `Alphabetic` or `ID_Compat_Math_Continue`, the numbers,
//!   the unassigned and the private-use characters, and U+05F3, U+05F4 and
//!   U+0F0B; without the punctuation other than `Other_Punctuation`.
//!
//! - Characters that cannot be in a word separate words. For example,
//!   `foo_bar` is segmented `foo`|`bar` because words cannot contain `_`.
//!   These characters are left out of the converted text.
//!
//! - Words cannot be empty. For example, `_foo__bar_` is segmented
//!   `foo`|`bar`, and in snake_case becomes `foo_bar`.
//!
//! - There is a word boundary between a lowercase (or non-Greek titlecase)
//!   and an uppercase (or titlecase) letter. For example, `fooBar` is
//!   segmented `foo`|`Bar`.
//!
//! - An uppercase letter followed by a lowercase letter has a word boundary
//!   before it. For example, `XMLHttpRequest` is segmented
//!   `XML`|`Http`|`Request`.
//!
//! - There is always a word boundary before a non-Greek titlecase letter
//!   (U+01C5, U+01C8, U+01CB or U+01F2).
//!
//! - Where numbers are to start a word, there is a word boundary where an
//!   ASCII digit meets a character that is none.
//!
//! - For the purpose of the preceding four rules, a character followed by
//!   some number of nonspacing marks is treated as if it was the character
//!   alone. For example, an `a` with an acute accent before a `B` ends a
//!   word as the `a` alone does.
//!
//! The module `segment` states these rules and the segmenter that follows
//! them, `render` the three ways to write a word, `transform` the
//! conversion that puts both together, and `laws` what holds of them. The
//! modules named after the cases hold one conversion each, `cases` and
//! `convert_case` the choice of a case at run time. The module `tables`
//! classifies characters by the lists of the module `unicode`; the module
//! `generate` makes such lists, and more compact tables, out of the data
//! files of the Unicode Character Database.

pub mod camel;
pub mod cases;
pub mod compact_lower;
pub mod compact_upper;
pub mod convert_case;
pub mod dot;
pub mod generate;
pub mod human;
pub mod kebab;
pub mod laws;
pub mod lower_camel;
pub mod mid_sentence;
pub mod ranges;
pub mod render;
pub mod segment;
pub mod shouty_dot;
pub mod shouty_kebab;
pub mod shouty_snake;
pub mod snake;
pub mod tables;
pub mod text;
pub mod title;
pub mod train;
pub mod transform;
pub mod unicode;
pub mod upper;
pub mod upper_camel;

pub use camel::CamelCase;
pub use cases::{AsCase, CaseNotFound, ToCase};
pub use compact_lower::{AsCompactLowercase, ToCompactLowercase};
pub use compact_upper::{AsCompactUppercase, ToCompactUppercase};
pub use convert_case::{convert_case, ConvertCase, ConvertCaseOpt};
pub use dot::{AsDotCase, ToDotCase};
pub use human::{AsHumanCase, ToHumanCase};
pub use kebab::{AsKebabCase, ToKebabCase};
pub use lower_camel::{AsLowerCamelCase, ToLowerCamelCase};
pub use mid_sentence::{AsMidSentenceCase, ToMidSentenceCase};
pub use render::{lowercase, titlecase, uppercase};
pub use shouty_dot::{AsShoutyDotCase, ToShoutyDotCase};
pub use shouty_kebab::{AsShoutyKebabCase, ToShoutyKebabCase};
pub use shouty_snake::{AsShoutySnakeCase, ToShoutySnakeCase, ToShoutySnekCase};
pub use snake::{AsSnakeCase, SnakeCase, SnekCase};
pub use title::{AsTitleCase, ToTitleCase};
pub use train::{AsTrainCase, ToTrainCase};
pub use transform::transform;
pub use unicode::UNICODE_VERSION;
pub use upper::{AsUpperCase, ToUpperCase};
pub use upper_camel::{AsUpperCamelCase, ToPascalCase, ToUpperCamelCase};
