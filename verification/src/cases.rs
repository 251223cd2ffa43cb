//! Conversion to a case that is chosen at run time, by value or by name.

use crate::kebab::{spec_kebab, to_kebab, AsKebabCase};
use crate::lower_camel::{spec_lower_camel, to_lower_camel_case, AsLowerCamelCase};
use crate::shouty_kebab::{spec_shouty_kebab, to_shouty_kebab_case, AsShoutyKebabCase};
use crate::shouty_snake::{spec_shouty_snake, to_shouty_snake_case, AsShoutySnakeCase};
use crate::snake::{spec_snake, to_snake_case, AsSnakeCase};
use crate::text::{
    debug_form, debug_quoted, lowercase_of_text, same_text, text_to_lowercase, text_to_uppercase,
    uppercase_of_text, Text,
};
use crate::title::{spec_title, to_title_case, AsTitleCase};
use crate::train::{spec_train, AsTrainCase, ToTrainCase};
use crate::upper_camel::{spec_upper_camel, to_upper_camel_case, AsUpperCamelCase};
use std::str::FromStr;
use vstd::prelude::*;
use vstd::std_specs::convert::{FromSpecImpl, TryFromSpecImpl};
use vstd::string::StringExecFns;

verus! {

/// Error returned when a case is not found. It holds the name that was
/// asked for.
#[derive(Debug, Clone, PartialEq, Eq)]
pub struct CaseNotFound(pub String);

/// The primary names of the cases, in the order of the variants of `Case`.
pub const CASES: [&'static str; 11] = [
    "lowerCamelCase",
    "UpperCamelCase",
    "PascalCase",
    "snake_case",
    "UPPER_SNAKE_CASE",
    "kebab-case",
    "UPPER-KEBAB-CASE",
    "Title Case",
    "Train-Case",
    "UPPERCASE",
    "lowercase",
];

/// The primary names of the cases, as the message of `CaseNotFound` lists
/// them.
pub const EXPECTED_CASES: &'static str =
    "[`lowerCamelCase`, `UpperCamelCase`, `PascalCase`, `snake_case`, `UPPER_SNAKE_CASE`, `kebab-case`, `UPPER-KEBAB-CASE`, `Title Case`, `Train-Case`, `UPPERCASE`, `lowercase`, ]";

impl From<String> for CaseNotFound {
    fn from(s: String) -> (error: CaseNotFound)
        ensures
            error.0 == s,
    {
        CaseNotFound(s)
    }
}

impl FromSpecImpl<String> for CaseNotFound {
    open spec fn obeys_from_spec() -> bool {
        true
    }

    open spec fn from_spec(s: String) -> CaseNotFound {
        CaseNotFound(s)
    }
}

impl<'a> From<&'a str> for CaseNotFound {
    fn from(s: &'a str) -> (error: CaseNotFound)
        ensures
            error.0@ == s@,
    {
        CaseNotFound(s.to_owned())
    }
}

impl<'a> FromSpecImpl<&'a str> for CaseNotFound {
    /// The string of the error is a new one: only its characters are
    /// stated, by `from` itself.
    open spec fn obeys_from_spec() -> bool {
        false
    }

    open spec fn from_spec(s: &'a str) -> CaseNotFound {
        CaseNotFound(arbitrary())
    }
}

impl CaseNotFound {
    /// The name that was asked for and is no name of a case.
    pub fn name(&self) -> (name: &str)
        ensures
            name@ == self.0@,
    {
        self.0.as_str()
    }

    /// What the message says of the name `name`.
    pub open spec fn spec_message(name: Seq<char>) -> Seq<char> {
        "Invalid Case: "@ + debug_form(name) + " expected one of "@ + EXPECTED_CASES@
    }

    /// The message of the error: the name in quotes, and the names that
    /// were expected.
    pub fn to_string(&self) -> (out: String)
        ensures
            out@ == Self::spec_message(self.0@),
    {
        let mut out = "Invalid Case: ".to_owned();
        let quoted = debug_quoted(self.0.as_str());
        out.append(quoted.as_str());
        out.append(" expected one of ");
        out.append(EXPECTED_CASES);
        out
    }
}

/// The case to convert to.
///
/// This is a way to specify case conversion dynamically.
#[derive(Debug, Clone, Copy, PartialEq, Eq, Structural)]
#[non_exhaustive]
pub enum Case {
    /// `camelCase` is primary name
    ///
    /// Other accepted names are `lowerCamelCase`
    LowerCamelCase,
    /// `UpperCamelCase` is primary name
    UpperCamelCase,
    /// `PascalCase` is primary name
    PascalCase,
    /// `snake_case` is primary name
    ///
    /// Other accepted names are `lower_snake_case` and `snek_case`
    SnakeCase,
    /// `UPPER_SNAKE_CASE` is primary name
    ///
    /// Other accepted names are `SCREAMING_SNAKE_CASE` and `SHOUTY_SNEK_CASE`
    ScreamingSnakeCase,
    /// `kebab-case` is primary name
    ///
    /// Other accepted names are `lower-kebab-case`
    KebabCase,
    /// `UPPER-KEBAB-CASE` is primary name
    ///
    /// Other accepted names are `SCREAMING-KEBAB-CASE`
    ScreamingKebabCase,
    /// `Title Case` is the primary name
    ///
    /// Other accepted names are `TitleCase`
    TitleCase,
    /// `Train-Case` is the primary name
    TrainCase,
    /// `UPPERCASE` is the primary name
    ///
    /// This is what `str::to_uppercase` gives.
    UpperCase,
    /// `lowercase` is the primary name
    ///
    /// This is what `str::to_lowercase` gives.
    LowerCase,
}

/// The case that `name` names, if it names one.
pub open spec fn spec_case_named(name: Seq<char>) -> Option<Case> {
    if name == "camelCase"@ || name == "lowerCamelCase"@ {
        Some(Case::LowerCamelCase)
    } else if name == "UpperCamelCase"@ {
        Some(Case::UpperCamelCase)
    } else if name == "PascalCase"@ {
        Some(Case::PascalCase)
    } else if name == "lower_snake_case"@ || name == "snake_case"@ || name == "snek_case"@ {
        Some(Case::SnakeCase)
    } else if name == "UPPER_SNAKE_CASE"@ || name == "SCREAMING_SNAKE_CASE"@ || name
        == "SHOUTY_SNEK_CASE"@ {
        Some(Case::ScreamingSnakeCase)
    } else if name == "lower-kebab-case"@ || name == "kebab-case"@ {
        Some(Case::KebabCase)
    } else if name == "UPPER-KEBAB-CASE"@ || name == "SCREAMING-KEBAB-CASE"@ {
        Some(Case::ScreamingKebabCase)
    } else if name == "TitleCase"@ || name == "Title Case"@ {
        Some(Case::TitleCase)
    } else if name == "Train-Case"@ {
        Some(Case::TrainCase)
    } else if name == "UPPERCASE"@ {
        Some(Case::UpperCase)
    } else if name == "lowercase"@ {
        Some(Case::LowerCase)
    } else {
        None
    }
}

/// `s` in the case `case`.
pub open spec fn spec_to_case(s: Seq<char>, case: Case) -> Seq<char> {
    match case {
        Case::LowerCamelCase => spec_lower_camel(s, false),
        Case::UpperCamelCase => spec_upper_camel(s, false),
        Case::PascalCase => spec_upper_camel(s, false),
        Case::SnakeCase => spec_snake(s, false),
        Case::ScreamingSnakeCase => spec_shouty_snake(s, false),
        Case::KebabCase => spec_kebab(s, false),
        Case::ScreamingKebabCase => spec_shouty_kebab(s, false),
        Case::TitleCase => spec_title(s, false),
        Case::TrainCase => spec_train(s),
        Case::UpperCase => uppercase_of_text(s),
        Case::LowerCase => lowercase_of_text(s),
    }
}

impl Case {
    /// The primary name of the case.
    pub open spec fn spec_name(self) -> Seq<char> {
        match self {
            Case::LowerCamelCase => "lowerCamelCase"@,
            Case::UpperCamelCase => "UpperCamelCase"@,
            Case::PascalCase => "PascalCase"@,
            Case::SnakeCase => "snake_case"@,
            Case::ScreamingSnakeCase => "UPPER_SNAKE_CASE"@,
            Case::KebabCase => "kebab-case"@,
            Case::ScreamingKebabCase => "UPPER-KEBAB-CASE"@,
            Case::TitleCase => "Title Case"@,
            Case::TrainCase => "Train-Case"@,
            Case::UpperCase => "UPPERCASE"@,
            Case::LowerCase => "lowercase"@,
        }
    }

    /// The primary name of the case.
    pub fn as_ref(&self) -> (name: &'static str)
        ensures
            name@ == self.spec_name(),
    {
        match self {
            Case::LowerCamelCase => "lowerCamelCase",
            Case::UpperCamelCase => "UpperCamelCase",
            Case::PascalCase => "PascalCase",
            Case::SnakeCase => "snake_case",
            Case::ScreamingSnakeCase => "UPPER_SNAKE_CASE",
            Case::KebabCase => "kebab-case",
            Case::ScreamingKebabCase => "UPPER-KEBAB-CASE",
            Case::TitleCase => "Title Case",
            Case::TrainCase => "Train-Case",
            Case::UpperCase => "UPPERCASE",
            Case::LowerCase => "lowercase",
        }
    }

    /// The primary name of the case, as an owned string.
    pub fn to_string(&self) -> (name: String)
        ensures
            name@ == self.spec_name(),
    {
        self.as_ref().to_owned()
    }

    /// The wrapper of `value` for this case.
    pub open spec fn spec_as_case<'a>(self, value: &'a str) -> AsCase<'a> {
        match self {
            Case::LowerCamelCase => AsCase::LowerCamelCase(AsLowerCamelCase(value)),
            Case::UpperCamelCase => AsCase::UpperCamelCase(AsUpperCamelCase(value)),
            Case::PascalCase => AsCase::PascalCase(AsUpperCamelCase(value)),
            Case::SnakeCase => AsCase::SnakeCase(AsSnakeCase(value)),
            Case::ScreamingSnakeCase => AsCase::ShoutySnakeCase(AsShoutySnakeCase(value)),
            Case::KebabCase => AsCase::KebabCase(AsKebabCase(value)),
            Case::ScreamingKebabCase => AsCase::ShoutyKebabCase(AsShoutyKebabCase(value)),
            Case::TitleCase => AsCase::TitleCase(AsTitleCase(value)),
            Case::TrainCase => AsCase::TrainCase(AsTrainCase(value)),
            Case::UpperCase => AsCase::UpperCase(value),
            Case::LowerCase => AsCase::LowerCase(value),
        }
    }

    /// Creates an `AsCase` wrapper for the specified case.
    pub fn as_case<'a>(&self, value: &'a str) -> (wrapped: AsCase<'a>)
        ensures
            wrapped == self.spec_as_case(value),
            wrapped.case() == *self,
            wrapped.text() == value,
    {
        match self {
            Case::LowerCamelCase => AsCase::LowerCamelCase(AsLowerCamelCase(value)),
            Case::UpperCamelCase => AsCase::UpperCamelCase(AsUpperCamelCase(value)),
            Case::PascalCase => AsCase::PascalCase(AsUpperCamelCase(value)),
            Case::SnakeCase => AsCase::SnakeCase(AsSnakeCase(value)),
            Case::ScreamingSnakeCase => AsCase::ShoutySnakeCase(AsShoutySnakeCase(value)),
            Case::KebabCase => AsCase::KebabCase(AsKebabCase(value)),
            Case::ScreamingKebabCase => AsCase::ShoutyKebabCase(AsShoutyKebabCase(value)),
            Case::TitleCase => AsCase::TitleCase(AsTitleCase(value)),
            Case::TrainCase => AsCase::TrainCase(AsTrainCase(value)),
            Case::UpperCase => AsCase::UpperCase(value),
            Case::LowerCase => AsCase::LowerCase(value),
        }
    }

    /// The case that `s` names. A string that names no case comes back in
    /// the error.
    pub fn from_str(s: &str) -> (found: Result<Case, CaseNotFound>)
        ensures
            match spec_case_named(s@) {
                Some(case) => found == Ok::<Case, CaseNotFound>(case),
                None => found is Err && found->Err_0.0@ == s@,
            },
    {
        if same_text(s, "camelCase") || same_text(s, "lowerCamelCase") {
            Ok(Case::LowerCamelCase)
        } else if same_text(s, "UpperCamelCase") {
            Ok(Case::UpperCamelCase)
        } else if same_text(s, "PascalCase") {
            Ok(Case::PascalCase)
        } else if same_text(s, "lower_snake_case") || same_text(s, "snake_case") || same_text(
            s,
            "snek_case",
        ) {
            Ok(Case::SnakeCase)
        } else if same_text(s, "UPPER_SNAKE_CASE") || same_text(s, "SCREAMING_SNAKE_CASE")
            || same_text(s, "SHOUTY_SNEK_CASE") {
            Ok(Case::ScreamingSnakeCase)
        } else if same_text(s, "lower-kebab-case") || same_text(s, "kebab-case") {
            Ok(Case::KebabCase)
        } else if same_text(s, "UPPER-KEBAB-CASE") || same_text(s, "SCREAMING-KEBAB-CASE") {
            Ok(Case::ScreamingKebabCase)
        } else if same_text(s, "TitleCase") || same_text(s, "Title Case") {
            Ok(Case::TitleCase)
        } else if same_text(s, "Train-Case") {
            Ok(Case::TrainCase)
        } else if same_text(s, "UPPERCASE") {
            Ok(Case::UpperCase)
        } else if same_text(s, "lowercase") {
            Ok(Case::LowerCase)
        } else {
            Err(CaseNotFound(s.to_owned()))
        }
    }
}

impl FromStr for Case {
    type Err = CaseNotFound;

    fn from_str(s: &str) -> (found: Result<Self, Self::Err>)
        ensures
            match spec_case_named(s@) {
                Some(case) => found == Ok::<Case, CaseNotFound>(case),
                None => found is Err && found->Err_0.0@ == s@,
            },
    {
        Case::from_str(s)
    }
}

impl TryFrom<String> for Case {
    type Error = CaseNotFound;

    fn try_from(s: String) -> (found: Result<Self, Self::Error>)
        ensures
            match spec_case_named(s@) {
                Some(case) => found == Ok::<Case, CaseNotFound>(case),
                None => found is Err && found->Err_0.0@ == s@,
            },
    {
        match Case::from_str(s.as_str()) {
            Ok(case) => Ok(case),
            Err(_) => Err(CaseNotFound(s)),
        }
    }
}

impl TryFromSpecImpl<String> for Case {
    open spec fn obeys_try_from_spec() -> bool {
        true
    }

    open spec fn try_from_spec(s: String) -> Result<Self, Self::Error> {
        match spec_case_named(s@) {
            Some(case) => Ok(case),
            None => Err(CaseNotFound(s)),
        }
    }
}

impl<'a> TryFrom<&'a str> for Case {
    type Error = CaseNotFound;

    fn try_from(s: &'a str) -> (found: Result<Self, Self::Error>)
        ensures
            match spec_case_named(s@) {
                Some(case) => found == Ok::<Case, CaseNotFound>(case),
                None => found is Err && found->Err_0.0@ == s@,
            },
    {
        Case::from_str(s)
    }
}

impl<'a> TryFromSpecImpl<&'a str> for Case {
    /// The string of the error is a new one: only its characters are
    /// stated, by `try_from` itself.
    open spec fn obeys_try_from_spec() -> bool {
        false
    }

    open spec fn try_from_spec(s: &'a str) -> Result<Self, Self::Error> {
        match spec_case_named(s@) {
            Some(case) => Ok(case),
            None => Err(CaseNotFound(arbitrary())),
        }
    }
}

/// The trait that defines case conversion to a case chosen at run time.
pub trait ToCase: Text {
    /// Converts the case of the string to the specified case.
    fn to_case(&self, case: Case) -> (out: String)
        ensures
            out@ == spec_to_case(self.text(), case),
    ;

    /// Converts the case of the type to the specified case.
    ///
    /// If the case is `None`, it will return an owned version of the type.
    fn to_optional_case(&self, case: Option<Case>) -> (out: String)
        ensures
            out@ == match case {
                Some(case) => spec_to_case(self.text(), case),
                None => self.text(),
            },
    ;
}

impl ToCase for str {
    fn to_case(&self, case: Case) -> (out: String) {
        match case {
            Case::LowerCamelCase => to_lower_camel_case(self, false),
            Case::UpperCamelCase => to_upper_camel_case(self, false),
            Case::PascalCase => to_upper_camel_case(self, false),
            Case::SnakeCase => to_snake_case(self, false),
            Case::ScreamingSnakeCase => to_shouty_snake_case(self, false),
            Case::KebabCase => to_kebab(self, false),
            Case::ScreamingKebabCase => to_shouty_kebab_case(self, false),
            Case::TitleCase => to_title_case(self, false),
            Case::TrainCase => self.to_train_case(),
            Case::UpperCase => text_to_uppercase(self),
            Case::LowerCase => text_to_lowercase(self),
        }
    }

    fn to_optional_case(&self, case: Option<Case>) -> (out: String) {
        match case {
            Some(case) => self.to_case(case),
            None => self.to_owned(),
        }
    }
}

/// A text together with the case in which it is to be written.
#[non_exhaustive]
pub enum AsCase<'a> {
    /// Wrapper around `AsLowerCamelCase`
    LowerCamelCase(AsLowerCamelCase<'a>),
    /// Wrapper around `AsUpperCamelCase`
    UpperCamelCase(AsUpperCamelCase<'a>),
    /// Wrapper around `AsUpperCamelCase`
    PascalCase(AsUpperCamelCase<'a>),
    /// Wrapper around `AsSnakeCase`
    SnakeCase(AsSnakeCase<'a>),
    /// Wrapper around `AsShoutySnakeCase`
    ShoutySnakeCase(AsShoutySnakeCase<'a>),
    /// Wrapper around `AsKebabCase`
    KebabCase(AsKebabCase<'a>),
    /// Wrapper around `AsShoutyKebabCase`
    ShoutyKebabCase(AsShoutyKebabCase<'a>),
    /// Wrapper around `AsTitleCase`
    TitleCase(AsTitleCase<'a>),
    /// Wrapper around `AsTrainCase`
    TrainCase(AsTrainCase<'a>),
    /// Just what `str::to_uppercase` gives
    UpperCase(&'a str),
    /// Just what `str::to_lowercase` gives
    LowerCase(&'a str),
}

impl<'a> AsCase<'a> {
    /// The case in which the text is to be written.
    pub open spec fn case(&self) -> Case {
        match self {
            AsCase::LowerCamelCase(_) => Case::LowerCamelCase,
            AsCase::UpperCamelCase(_) => Case::UpperCamelCase,
            AsCase::PascalCase(_) => Case::PascalCase,
            AsCase::SnakeCase(_) => Case::SnakeCase,
            AsCase::ShoutySnakeCase(_) => Case::ScreamingSnakeCase,
            AsCase::KebabCase(_) => Case::KebabCase,
            AsCase::ShoutyKebabCase(_) => Case::ScreamingKebabCase,
            AsCase::TitleCase(_) => Case::TitleCase,
            AsCase::TrainCase(_) => Case::TrainCase,
            AsCase::UpperCase(_) => Case::UpperCase,
            AsCase::LowerCase(_) => Case::LowerCase,
        }
    }

    /// The text that is to be written.
    pub open spec fn text(&self) -> &'a str {
        match self {
            AsCase::LowerCamelCase(s) => s.0,
            AsCase::UpperCamelCase(s) => s.0,
            AsCase::PascalCase(s) => s.0,
            AsCase::SnakeCase(s) => s.0,
            AsCase::ShoutySnakeCase(s) => s.0,
            AsCase::KebabCase(s) => s.0,
            AsCase::ShoutyKebabCase(s) => s.0,
            AsCase::TitleCase(s) => s.0,
            AsCase::TrainCase(s) => s.0,
            AsCase::UpperCase(s) => s,
            AsCase::LowerCase(s) => s,
        }
    }

    /// The wrapper of the text `value` for the case `case`.
    pub fn from(value: &'a str, case: Case) -> (wrapped: AsCase<'a>)
        ensures
            wrapped == case.spec_as_case(value),
    {
        case.as_case(value)
    }

    /// The wrapper of the text `value` for the case that `name` names. A
    /// name of no case comes back in the error.
    pub fn try_from(value: &'a str, name: &str) -> (wrapped: Result<AsCase<'a>, CaseNotFound>)
        ensures
            match spec_case_named(name@) {
                Some(case) => wrapped == Ok::<AsCase<'a>, CaseNotFound>(case.spec_as_case(value)),
                None => wrapped is Err && wrapped->Err_0.0@ == name@,
            },
    {
        match Case::from_str(name) {
            Ok(case) => Ok(case.as_case(value)),
            Err(e) => Err(e),
        }
    }

    /// The text in its case.
    pub fn to_string(&self) -> (out: String)
        ensures
            out@ == spec_to_case(self.text()@, self.case()),
    {
        match self {
            AsCase::LowerCamelCase(s) => s.to_string(),
            AsCase::UpperCamelCase(s) => s.to_string(),
            AsCase::PascalCase(s) => s.to_string(),
            AsCase::SnakeCase(s) => s.to_string(),
            AsCase::ShoutySnakeCase(s) => s.to_string(),
            AsCase::KebabCase(s) => s.to_string(),
            AsCase::ShoutyKebabCase(s) => s.to_string(),
            AsCase::TitleCase(s) => s.to_string(),
            AsCase::TrainCase(s) => s.to_string(),
            AsCase::UpperCase(s) => text_to_uppercase(s),
            AsCase::LowerCase(s) => text_to_lowercase(s),
        }
    }
}

} // verus!
