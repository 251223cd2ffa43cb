//! The making of the character tables from the data files of the Unicode
//! Character Database.

pub mod allowed_in_word;
pub mod bits;
pub mod letter_casing;
pub mod nonspacing_marks;
pub mod pattern;
pub mod scan;
pub mod table;
pub mod titlecase;
pub mod tree;
pub mod unicode_data;
