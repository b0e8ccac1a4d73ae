//! Parser for the lines of a multilingual wordnet tab file.
//!
//! A line names a synset by offset and part of speech, a language, and one of
//! three things about the synset in that language: a lemma, a definition with
//! its sense index, or a usage example.
//!
//! - `entry`: the records, and `error`: why a line gave none;
//! - `grammar`: the shape of a line, over character sequences;
//! - `fields`: the fields of a line as written, and how they decode to a record;
//! - `parse`: from a line to its fields and to its record;
//! - `pieces` and `laws`: a line written out piece by piece, and what holds of
//!   the parse of every line;
//! - `pattern`: the regular expression engine, which says what a word
//!   character is;
//! - `scan`: walking over the characters of a line.

pub mod entry;
pub mod error;
pub mod fields;
pub mod grammar;
pub mod laws;
pub mod parse;
pub mod pattern;
pub mod pieces;
pub mod scan;

pub use entry::{Definition, Entry, Example, Kind, Lemma, Part};
pub use error::ParseError;
pub use fields::Fields;
pub use parse::{parse_multilingual_wordnet_line, split_line};
