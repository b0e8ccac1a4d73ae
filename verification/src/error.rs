//! Why a line was not parsed.

use vstd::prelude::*;

verus! {

/// A failure to parse; each variant carries the line that failed.
#[derive(Debug, Clone, Copy, PartialEq, Eq)]
pub enum ParseError<'a> {
    /// The line does not have the shape of a record.
    MalformedLine(&'a str),
    /// The part-of-speech code is none of `a`, `n`, `r`, `v`.
    UnknownPartOfSpeech(&'a str),
    /// The kind is none of `lemma`, `def`, `exe`.
    UnknownKind(&'a str),
}

/// A `ParseError` with its line as a character sequence.
pub enum ParseErrorView {
    MalformedLine(Seq<char>),
    UnknownPartOfSpeech(Seq<char>),
    UnknownKind(Seq<char>),
}

impl<'a> View for ParseError<'a> {
    type V = ParseErrorView;

    open spec fn view(&self) -> ParseErrorView {
        match *self {
            ParseError::MalformedLine(line) => ParseErrorView::MalformedLine(line@),
            ParseError::UnknownPartOfSpeech(line) => ParseErrorView::UnknownPartOfSpeech(line@),
            ParseError::UnknownKind(line) => ParseErrorView::UnknownKind(line@),
        }
    }
}

impl<'a> ParseError<'a> {
    /// The line that failed.
    pub fn line(&self) -> (r: &'a str)
        ensures
            r@ == self@.line(),
    {
        match self {
            ParseError::MalformedLine(line) => line,
            ParseError::UnknownPartOfSpeech(line) => line,
            ParseError::UnknownKind(line) => line,
        }
    }
}

impl ParseErrorView {
    /// The line that failed.
    pub open spec fn line(self) -> Seq<char> {
        match self {
            ParseErrorView::MalformedLine(line) => line,
            ParseErrorView::UnknownPartOfSpeech(line) => line,
            ParseErrorView::UnknownKind(line) => line,
        }
    }
}

} // verus!
