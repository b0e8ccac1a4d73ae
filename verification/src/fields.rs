//! The fields of a line as written, and the record they decode to.

use vstd::prelude::*;
use crate::entry::{
    Definition, DefinitionView, Entry, EntryView, Example, ExampleView, Kind, Lemma, LemmaView,
    Part,
};
use crate::error::{ParseError, ParseErrorView};
use crate::grammar::{is_digit, keyword, keyword_kind, FieldsView};
use crate::scan::{chars_of, stands_at};

verus! {

/// The fields of a line, as written, with the line they were taken from.
#[derive(Debug, Clone, Copy, PartialEq, Eq)]
pub struct Fields<'a> {
    pub line: &'a str,
    pub offset: &'a str,
    pub pos: char,
    pub language: &'a str,
    pub kind: &'a str,
    pub sid: Option<char>,
    pub content: &'a str,
}

impl<'a> View for Fields<'a> {
    type V = FieldsView;

    open spec fn view(&self) -> FieldsView {
        FieldsView {
            line: self.line@,
            offset: self.offset@,
            pos: self.pos,
            language: self.language@,
            kind: self.kind@,
            sid: self.sid,
            content: self.content@,
        }
    }
}

/// The part of speech that a code stands for, if any.
pub open spec fn part_of_code(code: char) -> Option<Part> {
    if code == 'a' {
        Some(Part::Adjective)
    } else if code == 'n' {
        Some(Part::Noun)
    } else if code == 'r' {
        Some(Part::Adverb)
    } else if code == 'v' {
        Some(Part::Verb)
    } else {
        None
    }
}

/// The number that a digit stands for.
pub open spec fn digit_value(digit: char) -> i8 {
    (digit as u32 - '0' as u32) as i8
}

/// The sense index that a character stands for, if it is a digit.
pub open spec fn sense_index_of(digit: char) -> Option<i8> {
    if is_digit(digit) {
        Some(digit_value(digit))
    } else {
        None
    }
}

/// The record that fields decode to. The part of speech is decoded first, then
/// the kind; a definition needs a sense index, and the other kinds must not
/// have one.
pub open spec fn fields_entry(f: FieldsView) -> Result<EntryView, ParseErrorView> {
    match (part_of_code(f.pos), keyword_kind(f.kind)) {
        (None, _) => Err(ParseErrorView::UnknownPartOfSpeech(f.line)),
        (Some(_), None) => Err(ParseErrorView::UnknownKind(f.line)),
        (Some(pos), Some(Kind::Lemma)) => if f.sid is None {
            Ok(
                EntryView::Lemma(
                    LemmaView { language: f.language, offset: f.offset, pos, lemma: f.content },
                ),
            )
        } else {
            Err(ParseErrorView::MalformedLine(f.line))
        },
        (Some(pos), Some(Kind::Example)) => if f.sid is None {
            Ok(
                EntryView::Example(
                    ExampleView { language: f.language, offset: f.offset, pos, example: f.content },
                ),
            )
        } else {
            Err(ParseErrorView::MalformedLine(f.line))
        },
        (Some(pos), Some(Kind::Definition)) => match f.sid {
            Some(digit) if is_digit(digit) => Ok(
                EntryView::Definition(
                    DefinitionView {
                        language: f.language,
                        offset: f.offset,
                        pos,
                        sid: digit_value(digit),
                        definition: f.content,
                    },
                ),
            ),
            _ => Err(ParseErrorView::MalformedLine(f.line)),
        },
    }
}

/// What a parse gives, with its texts as character sequences.
pub open spec fn outcome_view(r: Result<Entry, ParseError>) -> Result<EntryView, ParseErrorView> {
    match r {
        Ok(entry) => Ok(entry@),
        Err(error) => Err(error@),
    }
}

impl Part {
    /// The part of speech that `code` stands for: `a`, `n`, `r` or `v`.
    pub fn from_code(code: char) -> (r: Option<Part>)
        ensures
            r == part_of_code(code),
    {
        if code == 'a' {
            Some(Part::Adjective)
        } else if code == 'n' {
            Some(Part::Noun)
        } else if code == 'r' {
            Some(Part::Adverb)
        } else if code == 'v' {
            Some(Part::Verb)
        } else {
            None
        }
    }
}

impl Kind {
    /// The kind that `word` stands for: `lemma`, `def` or `exe`.
    pub fn from_keyword(word: &str) -> (r: Option<Kind>)
        ensures
            r == keyword_kind(word@),
    {
        let chars = chars_of(word);
        let lemma: [char; 5] = ['l', 'e', 'm', 'm', 'a'];
        let def: [char; 3] = ['d', 'e', 'f'];
        let exe: [char; 3] = ['e', 'x', 'e'];
        assert(lemma@ =~= keyword(Kind::Lemma));
        assert(def@ =~= keyword(Kind::Definition));
        assert(exe@ =~= keyword(Kind::Example));
        assert(word@.subrange(0, word@.len() as int) =~= word@);
        if chars.len() == 5 && stands_at(chars.as_slice(), 0, lemma.as_slice()) {
            Some(Kind::Lemma)
        } else if chars.len() == 3 && stands_at(chars.as_slice(), 0, def.as_slice()) {
            Some(Kind::Definition)
        } else if chars.len() == 3 && stands_at(chars.as_slice(), 0, exe.as_slice()) {
            Some(Kind::Example)
        } else {
            None
        }
    }
}

/// The sense index that `digit` stands for, if it is one of `0` to `9`.
pub fn sense_index(digit: char) -> (r: Option<i8>)
    ensures
        r == sense_index_of(digit),
        r matches Some(n) ==> 0 <= n <= 9,
{
    if '0' <= digit && digit <= '9' {
        Some((digit as u32 - '0' as u32) as i8)
    } else {
        None
    }
}

impl<'a> Fields<'a> {
    /// Decodes the fields into a record.
    pub fn decode(&self) -> (r: Result<Entry<'a>, ParseError<'a>>)
        ensures
            outcome_view(r) == fields_entry(self@),
    {
        let pos = match Part::from_code(self.pos) {
            Some(pos) => pos,
            None => { return Err(ParseError::UnknownPartOfSpeech(self.line)); },
        };
        let kind = match Kind::from_keyword(self.kind) {
            Some(kind) => kind,
            None => { return Err(ParseError::UnknownKind(self.line)); },
        };
        match kind {
            Kind::Lemma => match self.sid {
                None => Ok(
                    Entry::Lemma(
                        Lemma {
                            language: self.language,
                            offset: self.offset,
                            pos,
                            lemma: self.content,
                        },
                    ),
                ),
                Some(_) => Err(ParseError::MalformedLine(self.line)),
            },
            Kind::Example => match self.sid {
                None => Ok(
                    Entry::Example(
                        Example {
                            language: self.language,
                            offset: self.offset,
                            pos,
                            example: self.content,
                        },
                    ),
                ),
                Some(_) => Err(ParseError::MalformedLine(self.line)),
            },
            Kind::Definition => {
                let sid = match self.sid {
                    Some(digit) => sense_index(digit),
                    None => None,
                };
                match sid {
                    Some(sid) => Ok(
                        Entry::Definition(
                            Definition {
                                language: self.language,
                                offset: self.offset,
                                pos,
                                sid,
                                definition: self.content,
                            },
                        ),
                    ),
                    None => Err(ParseError::MalformedLine(self.line)),
                }
            },
        }
    }
}

} // verus!
