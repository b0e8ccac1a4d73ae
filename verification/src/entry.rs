//! The records that a line can hold, and their mathematical views.

use vstd::prelude::*;
use crate::grammar::{is_content, is_language_code, is_offset};

verus! {

/// Part of speech of a synset.
#[derive(Debug, Clone, Copy, PartialEq, Eq, Structural)]
pub enum Part {
    Adjective,
    Adverb,
    Noun,
    Verb,
}

/// What a line says about its synset.
#[derive(Debug, Clone, Copy, PartialEq, Eq, Structural)]
pub enum Kind {
    Lemma,
    Definition,
    Example,
}

/// A word form that realizes a synset in one language.
#[derive(Debug, Clone, Copy, PartialEq, Eq)]
pub struct Lemma<'a> {
    pub language: &'a str,
    pub offset: &'a str,
    pub pos: Part,
    pub lemma: &'a str,
}

/// A gloss of a synset in one language; `sid` tells glosses of one synset apart.
#[derive(Debug, Clone, Copy, PartialEq, Eq)]
pub struct Definition<'a> {
    pub language: &'a str,
    pub offset: &'a str,
    pub pos: Part,
    pub sid: i8,
    pub definition: &'a str,
}

/// A usage example of a synset in one language.
#[derive(Debug, Clone, Copy, PartialEq, Eq)]
pub struct Example<'a> {
    pub language: &'a str,
    pub offset: &'a str,
    pub pos: Part,
    pub example: &'a str,
}

/// One parsed line.
#[derive(Debug, Clone, Copy, PartialEq, Eq)]
pub enum Entry<'a> {
    Definition(Definition<'a>),
    Example(Example<'a>),
    Lemma(Lemma<'a>),
}

/// A `Lemma` with its texts as character sequences.
pub struct LemmaView {
    pub language: Seq<char>,
    pub offset: Seq<char>,
    pub pos: Part,
    pub lemma: Seq<char>,
}

/// A `Definition` with its texts as character sequences.
pub struct DefinitionView {
    pub language: Seq<char>,
    pub offset: Seq<char>,
    pub pos: Part,
    pub sid: i8,
    pub definition: Seq<char>,
}

/// An `Example` with its texts as character sequences.
pub struct ExampleView {
    pub language: Seq<char>,
    pub offset: Seq<char>,
    pub pos: Part,
    pub example: Seq<char>,
}

/// An `Entry` with its texts as character sequences.
pub enum EntryView {
    Definition(DefinitionView),
    Example(ExampleView),
    Lemma(LemmaView),
}

impl<'a> View for Lemma<'a> {
    type V = LemmaView;

    open spec fn view(&self) -> LemmaView {
        LemmaView {
            language: self.language@,
            offset: self.offset@,
            pos: self.pos,
            lemma: self.lemma@,
        }
    }
}

impl<'a> View for Definition<'a> {
    type V = DefinitionView;

    open spec fn view(&self) -> DefinitionView {
        DefinitionView {
            language: self.language@,
            offset: self.offset@,
            pos: self.pos,
            sid: self.sid,
            definition: self.definition@,
        }
    }
}

impl<'a> View for Example<'a> {
    type V = ExampleView;

    open spec fn view(&self) -> ExampleView {
        ExampleView {
            language: self.language@,
            offset: self.offset@,
            pos: self.pos,
            example: self.example@,
        }
    }
}

impl<'a> View for Entry<'a> {
    type V = EntryView;

    open spec fn view(&self) -> EntryView {
        match *self {
            Entry::Definition(d) => EntryView::Definition(d@),
            Entry::Example(e) => EntryView::Example(e@),
            Entry::Lemma(l) => EntryView::Lemma(l@),
        }
    }
}

impl EntryView {
    /// The language code, whatever the kind.
    pub open spec fn language(self) -> Seq<char> {
        match self {
            EntryView::Definition(d) => d.language,
            EntryView::Example(e) => e.language,
            EntryView::Lemma(l) => l.language,
        }
    }

    /// The synset's offset, whatever the kind.
    pub open spec fn offset(self) -> Seq<char> {
        match self {
            EntryView::Definition(d) => d.offset,
            EntryView::Example(e) => e.offset,
            EntryView::Lemma(l) => l.offset,
        }
    }

    /// The synset's part of speech, whatever the kind.
    pub open spec fn pos(self) -> Part {
        match self {
            EntryView::Definition(d) => d.pos,
            EntryView::Example(e) => e.pos,
            EntryView::Lemma(l) => l.pos,
        }
    }

    /// The kind of the entry.
    pub open spec fn kind(self) -> Kind {
        match self {
            EntryView::Definition(_) => Kind::Definition,
            EntryView::Example(_) => Kind::Example,
            EntryView::Lemma(_) => Kind::Lemma,
        }
    }

    /// The text at the end of the line: the lemma, the gloss or the example.
    pub open spec fn content(self) -> Seq<char> {
        match self {
            EntryView::Definition(d) => d.definition,
            EntryView::Example(e) => e.example,
            EntryView::Lemma(l) => l.lemma,
        }
    }

    /// What holds of every record that a line gave: the offset is 8 digits, the
    /// language code 3 word characters, the text is not empty and ends with
    /// nothing that is stripped, and a sense index is a single digit.
    pub open spec fn wf(self) -> bool {
        &&& is_offset(self.offset())
        &&& is_language_code(self.language())
        &&& is_content(self.content())
        &&& self.sid() matches Some(sid) ==> 0 <= sid <= 9
    }

    /// The sense index, which only a definition has.
    pub open spec fn sid(self) -> Option<i8> {
        match self {
            EntryView::Definition(d) => Some(d.sid),
            EntryView::Example(_) => None,
            EntryView::Lemma(_) => None,
        }
    }
}

impl<'a> Entry<'a> {
    /// The language code, whatever the kind.
    pub fn language(&self) -> (r: &'a str)
        ensures
            r@ == self@.language(),
    {
        match self {
            Entry::Definition(d) => d.language,
            Entry::Example(e) => e.language,
            Entry::Lemma(l) => l.language,
        }
    }

    /// The synset's offset, whatever the kind.
    pub fn offset(&self) -> (r: &'a str)
        ensures
            r@ == self@.offset(),
    {
        match self {
            Entry::Definition(d) => d.offset,
            Entry::Example(e) => e.offset,
            Entry::Lemma(l) => l.offset,
        }
    }

    /// The synset's part of speech, whatever the kind.
    pub fn pos(&self) -> (r: Part)
        ensures
            r == self@.pos(),
    {
        match self {
            Entry::Definition(d) => d.pos,
            Entry::Example(e) => e.pos,
            Entry::Lemma(l) => l.pos,
        }
    }

    /// The text at the end of the line: the lemma, the gloss or the example.
    pub fn content(&self) -> (r: &'a str)
        ensures
            r@ == self@.content(),
    {
        match self {
            Entry::Definition(d) => d.definition,
            Entry::Example(e) => e.example,
            Entry::Lemma(l) => l.lemma,
        }
    }

    /// The sense index, which only a definition has.
    pub fn sid(&self) -> (r: Option<i8>)
        ensures
            r == self@.sid(),
    {
        match self {
            Entry::Definition(d) => Some(d.sid),
            Entry::Example(_) => None,
            Entry::Lemma(_) => None,
        }
    }

    /// The kind of the entry.
    pub fn kind(&self) -> (r: Kind)
        ensures
            r == self@.kind(),
    {
        match self {
            Entry::Definition(_) => Kind::Definition,
            Entry::Example(_) => Kind::Example,
            Entry::Lemma(_) => Kind::Lemma,
        }
    }
}

} // verus!
