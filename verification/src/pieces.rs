//! A line written out piece by piece, and what splitting it gives back.

use vstd::prelude::*;
use crate::entry::{DefinitionView, EntryView, ExampleView, Kind, LemmaView};
use crate::fields::{digit_value, part_of_code};
use crate::grammar::{
    all_blank, all_line_end, blanks_end_bounds, blanks_end_is, content_start, fields_of, has_sid,
    head_matches, is_blank, is_content, is_digit, is_language_code, is_line_end, is_offset,
    is_part_code, keyword, kind_at, kind_start, language_start, line_fields, line_layout,
    starts_at, tail_matches, tail_start, trimmed_len, trimmed_len_bounds, trimmed_len_is,
    FieldsView,
};

verus! {

/// The pieces of a line, in the order in which they are written.
pub struct Pieces {
    /// The synset's offset.
    pub offset: Seq<char>,
    /// The part-of-speech code, written after a hyphen.
    pub code: char,
    /// The blanks before the language code.
    pub gap_before_language: Seq<char>,
    /// The language code, written before a colon.
    pub language: Seq<char>,
    /// The kind, written as its keyword.
    pub kind: Kind,
    /// The blanks after the keyword.
    pub gap_after_kind: Seq<char>,
    /// The sense index, where one is written.
    pub sid: Option<char>,
    /// The blanks after the sense index, where one is written.
    pub gap_after_sid: Seq<char>,
    /// The text of the record.
    pub content: Seq<char>,
    /// What follows the text: blanks, carriage returns and line feeds.
    pub end: Seq<char>,
}

impl Pieces {
    /// The sense index and its blanks, as written before the content.
    pub open spec fn sid_text(self) -> Seq<char> {
        match self.sid {
            Some(digit) => seq![digit] + self.gap_after_sid,
            None => Seq::empty(),
        }
    }

    /// The line that the pieces make.
    pub open spec fn text(self) -> Seq<char> {
        self.offset + seq!['-', self.code] + self.gap_before_language + self.language + seq![':']
            + keyword(self.kind) + self.gap_after_kind + self.sid_text() + self.content + self.end
    }

    /// The pieces are well laid out, and the language code is made of word
    /// characters.
    pub open spec fn well_formed(self) -> bool {
        self.well_laid_out() && is_language_code(self.language)
    }

    /// Each piece is what the layout of a line asks of it, whatever the 3
    /// characters of the language code are. The language code and the content
    /// do not start with a blank, and content written without a sense index
    /// does not start with a digit and a blank, which would be read as one.
    pub open spec fn well_laid_out(self) -> bool {
        &&& is_offset(self.offset)
        &&& is_part_code(self.code)
        &&& self.gap_before_language.len() > 0
        &&& all_blank(self.gap_before_language)
        &&& self.language.len() == 3
        &&& !is_blank(self.language[0])
        &&& self.gap_after_kind.len() > 0
        &&& all_blank(self.gap_after_kind)
        &&& match self.sid {
            Some(digit) => {
                &&& is_digit(digit)
                &&& self.gap_after_sid.len() > 0
                &&& all_blank(self.gap_after_sid)
            },
            None => !(self.content.len() > 1 && is_digit(self.content[0]) && is_blank(
                self.content[1],
            )),
        }
        &&& is_content(self.content)
        &&& !is_blank(self.content[0])
        &&& all_line_end(self.end)
    }

    /// The pieces make a record: they are well formed, and a sense index is
    /// written exactly where the kind is a definition.
    pub open spec fn is_record(self) -> bool {
        self.well_formed() && (self.sid is Some <==> self.kind == Kind::Definition)
    }

    /// The record that the pieces make.
    pub open spec fn entry(self) -> EntryView {
        let pos = part_of_code(self.code).unwrap();
        match self.kind {
            Kind::Lemma => EntryView::Lemma(
                LemmaView {
                    language: self.language,
                    offset: self.offset,
                    pos,
                    lemma: self.content,
                },
            ),
            Kind::Definition => EntryView::Definition(
                DefinitionView {
                    language: self.language,
                    offset: self.offset,
                    pos,
                    sid: digit_value(self.sid.unwrap()),
                    definition: self.content,
                },
            ),
            Kind::Example => EntryView::Example(
                ExampleView {
                    language: self.language,
                    offset: self.offset,
                    pos,
                    example: self.content,
                },
            ),
        }
    }

    /// The fields that the pieces hold.
    pub open spec fn fields(self) -> FieldsView {
        FieldsView {
            line: self.text(),
            offset: self.offset,
            pos: self.code,
            language: self.language,
            kind: keyword(self.kind),
            sid: self.sid,
            content: self.content,
        }
    }
}

/// The line `s` is written as a record and `entry` is that record: `s` is the
/// text of the pieces of a record, and they make `entry`.
pub open spec fn line_holds(s: Seq<char>, entry: EntryView) -> bool {
    exists|w: Pieces| #[trigger] w.is_record() && w.text() == s && w.entry() == entry
}

/// A line made of well-formed pieces is split into the fields that it was
/// made of.
pub proof fn written_line_splits(w: Pieces)
    requires
        w.well_formed(),
    ensures
        line_fields(w.text()) == Some(w.fields()),
{
    written_line_scans(w);
}

/// A line made of pieces that are well laid out is scanned into the fields
/// that it was made of.
pub proof fn written_line_scans(w: Pieces)
    requires
        w.well_laid_out(),
    ensures
        line_layout(w.text()) == Some(w.fields()),
{
    let s = w.text();
    let kw = keyword(w.kind);
    let at_language: int = 10 + w.gap_before_language.len() as int;
    let at_kind: int = at_language + 4;
    let after_kind: int = at_kind + kw.len();
    let at_tail: int = after_kind + w.gap_after_kind.len();
    let at_content: int = at_tail + w.sid_text().len();
    let at_end: int = at_content + w.content.len();
    assert(s.len() == at_end + w.end.len());
    assert(s.subrange(0, 8) =~= w.offset);
    assert(s[8] == '-');
    assert(s[9] == w.code);
    assert forall|k: int| 10 <= k < at_language implies is_blank(#[trigger] s[k]) by {
        assert(s[k] == w.gap_before_language[k - 10]);
    }
    assert(s[at_language] == w.language[0]);
    blanks_end_is(s, 10, at_language);
    assert(language_start(s) == at_language);
    assert(s.subrange(at_language, at_language + 3) =~= w.language);
    assert(s[at_language + 3] == ':');
    assert(head_matches(s));
    assert(s.subrange(at_kind, after_kind) =~= kw);
    assert(starts_at(s, at_kind, kw));
    assert(s[at_kind] == kw[0]);
    assert(kind_at(s, at_kind) == Some(w.kind)) by {
        if starts_at(s, at_kind, keyword(Kind::Lemma)) {
            assert(s.subrange(at_kind, at_kind + 5)[0] == 'l');
        }
        if starts_at(s, at_kind, keyword(Kind::Definition)) {
            assert(s.subrange(at_kind, at_kind + 3)[0] == 'd');
        }
        if starts_at(s, at_kind, keyword(Kind::Example)) {
            assert(s.subrange(at_kind, at_kind + 3)[0] == 'e');
        }
    }
    assert forall|k: int| after_kind <= k < at_tail implies is_blank(#[trigger] s[k]) by {
        assert(s[k] == w.gap_after_kind[k - after_kind]);
    }
    assert(s[at_tail] == (w.sid_text() + w.content)[0]);
    assert(!is_blank(s[at_tail]));
    blanks_end_is(s, after_kind, at_tail);
    assert(tail_start(s, w.kind) == at_tail);
    assert forall|k: int| at_end <= k < s.len() implies is_line_end(#[trigger] s[k]) by {
        assert(s[k] == w.end[k - at_end]);
    }
    assert(s[at_end - 1] == w.content.last());
    trimmed_len_is(s, at_end);
    assert(s.subrange(at_content, at_end) =~= w.content);
    assert(s.subrange(at_tail, at_end) =~= w.sid_text() + w.content);
    assert(!(w.sid_text() + w.content).contains('\n')) by {
        if (w.sid_text() + w.content).contains('\n') {
            let k = choose|k: int|
                0 <= k < (w.sid_text() + w.content).len() && (w.sid_text() + w.content)[k] == '\n';
            if k < w.sid_text().len() {
                if k > 0 {
                    assert(is_blank(w.gap_after_sid[k - 1]));
                }
            } else {
                assert(w.content.contains(w.content[k - w.sid_text().len()]));
            }
        }
    }
    assert(tail_matches(s, w.kind));
    match w.sid {
        Some(digit) => {
            assert(s[at_tail] == digit);
            assert(s[at_tail + 1] == w.gap_after_sid[0]);
            assert(has_sid(s, w.kind));
            assert forall|k: int| at_tail + 1 <= k < at_content implies is_blank(
                #[trigger] s[k],
            ) by {
                assert(s[k] == w.gap_after_sid[k - at_tail - 1]);
            }
            assert(s[at_content] == w.content[0]);
            blanks_end_is(s, at_tail + 1, at_content);
        },
        None => {
            assert(s[at_tail] == w.content[0]);
            if w.content.len() > 1 {
                assert(s[at_tail + 1] == w.content[1]);
            }
            assert(!has_sid(s, w.kind));
        },
    }
    assert(content_start(s, w.kind) == at_content);
    assert(fields_of(s, w.kind) == w.fields());
}

/// The pieces that a line holding a record of `kind` is made of.
pub open spec fn pieces_of(s: Seq<char>, kind: Kind) -> Pieces {
    Pieces {
        offset: s.subrange(0, 8),
        code: s[9],
        gap_before_language: s.subrange(10, language_start(s)),
        language: s.subrange(language_start(s), language_start(s) + 3),
        kind,
        gap_after_kind: s.subrange(kind_start(s) + keyword(kind).len(), tail_start(s, kind)),
        sid: if has_sid(s, kind) {
            Some(s[tail_start(s, kind)])
        } else {
            None
        },
        gap_after_sid: if has_sid(s, kind) {
            s.subrange(tail_start(s, kind) + 1, content_start(s, kind))
        } else {
            Seq::empty()
        },
        content: s.subrange(content_start(s, kind), trimmed_len(s)),
        end: s.subrange(trimmed_len(s), s.len() as int),
    }
}

/// A line that splits into fields is made of well-formed pieces, and the
/// fields are those that the pieces hold.
pub proof fn split_line_was_written(s: Seq<char>, kind: Kind)
    requires
        line_fields(s) is Some,
        kind_at(s, kind_start(s)) == Some(kind),
    ensures
        pieces_of(s, kind).well_formed(),
        pieces_of(s, kind).text() == s,
        line_fields(s) == Some(pieces_of(s, kind).fields()),
{
    scanned_line_was_written(s, kind);
}

/// A line that is scanned into fields is made of pieces that are well laid
/// out, and the fields are those that the pieces hold.
pub proof fn scanned_line_was_written(s: Seq<char>, kind: Kind)
    requires
        line_layout(s) is Some,
        kind_at(s, kind_start(s)) == Some(kind),
    ensures
        pieces_of(s, kind).well_laid_out(),
        pieces_of(s, kind).text() == s,
        line_layout(s) == Some(pieces_of(s, kind).fields()),
{
    let w = pieces_of(s, kind);
    let kw = keyword(kind);
    let at_language = language_start(s);
    let at_kind = kind_start(s);
    let after_kind: int = at_kind + kw.len();
    let at_tail = tail_start(s, kind);
    let at_content = content_start(s, kind);
    let at_end = trimmed_len(s);
    blanks_end_bounds(s, 10);
    blanks_end_bounds(s, after_kind);
    trimmed_len_bounds(s);
    assert(!is_blank(s[at_end - 1]));
    if has_sid(s, kind) {
        blanks_end_bounds(s, at_tail + 1);
        assert(at_content < at_end);
    }
    assert(at_tail <= at_content < at_end);
    assert(w.language[0] == s[at_language]);
    assert(w.content[0] == s[at_content]);
    assert(w.content.last() == s[at_end - 1]);
    assert(!w.content.contains('\n')) by {
        if w.content.contains('\n') {
            let k = choose|k: int| 0 <= k < w.content.len() && w.content[k] == '\n';
            assert(s.subrange(at_tail, at_end)[at_content - at_tail + k] == '\n');
        }
    }
    if !has_sid(s, kind) && w.content.len() > 1 {
        assert(w.content[1] == s[at_tail + 1]);
    }
    assert(w.well_laid_out());
    assert(s.subrange(at_kind, after_kind) == kw);
    assert(w.text() =~= s) by {
        assert(w.text().len() == s.len());
        assert forall|k: int| 0 <= k < s.len() implies w.text()[k] == s[k] by {
            if at_kind <= k < after_kind {
                assert(s.subrange(at_kind, after_kind)[k - at_kind] == s[k]);
            }
        }
    }
    assert(w.fields() == fields_of(s, kind));
}

} // verus!
