//! What holds of the parse of every line.

use vstd::prelude::*;
use crate::entry::{
    DefinitionView, Entry, EntryView, ExampleView, Kind, LemmaView, Part,
};
use crate::error::{ParseError, ParseErrorView};
use crate::fields::{digit_value, outcome_view, part_of_code};
use crate::grammar::{
    is_language_code, is_offset, is_part_code, keyword, keyword_kind, kind_at, kind_start,
    language_start, line_entry, line_fields,
};
use crate::pieces::{
    line_holds, pieces_of, split_line_was_written, written_line_splits, Pieces,
};

verus! {

/// Each keyword stands for its own kind.
pub proof fn keyword_names_its_kind(kind: Kind)
    ensures
        keyword_kind(keyword(kind)) == Some(kind),
{
    assert(keyword(Kind::Lemma).len() == 5);
    assert(keyword(Kind::Definition)[0] == 'd');
    assert(keyword(Kind::Example)[0] == 'e');
}

/// The number that a digit stands for is its distance from `0`, at most 9.
pub proof fn digit_value_is_small(digit: char)
    requires
        '0' <= digit <= '9',
    ensures
        digit_value(digit) == digit as int - '0' as int,
        0 <= digit_value(digit) <= 9,
{
}

/// A line made of the pieces of a record parses to that record: every field
/// is the piece as it was written, and the text is what stands before the
/// stripped end of the line.
pub proof fn record_line_parses(w: Pieces)
    requires
        w.is_record(),
    ensures
        line_entry(w.text()) == Ok::<EntryView, ParseErrorView>(w.entry()),
        w.entry().wf(),
{
    written_line_splits(w);
    keyword_names_its_kind(w.kind);
    if w.sid is Some {
        digit_value_is_small(w.sid.unwrap());
    }
}

/// A well-formed `lemma` line parses to a lemma whose language, offset and
/// part of speech are those written in the line, and whose text is the
/// content of the line without what is stripped from its end.
pub proof fn lemma_line_parses(w: Pieces)
    requires
        w.well_formed(),
        w.kind == Kind::Lemma,
        w.sid is None,
    ensures
        part_of_code(w.code) is Some,
        line_entry(w.text()) == Ok::<EntryView, ParseErrorView>(
            EntryView::Lemma(
                LemmaView {
                    language: w.language,
                    offset: w.offset,
                    pos: part_of_code(w.code).unwrap(),
                    lemma: w.content,
                },
            ),
        ),
{
    record_line_parses(w);
}

/// A well-formed `def` line parses to a definition whose sense index is the
/// number that its one digit stands for, and whose text is the content of the
/// line without what is stripped from its end.
pub proof fn definition_line_parses(w: Pieces)
    requires
        w.well_formed(),
        w.kind == Kind::Definition,
        w.sid is Some,
    ensures
        part_of_code(w.code) is Some,
        digit_value(w.sid.unwrap()) == w.sid.unwrap() as int - '0' as int,
        line_entry(w.text()) == Ok::<EntryView, ParseErrorView>(
            EntryView::Definition(
                DefinitionView {
                    language: w.language,
                    offset: w.offset,
                    pos: part_of_code(w.code).unwrap(),
                    sid: digit_value(w.sid.unwrap()),
                    definition: w.content,
                },
            ),
        ),
{
    record_line_parses(w);
    digit_value_is_small(w.sid.unwrap());
}

/// A well-formed `exe` line parses to an example whose text is the content of
/// the line without what is stripped from its end.
pub proof fn example_line_parses(w: Pieces)
    requires
        w.well_formed(),
        w.kind == Kind::Example,
        w.sid is None,
    ensures
        part_of_code(w.code) is Some,
        line_entry(w.text()) == Ok::<EntryView, ParseErrorView>(
            EntryView::Example(
                ExampleView {
                    language: w.language,
                    offset: w.offset,
                    pos: part_of_code(w.code).unwrap(),
                    example: w.content,
                },
            ),
        ),
{
    record_line_parses(w);
}

/// A `def` line without its sense index is malformed: it gives no record of
/// any kind.
pub proof fn definition_without_sense_index_is_malformed(w: Pieces)
    requires
        w.well_formed(),
        w.kind == Kind::Definition,
        w.sid is None,
    ensures
        line_entry(w.text()) == Err::<EntryView, ParseErrorView>(
            ParseErrorView::MalformedLine(w.text()),
        ),
{
    written_line_splits(w);
    keyword_names_its_kind(w.kind);
}

/// A `lemma` or `exe` line with a sense index before its content is
/// malformed.
pub proof fn stray_sense_index_is_malformed(w: Pieces)
    requires
        w.well_formed(),
        w.kind != Kind::Definition,
        w.sid is Some,
    ensures
        line_entry(w.text()) == Err::<EntryView, ParseErrorView>(
            ParseErrorView::MalformedLine(w.text()),
        ),
{
    written_line_splits(w);
    keyword_names_its_kind(w.kind);
}

/// A line that parses is made of the pieces of a record, and parses to the
/// record that they make.
pub proof fn parsed_line_is_record(s: Seq<char>) -> (w: Pieces)
    requires
        line_entry(s) is Ok,
    ensures
        w.is_record(),
        w.text() == s,
        line_entry(s) == Ok::<EntryView, ParseErrorView>(w.entry()),
{
    let kind = kind_at(s, kind_start(s)).unwrap();
    let w = pieces_of(s, kind);
    split_line_was_written(s, kind);
    keyword_names_its_kind(kind);
    w
}

/// A line parses to a record exactly where it is written as that record.
pub proof fn line_parses_as_written(s: Seq<char>, entry: EntryView)
    ensures
        line_entry(s) == Ok::<EntryView, ParseErrorView>(entry) <==> line_holds(s, entry),
{
    if line_entry(s) == Ok::<EntryView, ParseErrorView>(entry) {
        let w = parsed_line_is_record(s);
        assert(w.is_record() && w.text() == s && w.entry() == entry);
    }
    if line_holds(s, entry) {
        let w = choose|w: Pieces| #[trigger] w.is_record() && w.text() == s && w.entry() == entry;
        record_line_parses(w);
    }
}

/// A line fails to parse only as a malformed line, and the error carries the
/// line.
pub proof fn line_fails_as_malformed(s: Seq<char>)
    requires
        line_entry(s) is Err,
    ensures
        line_entry(s) == Err::<EntryView, ParseErrorView>(ParseErrorView::MalformedLine(s)),
{
    if line_fields(s) is Some {
        let kind = kind_at(s, kind_start(s)).unwrap();
        split_line_was_written(s, kind);
        keyword_names_its_kind(kind);
    }
}

/// Every record that a line parses to is well formed.
pub proof fn parsed_entry_is_well_formed(s: Seq<char>)
    requires
        line_entry(s) is Ok,
    ensures
        line_entry(s)->Ok_0.wf(),
{
    let w = parsed_line_is_record(s);
    record_line_parses(w);
}

/// Parsing is a function of the text of the line: two parses of lines with
/// the same text give the same result.
pub proof fn parse_is_deterministic(
    a: &str,
    b: &str,
    parse_a: Result<Entry, ParseError>,
    parse_b: Result<Entry, ParseError>,
)
    requires
        a@ == b@,
        outcome_view(parse_a) == line_entry(a@),
        outcome_view(parse_b) == line_entry(b@),
    ensures
        outcome_view(parse_a) == outcome_view(parse_b),
{
}

/// Whatever the kind of a line, its record holds the offset, the part of
/// speech and the language as they stand in the line, at places that do not
/// depend on the kind: the first 8 characters, the code after the hyphen, and
/// the 3 characters after the blanks that follow the code.
pub proof fn sense_key_is_read_alike(s: Seq<char>)
    requires
        line_entry(s) is Ok,
    ensures
        s.len() >= 14,
        10 < language_start(s) <= s.len() - 4,
        line_entry(s)->Ok_0.offset() == s.subrange(0, 8),
        is_offset(line_entry(s)->Ok_0.offset()),
        part_of_code(s[9]) == Some(line_entry(s)->Ok_0.pos()),
        line_entry(s)->Ok_0.language() == s.subrange(language_start(s), language_start(s) + 3),
        is_language_code(line_entry(s)->Ok_0.language()),
{
    let w = parsed_line_is_record(s);
    record_line_parses(w);
    let kind = kind_at(s, kind_start(s)).unwrap();
    split_line_was_written(s, kind);
}

/// Lines of any kinds that are written with the same offset, part-of-speech
/// code and language code parse to records with the same offset, part of
/// speech and language.
pub proof fn sense_key_is_independent_of_kind(a: Pieces, b: Pieces)
    requires
        a.is_record(),
        b.is_record(),
        a.offset == b.offset,
        a.code == b.code,
        a.language == b.language,
    ensures
        line_entry(a.text()) is Ok,
        line_entry(b.text()) is Ok,
        line_entry(a.text())->Ok_0.offset() == line_entry(b.text())->Ok_0.offset(),
        line_entry(a.text())->Ok_0.pos() == line_entry(b.text())->Ok_0.pos(),
        line_entry(a.text())->Ok_0.language() == line_entry(b.text())->Ok_0.language(),
{
    record_line_parses(a);
    record_line_parses(b);
}

/// A line whose part-of-speech code is none of `a`, `n`, `r`, `v` is
/// malformed: no part of speech is chosen for it.
pub proof fn unknown_part_code_is_malformed(s: Seq<char>)
    requires
        s.len() > 9,
        !is_part_code(s[9]),
    ensures
        line_entry(s) == Err::<EntryView, ParseErrorView>(ParseErrorView::MalformedLine(s)),
{
}

/// The part of speech of a record is the one that the code in its line stands
/// for.
pub proof fn part_of_speech_is_decoded(s: Seq<char>, part: Part)
    requires
        line_entry(s) is Ok,
    ensures
        line_entry(s)->Ok_0.pos() == part <==> s[9] == (match part {
            Part::Adjective => 'a',
            Part::Adverb => 'r',
            Part::Noun => 'n',
            Part::Verb => 'v',
        }),
{
    sense_key_is_read_alike(s);
}

} // verus!
