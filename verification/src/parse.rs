//! From a line to its record.

use vstd::prelude::*;
use crate::entry::{Entry, EntryView, Kind};
use crate::error::{ParseError, ParseErrorView};
use crate::fields::{outcome_view, Fields};
use crate::grammar::{
    is_blank, is_language_code, is_line_end, keyword, kind_at, line_entry, line_fields,
    line_layout, LANGUAGE_PATTERN,
};
use crate::laws::{
    line_fails_as_malformed, line_parses_as_written, parsed_entry_is_well_formed,
};
use crate::pieces::line_holds;
use crate::pattern::is_match;
use crate::scan::{
    chars_of, digits_between, line_feed_between, skip_blanks, stands_at, trimmed_end,
};

verus! {

/// The kind whose keyword stands in the text at place `i`, if any.
pub(crate) fn keyword_at(chars: &[char], i: usize) -> (r: Option<Kind>)
    ensures
        r == kind_at(chars@, i as int),
{
    let lemma: [char; 5] = ['l', 'e', 'm', 'm', 'a'];
    let def: [char; 3] = ['d', 'e', 'f'];
    let exe: [char; 3] = ['e', 'x', 'e'];
    assert(lemma@ =~= keyword(Kind::Lemma));
    assert(def@ =~= keyword(Kind::Definition));
    assert(exe@ =~= keyword(Kind::Example));
    if stands_at(chars, i, lemma.as_slice()) {
        Some(Kind::Lemma)
    } else if stands_at(chars, i, def.as_slice()) {
        Some(Kind::Definition)
    } else if stands_at(chars, i, exe.as_slice()) {
        Some(Kind::Example)
    } else {
        None
    }
}

/// Whether `text` is a language code: 3 characters that the regular
/// expression engine takes for word characters.
pub fn language_code(text: &str) -> (r: bool)
    ensures
        r == is_language_code(text@),
{
    text.unicode_len() == 3 && is_match(LANGUAGE_PATTERN, text)
}

/// Splits a line into its fields, as written: `None` where the line has not
/// the shape of a record.
pub fn split_line<'a>(line: &'a str) -> (r: Option<Fields<'a>>)
    ensures
        match r {
            Some(fields) => line_fields(line@) == Some(fields@),
            None => line_fields(line@) is None,
        },
{
    match scan_line(line) {
        Some(fields) => if language_code(fields.language) {
            Some(fields)
        } else {
            None
        },
        None => None,
    }
}

/// Splits a line that is laid out as a record into its fields, as written,
/// without a look at the characters of the language code: `None` where the
/// line is laid out otherwise.
pub fn scan_line<'a>(line: &'a str) -> (r: Option<Fields<'a>>)
    ensures
        match r {
            Some(fields) => line_layout(line@) == Some(fields@),
            None => line_layout(line@) is None,
        },
{
    let chars = chars_of(line);
    let s = chars.as_slice();
    let n = s.len();
    if n < 10 {
        return None;
    }
    if !digits_between(s, 0, 8) || s[8] != '-' {
        return None;
    }
    let pos = s[9];
    if !(pos == 'a' || pos == 'n' || pos == 'r' || pos == 'v') {
        return None;
    }
    let language_at = skip_blanks(s, 10);
    if language_at == 10 || n - language_at < 4 {
        return None;
    }
    let language = line.substring_char(language_at, language_at + 3);
    if s[language_at + 3] != ':' {
        return None;
    }
    let keyword_from = language_at + 4;
    let kind = match keyword_at(s, keyword_from) {
        Some(kind) => kind,
        None => { return None; },
    };
    let keyword_end = match kind {
        Kind::Lemma => keyword_from + 5,
        Kind::Definition => keyword_from + 3,
        Kind::Example => keyword_from + 3,
    };
    let tail_at = skip_blanks(s, keyword_end);
    let end = trimmed_end(s);
    if tail_at == keyword_end || tail_at >= end || line_feed_between(s, tail_at, end) {
        return None;
    }
    let digit = s[tail_at];
    let with_sid = end - tail_at > 1 && '0' <= digit && digit <= '9' && (s[tail_at + 1] == ' '
        || s[tail_at + 1] == '\t');
    let content_at = if with_sid {
        skip_blanks(s, tail_at + 1)
    } else {
        tail_at
    };
    assert(content_at < end) by {
        assert(!is_line_end(s@[end - 1]));
        assert(!is_blank(s@[end - 1]));
    }
    Some(
        Fields {
            line,
            offset: line.substring_char(0, 8),
            pos,
            language,
            kind: line.substring_char(keyword_from, keyword_end),
            sid: if with_sid {
                Some(digit)
            } else {
                None
            },
            content: line.substring_char(content_at, end),
        },
    )
}

/// Parses one line of a multilingual wordnet tab file into its record.
///
/// The line parses where it is written as a record: an offset of 8 digits, a
/// hyphen, a part-of-speech code, blanks, a language code, a colon, the
/// keyword of the kind, blanks, for a definition its sense index and blanks,
/// and the text, with nothing but blanks, carriage returns and line feeds
/// after it. Any other line is malformed.
pub fn parse_multilingual_wordnet_line<'a>(line: &'a str) -> (r: Result<
    Entry<'a>,
    ParseError<'a>,
>)
    ensures
        outcome_view(r) == line_entry(line@),
        r matches Ok(entry) ==> entry@.wf() && line_holds(line@, entry@),
        r matches Err(error) ==> error@ == ParseErrorView::MalformedLine(line@) && forall|
            entry: EntryView,
        | !line_holds(line@, entry),
{
    proof {
        if line_entry(line@) is Ok {
            parsed_entry_is_well_formed(line@);
            line_parses_as_written(line@, line_entry(line@)->Ok_0);
        } else {
            line_fails_as_malformed(line@);
            assert forall|entry: EntryView| !line_holds(line@, entry) by {
                line_parses_as_written(line@, entry);
            }
        }
    }
    match split_line(line) {
        Some(fields) => fields.decode(),
        None => Err(ParseError::MalformedLine(line)),
    }
}

} // verus!
