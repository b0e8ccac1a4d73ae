//! The shape of a line, over character sequences.
//!
//! ```text
//! LINE    := OFFSET "-" POS WS LANG ":" KIND WS [ SID WS ] CONTENT END*
//! OFFSET  := 8 digits, 0 to 9
//! POS     := "a" | "n" | "r" | "v"
//! WS      := one or more blanks: space or tab
//! LANG    := 3 word characters
//! KIND    := "lemma" | "def" | "exe"
//! SID     := 1 digit
//! CONTENT := one or more characters other than line feed, the first no blank,
//!            the last no blank, carriage return or line feed
//! END     := blank, carriage return or line feed
//! ```
//!
//! Every run of blanks is taken whole, and a digit followed by a blank at the
//! head of the content is always read as the sense index. The functions below
//! give the place of each field in a line and, where the line has this shape,
//! the fields themselves.

use vstd::prelude::*;
use crate::entry::{EntryView, Kind};
use crate::error::ParseErrorView;
use crate::fields::fields_entry;
use crate::pattern::regex_is_match;

verus! {

/// The regular expression that a language code matches.
pub const LANGUAGE_PATTERN: &'static str = "^\\w{3}$";

/// A decimal digit, `0` to `9`.
pub open spec fn is_digit(c: char) -> bool {
    '0' <= c && c <= '9'
}

/// A space or a tab: what separates the fields of a line.
pub open spec fn is_blank(c: char) -> bool {
    c == ' ' || c == '\t'
}

/// What is stripped from the end of a line: blanks, carriage returns and line feeds.
pub open spec fn is_line_end(c: char) -> bool {
    is_blank(c) || c == '\r' || c == '\n'
}

/// One of the four part-of-speech codes.
pub open spec fn is_part_code(c: char) -> bool {
    c == 'a' || c == 'n' || c == 'r' || c == 'v'
}

/// Every character of `s` is a digit.
pub open spec fn all_digits(s: Seq<char>) -> bool {
    forall|i: int| 0 <= i < s.len() ==> is_digit(#[trigger] s[i])
}

/// Every character of `s` is a blank.
pub open spec fn all_blank(s: Seq<char>) -> bool {
    forall|i: int| 0 <= i < s.len() ==> is_blank(#[trigger] s[i])
}

/// Every character of `s` is stripped from the end of a line.
pub open spec fn all_line_end(s: Seq<char>) -> bool {
    forall|i: int| 0 <= i < s.len() ==> is_line_end(#[trigger] s[i])
}

/// A synset offset: exactly 8 digits.
pub open spec fn is_offset(s: Seq<char>) -> bool {
    s.len() == 8 && all_digits(s)
}

/// A language code: exactly 3 characters that the regular expression engine
/// takes for word characters.
pub open spec fn is_language_code(s: Seq<char>) -> bool {
    s.len() == 3 && regex_is_match(LANGUAGE_PATTERN@, s)
}

/// The text of a record: not empty, without a line feed, and with nothing
/// left to strip at its end.
pub open spec fn is_content(s: Seq<char>) -> bool {
    s.len() > 0 && !s.contains('\n') && !is_line_end(s.last())
}

/// The place where the run of blanks that starts at `i` ends: `i` itself
/// where `s[i]` is no blank.
pub open spec fn blanks_end(s: Seq<char>, i: int) -> int
    decreases s.len() - i,
{
    if 0 <= i < s.len() && is_blank(s[i]) {
        blanks_end(s, i + 1)
    } else {
        i
    }
}

/// The length of `s` once blanks, carriage returns and line feeds are stripped
/// from its end.
pub open spec fn trimmed_len(s: Seq<char>) -> int
    decreases s.len(),
{
    if s.len() > 0 && is_line_end(s.last()) {
        trimmed_len(s.drop_last())
    } else {
        s.len() as int
    }
}

/// A run of blanks ends where the first character that is no blank stands, or
/// where the text ends.
pub proof fn blanks_end_is(s: Seq<char>, i: int, j: int)
    requires
        0 <= i <= j <= s.len(),
        forall|k: int| i <= k < j ==> is_blank(#[trigger] s[k]),
        j == s.len() || !is_blank(s[j]),
    ensures
        blanks_end(s, i) == j,
    decreases j - i,
{
    if i < j {
        blanks_end_is(s, i + 1, j);
    }
}

/// What is left of a text once its end is stripped: `n` characters, where the
/// last of them is not stripped and all that follow are.
pub proof fn trimmed_len_is(s: Seq<char>, n: int)
    requires
        0 <= n <= s.len(),
        forall|k: int| n <= k < s.len() ==> is_line_end(#[trigger] s[k]),
        n == 0 || !is_line_end(s[n - 1]),
    ensures
        trimmed_len(s) == n,
    decreases s.len(),
{
    if n < s.len() {
        trimmed_len_is(s.drop_last(), n);
    }
}

/// Only blanks stand in a run of blanks, and no blank stands where it ends.
pub proof fn blanks_end_bounds(s: Seq<char>, i: int)
    requires
        0 <= i <= s.len(),
    ensures
        i <= blanks_end(s, i) <= s.len(),
        forall|k: int| i <= k < blanks_end(s, i) ==> is_blank(#[trigger] s[k]),
        blanks_end(s, i) < s.len() ==> !is_blank(s[blanks_end(s, i)]),
    decreases s.len() - i,
{
    if i < s.len() && is_blank(s[i]) {
        blanks_end_bounds(s, i + 1);
    }
}

/// All that is stripped from the end of a text is a blank, a carriage return
/// or a line feed, and the last character that is kept is none of them.
pub proof fn trimmed_len_bounds(s: Seq<char>)
    ensures
        0 <= trimmed_len(s) <= s.len(),
        forall|k: int| trimmed_len(s) <= k < s.len() ==> is_line_end(#[trigger] s[k]),
        trimmed_len(s) > 0 ==> !is_line_end(s[trimmed_len(s) - 1]),
    decreases s.len(),
{
    if s.len() > 0 && is_line_end(s.last()) {
        trimmed_len_bounds(s.drop_last());
        assert forall|k: int| trimmed_len(s) <= k < s.len() implies is_line_end(
            #[trigger] s[k],
        ) by {
            if k < s.len() - 1 {
                assert(s[k] == s.drop_last()[k]);
            }
        }
    }
}

/// The word that stands for a kind in a line.
pub open spec fn keyword(kind: Kind) -> Seq<char> {
    match kind {
        Kind::Lemma => seq!['l', 'e', 'm', 'm', 'a'],
        Kind::Definition => seq!['d', 'e', 'f'],
        Kind::Example => seq!['e', 'x', 'e'],
    }
}

/// The kind that `word` stands for, if any.
pub open spec fn keyword_kind(word: Seq<char>) -> Option<Kind> {
    if word == keyword(Kind::Lemma) {
        Some(Kind::Lemma)
    } else if word == keyword(Kind::Definition) {
        Some(Kind::Definition)
    } else if word == keyword(Kind::Example) {
        Some(Kind::Example)
    } else {
        None
    }
}

/// `word` stands in `s` at place `i`.
pub open spec fn starts_at(s: Seq<char>, i: int, word: Seq<char>) -> bool {
    0 <= i && i + word.len() <= s.len() && s.subrange(i, i + word.len()) == word
}

/// The kind whose keyword stands in `s` at place `i`, if any.
pub open spec fn kind_at(s: Seq<char>, i: int) -> Option<Kind> {
    if starts_at(s, i, keyword(Kind::Lemma)) {
        Some(Kind::Lemma)
    } else if starts_at(s, i, keyword(Kind::Definition)) {
        Some(Kind::Definition)
    } else if starts_at(s, i, keyword(Kind::Example)) {
        Some(Kind::Example)
    } else {
        None
    }
}

/// The fields of a line, as written.
pub struct FieldsView {
    pub line: Seq<char>,
    pub offset: Seq<char>,
    pub pos: char,
    pub language: Seq<char>,
    pub kind: Seq<char>,
    pub sid: Option<char>,
    pub content: Seq<char>,
}

/// Where the language code starts: after the blanks that follow the part of speech.
pub open spec fn language_start(s: Seq<char>) -> int {
    blanks_end(s, 10)
}

/// Where the kind starts: after the language code and its colon.
pub open spec fn kind_start(s: Seq<char>) -> int {
    language_start(s) + 4
}

/// Where the blanks after the keyword of `kind` end.
pub open spec fn tail_start(s: Seq<char>, kind: Kind) -> int {
    blanks_end(s, kind_start(s) + keyword(kind).len())
}

/// A sense index stands before the content: a digit followed by a blank, with
/// text left after it.
pub open spec fn has_sid(s: Seq<char>, kind: Kind) -> bool {
    let t = tail_start(s, kind);
    0 <= t && t + 1 < trimmed_len(s) && is_digit(s[t]) && is_blank(s[t + 1])
}

/// Where the content starts: after the sense index and its blanks, where there
/// is one.
pub open spec fn content_start(s: Seq<char>, kind: Kind) -> int {
    if has_sid(s, kind) {
        blanks_end(s, tail_start(s, kind) + 1)
    } else {
        tail_start(s, kind)
    }
}

/// The line starts with an offset, a hyphen, a part-of-speech code, blanks,
/// 3 characters and a colon.
pub open spec fn head_matches(s: Seq<char>) -> bool {
    &&& s.len() >= 10
    &&& is_offset(s.subrange(0, 8))
    &&& s[8] == '-'
    &&& is_part_code(s[9])
    &&& 10 < language_start(s)
    &&& language_start(s) + 4 <= s.len()
    &&& s[language_start(s) + 3] == ':'
}

/// After the colon come the keyword of `kind`, blanks, and text that holds no
/// line feed once the end of the line is stripped.
pub open spec fn tail_matches(s: Seq<char>, kind: Kind) -> bool {
    &&& starts_at(s, kind_start(s), keyword(kind))
    &&& kind_start(s) + keyword(kind).len() < tail_start(s, kind)
    &&& tail_start(s, kind) < trimmed_len(s)
    &&& !s.subrange(tail_start(s, kind), trimmed_len(s)).contains('\n')
}

/// The fields of `s` where it holds a record of `kind`.
pub open spec fn fields_of(s: Seq<char>, kind: Kind) -> FieldsView {
    FieldsView {
        line: s,
        offset: s.subrange(0, 8),
        pos: s[9],
        language: s.subrange(language_start(s), language_start(s) + 3),
        kind: keyword(kind),
        sid: if has_sid(s, kind) {
            Some(s[tail_start(s, kind)])
        } else {
            None
        },
        content: s.subrange(content_start(s, kind), trimmed_len(s)),
    }
}

/// The fields of a line that is laid out as a record, whatever the 3
/// characters at the place of the language code are, and `None` for any other
/// line.
pub open spec fn line_layout(s: Seq<char>) -> Option<FieldsView> {
    if head_matches(s) {
        match kind_at(s, kind_start(s)) {
            Some(kind) => if tail_matches(s, kind) {
                Some(fields_of(s, kind))
            } else {
                None
            },
            None => None,
        }
    } else {
        None
    }
}

/// The fields of a line that has the shape of a record: it is laid out as
/// one, and its language code is made of word characters. `None` for any
/// other line.
pub open spec fn line_fields(s: Seq<char>) -> Option<FieldsView> {
    match line_layout(s) {
        Some(fields) => if is_language_code(fields.language) {
            Some(fields)
        } else {
            None
        },
        None => None,
    }
}

/// What parsing a line gives: the record that its fields decode to, and
/// `MalformedLine` where the line has not the shape of a record.
pub open spec fn line_entry(s: Seq<char>) -> Result<EntryView, ParseErrorView> {
    match line_fields(s) {
        Some(fields) => fields_entry(fields),
        None => Err(ParseErrorView::MalformedLine(s)),
    }
}

} // verus!
