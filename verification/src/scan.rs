//! Walking over the characters of a line.

use vstd::prelude::*;
use crate::grammar::{
    all_digits, blanks_end, blanks_end_is, is_blank, is_digit, is_line_end, starts_at, trimmed_len,
    trimmed_len_is,
};

verus! {

/// The characters of `text`, in order.
pub(crate) fn chars_of(text: &str) -> (v: Vec<char>)
    ensures
        v@ == text@,
{
    let mut v: Vec<char> = Vec::new();
    for c in it: text.chars()
        invariant
            it.seq() == text@,
            v@ == it.seq().take(it.index() as int),
    {
        v.push(c);
    }
    v
}

/// Where the run of blanks that starts at `i` ends.
pub(crate) fn skip_blanks(chars: &[char], i: usize) -> (j: usize)
    ensures
        j == blanks_end(chars@, i as int),
        i <= j,
        i <= chars@.len() ==> j <= chars@.len(),
        forall|k: int| i <= k < j ==> is_blank(#[trigger] chars@[k]),
        j < chars@.len() ==> !is_blank(chars@[j as int]),
{
    let mut j: usize = i;
    while j < chars.len() && (chars[j] == ' ' || chars[j] == '\t')
        invariant
            i <= j,
            i <= chars@.len() ==> j <= chars@.len(),
            i > chars@.len() ==> j == i,
            forall|k: int| i <= k < j ==> is_blank(#[trigger] chars@[k]),
        decreases chars@.len() - j,
    {
        j += 1;
    }
    proof {
        if i <= chars@.len() {
            blanks_end_is(chars@, i as int, j as int);
        }
    }
    j
}

/// The length of the text once blanks, carriage returns and line feeds are
/// stripped from its end.
pub(crate) fn trimmed_end(chars: &[char]) -> (n: usize)
    ensures
        n == trimmed_len(chars@),
        n <= chars@.len(),
        forall|k: int| n <= k < chars@.len() ==> is_line_end(#[trigger] chars@[k]),
        n > 0 ==> !is_line_end(chars@[n - 1]),
{
    let mut n: usize = chars.len();
    while n > 0 && (chars[n - 1] == ' ' || chars[n - 1] == '\t' || chars[n - 1] == '\r' || chars[n
        - 1] == '\n')
        invariant
            n <= chars@.len(),
            forall|k: int| n <= k < chars@.len() ==> is_line_end(#[trigger] chars@[k]),
        decreases n,
    {
        n -= 1;
    }
    proof {
        trimmed_len_is(chars@, n as int);
    }
    n
}

/// Whether only digits stand from `from` up to `to`.
pub(crate) fn digits_between(chars: &[char], from: usize, to: usize) -> (r: bool)
    requires
        from <= to <= chars@.len(),
    ensures
        r == all_digits(chars@.subrange(from as int, to as int)),
{
    let mut i: usize = from;
    while i < to
        invariant
            from <= i <= to <= chars@.len(),
            forall|k: int| from <= k < i ==> is_digit(#[trigger] chars@[k]),
        decreases to - i,
    {
        if !('0' <= chars[i] && chars[i] <= '9') {
            assert(!is_digit(chars@.subrange(from as int, to as int)[i - from]));
            return false;
        }
        i += 1;
    }
    assert forall|k: int| 0 <= k < to - from implies is_digit(
        #[trigger] chars@.subrange(from as int, to as int)[k],
    ) by {
        assert(is_digit(chars@[from + k]));
    }
    true
}

/// Whether a line feed stands somewhere from `from` up to `to`.
pub(crate) fn line_feed_between(chars: &[char], from: usize, to: usize) -> (r: bool)
    requires
        from <= to <= chars@.len(),
    ensures
        r == chars@.subrange(from as int, to as int).contains('\n'),
{
    let mut i: usize = from;
    while i < to
        invariant
            from <= i <= to <= chars@.len(),
            forall|k: int| from <= k < i ==> chars@[k] != '\n',
        decreases to - i,
    {
        if chars[i] == '\n' {
            assert(chars@.subrange(from as int, to as int)[i - from] == '\n');
            return true;
        }
        i += 1;
    }
    assert forall|k: int| 0 <= k < to - from implies chars@.subrange(from as int, to as int)[k]
        != '\n' by {
        assert(chars@[from + k] != '\n');
    }
    false
}

/// Whether `word` stands in the text at place `i`.
pub(crate) fn stands_at(chars: &[char], i: usize, word: &[char]) -> (r: bool)
    ensures
        r == starts_at(chars@, i as int, word@),
{
    if i > chars.len() || chars.len() - i < word.len() {
        return false;
    }
    let mut k: usize = 0;
    while k < word.len()
        invariant
            i + word@.len() <= chars@.len() <= usize::MAX,
            k <= word@.len(),
            forall|m: int| 0 <= m < k ==> chars@[i + m] == word@[m],
        decreases word@.len() - k,
    {
        if chars[i + k] != word[k] {
            assert(chars@.subrange(i as int, i + word@.len())[k as int] != word@[k as int]);
            return false;
        }
        k += 1;
    }
    assert(chars@.subrange(i as int, i + word@.len()) =~= word@);
    true
}

} // verus!
