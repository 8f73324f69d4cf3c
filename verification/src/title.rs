//! The slug of a collection title, as the catalog's addresses and the local
//! directories use it.

use vstd::prelude::*;
use crate::text::{from_chars, is_whitespace, to_chars, to_lowercase, unicode_lowercase, unicode_whitespace};

verus! {

/// A text without its leading whitespace.
pub open spec fn trim_start(text: Seq<char>) -> Seq<char>
    decreases text.len(),
{
    if text.len() > 0 && unicode_whitespace(text[0]) {
        trim_start(text.drop_first())
    } else {
        text
    }
}

/// A text without its trailing whitespace.
pub open spec fn trim_end(text: Seq<char>) -> Seq<char>
    decreases text.len(),
{
    if text.len() > 0 && unicode_whitespace(text.last()) {
        trim_end(text.drop_last())
    } else {
        text
    }
}

/// A text without its leading and trailing whitespace.
pub open spec fn trimmed(text: Seq<char>) -> Seq<char> {
    trim_end(trim_start(text))
}

/// The characters that become a dash: the space and the apostrophe.
pub open spec fn is_separator(c: char) -> bool {
    c == ' ' || c == '\''
}

/// The characters that are dropped from a title.
pub open spec fn is_dropped(c: char) -> bool {
    c == ' ' || c == '~' || c == '@' || c == '#' || c == '$' || c == '&' || c == '(' || c == ')'
        || c == '*' || c == '!' || c == '+' || c == '=' || c == ':' || c == ';' || c == ','
        || c == '.' || c == '?' || c == '/' || c == '\''
}

/// A text with each separator replaced by a dash.
pub open spec fn dashed(text: Seq<char>) -> Seq<char> {
    text.map_values(|c: char| if is_separator(c) { '-' } else { c })
}

/// A text without the characters that are dropped.
pub open spec fn stripped(text: Seq<char>) -> Seq<char> {
    text.filter(|c: char| !is_dropped(c))
}

/// The slug of a title: trimmed, separators turned into dashes, punctuation
/// dropped, and the whole in lowercase.
pub open spec fn cleared(title: Seq<char>) -> Seq<char> {
    unicode_lowercase(stripped(dashed(trimmed(title))))
}

/// Dropping `n` leading whitespace characters leaves the trimmed text unchanged.
proof fn lemma_trim_start_skip(text: Seq<char>, n: int)
    requires
        0 <= n <= text.len(),
        forall|j: int| 0 <= j < n ==> unicode_whitespace(text[j]),
    ensures
        trim_start(text) == trim_start(text.skip(n)),
    decreases n,
{
    if n > 0 {
        assert(text.drop_first().skip(n - 1) == text.skip(n));
        lemma_trim_start_skip(text.drop_first(), n - 1);
    } else {
        assert(text.skip(0) == text);
    }
}

/// Dropping trailing whitespace characters leaves the trimmed text unchanged.
proof fn lemma_trim_end_take(text: Seq<char>, n: int)
    requires
        0 <= n <= text.len(),
        forall|j: int| n <= j < text.len() ==> unicode_whitespace(text[j]),
    ensures
        trim_end(text) == trim_end(text.take(n)),
    decreases text.len() - n,
{
    if n < text.len() {
        assert(text.drop_last().take(n) == text.take(n));
        lemma_trim_end_take(text.drop_last(), n);
    } else {
        assert(text.take(n) == text);
    }
}

/// Removes leading and trailing whitespace.
pub fn trim(text: &Vec<char>) -> (out: Vec<char>)
    ensures
        out@ == trimmed(text@),
{
    let n = text.len();
    let mut start: usize = 0;
    while start < n && is_whitespace(text[start])
        invariant
            start <= n == text.len(),
            forall|j: int| 0 <= j < start ==> unicode_whitespace(text@[j]),
        decreases n - start,
    {
        start += 1;
    }
    let mut end: usize = n;
    while end > start && is_whitespace(text[end - 1])
        invariant
            start <= end <= n == text.len(),
            forall|j: int| end <= j < n ==> unicode_whitespace(text@[j]),
        decreases end,
    {
        end -= 1;
    }
    let mut out: Vec<char> = Vec::new();
    let mut i: usize = start;
    while i < end
        invariant
            start <= i <= end <= text.len(),
            out@ == text@.subrange(start as int, i as int),
        decreases end - i,
    {
        out.push(text[i]);
        i += 1;
    }
    proof {
        let tail = text@.skip(start as int);
        lemma_trim_start_skip(text@, start as int);
        assert(trim_start(text@) == tail) by {
            if tail.len() > 0 {
                assert(tail[0] == text@[start as int]);
            }
        }
        assert forall|j: int| end - start <= j < tail.len() implies unicode_whitespace(
            tail[j],
        ) by {
            assert(tail[j] == text@[j + start]);
        }
        lemma_trim_end_take(tail, end - start);
        assert(tail.take(end - start) == out@);
        assert(trim_end(out@) == out@) by {
            if out@.len() > 0 {
                assert(out@.last() == text@[end - 1]);
            }
        }
    }
    out
}

/// Replaces each separator by a dash.
pub fn dash_separators(text: &Vec<char>) -> (out: Vec<char>)
    ensures
        out@ == dashed(text@),
{
    let mut out: Vec<char> = Vec::new();
    let mut i: usize = 0;
    while i < text.len()
        invariant
            i <= text.len(),
            out@ == dashed(text@.take(i as int)),
        decreases text.len() - i,
    {
        let c = text[i];
        out.push(if c == ' ' || c == '\'' { '-' } else { c });
        i += 1;
        assert(out@ == dashed(text@.take(i as int)));
    }
    assert(text@.take(text.len() as int) == text@);
    out
}

/// Whether a character is dropped from a title.
pub fn dropped(c: char) -> (b: bool)
    ensures
        b == is_dropped(c),
{
    c == ' ' || c == '~' || c == '@' || c == '#' || c == '$' || c == '&' || c == '(' || c == ')'
        || c == '*' || c == '!' || c == '+' || c == '=' || c == ':' || c == ';' || c == ','
        || c == '.' || c == '?' || c == '/' || c == '\''
}

/// Drops the punctuation of a title.
pub fn strip_punctuation(text: &Vec<char>) -> (out: Vec<char>)
    ensures
        out@ == stripped(text@),
{
    let ghost keep = |c: char| !is_dropped(c);
    let mut out: Vec<char> = Vec::new();
    let mut i: usize = 0;
    proof {
        reveal(Seq::filter);
    }
    while i < text.len()
        invariant
            i <= text.len(),
            keep == (|c: char| !is_dropped(c)),
            out@ == text@.take(i as int).filter(keep),
        decreases text.len() - i,
    {
        let c = text[i];
        proof {
            reveal(Seq::filter);
            assert(text@.take(i + 1).drop_last() == text@.take(i as int));
        }
        if !dropped(c) {
            out.push(c);
        }
        i += 1;
    }
    assert(text@.take(text.len() as int) == text@);
    out
}

/// The slug of a title.
pub fn clear_title(s: &str) -> (slug: String)
    ensures
        slug@ == cleared(s@),
{
    let chars = to_chars(s);
    let kept = strip_punctuation(&dash_separators(&trim(&chars)));
    let plain = from_chars(&kept);
    to_lowercase(plain.as_str())
}

} // verus!
