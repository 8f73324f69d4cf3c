//! Filtering the catalog by a query, with scores from a fuzzy matcher.

use vstd::prelude::*;
use crate::types::Anime;

verus! {

/// The longest title, in characters, that is handed to the matcher.
pub const CHOICE_LIMIT: usize = 100_000_000;

/// The longest query, in characters, that is handed to the matcher.
pub const PATTERN_LIMIT: usize = 10_000;

/// A score has to be above this for a title to be listed.
pub const SCORE_THRESHOLD: i64 = 10;

/// The score that `SkimMatcherV2::simple_match` of the `fuzzy-matcher` crate
/// gives to a choice under a pattern, matching without regard to case, or
/// `None` where the pattern does not match.
pub uninterp spec fn skim_score(choice: Seq<char>, pattern: Seq<char>) -> Option<i64>;

/// Calls `SkimMatcherV2::default().simple_match(choice, pattern, false, true)`
/// and keeps the score.
///
/// Trusted: the score is a function of the two texts alone. The limits keep
/// the matcher's 32-bit score in range: a step adds at most 32 and four times
/// the number of characters matched so far, and takes away at most 4.
#[verifier::external_body]
fn simple_match(choice: &str, pattern: &str) -> (r: Option<i64>)
    requires
        choice@.len() <= CHOICE_LIMIT,
        pattern@.len() <= PATTERN_LIMIT,
    ensures
        r == skim_score(choice@, pattern@),
{
    fuzzy_matcher::skim::SkimMatcherV2::default().simple_match(choice, pattern, false, true).map(
        |found| found.0,
    )
}

/// Whether the two texts are short enough to be scored.
pub open spec fn scorable(choice: Seq<char>, pattern: Seq<char>) -> bool {
    choice.len() <= CHOICE_LIMIT && pattern.len() <= PATTERN_LIMIT
}

/// Whether a score lets a title be listed.
pub open spec fn is_hit(score: Option<i64>) -> bool {
    score matches Some(s) && s > SCORE_THRESHOLD
}

/// Whether a text is listed under a query. A text or a query beyond the
/// limits is never listed.
pub open spec fn hits(choice: Seq<char>, pattern: Seq<char>) -> bool {
    scorable(choice, pattern) && is_hit(skim_score(choice, pattern))
}

/// The alternate title of a collection, or the empty text where it has none.
pub open spec fn alt_title_of(anime: Anime) -> Seq<char> {
    match anime.alt_title {
        Some(title) => title@,
        None => Seq::empty(),
    }
}

/// Whether a collection is listed under a query: always under the empty
/// query, else when its title or its alternate title is.
pub open spec fn listed(anime: Anime, query: Seq<char>) -> bool {
    query.len() == 0 || hits(anime.title@, query) || hits(alt_title_of(anime), query)
}

/// The collections that are listed under a query, in their order.
pub open spec fn filtered(animes: Seq<Anime>, query: Seq<char>) -> Seq<Anime> {
    animes.filter(|anime: Anime| listed(anime, query))
}

/// Whether a score lets a title be listed.
pub fn accepts(score: Option<i64>) -> (b: bool)
    ensures
        b == is_hit(score),
{
    match score {
        Some(s) => s > SCORE_THRESHOLD,
        None => false,
    }
}

/// Scores a text under a query, where both are short enough.
pub fn score(choice: &str, pattern: &str) -> (r: Option<i64>)
    ensures
        r == if scorable(choice@, pattern@) {
            skim_score(choice@, pattern@)
        } else {
            None
        },
{
    if choice.unicode_len() <= CHOICE_LIMIT && pattern.unicode_len() <= PATTERN_LIMIT {
        simple_match(choice, pattern)
    } else {
        None
    }
}

/// Whether a collection is listed under a query.
pub fn is_listed(anime: &Anime, query: &str) -> (b: bool)
    ensures
        b == listed(*anime, query@),
{
    if query.is_empty() {
        return true;
    }
    if accepts(score(anime.title.as_str(), query)) {
        return true;
    }
    match &anime.alt_title {
        Some(title) => accepts(score(title.as_str(), query)),
        None => {
            proof {
                reveal_strlit("");
                assert(""@ =~= Seq::<char>::empty());
            }
            accepts(score("", query))
        },
    }
}

/// The collections that are listed under a query, in their order.
pub fn query(animes: &Vec<Anime>, pattern: &str) -> (found: Vec<Anime>)
    ensures
        found@ == filtered(animes@, pattern@),
{
    let ghost keep = |anime: Anime| listed(anime, pattern@);
    let mut found: Vec<Anime> = Vec::new();
    let mut i: usize = 0;
    proof {
        reveal(Seq::filter);
    }
    while i < animes.len()
        invariant
            i <= animes.len(),
            keep == (|anime: Anime| listed(anime, pattern@)),
            found@ == animes@.take(i as int).filter(keep),
        decreases animes.len() - i,
    {
        proof {
            reveal(Seq::filter);
            assert(animes@.take(i + 1).drop_last() == animes@.take(i as int));
        }
        if is_listed(&animes[i], pattern) {
            found.push(animes[i].clone());
        }
        i += 1;
    }
    assert(animes@.take(animes.len() as int) == animes@);
    found
}

} // verus!
