//! Fuzzy filtering: which items match a query, and in which order they are
//! shown. The score of one text against one pattern is the work of
//! fuzzy-matcher; what is done with the scores is decided here.

use crate::components::key_hints::{skip_spaces, skip_white, trim_back, trim_end};
use crate::primitives::chars::{chars_of, is_space};
use crate::primitives::strings::{string_of, views_of};
use fuzzy_matcher::skim::SkimMatcherV2;
use fuzzy_matcher::FuzzyMatcher;
use vstd::prelude::*;
use vstd::string::*;

verus! {

/// The score that the skim matcher, as it comes, gives `choice` for
/// `pattern`; none where the pattern does not match.
pub uninterp spec fn skim_score(choice: Seq<char>, pattern: Seq<char>) -> Option<i64>;

/// `text` in lower case, as Unicode has it.
pub uninterp spec fn lowercase_of(text: Seq<char>) -> Seq<char>;

/// `FuzzyMatcher::fuzzy_match` of fuzzy-matcher on a `SkimMatcherV2` as it
/// comes: the score that `skim_score` names.
#[verifier::external_body]
pub(crate) fn fuzzy_score(choice: &str, pattern: &str) -> (score: Option<i64>)
    ensures
        score == skim_score(choice@, pattern@),
{
    SkimMatcherV2::default().fuzzy_match(choice, pattern)
}

/// `str::to_lowercase` of std: the text in lower case, which
/// `lowercase_of` names.
#[verifier::external_body]
pub(crate) fn lowercase(text: &str) -> (lower: String)
    ensures
        lower@ == lowercase_of(text@),
{
    text.to_lowercase()
}

/// Index of the first white space of `s` at or after `k`; the length of
/// `s` where there is none.
pub open spec fn word_end(s: Seq<char>, k: int) -> int
    decreases s.len() - k,
{
    if k >= s.len() {
        s.len() as int
    } else if is_space(s[k]) {
        k
    } else {
        word_end(s, k + 1)
    }
}

/// The words of `s` from `k` on: the runs of characters between white
/// space.
pub open spec fn words_from(s: Seq<char>, k: int) -> Seq<Seq<char>>
    decreases s.len() - k,
    when 0 <= k <= s.len()
{
    let start = skip_spaces(s, k);
    if start >= s.len() {
        Seq::empty()
    } else {
        proof {
            lemma_word(s, k);
        }
        seq![s.subrange(start, word_end(s, start))] + words_from(s, word_end(s, start))
    }
}

/// A word starts at or after `k`, is not empty, and ends within the text.
pub proof fn lemma_word(s: Seq<char>, k: int)
    requires
        0 <= k <= s.len(),
    ensures
        k <= skip_spaces(s, k) <= s.len(),
        skip_spaces(s, k) < s.len() ==> skip_spaces(s, k) < word_end(s, skip_spaces(s, k))
            <= s.len(),
{
    lemma_skip(s, k);
    let start = skip_spaces(s, k);
    if start < s.len() {
        lemma_end(s, start + 1);
    }
}

proof fn lemma_skip(s: Seq<char>, k: int)
    requires
        0 <= k <= s.len(),
    ensures
        k <= skip_spaces(s, k) <= s.len(),
        skip_spaces(s, k) < s.len() ==> !is_space(s[skip_spaces(s, k)]),
    decreases s.len() - k,
{
    if k < s.len() && is_space(s[k]) {
        lemma_skip(s, k + 1);
    }
}

proof fn lemma_end(s: Seq<char>, k: int)
    requires
        0 <= k <= s.len(),
    ensures
        k <= word_end(s, k) <= s.len(),
    decreases s.len() - k,
{
    if k < s.len() && !is_space(s[k]) {
        lemma_end(s, k + 1);
    }
}

fn find_word_end(chars: &Vec<char>, from: usize) -> (at: usize)
    requires
        from <= chars.len(),
    ensures
        at == word_end(chars@, from as int),
        from <= at <= chars.len(),
{
    let mut k: usize = from;
    while k < chars.len() && !chars[k].is_whitespace()
        invariant
            from <= k <= chars.len(),
            word_end(chars@, from as int) == word_end(chars@, k as int),
        decreases chars.len() - k,
    {
        k = k + 1;
    }
    k
}

/// Splits a text into its words at white space.
pub fn split_words(text: &str) -> (words: Vec<String>)
    ensures
        views_of(words@) == words_from(text@, 0),
{
    let chars = chars_of(text);
    let mut words: Vec<String> = Vec::new();
    let mut k: usize = 0;
    proof {
        assert(views_of(words@) + words_from(chars@, 0) =~= words_from(chars@, 0));
    }
    loop
        invariant
            k <= chars.len(),
            chars@ == text@,
            views_of(words@) + words_from(chars@, k as int) == words_from(chars@, 0),
        decreases chars.len() - k,
    {
        let start = skip_white(&chars, k);
        if start >= chars.len() {
            proof {
                assert(words_from(chars@, k as int) =~= Seq::<Seq<char>>::empty());
                assert(views_of(words@) =~= words_from(chars@, 0));
            }
            return words;
        }
        proof {
            lemma_word(chars@, k as int);
        }
        let end = find_word_end(&chars, start);
        let ghost before = words@;
        words.push(string_of(&chars, start, end));
        proof {
            assert(views_of(words@) =~= views_of(before).push(
                chars@.subrange(start as int, end as int),
            ));
            assert(views_of(words@) + words_from(chars@, end as int) =~= views_of(before)
                + words_from(chars@, k as int));
        }
        k = end;
    }
}

/// A sum of scores that stops at the ends of the range of scores.
pub open spec fn score_sum(a: int, b: int) -> int {
    if a + b > i64::MAX {
        i64::MAX as int
    } else if a + b < i64::MIN {
        i64::MIN as int
    } else {
        a + b
    }
}

fn add_scores(a: i64, b: i64) -> (sum: i64)
    ensures
        sum == score_sum(a as int, b as int),
{
    if b > 0 && a > i64::MAX - b {
        i64::MAX
    } else if b < 0 && a < i64::MIN - b {
        i64::MIN
    } else {
        a + b
    }
}

/// The scores of the first `k` tokens added up; none where one of them
/// did not match.
pub open spec fn tokens_total(scores: Seq<Option<i64>>, k: int) -> Option<int>
    decreases k,
{
    if k <= 0 {
        Some(0)
    } else {
        match (tokens_total(scores, k - 1), scores[k - 1]) {
            (Some(total), Some(score)) => Some(score_sum(total, score as int)),
            _ => None,
        }
    }
}

/// The score of a surface for a query of several tokens: none unless every
/// token matches; else the sum of the tokens' scores, or, where the whole
/// query matches too and that is more, the score of the whole query with
/// five points for each token.
pub open spec fn tokenized_total(scores: Seq<Option<i64>>, full: Option<i64>) -> Option<int> {
    match tokens_total(scores, scores.len() as int) {
        None => None,
        Some(total) => match full {
            None => Some(total),
            Some(whole) => {
                let boosted = score_sum(whole as int, least_boost(scores.len() as int));
                if boosted > total {
                    Some(boosted)
                } else {
                    Some(total)
                }
            },
        },
    }
}

/// Five points for each token, as far as a score goes.
pub open spec fn least_boost(tokens: int) -> int {
    if tokens * 5 > i64::MAX {
        i64::MAX as int
    } else {
        tokens * 5
    }
}

/// The score as an integer, where there is one.
pub open spec fn score_view(score: Option<i64>) -> Option<int> {
    match score {
        Some(s) => Some(s as int),
        None => None,
    }
}

/// Puts the scores of a query's tokens, and of the query as a whole,
/// together into the score of the surface.
pub fn tokenized_score(scores: &Vec<Option<i64>>, full: Option<i64>) -> (total: Option<i64>)
    ensures
        score_view(total) == tokenized_total(scores@, full),
{
    let mut total: i64 = 0;
    let mut k: usize = 0;
    while k < scores.len()
        invariant
            k <= scores.len(),
            tokens_total(scores@, k as int) == Some(total as int),
        decreases scores.len() - k,
    {
        match scores[k] {
            Some(score) => {
                total = add_scores(total, score);
            },
            None => {
                proof {
                    lemma_total_none(scores@, k + 1, scores@.len() as int);
                }
                return None;
            },
        }
        k = k + 1;
    }
    match full {
        None => Some(total),
        Some(whole) => {
            let count: u64 = scores.len() as u64;
            let boost: i64 = if count > 1844674407370955161 {
                i64::MAX
            } else {
                (count * 5) as i64
            };
            let boosted = add_scores(whole, boost);
            if boosted > total {
                Some(boosted)
            } else {
                Some(total)
            }
        },
    }
}

proof fn lemma_total_none(scores: Seq<Option<i64>>, k: int, n: int)
    requires
        0 < k <= n,
        tokens_total(scores, k) is None,
    ensures
        tokens_total(scores, n) is None,
    decreases n - k,
{
    if k < n {
        lemma_total_none(scores, k, n - 1);
    }
}

/// The scores of `surface` for each of the tokens.
pub open spec fn token_scores(surface: Seq<char>, tokens: Seq<Seq<char>>) -> Seq<Option<i64>> {
    Seq::new(tokens.len(), |i: int| skim_score(surface, tokens[i]))
}

/// The text without the white space at its two ends.
pub open spec fn trimmed(s: Seq<char>) -> Seq<char> {
    s.subrange(skip_spaces(s, 0), trim_end(s, skip_spaces(s, 0), s.len() as int))
}

/// The score of a surface for a query, both in lower case already: zero
/// for a query of white space alone, else the score of the surface for the
/// query's words as tokens and for the trimmed query as a whole.
pub open spec fn surface_score(query_lc: Seq<char>, surface_lc: Seq<char>) -> Option<int> {
    if trimmed(query_lc).len() == 0 {
        Some(0)
    } else {
        tokenized_total(
            token_scores(surface_lc, words_from(trimmed(query_lc), 0)),
            skim_score(surface_lc, trimmed(query_lc)),
        )
    }
}

/// The text without the white space at its two ends.
pub fn trim(text: &str) -> (out: String)
    ensures
        out@ == trimmed(text@),
{
    let chars = chars_of(text);
    let from = skip_white(&chars, 0);
    let to = trim_back(&chars, from);
    string_of(&chars, from, to)
}

fn scores_for(surface: &str, tokens: &Vec<String>) -> (scores: Vec<Option<i64>>)
    ensures
        scores@ == token_scores(surface@, views_of(tokens@)),
{
    let mut scores: Vec<Option<i64>> = Vec::new();
    let mut k: usize = 0;
    while k < tokens.len()
        invariant
            k <= tokens.len(),
            scores@.len() == k,
            forall|i: int|
                0 <= i < k ==> #[trigger] scores@[i] == skim_score(surface@, tokens@[i]@),
        decreases tokens.len() - k,
    {
        scores.push(fuzzy_score(surface, tokens[k].as_str()));
        k = k + 1;
    }
    proof {
        assert(scores@ =~= token_scores(surface@, views_of(tokens@)));
    }
    scores
}

/// Matches a tokenized query against a surface, both in lower case
/// already. Returns the aggregate score when all tokens match.
pub fn fuzzy_match_tokenized_surface_with(query_lc: &str, surface_lc: &str) -> (score: Option<i64>)
    ensures
        score_view(score) == surface_score(query_lc@, surface_lc@),
{
    let query = trim(query_lc);
    if chars_of(query.as_str()).len() == 0 {
        return Some(0);
    }
    let tokens = split_words(query.as_str());
    let scores = scores_for(surface_lc, &tokens);
    tokenized_score(&scores, fuzzy_score(surface_lc, query.as_str()))
}

/// Matches a tokenized query against a surface, in lower case.
pub fn fuzzy_match_tokenized_surface(query: &str, surface: &str) -> (score: Option<i64>)
    ensures
        score_view(score) == surface_score(lowercase_of(query@), lowercase_of(surface@)),
{
    let query_lc = lowercase(query);
    let surface_lc = lowercase(surface);
    fuzzy_match_tokenized_surface_with(query_lc.as_str(), surface_lc.as_str())
}

/// `entry` put into a ranking: behind every entry that scores as much or
/// more, before the first that scores less.
pub open spec fn ranked_insert(ranking: Seq<(usize, i64)>, entry: (usize, i64)) -> Seq<
    (usize, i64),
>
    decreases ranking.len(),
{
    if ranking.len() == 0 {
        seq![entry]
    } else if ranking.last().1 >= entry.1 {
        ranking.push(entry)
    } else {
        ranked_insert(ranking.drop_last(), entry).push(ranking.last())
    }
}

/// The first `k` entries ranked: by score, the highest first; entries of
/// equal score in the order in which they came.
pub open spec fn ranked(entries: Seq<(usize, i64)>, k: int) -> Seq<(usize, i64)>
    decreases k,
{
    if k <= 0 {
        Seq::empty()
    } else {
        ranked_insert(ranked(entries, k - 1), entries[k - 1])
    }
}

/// A ranking goes from the highest score down.
pub open spec fn descending(ranking: Seq<(usize, i64)>) -> bool {
    forall|i: int, j: int| 0 <= i < j < ranking.len() ==> ranking[i].1 >= ranking[j].1
}

/// Putting an entry into a ranking keeps it a ranking, one entry longer.
pub proof fn lemma_ranked_insert(ranking: Seq<(usize, i64)>, entry: (usize, i64))
    requires
        descending(ranking),
    ensures
        descending(ranked_insert(ranking, entry)),
        ranked_insert(ranking, entry).len() == ranking.len() + 1,
        forall|i: int|
            0 <= i < ranked_insert(ranking, entry).len() ==> #[trigger] ranked_insert(
                ranking,
                entry,
            )[i] == entry || ranking.contains(ranked_insert(ranking, entry)[i]),
    decreases ranking.len(),
{
    let out = ranked_insert(ranking, entry);
    if ranking.len() == 0 {
    } else if ranking.last().1 >= entry.1 {
        assert forall|i: int| 0 <= i < out.len() implies #[trigger] out[i] == entry
            || ranking.contains(out[i]) by {
            if i < ranking.len() {
                assert(ranking[i] == out[i]);
            }
        }
    } else {
        let head = ranking.drop_last();
        lemma_ranked_insert(head, entry);
        let inner = ranked_insert(head, entry);
        assert forall|i: int| 0 <= i < out.len() implies #[trigger] out[i] == entry
            || ranking.contains(out[i]) by {
            if i < inner.len() {
                if inner[i] != entry {
                    assert(head.contains(inner[i]));
                    let w = choose|w: int| 0 <= w < head.len() && head[w] == inner[i];
                    assert(ranking[w] == inner[i]);
                }
            } else {
                assert(ranking[ranking.len() - 1] == out[i]);
            }
        }
        assert forall|i: int, j: int| 0 <= i < j < out.len() implies out[i].1 >= out[j].1 by {
            if j == out.len() - 1 {
                if inner[i] == entry {
                } else {
                    assert(head.contains(inner[i]));
                    let w = choose|w: int| 0 <= w < head.len() && head[w] == inner[i];
                    assert(ranking[w].1 >= ranking[ranking.len() - 1].1);
                }
            }
        }
    }
}

/// A ranking is in descending order and holds every entry once.
pub proof fn lemma_ranked(entries: Seq<(usize, i64)>, k: int)
    requires
        0 <= k <= entries.len(),
    ensures
        descending(ranked(entries, k)),
        ranked(entries, k).len() == k,
    decreases k,
{
    if k > 0 {
        lemma_ranked(entries, k - 1);
        lemma_ranked_insert(ranked(entries, k - 1), entries[k - 1]);
    }
}

/// The indices of a ranking, in its order.
pub open spec fn indices_of(ranking: Seq<(usize, i64)>) -> Seq<usize> {
    Seq::new(ranking.len(), |i: int| ranking[i].0)
}

fn insert_ranked(ranking: &mut Vec<(usize, i64)>, entry: (usize, i64))
    ensures
        final(ranking)@ == ranked_insert(old(ranking)@, entry),
{
    let mut at: usize = ranking.len();
    proof {
        assert(ranking@.take(at as int) =~= ranking@);
        assert(ranked_insert(ranking@, entry) + ranking@.skip(at as int) =~= ranked_insert(
            ranking@,
            entry,
        ));
    }
    while at > 0 && ranking[at - 1].1 < entry.1
        invariant
            at <= ranking.len(),
            ranking@ == old(ranking)@,
            ranked_insert(old(ranking)@, entry) == ranked_insert(
                old(ranking)@.take(at as int),
                entry,
            ) + old(ranking)@.skip(at as int),
        decreases at,
    {
        proof {
            let head = old(ranking)@.take(at as int);
            assert(head.drop_last() =~= old(ranking)@.take(at - 1));
            assert(ranked_insert(head, entry) =~= ranked_insert(head.drop_last(), entry).push(
                head.last(),
            ));
            assert(ranked_insert(head.drop_last(), entry).push(head.last()) + old(ranking)@.skip(
                at as int,
            ) =~= ranked_insert(head.drop_last(), entry) + old(ranking)@.skip(at - 1));
        }
        at = at - 1;
    }
    proof {
        let head = old(ranking)@.take(at as int);
        if at == 0 {
            assert(ranked_insert(head, entry) =~= seq![entry]);
        } else {
            assert(head.last() == old(ranking)@[at - 1]);
            assert(ranked_insert(head, entry) =~= head.push(entry));
        }
        assert(old(ranking)@.insert(at as int, entry) =~= head.push(entry) + old(ranking)@.skip(
            at as int,
        ));
    }
    ranking.insert(at, entry);
}

/// Ranks scored items: the highest score first, items of equal score in
/// the order in which they came. Returns their indices.
pub fn rank_indices(scored: &Vec<(usize, i64)>) -> (indices: Vec<usize>)
    ensures
        indices@ == indices_of(ranked(scored@, scored@.len() as int)),
        indices@.len() == scored@.len(),
{
    let mut ranking: Vec<(usize, i64)> = Vec::new();
    let mut k: usize = 0;
    while k < scored.len()
        invariant
            k <= scored.len(),
            ranking@ == ranked(scored@, k as int),
        decreases scored.len() - k,
    {
        insert_ranked(&mut ranking, scored[k]);
        k = k + 1;
    }
    proof {
        lemma_ranked(scored@, scored@.len() as int);
    }
    let mut indices: Vec<usize> = Vec::new();
    let mut i: usize = 0;
    while i < ranking.len()
        invariant
            i <= ranking.len(),
            indices@.len() == i,
            forall|j: int| 0 <= j < i ==> #[trigger] indices@[j] == ranking@[j].0,
        decreases ranking.len() - i,
    {
        indices.push(ranking[i].0);
        i = i + 1;
    }
    proof {
        assert(indices@ =~= indices_of(ranking@));
    }
    indices
}

/// The numbers from zero up to `n`.
pub fn all_indices(n: usize) -> (indices: Vec<usize>)
    ensures
        indices@ == Seq::new(n as nat, |i: int| i as usize),
{
    let mut indices: Vec<usize> = Vec::new();
    let mut k: usize = 0;
    while k < n
        invariant
            k <= n,
            indices@.len() == k,
            forall|j: int| 0 <= j < k ==> #[trigger] indices@[j] == j,
        decreases n - k,
    {
        indices.push(k);
        k = k + 1;
    }
    proof {
        assert(indices@ =~= Seq::new(n as nat, |i: int| i as usize));
    }
    indices
}

/// The best score among the first `k` fields of an item, empty fields
/// left out; none where no field matches.
pub open spec fn best_field(fields: Seq<Seq<char>>, query: Seq<char>, k: int) -> Option<i64>
    decreases k,
{
    if k <= 0 {
        None
    } else {
        let before = best_field(fields, query, k - 1);
        let here = if fields[k - 1].len() == 0 {
            None
        } else {
            skim_score(fields[k - 1], query)
        };
        match (before, here) {
            (Some(a), Some(b)) => if b > a {
                Some(b)
            } else {
                Some(a)
            },
            (Some(a), None) => Some(a),
            (None, h) => h,
        }
    }
}

/// The best score of an item's fields for a query.
pub fn best_field_score(fields: &Vec<String>, query: &str) -> (best: Option<i64>)
    ensures
        best == best_field(views_of(fields@), query@, fields@.len() as int),
{
    let mut best: Option<i64> = None;
    let mut k: usize = 0;
    while k < fields.len()
        invariant
            k <= fields.len(),
            best == best_field(views_of(fields@), query@, k as int),
        decreases fields.len() - k,
    {
        proof {
            assert(views_of(fields@)[k as int] == fields@[k as int]@);
        }
        if chars_of(fields[k].as_str()).len() != 0 {
            let here = fuzzy_score(fields[k].as_str(), query);
            best = match (best, here) {
                (Some(a), Some(b)) => if b > a {
                    Some(b)
                } else {
                    Some(a)
                },
                (Some(a), None) => Some(a),
                (None, h) => h,
            };
        }
        k = k + 1;
    }
    best
}

/// The items, by index, that have a score, each with its score, in the
/// order of the items.
pub open spec fn scored_items(scores: Seq<Option<i64>>, k: int) -> Seq<(usize, i64)>
    decreases k,
{
    if k <= 0 {
        Seq::empty()
    } else {
        match scores[k - 1] {
            Some(score) => scored_items(scores, k - 1).push(((k - 1) as usize, score)),
            None => scored_items(scores, k - 1),
        }
    }
}

/// Ranks the items that have a score: the highest first, items of equal
/// score in their own order. Returns their indices.
pub fn rank_scored(scores: &Vec<Option<i64>>) -> (indices: Vec<usize>)
    ensures
        indices@ == indices_of(
            ranked(
                scored_items(scores@, scores@.len() as int),
                scored_items(scores@, scores@.len() as int).len() as int,
            ),
        ),
{
    let mut scored: Vec<(usize, i64)> = Vec::new();
    let mut k: usize = 0;
    while k < scores.len()
        invariant
            k <= scores.len(),
            scored@ == scored_items(scores@, k as int),
        decreases scores.len() - k,
    {
        if let Some(score) = scores[k] {
            scored.push((k, score));
        }
        k = k + 1;
    }
    rank_indices(&scored)
}

/// The best score of each item's fields for the query.
pub open spec fn field_scores(items: Seq<Vec<String>>, query: Seq<char>) -> Seq<Option<i64>> {
    Seq::new(
        items.len(),
        |i: int| best_field(views_of(items[i]@), query, items[i]@.len() as int),
    )
}

/// Filters items by matching the query against several fields of each.
/// An item is shown where any of its fields matches; the items are ordered
/// by their best score, the highest first. A query of white space alone
/// shows every item, in order.
pub fn fuzzy_indices_any_field(fields: &Vec<Vec<String>>, query: &str) -> (indices: Vec<usize>)
    ensures
        indices@ == if trimmed(query@).len() == 0 {
            Seq::new(fields@.len(), |i: int| i as usize)
        } else {
            indices_of(
                ranked(
                    scored_items(field_scores(fields@, query@), fields@.len() as int),
                    scored_items(field_scores(fields@, query@), fields@.len() as int).len() as int,
                ),
            )
        },
{
    if chars_of(trim(query).as_str()).len() == 0 {
        return all_indices(fields.len());
    }
    let mut scores: Vec<Option<i64>> = Vec::new();
    let mut k: usize = 0;
    while k < fields.len()
        invariant
            k <= fields.len(),
            scores@.len() == k,
            forall|i: int|
                0 <= i < k ==> #[trigger] scores@[i] == best_field(
                    views_of(fields@[i]@),
                    query@,
                    fields@[i]@.len() as int,
                ),
        decreases fields.len() - k,
    {
        scores.push(best_field_score(&fields[k], query));
        k = k + 1;
    }
    proof {
        assert(scores@ =~= field_scores(fields@, query@));
    }
    rank_scored(&scores)
}

/// The score of a surface in a list, both query and surface in lower
/// case already: the score of the surface for the query's words as tokens
/// and for the query as it is, white space at its ends included.
pub open spec fn listed_score(query_lc: Seq<char>, surface_lc: Seq<char>) -> Option<int> {
    tokenized_total(
        token_scores(surface_lc, words_from(query_lc, 0)),
        skim_score(surface_lc, query_lc),
    )
}

/// The score of each surface for the query, in lower case.
pub open spec fn surface_scores(surfaces: Seq<String>, query: Seq<char>) -> Seq<Option<i64>> {
    Seq::new(
        surfaces.len(),
        |i: int|
            match listed_score(lowercase_of(query), lowercase_of(surfaces[i]@)) {
                Some(score) => Some(score as i64),
                None => None,
            },
    )
}

/// Filters items by matching the words of the query against one surface
/// text of each. An item is shown where every word matches; the items are
/// ordered by their score, the highest first. A query of white space alone
/// shows every item, in order.
pub fn fuzzy_indices_tokenized_surface(surfaces: &Vec<String>, query: &str) -> (indices: Vec<usize>)
    ensures
        indices@ == if trimmed(query@).len() == 0 {
            Seq::new(surfaces@.len(), |i: int| i as usize)
        } else {
            indices_of(
                ranked(
                    scored_items(surface_scores(surfaces@, query@), surfaces@.len() as int),
                    scored_items(
                        surface_scores(surfaces@, query@),
                        surfaces@.len() as int,
                    ).len() as int,
                ),
            )
        },
{
    if chars_of(trim(query).as_str()).len() == 0 {
        return all_indices(surfaces.len());
    }
    let query_lc = lowercase(query);
    let tokens = split_words(query_lc.as_str());
    let mut scores: Vec<Option<i64>> = Vec::new();
    let mut k: usize = 0;
    while k < surfaces.len()
        invariant
            k <= surfaces.len(),
            query_lc@ == lowercase_of(query@),
            views_of(tokens@) == words_from(query_lc@, 0),
            scores@.len() == k,
            forall|i: int|
                0 <= i < k ==> score_view(#[trigger] scores@[i]) == listed_score(
                    lowercase_of(query@),
                    lowercase_of(surfaces@[i]@),
                ),
        decreases surfaces.len() - k,
    {
        let surface_lc = lowercase(surfaces[k].as_str());
        let each = scores_for(surface_lc.as_str(), &tokens);
        scores.push(tokenized_score(&each, fuzzy_score(surface_lc.as_str(), query_lc.as_str())));
        k = k + 1;
    }
    proof {
        assert forall|i: int| 0 <= i < scores@.len() implies scores@[i] == surface_scores(
            surfaces@,
            query@,
        )[i] by {
            assert(score_view(scores@[i]) == listed_score(
                lowercase_of(query@),
                lowercase_of(surfaces@[i]@),
            ));
        }
        assert(scores@ =~= surface_scores(surfaces@, query@));
    }
    rank_scored(&scores)
}

} // verus!
