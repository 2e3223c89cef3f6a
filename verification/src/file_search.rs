//! Fuzzy filename lookup over an in-memory index of workspace paths.
//!
//! Indexing walks the workspace once and stores every file's relative path.
//! A query is fuzzy-matched against each indexed path; the scoring itself is
//! delegated to the `nucleo_matcher` crate behind a trusted wrapper, and the
//! ranking, truncation and result assembly around it are verified.

use crate::walk::enumerate_files;
use vstd::prelude::*;
use vstd::string::StrSliceExecFns;

verus! {

/// Shared state of the fuzzy search: the indexed workspace root and the
/// relative paths of its files.
pub struct FileSearchState {
    pub workspace_path: Option<String>,
    pub indexed_files: Vec<String>,
}

impl FileSearchState {
    /// Every indexed path stays under the fuzzy matcher's haystack limit of
    /// `u32::MAX` characters, above which it panics.
    pub open spec fn wf(self) -> bool {
        forall|i: int|
            0 <= i < self.indexed_files@.len() ==> (#[trigger] self.indexed_files@[i])@.len()
                <= u32::MAX
    }
}

/// A fresh state: no workspace, nothing indexed.
pub fn init() -> (state: FileSearchState)
    ensures
        state.workspace_path is None,
        state.indexed_files@.len() == 0,
        state.wf(),
{
    FileSearchState { workspace_path: None, indexed_files: Vec::new() }
}

/// One ranked hit of a fuzzy query: the indexed path, its score (higher is
/// better) and the positions of the matched characters within the path.
#[derive(Debug, Clone)]
pub struct SearchResult {
    pub path: String,
    pub score: i32,
    pub match_indices: Vec<u32>,
}

/// What `nucleo_matcher`'s fuzzy matching returns for a haystack and needle
/// pair under its default configuration: no match, or a score together with
/// the matched positions.
pub uninterp spec fn fuzzy_match(haystack: Seq<char>, needle: Seq<char>) -> Option<(u16, Seq<u32>)>;

/// Relies on nucleo_matcher::Matcher::fuzzy_indices with Config::DEFAULT:
/// the outcome depends on the two strings alone; on a match with a non-empty
/// needle it reports at least one matched position and at most one per
/// needle character, strictly increasing and within the haystack's length.
/// Haystacks of more than `u32::MAX` units make the matcher panic, hence the
/// bound.
#[verifier::external_body]
fn fuzzy_match_exec(haystack: &str, needle: &str) -> (r: Option<(u16, Vec<u32>)>)
    requires
        haystack@.len() <= u32::MAX,
    ensures
        (r is Some) == (fuzzy_match(haystack@, needle@) is Some),
        r matches Some(p) ==> fuzzy_match(haystack@, needle@) == Some((p.0, p.1@)),
        r matches Some(p) ==> needle@.len() > 0 ==> {
            &&& 1 <= p.1@.len() <= needle@.len()
            &&& forall|i: int, j: int| 0 <= i < j < p.1@.len() ==> p.1@[i] < p.1@[j]
            &&& forall|i: int| 0 <= i < p.1@.len() ==> (p.1@[i] as int) < haystack@.len()
        },
{
    let mut matcher = nucleo_matcher::Matcher::new(nucleo_matcher::Config::DEFAULT);
    let hay = nucleo_matcher::Utf32String::from(haystack);
    let needle32 = nucleo_matcher::Utf32String::from(needle);
    let mut indices: Vec<u32> = Vec::new();
    let score = matcher.fuzzy_indices(hay.slice(..), needle32.slice(..), &mut indices);
    score.map(|s| (s, indices))
}

/// The result's matched positions are strictly increasing and within its
/// path.
pub open spec fn wf_result(r: SearchResult) -> bool {
    &&& forall|i: int, j: int|
        0 <= i < j < r.match_indices@.len() ==> r.match_indices@[i] < r.match_indices@[j]
    &&& forall|i: int| 0 <= i < r.match_indices@.len() ==> (r.match_indices@[i] as int) < r.path@.len()
}

/// Scores never increase along the list.
pub open spec fn sorted_desc(s: Seq<SearchResult>) -> bool {
    forall|i: int, j: int| 0 <= i < j < s.len() ==> s[i].score >= s[j].score
}

/// `all` lists, in index order, exactly one result for each path of `paths`
/// that the query fuzzy-matches, carrying that match's score and positions.
pub open spec fn spec_match_list(paths: Seq<String>, query: Seq<char>, all: Seq<SearchResult>) -> bool
    decreases paths.len(),
{
    if paths.len() == 0 {
        all.len() == 0
    } else {
        match fuzzy_match(paths.last()@, query) {
            Some(m) => {
                &&& all.len() > 0
                &&& all.last().path@ == paths.last()@
                &&& all.last().score == m.0 as i32
                &&& all.last().match_indices@ == m.1
                &&& spec_match_list(paths.drop_last(), query, all.drop_last())
            },
            None => spec_match_list(paths.drop_last(), query, all),
        }
    }
}

/// The result limit a caller asked for, or the default of 50.
pub open spec fn spec_limit(limit: Option<usize>) -> int {
    match limit {
        Some(l) => l as int,
        None => 50,
    }
}

/// Walk the workspace, replace the index with every file found, remember the
/// root, and report how many paths were indexed.  Paths too long for the
/// fuzzy matcher are left out.
pub fn index_workspace_files(workspace_path: String, state: &mut FileSearchState) -> (r: Result<
    usize,
    String,
>)
    ensures
        r is Ok,
        final(state).workspace_path == Some(workspace_path),
        r matches Ok(count) ==> count == final(state).indexed_files@.len(),
        final(state).wf(),
{
    let files = enumerate_files(&workspace_path);
    let mut indexed: Vec<String> = Vec::new();
    let mut i: usize = 0;
    while i < files.len()
        invariant
            i <= files@.len(),
            forall|k: int|
                0 <= k < indexed@.len() ==> (#[trigger] indexed@[k])@.len() <= u32::MAX,
        decreases files@.len() - i,
    {
        let path = &files[i];
        if path.as_str().unicode_len() <= u32::MAX as usize {
            indexed.push(path.clone());
        }
        i = i + 1;
    }
    let count = indexed.len();
    state.workspace_path = Some(workspace_path);
    state.indexed_files = indexed;
    Ok(count)
}

/// Rank the indexed paths against `query` and return at most `limit` (50 by
/// default) results, best score first.  An empty query yields no results.
/// Each returned result is a fuzzy match of an indexed path: the full match
/// list is some `all` below, and the results are the longest fitting prefix
/// of a reordering of it with scores descending.
pub fn fuzzy_search_files(query: &String, limit: Option<usize>, state: &FileSearchState) -> (r:
    Result<Vec<SearchResult>, String>)
    requires
        state.wf(),
    ensures
        r is Ok,
        r matches Ok(results) ==> {
            &&& results@.len() <= spec_limit(limit)
            &&& sorted_desc(results@)
            &&& (query@.len() == 0 ==> results@.len() == 0)
            &&& (query@.len() > 0 ==> exists|all: Seq<SearchResult>, full: Seq<SearchResult>|
                {
                    &&& spec_match_list(state.indexed_files@, query@, all)
                    &&& full.to_multiset() == all.to_multiset()
                    &&& sorted_desc(full)
                    &&& results@ == full.take(vstd::math::min(spec_limit(limit), full.len() as int))
                })
            &&& forall|i: int| 0 <= i < results@.len() ==> wf_result(#[trigger] results@[i])
        },
{
    if query.as_str().is_empty() {
        return Ok(Vec::new());
    }
    let files = &state.indexed_files;
    let mut collected: Vec<SearchResult> = Vec::new();
    let mut i: usize = 0;
    while i < files.len()
        invariant
            query@.len() > 0,
            i <= files@.len(),
            forall|k: int| 0 <= k < files@.len() ==> (#[trigger] files@[k])@.len() <= u32::MAX,
            spec_match_list(files@.take(i as int), query@, collected@),
            forall|k: int| 0 <= k < collected@.len() ==> wf_result(#[trigger] collected@[k]),
        decreases files@.len() - i,
    {
        let path = &files[i];
        proof {
            assert(files@.take(i + 1).drop_last() =~= files@.take(i as int));
            assert(files@.take(i + 1).last() == files@[i as int]);
        }
        let ghost before = collected@;
        match fuzzy_match_exec(path.as_str(), query.as_str()) {
            Some((score, indices)) => {
                let hit = SearchResult { path: path.clone(), score: score as i32, match_indices: indices };
                collected.push(hit);
                proof {
                    assert(collected@.drop_last() =~= before);
                }
            },
            None => {},
        }
        i = i + 1;
    }
    proof {
        assert(files@.take(files@.len() as int) =~= files@);
    }
    let ghost all_matches = collected@;
    let mut sorted = sort_by_score_desc(collected);
    let ghost full = sorted@;
    let lim = match limit {
        Some(l) => l,
        None => 50,
    };
    if sorted.len() > lim {
        sorted.truncate(lim);
    }
    proof {
        assert(lim as int == spec_limit(limit));
        assert(sorted@ == full.take(vstd::math::min(spec_limit(limit), full.len() as int))) by {
            if full.len() <= spec_limit(limit) {
                assert(full.take(full.len() as int) =~= full);
            }
        }
        assert forall|k: int| 0 <= k < sorted@.len() implies wf_result(#[trigger] sorted@[k]) by {
            broadcast use vstd::seq_lib::group_to_multiset_ensures;

            assert(full.contains(sorted@[k]));
            assert(all_matches.to_multiset().count(sorted@[k]) > 0);
            assert(all_matches.contains(sorted@[k]));
            let j = choose|j: int| 0 <= j < all_matches.len() && all_matches[j] == sorted@[k];
            assert(wf_result(all_matches[j]));
        }
    }
    Ok(sorted)
}

/// Reorder the results so that scores never increase; the multiset of
/// results is kept.
fn sort_by_score_desc(input: Vec<SearchResult>) -> (out: Vec<SearchResult>)
    ensures
        out@.to_multiset() == input@.to_multiset(),
        out@.len() == input@.len(),
        sorted_desc(out@),
{
    let mut rest = input;
    let ghost orig = rest@;
    let mut out: Vec<SearchResult> = Vec::new();
    proof {
        broadcast use vstd::seq_lib::group_to_multiset_ensures;
        broadcast use vstd::multiset::group_multiset_axioms;
        broadcast use vstd::multiset::lemma_multiset_empty_len;

        assert(out@.to_multiset().add(rest@.to_multiset()) =~= orig.to_multiset());
    }
    while rest.len() > 0
        invariant
            sorted_desc(out@),
            out@.to_multiset().add(rest@.to_multiset()) == orig.to_multiset(),
            out@.len() + rest@.len() == orig.len(),
        decreases rest@.len(),
    {
        let ghost rest_before = rest@;
        let x = rest.pop().unwrap();
        proof {
            broadcast use vstd::seq_lib::group_to_multiset_ensures;

            assert(rest_before =~= rest@.push(x));
            assert(rest_before.to_multiset() == rest@.to_multiset().insert(x));
        }
        let mut j: usize = 0;
        while j < out.len() && out[j].score > x.score
            invariant
                j <= out@.len(),
                forall|k: int| 0 <= k < j ==> out@[k].score > x.score,
            decreases out@.len() - j,
        {
            j = j + 1;
        }
        let ghost out_before = out@;
        out.insert(j, x);
        proof {
            broadcast use vstd::seq_lib::group_to_multiset_ensures;
            broadcast use vstd::multiset::group_multiset_axioms;

            assert(out@ == out_before.insert(j as int, x));
            assert(out@.to_multiset() == out_before.to_multiset().insert(x));
            assert(out@.to_multiset().add(rest@.to_multiset()) =~= orig.to_multiset());
            assert forall|a: int, b: int| 0 <= a < b < out@.len() implies out@[a].score
                >= out@[b].score by {
                out_before.insert_ensures(j as int, x);
            }
        }
    }
    proof {
        broadcast use vstd::seq_lib::group_to_multiset_ensures;
        broadcast use vstd::multiset::group_multiset_axioms;
        broadcast use vstd::multiset::lemma_multiset_empty_len;

        assert(out@.to_multiset() =~= orig.to_multiset());
    }
    out
}

} // verus!
