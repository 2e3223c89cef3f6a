//! Line-oriented content search over the files of a workspace.
//!
//! A query is compiled as a line-oriented regular expression and streamed
//! over every enumerated file; matching lines are collected under a global
//! result cap with early termination.  Pattern compilation and the per-file
//! scan are delegated to the `grep_regex` and `grep_searcher` crates behind
//! trusted wrappers; the cap, the trimming, the span policy and the result
//! assembly are verified.

use crate::walk::enumerate_files;
use vstd::prelude::*;
use vstd::string::StrSliceExecFns;
use vstd::string::StringExecFns;

verus! {

/// Shared state of the content search: the workspace root, if one was set.
pub struct ContentSearchState {
    pub workspace_path: Option<String>,
}

/// A fresh state with no workspace root.
pub fn init() -> (state: ContentSearchState)
    ensures
        state.workspace_path is None,
{
    ContentSearchState { workspace_path: None }
}

/// Store the search root verbatim, replacing any previous value; the path is
/// not checked against the disk here.
pub fn set_content_search_workspace(workspace_path: String, state: &mut ContentSearchState) -> (r:
    Result<(), String>)
    ensures
        r is Ok,
        final(state).workspace_path == Some(workspace_path),
{
    state.workspace_path = Some(workspace_path);
    Ok(())
}

/// One matching line: the file's normalized relative path, the 1-based line
/// number, the line's text without trailing blanks, and the match span in
/// character offsets.  The span covers the whole trimmed line; the engine
/// could report the exact substring, but the coarse span is kept as the
/// interface's documented policy.
#[derive(Debug, Clone)]
pub struct ContentSearchResult {
    pub file_path: String,
    pub line_number: u64,
    pub line_content: String,
    pub match_start: usize,
    pub match_end: usize,
}

/// Caller-chosen search options.  `case_sensitive` is accepted but not
/// applied to matching: the pattern itself decides its case sensitivity.
/// The field is kept so the interface carries the caller's intent; wiring it
/// into the pattern compiler would change match behaviour and is left open.
#[derive(Debug, Clone)]
pub struct SearchOptions {
    pub case_sensitive: bool,
    pub max_results: usize,
}

/// The result cap used when the caller gives none.
pub fn default_max_results() -> (n: usize)
    ensures
        n == 500,
{
    500
}

/// The result cap a caller asked for, or the default of 500.
pub open spec fn spec_max_results(options: Option<SearchOptions>) -> int {
    match options {
        Some(o) => o.max_results as int,
        None => 500,
    }
}

/// The pattern is a valid line-oriented regular expression: compiling it
/// succeeds.
pub uninterp spec fn valid_pattern(pattern: Seq<char>) -> bool;

#[verifier::external_type_specification]
#[verifier::external_body]
pub struct ExRegexMatcher(grep_regex::RegexMatcher);

/// Relies on grep_regex::RegexMatcher::new_line_matcher: compilation under
/// the default configuration is a function of the pattern text alone and
/// succeeds exactly on valid patterns; a failure carries the compiler's
/// diagnostic.
#[verifier::external_body]
fn compile_line_matcher(pattern: &str) -> (r: Result<grep_regex::RegexMatcher, String>)
    ensures
        r is Ok <==> valid_pattern(pattern@),
{
    grep_regex::RegexMatcher::new_line_matcher(pattern).map_err(
        |e| format!("Invalid regex pattern: {}", e),
    )
}

/// Relies on grep_searcher::Searcher::search_path with a lossy sink: on
/// success it yields, for each line of the file that the pattern matches,
/// the 1-based line number and the line's text (terminator kept, invalid
/// UTF-8 replaced by the substitution marker), in file order, so line
/// numbers strictly increase; an unreadable file yields nothing.  The lines
/// come from disk, so nothing more can be promised of them.
#[verifier::external_body]
fn search_file(matcher: &grep_regex::RegexMatcher, path: &String) -> (r: Option<
    Vec<(u64, String)>,
>)
    ensures
        r matches Some(lines) ==> {
            &&& forall|i: int| 0 <= i < lines@.len() ==> (#[trigger] lines@[i]).0 >= 1
            &&& forall|i: int, j: int| 0 <= i < j < lines@.len() ==> lines@[i].0 < lines@[j].0
        },
{
    let mut searcher = grep_searcher::SearcherBuilder::new().line_number(true).build();
    let mut lines: Vec<(u64, String)> = Vec::new();
    let sink = grep_searcher::sinks::Lossy(|line_number, line: &str| {
        lines.push((line_number, line.to_string()));
        Ok(true)
    });
    match searcher.search_path(matcher, path.as_str(), sink) {
        Ok(()) => Some(lines),
        Err(_) => None,
    }
}

/// A character trimmed from a line's end: the line terminator and trailing
/// blanks.
pub open spec fn is_trailing_blank(c: char) -> bool {
    c == ' ' || c == '\t' || c == '\r' || c == '\n'
}

/// `text` without its trailing blanks.
pub open spec fn spec_trim_end(text: Seq<char>) -> Seq<char>
    decreases text.len(),
{
    if text.len() == 0 {
        text
    } else if is_trailing_blank(text.last()) {
        spec_trim_end(text.drop_last())
    } else {
        text
    }
}

/// Drop the line terminator and any trailing blanks from `text`.
pub fn trim_line_end(text: &str) -> (r: String)
    ensures
        r@ == spec_trim_end(text@),
{
    let n = text.unicode_len();
    let mut end = n;
    proof {
        assert(text@.take(text@.len() as int) =~= text@);
    }
    loop
        invariant_except_break
            end <= text@.len(),
            spec_trim_end(text@) == spec_trim_end(text@.take(end as int)),
        ensures
            end <= text@.len(),
            spec_trim_end(text@) == text@.take(end as int),
        decreases end,
    {
        if end == 0 {
            proof {
                assert(text@.take(0) =~= Seq::<char>::empty());
            }
            break;
        }
        let c = text.get_char(end - 1);
        if c == ' ' || c == '\t' || c == '\r' || c == '\n' {
            proof {
                assert(text@.take(end as int).drop_last() =~= text@.take(end - 1));
                assert(text@.take(end as int).last() == text@[end - 1]);
            }
            end = end - 1;
        } else {
            proof {
                assert(text@.take(end as int).last() == text@[end - 1]);
            }
            break;
        }
    }
    text.substring_char(0, end).to_owned()
}

/// `root` and `rel` joined with a single `/`.
pub fn join_path(root: &String, rel: &String) -> (joined: String)
    ensures
        joined@ == root@ + "/"@ + rel@,
{
    let mut joined = root.clone();
    joined.append("/");
    joined.append(rel.as_str());
    joined
}

/// The result stands for a trimmed matching line: its span covers the whole
/// trimmed text and its line number is 1-based.
pub open spec fn wf_content_result(e: ContentSearchResult) -> bool {
    &&& e.match_start == 0
    &&& e.match_end == e.line_content@.len()
    &&& e.line_number >= 1
}

/// Append one file's matching lines to the results, trimmed and with the
/// whole-line span, stopping at the global cap.
fn append_file_matches(
    results: &mut Vec<ContentSearchResult>,
    rel_path: &String,
    lines: &Vec<(u64, String)>,
    max_results: usize,
)
    requires
        old(results)@.len() <= max_results,
        forall|i: int| 0 <= i < lines@.len() ==> (#[trigger] lines@[i]).0 >= 1,
    ensures
        final(results)@.len() <= max_results,
        final(results)@.len() == vstd::math::min(
            max_results as int,
            old(results)@.len() + lines@.len() as int,
        ),
        forall|i: int| 0 <= i < old(results)@.len() ==> final(results)@[i] == old(results)@[i],
        forall|i: int|
            old(results)@.len() <= i < final(results)@.len() ==> {
                let entry = #[trigger] final(results)@[i];
                let src = lines@[i - old(results)@.len()];
                &&& entry.file_path@ == rel_path@
                &&& entry.line_number == src.0
                &&& entry.line_content@ == spec_trim_end(src.1@)
                &&& entry.match_start == 0
                &&& entry.match_end == entry.line_content@.len()
            },
{
    let ghost prior = results@;
    let mut k: usize = 0;
    while k < lines.len() && results.len() < max_results
        invariant
            k <= lines@.len(),
            prior.len() <= max_results,
            results@.len() == prior.len() + k,
            results@.len() <= max_results,
            forall|i: int| 0 <= i < prior.len() ==> results@[i] == prior[i],
            forall|i: int|
                prior.len() <= i < results@.len() ==> {
                    let entry = #[trigger] results@[i];
                    let src = lines@[i - prior.len()];
                    &&& entry.file_path@ == rel_path@
                    &&& entry.line_number == src.0
                    &&& entry.line_content@ == spec_trim_end(src.1@)
                    &&& entry.match_start == 0
                    &&& entry.match_end == entry.line_content@.len()
                },
        decreases lines@.len() - k,
    {
        let line = &lines[k];
        let content = trim_line_end(line.1.as_str());
        let span_end = content.as_str().unicode_len();
        results.push(
            ContentSearchResult {
                file_path: rel_path.clone(),
                line_number: line.0,
                line_content: content,
                match_start: 0,
                match_end: span_end,
            },
        );
        k = k + 1;
    }
}

/// Search every workspace file for `query` and collect the matching lines.
///
/// Without a workspace root the search fails; an empty query yields no
/// results and no error; an invalid pattern is refused with a diagnostic.
/// Otherwise files are scanned in enumeration order, unreadable files are
/// skipped, and collection stops — no further file is opened — once the
/// results reach the cap.
pub fn search_content(
    query: &String,
    options: Option<SearchOptions>,
    state: &ContentSearchState,
) -> (r: Result<Vec<ContentSearchResult>, String>)
    ensures
        state.workspace_path is None ==> (r matches Err(m) && m@ == "No workspace path set"@),
        state.workspace_path is Some && query@.len() == 0 ==> (r matches Ok(res) && res@.len()
            == 0),
        state.workspace_path is Some && query@.len() > 0 ==> ((r is Ok) <==> valid_pattern(
            query@,
        )),
        r matches Ok(res) ==> {
            &&& res@.len() <= spec_max_results(options)
            &&& forall|i: int| 0 <= i < res@.len() ==> wf_content_result(#[trigger] res@[i])
        },
{
    let root = match &state.workspace_path {
        Some(root) => root,
        None => {
            return Err("No workspace path set".to_owned());
        },
    };
    if query.as_str().is_empty() {
        return Ok(Vec::new());
    }
    let max_results = match &options {
        Some(o) => o.max_results,
        None => default_max_results(),
    };
    let matcher = match compile_line_matcher(query.as_str()) {
        Ok(m) => m,
        Err(e) => {
            return Err(e);
        },
    };
    let files = enumerate_files(root);
    let mut results: Vec<ContentSearchResult> = Vec::new();
    let mut i: usize = 0;
    while i < files.len() && results.len() < max_results
        invariant
            i <= files@.len(),
            results@.len() <= max_results,
            max_results as int == spec_max_results(options),
            forall|k: int| 0 <= k < results@.len() ==> wf_content_result(#[trigger] results@[k]),
        decreases files@.len() - i,
    {
        let rel = &files[i];
        let absolute = join_path(root, rel);
        match search_file(&matcher, &absolute) {
            Some(lines) => {
                append_file_matches(&mut results, rel, &lines, max_results);
            },
            None => {},
        }
        i = i + 1;
    }
    Ok(results)
}

} // verus!
