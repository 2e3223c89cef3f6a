use depdok::content_search::{
    default_max_results, init, search_content, set_content_search_workspace, SearchOptions,
};

fn make_workspace(name: &str, files: &[(&str, &str)]) -> String {
    let root = format!("/tmp/depdok_content_{}", name);
    fs_extra::dir::create_all(&root, true).unwrap();
    for (rel, content) in files {
        let path = format!("{}/{}", root, rel);
        if let Some(pos) = path.rfind('/') {
            fs_extra::dir::create_all(&path[..pos], false).unwrap();
        }
        fs_extra::file::write_all(&path, content).unwrap();
    }
    root
}

fn options(max_results: usize) -> SearchOptions {
    SearchOptions { case_sensitive: false, max_results }
}

#[test]
fn default_cap_is_500() {
    assert_eq!(default_max_results(), 500);
}

#[test]
fn no_root_is_an_error() {
    let state = init();
    let err = search_content(&"hello".to_string(), None, &state).unwrap_err();
    assert_eq!(err, "No workspace path set");
}

#[test]
fn empty_query_with_root_is_ok_and_empty() {
    let mut state = init();
    let root = make_workspace("empty_query", &[("a.txt", "hello\n")]);
    set_content_search_workspace(root, &mut state).unwrap();
    let results = search_content(&String::new(), None, &state).unwrap();
    assert!(results.is_empty());
}

#[test]
fn invalid_pattern_is_refused() {
    let mut state = init();
    let root = make_workspace("bad_pattern", &[("a.txt", "hello\n")]);
    set_content_search_workspace(root, &mut state).unwrap();
    let err = search_content(&"(".to_string(), None, &state).unwrap_err();
    assert!(err.starts_with("Invalid regex pattern:"));
}

#[test]
fn scenario_one_matching_file() {
    let mut state = init();
    let root = make_workspace(
        "scenario",
        &[("a.txt", "hello world\n"), ("b.txt", "nothing here\n")],
    );
    set_content_search_workspace(root, &mut state).unwrap();
    let results = search_content(&"hello".to_string(), None, &state).unwrap();
    assert_eq!(results.len(), 1);
    let hit = &results[0];
    assert_eq!(hit.file_path, "a.txt");
    assert_eq!(hit.line_number, 1);
    assert_eq!(hit.line_content, "hello world");
    assert_eq!(hit.match_start, 0);
    assert_eq!(hit.match_end, "hello world".len());
}

#[test]
fn lines_are_trimmed_and_span_covers_them() {
    let mut state = init();
    let root = make_workspace("trim", &[("padded.txt", "padded   \nxx\n")]);
    set_content_search_workspace(root, &mut state).unwrap();
    let results = search_content(&"padded".to_string(), None, &state).unwrap();
    assert_eq!(results.len(), 1);
    assert_eq!(results[0].line_content, "padded");
    assert_eq!(results[0].match_start, 0);
    assert_eq!(results[0].match_end, 6);
}

#[test]
fn line_numbers_count_from_one() {
    let mut state = init();
    let root = make_workspace("linenos", &[("f.txt", "first\nsecond target\nthird\ntarget again\n")]);
    set_content_search_workspace(root, &mut state).unwrap();
    let results = search_content(&"target".to_string(), None, &state).unwrap();
    assert_eq!(results.len(), 2);
    assert_eq!(results[0].line_number, 2);
    assert_eq!(results[1].line_number, 4);
}

#[test]
fn results_stop_at_the_cap() {
    let mut files: Vec<(String, String)> = Vec::new();
    for i in 0..6 {
        files.push((format!("f{}.txt", i), "match one\nmatch two\nmatch three\n".to_string()));
    }
    let borrowed: Vec<(&str, &str)> =
        files.iter().map(|(a, b)| (a.as_str(), b.as_str())).collect();
    let mut state = init();
    let root = make_workspace("cap", &borrowed);
    set_content_search_workspace(root, &mut state).unwrap();
    let capped = search_content(&"match".to_string(), Some(options(7)), &state).unwrap();
    assert_eq!(capped.len(), 7);
    let all = search_content(&"match".to_string(), None, &state).unwrap();
    assert_eq!(all.len(), 18);
}

#[test]
fn relative_paths_are_normalized() {
    let mut state = init();
    let root = make_workspace("relpaths", &[("sub/dir/c.txt", "needle here\n")]);
    set_content_search_workspace(root, &mut state).unwrap();
    let results = search_content(&"needle".to_string(), None, &state).unwrap();
    assert_eq!(results.len(), 1);
    assert_eq!(results[0].file_path, "sub/dir/c.txt");
}

#[test]
fn hidden_files_searched_but_not_git_dir() {
    let mut state = init();
    let root = make_workspace(
        "hidden",
        &[(".hidden.txt", "secretword\n"), (".git/config", "secretword\n")],
    );
    set_content_search_workspace(root, &mut state).unwrap();
    let results = search_content(&"secretword".to_string(), None, &state).unwrap();
    assert_eq!(results.len(), 1);
    assert_eq!(results[0].file_path, ".hidden.txt");
}

#[test]
fn no_matches_is_ok_and_empty() {
    let mut state = init();
    let root = make_workspace("nomatch", &[("a.txt", "hello\n")]);
    set_content_search_workspace(root, &mut state).unwrap();
    let results = search_content(&"absent_token".to_string(), None, &state).unwrap();
    assert!(results.is_empty());
}

#[test]
fn root_is_overwritten_not_merged() {
    let mut state = init();
    let root1 = make_workspace("over_one", &[("a.txt", "alpha\n")]);
    let root2 = make_workspace("over_two", &[("b.txt", "alpha\n")]);
    set_content_search_workspace(root1, &mut state).unwrap();
    set_content_search_workspace(root2, &mut state).unwrap();
    let results = search_content(&"alpha".to_string(), None, &state).unwrap();
    assert_eq!(results.len(), 1);
    assert_eq!(results[0].file_path, "b.txt");
}
