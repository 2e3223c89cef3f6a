use depdok::file_search::{fuzzy_search_files, index_workspace_files, init};

fn make_workspace(name: &str, files: &[(&str, &str)]) -> String {
    let root = format!("/tmp/depdok_fuzzy_{}", name);
    fs_extra::dir::create_all(&root, true).unwrap();
    for (rel, content) in files {
        let path = format!("{}/{}", root, rel);
        if let Some(pos) = path.rfind('/') {
            fs_extra::dir::create_all(&path[..pos], false).unwrap();
        }
        fs_extra::file::write_all(&path, content).unwrap();
    }
    root
}

#[test]
fn empty_query_returns_empty() {
    let mut state = init();
    let root = make_workspace("empty_query", &[("src/main.rs", "fn main() {}")]);
    index_workspace_files(root, &mut state).unwrap();
    let results = fuzzy_search_files(&String::new(), None, &state).unwrap();
    assert!(results.is_empty());
}

#[test]
fn empty_query_on_fresh_state() {
    let state = init();
    let results = fuzzy_search_files(&String::new(), Some(10), &state).unwrap();
    assert!(results.is_empty());
}

#[test]
fn index_counts_files_not_directories() {
    let mut state = init();
    let root = make_workspace(
        "count",
        &[("a.txt", "x"), ("sub/b.txt", "y"), ("sub/deep/c.txt", "z")],
    );
    let count = index_workspace_files(root, &mut state).unwrap();
    assert_eq!(count, 3);
    assert_eq!(state.indexed_files.len(), 3);
    assert!(state.indexed_files.iter().any(|p| p == "sub/deep/c.txt"));
}

#[test]
fn reindex_replaces_the_index() {
    let mut state = init();
    let root1 = make_workspace("replace_one", &[("a.txt", "x"), ("b.txt", "y")]);
    let root2 = make_workspace("replace_two", &[("only.txt", "z")]);
    index_workspace_files(root1, &mut state).unwrap();
    let count = index_workspace_files(root2.clone(), &mut state).unwrap();
    assert_eq!(count, 1);
    assert_eq!(state.workspace_path.as_deref(), Some(root2.as_str()));
    assert_eq!(state.indexed_files, vec!["only.txt".to_string()]);
}

#[test]
fn ranking_scenario() {
    let mut state = init();
    let root = make_workspace(
        "ranking",
        &[("src/main.rs", "fn main() {}"), ("src/lib.rs", "pub fn lib() {}"), ("README.md", "docs")],
    );
    index_workspace_files(root, &mut state).unwrap();
    let results = fuzzy_search_files(&"mainrs".to_string(), None, &state).unwrap();
    assert!(!results.is_empty());
    assert_eq!(results[0].path, "src/main.rs");
    let main_pos = results.iter().position(|r| r.path == "src/main.rs").unwrap();
    if let Some(lib_pos) = results.iter().position(|r| r.path == "src/lib.rs") {
        assert!(main_pos < lib_pos);
    }
    if let Some(readme_pos) = results.iter().position(|r| r.path == "README.md") {
        assert!(main_pos < readme_pos);
    }
}

#[test]
fn scores_descend_and_indices_increase() {
    let mut state = init();
    let root = make_workspace(
        "wellformed",
        &[
            ("alpha/reader.rs", "a"),
            ("alpha/writer.rs", "b"),
            ("beta/runner.rs", "c"),
            ("rare.txt", "d"),
        ],
    );
    index_workspace_files(root, &mut state).unwrap();
    let results = fuzzy_search_files(&"rr".to_string(), None, &state).unwrap();
    assert!(!results.is_empty());
    for pair in results.windows(2) {
        assert!(pair[0].score >= pair[1].score);
    }
    for r in &results {
        let char_len = r.path.chars().count() as u32;
        for pair in r.match_indices.windows(2) {
            assert!(pair[0] < pair[1]);
        }
        for &ix in &r.match_indices {
            assert!(ix < char_len);
        }
        assert!(!r.match_indices.is_empty());
    }
}

#[test]
fn limit_truncates() {
    let mut state = init();
    let root = make_workspace(
        "limit",
        &[("note1.txt", "a"), ("note2.txt", "b"), ("note3.txt", "c"), ("note4.txt", "d")],
    );
    index_workspace_files(root, &mut state).unwrap();
    let all = fuzzy_search_files(&"note".to_string(), None, &state).unwrap();
    assert_eq!(all.len(), 4);
    let capped = fuzzy_search_files(&"note".to_string(), Some(2), &state).unwrap();
    assert_eq!(capped.len(), 2);
    assert!(capped[0].score >= capped[1].score);
}

#[test]
fn unmatched_query_yields_nothing() {
    let mut state = init();
    let root = make_workspace("nomatch", &[("a.txt", "x"), ("b.txt", "y")]);
    index_workspace_files(root, &mut state).unwrap();
    let results = fuzzy_search_files(&"zzqqwwxx".to_string(), None, &state).unwrap();
    assert!(results.is_empty());
}
