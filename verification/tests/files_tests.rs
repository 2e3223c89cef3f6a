use depdok::files::{is_hidden, list_dir_entries, sort_entries, str_le, FileEntry};

fn entry(name: &str, is_dir: bool) -> FileEntry {
    FileEntry { name: name.to_string(), path: format!("/ws/{}", name), is_dir }
}

#[test]
fn hidden_names_start_with_a_dot() {
    assert!(is_hidden(&".git".to_string()));
    assert!(is_hidden(&".".to_string()));
    assert!(!is_hidden(&"notes.txt".to_string()));
    assert!(!is_hidden(&String::new()));
}

#[test]
fn name_order_is_lexicographic() {
    assert!(str_le("a", "b"));
    assert!(!str_le("b", "a"));
    assert!(str_le("abc", "abd"));
    assert!(str_le("ab", "abc"));
    assert!(!str_le("abc", "ab"));
    assert!(str_le("same", "same"));
    assert!(str_le("", "x"));
}

#[test]
fn directories_come_first_then_names() {
    let raw = vec![
        entry("zeta.txt", false),
        entry("alpha.txt", false),
        entry("music", true),
        entry("art", true),
    ];
    let sorted = sort_entries(raw);
    let names: Vec<&str> = sorted.iter().map(|e| e.name.as_str()).collect();
    assert_eq!(names, vec!["art", "music", "alpha.txt", "zeta.txt"]);
}

#[test]
fn listing_drops_hidden_entries_and_orders_the_rest() {
    let raw = vec![
        entry("b.txt", false),
        entry(".hidden", false),
        entry("docs", true),
        entry(".git", true),
        entry("a.txt", false),
    ];
    let listed = list_dir_entries(raw);
    let names: Vec<&str> = listed.iter().map(|e| e.name.as_str()).collect();
    assert_eq!(names, vec!["docs", "a.txt", "b.txt"]);
    assert!(listed[0].is_dir);
    assert!(!listed[1].is_dir);
}

#[test]
fn listing_of_nothing_is_empty() {
    let listed = list_dir_entries(Vec::new());
    assert!(listed.is_empty());
}
