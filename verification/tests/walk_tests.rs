use depdok::walk::{enumerate_files, files_of};

#[test]
fn files_of_keeps_file_entries_in_order() {
    let entries = vec![
        ("".to_string(), false),
        ("a.txt".to_string(), true),
        ("sub".to_string(), false),
        ("sub/b.txt".to_string(), true),
        ("c.txt".to_string(), true),
    ];
    let files = files_of(&entries);
    assert_eq!(files, vec!["a.txt".to_string(), "sub/b.txt".to_string(), "c.txt".to_string()]);
}

#[test]
fn files_of_empty() {
    let files = files_of(&Vec::new());
    assert!(files.is_empty());
}

#[test]
fn enumeration_lists_files_only_and_skips_git_dir() {
    let root = "/tmp/depdok_walk_enum".to_string();
    fs_extra::dir::create_all(format!("{}/sub", &root), true).unwrap();
    fs_extra::dir::create_all(format!("{}/.git", &root), true).unwrap();
    fs_extra::file::write_all(format!("{}/a.txt", &root), "a").unwrap();
    fs_extra::file::write_all(format!("{}/sub/b.txt", &root), "b").unwrap();
    fs_extra::file::write_all(format!("{}/.git/config", &root), "c").unwrap();
    fs_extra::file::write_all(format!("{}/.hidden", &root), "h").unwrap();
    let mut files = enumerate_files(&root);
    files.sort();
    assert_eq!(
        files,
        vec![".hidden".to_string(), "a.txt".to_string(), "sub/b.txt".to_string()]
    );
}
