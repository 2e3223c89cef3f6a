//! Ignore-rule-aware enumeration of the files under a workspace root.
//!
//! Both search services list files the same way: the walk honors the
//! project's and the global ignore rules, keeps hidden entries, skips the
//! version-control metadata directory, and reports paths relative to the
//! root with separators normalized to `/`.

use ignore::WalkBuilder;
use vstd::prelude::*;

verus! {

/// Relies on ignore::WalkBuilder: walks the tree under `root` honoring
/// project-level and global ignore files, keeping hidden entries but
/// excluding the `.git` directory; yields each surviving entry's
/// root-relative path with `\` separators replaced by `/`, and whether the
/// entry is a regular file.  Entries that fail to resolve are skipped.  The
/// outcome depends on the directory tree on disk, so nothing is promised of
/// it.
#[verifier::external_body]
fn walk_entries(root: &String) -> Vec<(String, bool)> {
    let walker = WalkBuilder::new(root.as_str())
        .hidden(false)
        .git_ignore(true)
        .git_exclude(true)
        .filter_entry(|e| e.file_name().to_str().map_or(true, |n| n != ".git"))
        .build();
    let mut out: Vec<(String, bool)> = Vec::new();
    for e in walker.flatten() {
        let is_file = e.file_type().map_or(false, |t| t.is_file());
        if let Ok(rel) = e.path().strip_prefix(root.as_str()) {
            out.push((rel.to_string_lossy().replace('\\', "/"), is_file));
        }
    }
    out
}

/// The paths of the entries marked as files, in walk order.
pub open spec fn spec_files_of(entries: Seq<(String, bool)>) -> Seq<String>
    decreases entries.len(),
{
    if entries.len() == 0 {
        Seq::empty()
    } else {
        let rest = spec_files_of(entries.drop_last());
        if entries.last().1 {
            rest.push(entries.last().0)
        } else {
            rest
        }
    }
}

/// Keep the paths of the entries marked as files, in order.
pub fn files_of(entries: &Vec<(String, bool)>) -> (files: Vec<String>)
    ensures
        files@ == spec_files_of(entries@),
{
    let mut files: Vec<String> = Vec::new();
    let mut i: usize = 0;
    while i < entries.len()
        invariant
            i <= entries@.len(),
            files@ == spec_files_of(entries@.take(i as int)),
        decreases entries@.len() - i,
    {
        let entry = &entries[i];
        proof {
            assert(entries@.take(i + 1).drop_last() =~= entries@.take(i as int));
            assert(entries@.take(i + 1).last() == entries@[i as int]);
        }
        if entry.1 {
            files.push(entry.0.clone());
        }
        i = i + 1;
    }
    proof {
        assert(entries@.take(entries@.len() as int) =~= entries@);
    }
    files
}

/// Every file under `root`, as a normalized root-relative path, honoring
/// ignore rules.  What comes back depends on the directory tree on disk.
pub fn enumerate_files(root: &String) -> Vec<String> {
    let entries = walk_entries(root);
    files_of(&entries)
}

} // verus!
