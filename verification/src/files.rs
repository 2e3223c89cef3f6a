//! Presentation rules for directory listings.
//!
//! Reading a directory is the host's job; the rules applied to what it read
//! — dropping hidden entries and ordering directories before files, each
//! group by name — are verified here.

use vstd::prelude::*;
use vstd::string::StrSliceExecFns;

verus! {

/// One entry of a directory listing.  A listing is flat: the host asks for a
/// directory's own entries again when a caller expands it.
#[derive(Debug, Clone)]
pub struct FileEntry {
    pub name: String,
    pub path: String,
    pub is_dir: bool,
}

/// Hidden entries are those whose name starts with a dot.
pub open spec fn spec_hidden(name: Seq<char>) -> bool {
    name.len() > 0 && name[0] == '.'
}

/// Whether a directory entry is hidden.
pub fn is_hidden(name: &String) -> (hidden: bool)
    ensures
        hidden == spec_hidden(name@),
{
    if name.as_str().unicode_len() == 0 {
        false
    } else {
        name.as_str().get_char(0) == '.'
    }
}

/// Lexicographic order on character sequences, smaller code points first.
pub open spec fn spec_str_le(a: Seq<char>, b: Seq<char>) -> bool
    decreases a.len(),
{
    if a.len() == 0 {
        true
    } else if b.len() == 0 {
        false
    } else if a[0] != b[0] {
        a[0] < b[0]
    } else {
        spec_str_le(a.drop_first(), b.drop_first())
    }
}

/// Compare two names lexicographically by code point.
pub fn str_le(a: &str, b: &str) -> (le: bool)
    ensures
        le == spec_str_le(a@, b@),
{
    let a_len = a.unicode_len();
    let b_len = b.unicode_len();
    let mut i: usize = 0;
    proof {
        assert(a@.skip(0) =~= a@);
        assert(b@.skip(0) =~= b@);
    }
    loop
        invariant_except_break
            i <= a_len,
            i <= b_len,
            a_len == a@.len(),
            b_len == b@.len(),
            spec_str_le(a@, b@) == spec_str_le(a@.skip(i as int), b@.skip(i as int)),
        ensures
            spec_str_le(a@, b@) == spec_str_le(a@.skip(i as int), b@.skip(i as int)),
            ({
                ||| (i <= a_len && i == b_len)
                ||| (i < a_len && i < b_len && a@[i as int] != b@[i as int])
                ||| (i == a_len && i <= b_len)
            }),
        decreases a_len - i,
    {
        if i == a_len || i == b_len {
            break;
        }
        let ca = a.get_char(i);
        let cb = b.get_char(i);
        if ca != cb {
            break;
        }
        proof {
            assert(a@.skip(i as int).drop_first() =~= a@.skip(i + 1));
            assert(b@.skip(i as int).drop_first() =~= b@.skip(i + 1));
            assert(a@.skip(i as int)[0] == a@[i as int]);
            assert(b@.skip(i as int)[0] == b@[i as int]);
        }
        i = i + 1;
    }
    proof {
        if i < a_len && i < b_len {
            assert(a@.skip(i as int)[0] == a@[i as int]);
            assert(b@.skip(i as int)[0] == b@[i as int]);
        } else if i == a_len {
            assert(a@.skip(i as int).len() == 0);
        } else {
            assert(b@.skip(i as int).len() == 0);
        }
    }
    if i == a_len {
        true
    } else if i == b_len {
        false
    } else {
        let ca = a.get_char(i);
        let cb = b.get_char(i);
        ca < cb
    }
}

/// The listing order: directories before files, and names ascending within
/// each group.
pub open spec fn spec_entry_le(a: FileEntry, b: FileEntry) -> bool {
    if a.is_dir != b.is_dir {
        a.is_dir
    } else {
        spec_str_le(a.name@, b.name@)
    }
}

/// The listing is ordered: no entry comes before one that should precede it.
pub open spec fn sorted_entries(s: Seq<FileEntry>) -> bool {
    forall|i: int, j: int| 0 <= i < j < s.len() ==> spec_entry_le(#[trigger] s[i], #[trigger] s[j])
}

/// Whether `a` comes no later than `b` in the listing order.
fn entry_le(a: &FileEntry, b: &FileEntry) -> (le: bool)
    ensures
        le == spec_entry_le(*a, *b),
{
    if a.is_dir != b.is_dir {
        a.is_dir
    } else {
        str_le(a.name.as_str(), b.name.as_str())
    }
}

/// The listing order is total: two entries always compare one way or the
/// other.
pub proof fn lemma_entry_order_total(a: FileEntry, b: FileEntry)
    ensures
        spec_entry_le(a, b) || spec_entry_le(b, a),
{
    lemma_str_order_total(a.name@, b.name@);
}

/// Lexicographic order is total.
proof fn lemma_str_order_total(a: Seq<char>, b: Seq<char>)
    ensures
        spec_str_le(a, b) || spec_str_le(b, a),
    decreases a.len(),
{
    if a.len() > 0 && b.len() > 0 && a[0] == b[0] {
        lemma_str_order_total(a.drop_first(), b.drop_first());
    }
}

/// The listing order is transitive.
pub proof fn lemma_entry_order_trans(a: FileEntry, b: FileEntry, c: FileEntry)
    requires
        spec_entry_le(a, b),
        spec_entry_le(b, c),
    ensures
        spec_entry_le(a, c),
{
    if a.is_dir == b.is_dir && b.is_dir == c.is_dir {
        lemma_str_order_trans(a.name@, b.name@, c.name@);
    }
}

/// Lexicographic order is transitive.
proof fn lemma_str_order_trans(a: Seq<char>, b: Seq<char>, c: Seq<char>)
    requires
        spec_str_le(a, b),
        spec_str_le(b, c),
    ensures
        spec_str_le(a, c),
    decreases a.len(),
{
    if a.len() > 0 && b.len() > 0 && c.len() > 0 && a[0] == b[0] && b[0] == c[0] {
        lemma_str_order_trans(a.drop_first(), b.drop_first(), c.drop_first());
    }
}

/// Order the entries: directories first, names ascending within each group;
/// the multiset of entries is kept.
pub fn sort_entries(entries: Vec<FileEntry>) -> (out: Vec<FileEntry>)
    ensures
        out@.to_multiset() == entries@.to_multiset(),
        out@.len() == entries@.len(),
        sorted_entries(out@),
{
    let mut rest = entries;
    let ghost orig = rest@;
    let mut out: Vec<FileEntry> = Vec::new();
    proof {
        broadcast use vstd::seq_lib::group_to_multiset_ensures;
        broadcast use vstd::multiset::group_multiset_axioms;
        broadcast use vstd::multiset::lemma_multiset_empty_len;

        assert(out@.to_multiset().add(rest@.to_multiset()) =~= orig.to_multiset());
    }
    while rest.len() > 0
        invariant
            sorted_entries(out@),
            out@.to_multiset().add(rest@.to_multiset()) == orig.to_multiset(),
            out@.len() + rest@.len() == orig.len(),
        decreases rest@.len(),
    {
        let ghost rest_before = rest@;
        let x = rest.pop().unwrap();
        proof {
            broadcast use vstd::seq_lib::group_to_multiset_ensures;

            assert(rest_before =~= rest@.push(x));
            assert(rest_before.to_multiset() == rest@.to_multiset().insert(x));
        }
        let mut j: usize = 0;
        loop
            invariant_except_break
                j <= out@.len(),
                sorted_entries(out@),
                forall|k: int| 0 <= k < j ==> spec_entry_le(#[trigger] out@[k], x),
            ensures
                j <= out@.len(),
                sorted_entries(out@),
                forall|k: int| 0 <= k < j ==> spec_entry_le(#[trigger] out@[k], x),
                j < out@.len() ==> spec_entry_le(x, out@[j as int]),
            decreases out@.len() - j,
        {
            if j == out.len() {
                break;
            }
            let out_before_x = entry_le(&out[j], &x);
            let x_before_out = entry_le(&x, &out[j]);
            if out_before_x && !x_before_out {
                j = j + 1;
            } else {
                proof {
                    lemma_entry_order_total(out@[j as int], x);
                }
                break;
            }
        }
        let ghost out_before = out@;
        out.insert(j, x);
        proof {
            broadcast use vstd::seq_lib::group_to_multiset_ensures;
            broadcast use vstd::multiset::group_multiset_axioms;

            assert(out@ == out_before.insert(j as int, x));
            assert(out@.to_multiset() == out_before.to_multiset().insert(x));
            assert(out@.to_multiset().add(rest@.to_multiset()) =~= orig.to_multiset());
            assert forall|a: int, b: int| 0 <= a < b < out@.len() implies spec_entry_le(
                out@[a],
                out@[b],
            ) by {
                out_before.insert_ensures(j as int, x);
                if a == j && b > j && b - 1 > j {
                    lemma_entry_order_trans(x, out_before[j as int], out_before[b - 1]);
                }
            }
        }
    }
    proof {
        broadcast use vstd::seq_lib::group_to_multiset_ensures;
        broadcast use vstd::multiset::group_multiset_axioms;
        broadcast use vstd::multiset::lemma_multiset_empty_len;

        assert(out@.to_multiset() =~= orig.to_multiset());
    }
    out
}

/// The visible entries of `entries`, in order.
pub open spec fn spec_visible(entries: Seq<FileEntry>) -> Seq<FileEntry>
    decreases entries.len(),
{
    if entries.len() == 0 {
        Seq::empty()
    } else {
        let rest = spec_visible(entries.drop_last());
        if spec_hidden(entries.last().name@) {
            rest
        } else {
            rest.push(entries.last())
        }
    }
}

/// Shape a raw directory listing for presentation: hidden entries are
/// dropped and the rest are ordered, directories first, then by name.
pub fn list_dir_entries(raw: Vec<FileEntry>) -> (out: Vec<FileEntry>)
    ensures
        out@.to_multiset() == spec_visible(raw@).to_multiset(),
        sorted_entries(out@),
{
    let ghost orig = raw@;
    let mut rest = raw;
    let mut visible: Vec<FileEntry> = Vec::new();
    let ghost mut consumed: int = 0;
    proof {
        assert(rest@ =~= orig.skip(0));
        assert(orig.take(0) =~= Seq::<FileEntry>::empty());
    }
    while rest.len() > 0
        invariant
            0 <= consumed <= orig.len(),
            rest@ == orig.skip(consumed),
            visible@ == spec_visible(orig.take(consumed)),
        decreases rest@.len(),
    {
        let entry = rest.remove(0);
        proof {
            assert(orig.skip(consumed)[0] == orig[consumed]);
            assert(orig.skip(consumed).remove(0) =~= orig.skip(consumed + 1));
            assert(orig.take(consumed + 1).drop_last() =~= orig.take(consumed));
            assert(orig.take(consumed + 1).last() == orig[consumed]);
        }
        let hidden = is_hidden(&entry.name);
        if !hidden {
            visible.push(entry);
        }
        proof {
            consumed = consumed + 1;
        }
    }
    proof {
        assert(orig.take(consumed) =~= orig);
    }
    sort_entries(visible)
}

} // verus!
