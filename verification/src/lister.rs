//! Package enumeration from a synchronized source tree.
//!
//! The buildable packages are the directories exactly two levels below
//! the tree root, excluding anything under a version-control metadata
//! segment and the reserved top-level `groups` and `assets` directories.
//! The walk itself is the caller's; this module decides, entry by entry,
//! what is a package.

use vstd::prelude::*;
use vstd::string::{StrSliceExecFns, StringExecFns};

verus! {

/// One entry of the walked tree, two levels below the root: its full
/// path, its final path segment, and whether it is a directory.
pub struct TreeEntry {
    pub path: String,
    pub file_name: String,
    pub is_dir: bool,
}

/// `sub` occurs contiguously somewhere in `s`.
pub open spec fn has_substring(s: Seq<char>, sub: Seq<char>) -> bool {
    exists|i: int| 0 <= i && i + sub.len() <= s.len() && #[trigger] s.subrange(i, i + sub.len())
        == sub
}

/// `p` is a prefix of `s`.
pub open spec fn has_prefix(s: Seq<char>, p: Seq<char>) -> bool {
    p.len() <= s.len() && s.subrange(0, p.len() as int) == p
}

/// Whether `sub` occurs in `s` starting at `at`.
fn match_at(s: &String, sub: &String, at: usize, s_len: usize, sub_len: usize) -> (r: bool)
    requires
        s_len == s@.len(),
        sub_len == sub@.len(),
        at + sub_len <= s_len,
    ensures
        r == (s@.subrange(at as int, at + sub@.len()) == sub@),
{
    for j in 0..sub_len
        invariant
            s_len == s@.len(),
            sub_len == sub@.len(),
            at + sub_len <= s_len,
            forall|k: int| 0 <= k < j ==> s@[at + k] == sub@[k],
    {
        if s.as_str().get_char(at + j) != sub.as_str().get_char(j) {
            assert(s@.subrange(at as int, at + sub@.len()) != sub@) by {
                if s@.subrange(at as int, at + sub@.len()) == sub@ {
                    assert(s@.subrange(at as int, at + sub@.len())[j as int] == s@[at + j]);
                }
            }
            return false;
        }
    }
    assert(s@.subrange(at as int, at + sub@.len()) =~= sub@);
    true
}

/// Whether `sub` occurs contiguously anywhere in `s`.
pub fn str_has_substring(s: &String, sub: &String) -> (r: bool)
    ensures
        r == has_substring(s@, sub@),
{
    let s_len = s.as_str().unicode_len();
    let sub_len = sub.as_str().unicode_len();
    if sub_len > s_len {
        return false;
    }
    if sub_len == 0 {
        assert(s@.subrange(0, 0 + sub@.len() as int) =~= sub@);
        return true;
    }
    let last = s_len - sub_len;
    let mut i: usize = 0;
    while i <= last
        invariant
            s_len == s@.len(),
            sub_len == sub@.len(),
            sub_len >= 1,
            last == s_len - sub_len,
            i <= last + 1,
            forall|k: int| 0 <= k < i ==> #[trigger] s@.subrange(k, k + sub@.len()) != sub@,
        decreases last + 1 - i,
    {
        if match_at(s, sub, i, s_len, sub_len) {
            return true;
        }
        i = i + 1;
    }
    false
}

/// Whether `p` is a prefix of `s`.
pub fn str_has_prefix(s: &String, p: &String) -> (r: bool)
    ensures
        r == has_prefix(s@, p@),
{
    let s_len = s.as_str().unicode_len();
    let p_len = p.as_str().unicode_len();
    if p_len > s_len {
        return false;
    }
    match_at(s, p, 0, s_len, p_len)
}

/// Whether an entry's path is housekeeping rather than a package: a
/// version-control metadata segment anywhere in it, or a home under the
/// reserved top-level `groups` or `assets` directories. The reserved
/// prefixes end at a path-component boundary, so a top-level directory
/// that merely begins with one of the reserved names (`groups2`, say) is
/// not reserved; entries sit exactly two levels below the root, so the
/// separator is always there when the component matches.
pub open spec fn excluded(root: Seq<char>, path: Seq<char>) -> bool {
    ||| has_substring(path, "/.git"@)
    ||| has_prefix(path, root + "/groups/"@)
    ||| has_prefix(path, root + "/assets/"@)
}

/// Whether an entry names a buildable package directory.
pub open spec fn keeps(root: Seq<char>, e: TreeEntry) -> bool {
    e.is_dir && !excluded(root, e.path@)
}

/// The package names the walked entries yield, in enumeration order.
pub open spec fn spec_list(root: Seq<char>, entries: Seq<TreeEntry>) -> Seq<Seq<char>>
    decreases entries.len(),
{
    if entries.len() == 0 {
        Seq::empty()
    } else {
        let rest = spec_list(root, entries.drop_last());
        if keeps(root, entries.last()) {
            rest.push(entries.last().file_name@)
        } else {
            rest
        }
    }
}

/// Filter the walked entries down to the buildable package names, keeping
/// enumeration order: directories two levels deep, no version-control
/// metadata segment in the path, nothing under the reserved `groups` and
/// `assets` top-level directories.
pub fn list_packages(root: &String, entries: &Vec<TreeEntry>) -> (r: Vec<String>)
    ensures
        r.deep_view() == spec_list(root@, entries@),
{
    let git = String::from_str("/.git");
    let mut groups = root.clone();
    groups.append("/groups/");
    let mut assets = root.clone();
    assets.append("/assets/");
    let mut out: Vec<String> = Vec::new();
    let n = entries.len();
    for i in 0..n
        invariant
            n == entries@.len(),
            git@ == "/.git"@,
            groups@ == root@ + "/groups/"@,
            assets@ == root@ + "/assets/"@,
            out.deep_view() == spec_list(root@, entries@.subrange(0, i as int)),
    {
        let e = &entries[i];
        assert(entries@.subrange(0, i + 1).drop_last() =~= entries@.subrange(0, i as int));
        assert(entries@.subrange(0, i + 1).last() == entries@[i as int]);
        if e.is_dir && !str_has_substring(&e.path, &git) && !str_has_prefix(&e.path, &groups)
            && !str_has_prefix(&e.path, &assets) {
            out.push(e.file_name.clone());
            assert(out.deep_view() =~= spec_list(root@, entries@.subrange(0, i + 1)));
        } else {
            assert(out.deep_view() =~= spec_list(root@, entries@.subrange(0, i + 1)));
        }
    }
    assert(entries@.subrange(0, n as int) =~= entries@);
    out
}

} // verus!
