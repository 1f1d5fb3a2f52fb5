//! The decision logic of the upward directory walk. The walk itself lists
//! each ancestor directory in turn, from the starting directory toward the
//! filesystem root; this module decides, from the entry names of each
//! listing, which listing holds the nearest recognized manifest and of which
//! kind. Listing directories is I/O and stays with the caller.

use vstd::prelude::*;
use crate::ManifestKind;

verus! {

/// The manifest kind that an entry name identifies, if any. An entry name is
/// compared case-sensitively against the two recognized manifest filenames;
/// the systems-package filename is tried first.
pub open spec fn entry_kind(e: Seq<char>) -> Option<ManifestKind> {
    if e == ManifestKind::SystemsPackage.spec_filename() {
        Some(ManifestKind::SystemsPackage)
    } else if e == ManifestKind::ScriptingProject.spec_filename() {
        Some(ManifestKind::ScriptingProject)
    } else {
        None
    }
}

/// The kind of the first entry, in listing order, whose name is a recognized
/// manifest filename; `None` when the listing holds no such entry.
pub open spec fn first_match(entries: Seq<Seq<char>>) -> Option<ManifestKind>
    decreases entries.len(),
{
    if entries.len() == 0 {
        None
    } else if entry_kind(entries[0]) is Some {
        entry_kind(entries[0])
    } else {
        first_match(entries.skip(1))
    }
}

/// The views of a listing's entry names.
pub open spec fn names_of(entries: Seq<String>) -> Seq<Seq<char>> {
    entries.map_values(|s: String| s@)
}

/// When no entry among the first `i` is a recognized manifest filename, the
/// first match of the whole listing is the first match of the rest.
proof fn lemma_first_match_skip(s: Seq<Seq<char>>, i: int)
    requires
        0 <= i <= s.len(),
        forall|j: int| 0 <= j < i ==> entry_kind(s[j]) is None,
    ensures
        first_match(s) == first_match(s.skip(i)),
    decreases i,
{
    if i > 0 {
        lemma_first_match_skip(s.skip(1), i - 1);
        assert(s.skip(1).skip(i - 1) =~= s.skip(i));
    } else {
        assert(s.skip(0) =~= s);
    }
}

/// Decide whether a directory listing holds a recognized manifest: the kind
/// of the first entry, in listing order, whose name is a recognized manifest
/// filename.
pub fn match_entries(entries: &Vec<String>) -> (r: Option<ManifestKind>)
    ensures
        r == first_match(names_of(entries@)),
{
    let cargo = ManifestKind::SystemsPackage.filename();
    let py = ManifestKind::ScriptingProject.filename();
    let ghost names = names_of(entries@);
    let mut i: usize = 0;
    while i < entries.len()
        invariant
            i <= entries.len(),
            names == names_of(entries@),
            cargo@ == ManifestKind::SystemsPackage.spec_filename(),
            py@ == ManifestKind::ScriptingProject.spec_filename(),
            forall|j: int| 0 <= j < i ==> entry_kind(names[j]) is None,
        decreases entries.len() - i,
    {
        let r = if entries[i].eq(&cargo) {
            Some(ManifestKind::SystemsPackage)
        } else if entries[i].eq(&py) {
            Some(ManifestKind::ScriptingProject)
        } else {
            None
        };
        if r.is_some() {
            proof {
                lemma_first_match_skip(names, i as int);
                assert(names.skip(i as int)[0] == names[i as int]);
            }
            return r;
        }
        i += 1;
    }
    proof {
        lemma_first_match_skip(names, i as int);
        assert(names.skip(i as int) =~= Seq::<Seq<char>>::empty());
    }
    None
}

/// Find the nearest listing that holds a recognized manifest. `listings`
/// are the entry names of the starting directory and of each of its
/// ancestors in turn, nearest first. The result names the first listing
/// with a manifest — never a farther one — and the manifest's kind; it is
/// `None` exactly when no listing holds a recognized manifest.
pub fn locate(listings: &Vec<Vec<String>>) -> (r: Option<(usize, ManifestKind)>)
    ensures
        (match r {
            Some((i, k)) => i < listings@.len()
                && first_match(names_of(listings@[i as int]@)) == Some(k)
                && (forall|j: int| 0 <= j < i ==> first_match(names_of(listings@[j]@)) is None),
            None => forall|j: int| 0 <= j < listings@.len()
                ==> first_match(names_of(listings@[j]@)) is None,
        }),
{
    let mut i: usize = 0;
    while i < listings.len()
        invariant
            i <= listings.len(),
            forall|j: int| 0 <= j < i ==> first_match(names_of(listings@[j]@)) is None,
        decreases listings.len() - i,
    {
        match match_entries(&listings[i]) {
            Some(k) => {
                return Some((i, k));
            }
            None => {}
        }
        i += 1;
    }
    None
}

} // verus!
