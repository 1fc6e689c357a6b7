//! Scanning for leftovers: filesystem entries and registry subkey names are
//! matched case-insensitively against the search terms, at any depth for the
//! filesystem walk and one level deep for the registry.

use vstd::prelude::*;
use crate::item::{FoundItem, ItemView, ProgramInfo};
use crate::platform::{config_dir, data_dir, data_local_dir, path_exists, walk_tree};
use crate::text::{lower_of, matches_any, to_lowercase, contains_any_term};

verus! {

/// One entry met during a directory walk: its full path, its final name,
/// and whether it is a directory.
pub struct FsEntry {
    pub path: String,
    pub name: String,
    pub is_dir: bool,
}

/// The artifact a matching entry turns into: the directory itself for a
/// directory (its contents are not separately enumerated), a file otherwise.
pub open spec fn entry_item(e: FsEntry) -> ItemView {
    if e.is_dir {
        ItemView::Directory(e.path@)
    } else {
        ItemView::File(e.path@)
    }
}

/// The candidates among a walk's entries: every entry whose lowercased name
/// contains one of the terms, in walk order.
pub open spec fn fs_matches_of(entries: Seq<FsEntry>, terms: Seq<Seq<char>>) -> Seq<ItemView>
    decreases entries.len(),
{
    if entries.len() == 0 {
        Seq::empty()
    } else {
        let rest = fs_matches_of(entries.drop_last(), terms);
        let e = entries.last();
        if matches_any(lower_of(e.name@), terms) {
            rest.push(entry_item(e))
        } else {
            rest
        }
    }
}

/// Filters a walk's entries down to the candidates that match the terms.
pub fn match_entries(entries: &Vec<FsEntry>, terms: &Vec<String>) -> (r: Vec<FoundItem>)
    ensures
        crate::aggregate::views_of(r@) == fs_matches_of(entries@, terms.deep_view()),
{
    let mut out: Vec<FoundItem> = Vec::new();
    let n = entries.len();
    let mut idx: usize = 0;
    proof {
        assert(crate::aggregate::views_of(out@) =~= Seq::<ItemView>::empty());
        assert(entries@.take(0) =~= Seq::<FsEntry>::empty());
    }
    while idx < n
        invariant
            idx <= n,
            n == entries@.len(),
            crate::aggregate::views_of(out@) == fs_matches_of(
                entries@.take(idx as int),
                terms.deep_view(),
            ),
        decreases n - idx,
    {
        proof {
            assert(entries@.take(idx + 1).drop_last() =~= entries@.take(idx as int));
            assert(entries@.take(idx + 1).last() == entries@[idx as int]);
        }
        let folded = to_lowercase(entries[idx].name.as_str());
        if contains_any_term(folded.as_str(), terms) {
            let path = entries[idx].path.clone();
            let item = if entries[idx].is_dir {
                FoundItem::Directory(path)
            } else {
                FoundItem::File(path)
            };
            proof {
                assert(item@ == entry_item(entries@[idx as int]));
                assert(crate::aggregate::views_of(out@.push(item)) =~= crate::aggregate::views_of(
                    out@,
                ).push(item@));
            }
            out.push(item);
        }
        idx += 1;
    }
    proof {
        assert(entries@.take(n as int) =~= entries@);
    }
    out
}

/// A fully-qualified registry key path: the root's display prefix, a
/// backslash, and the subkey name.
pub open spec fn joined_key(prefix: Seq<char>, name: Seq<char>) -> Seq<char> {
    prefix + seq!['\\'] + name
}

/// The candidates among one registry root's direct subkeys: every name
/// whose lowercased form contains one of the terms, rendered as a
/// fully-qualified key under the root's display prefix.
pub open spec fn reg_matches_of(names: Seq<Seq<char>>, prefix: Seq<char>, terms: Seq<Seq<char>>)
    -> Seq<ItemView>
    decreases names.len(),
{
    if names.len() == 0 {
        Seq::empty()
    } else {
        let rest = reg_matches_of(names.drop_last(), prefix, terms);
        let name = names.last();
        if matches_any(lower_of(name), terms) {
            rest.push(ItemView::RegistryKey(joined_key(prefix, name)))
        } else {
            rest
        }
    }
}

/// Filters one registry root's direct subkey names down to the candidates
/// that match the terms.
pub fn match_registry_names(names: &Vec<String>, prefix: &str, terms: &Vec<String>) -> (r: Vec<
    FoundItem,
>)
    ensures
        crate::aggregate::views_of(r@) == reg_matches_of(names.deep_view(), prefix@,
            terms.deep_view()),
{
    let mut out: Vec<FoundItem> = Vec::new();
    let n = names.len();
    let mut idx: usize = 0;
    proof {
        assert(crate::aggregate::views_of(out@) =~= Seq::<ItemView>::empty());
        assert(names.deep_view().take(0) =~= Seq::<Seq<char>>::empty());
    }
    while idx < n
        invariant
            idx <= n,
            n == names@.len(),
            crate::aggregate::views_of(out@) == reg_matches_of(
                names.deep_view().take(idx as int),
                prefix@,
                terms.deep_view(),
            ),
        decreases n - idx,
    {
        proof {
            assert(names.deep_view().take(idx + 1).drop_last() =~= names.deep_view().take(
                idx as int,
            ));
            assert(names.deep_view().take(idx + 1).last() == names@[idx as int]@);
        }
        let folded = to_lowercase(names[idx].as_str());
        if contains_any_term(folded.as_str(), terms) {
            let mut key = String::from_str(prefix);
            key.append("\\");
            key.append(names[idx].as_str());
            proof {
                reveal_strlit("\\");
                assert("\\"@ =~= seq!['\\']);
                assert(key@ == joined_key(prefix@, names@[idx as int]@));
            }
            let item = FoundItem::RegistryKey(key);
            proof {
                assert(crate::aggregate::views_of(out@.push(item)) =~= crate::aggregate::views_of(
                    out@,
                ).push(item@));
            }
            out.push(item);
        }
        idx += 1;
    }
    proof {
        assert(names.deep_view().take(n as int) =~= names.deep_view());
    }
    out
}

/// The fixed filesystem roots a scan walks: the per-user local-data,
/// roaming-data and configuration directories, the per-user local-data
/// directory once more as a stand-in for the machine-wide application-data
/// root (a known limitation), and the program's install location
/// when it exists on disk.  Roots the platform does not define are left
/// out.
pub fn candidate_roots(program: &ProgramInfo) -> (r: Vec<String>)
    ensures
        r@.len() <= 5,
        program.install_location is None ==> r@.len() <= 4,
{
    let mut roots: Vec<String> = Vec::new();
    match data_local_dir() {
        Some(d) => roots.push(d),
        None => {},
    }
    match data_dir() {
        Some(d) => roots.push(d),
        None => {},
    }
    match config_dir() {
        Some(d) => roots.push(d),
        None => {},
    }
    // stand-in for the machine-wide application-data directory
    match data_local_dir() {
        Some(d) => roots.push(d),
        None => {},
    }
    match &program.install_location {
        Some(location) => {
            if path_exists(location.as_str()) {
                roots.push(location.clone());
            }
        },
        None => {},
    }
    roots
}

/// The matches of a sequence of walks, one per root, in walk order.
pub open spec fn walks_matches_of(walks: Seq<Seq<FsEntry>>, terms: Seq<Seq<char>>) -> Seq<
    ItemView,
>
    decreases walks.len(),
{
    if walks.len() == 0 {
        Seq::empty()
    } else {
        walks_matches_of(walks.drop_last(), terms) + fs_matches_of(walks.last(), terms)
    }
}

/// Walks every candidate root and collects the matching artifacts, in walk
/// order.  What each walk meets depends on the disk; whatever it met, the
/// result holds exactly the matches of those walks, root by root — so it
/// never holds a registry key.
pub fn scan_filesystem(program: &ProgramInfo, terms: &Vec<String>) -> (r: Vec<FoundItem>)
    ensures
        exists|walks: Seq<Seq<FsEntry>>|
            crate::aggregate::views_of(r@) == #[trigger] walks_matches_of(
                walks,
                terms.deep_view(),
            ),
        forall|i: int|
            0 <= i < r@.len() ==> !(#[trigger] r@[i]@ is RegistryKey),
{
    let roots = candidate_roots(program);
    let mut results: Vec<FoundItem> = Vec::new();
    let ghost mut walks: Seq<Seq<FsEntry>> = Seq::empty();
    let n = roots.len();
    let mut idx: usize = 0;
    proof {
        assert(crate::aggregate::views_of(results@) =~= walks_matches_of(
            walks,
            terms.deep_view(),
        ));
    }
    while idx < n
        invariant
            idx <= n,
            n == roots@.len(),
            crate::aggregate::views_of(results@) == walks_matches_of(walks, terms.deep_view()),
            forall|i: int| 0 <= i < results@.len() ==> !(#[trigger] results@[i]@ is RegistryKey),
        decreases n - idx,
    {
        let entries = walk_tree(roots[idx].as_str());
        let mut matched = match_entries(&entries, terms);
        proof {
            lemma_fs_matches_no_registry(entries@, terms.deep_view());
        }
        let ghost kept = results@;
        let ghost found = matched@;
        results.append(&mut matched);
        proof {
            let prev_walks = walks;
            walks = walks.push(entries@);
            assert(walks.drop_last() =~= prev_walks);
            assert(walks.last() == entries@);
            assert(walks_matches_of(walks, terms.deep_view()) == walks_matches_of(
                prev_walks,
                terms.deep_view(),
            ) + fs_matches_of(entries@, terms.deep_view()));
            assert(crate::aggregate::views_of(kept + found) =~= crate::aggregate::views_of(kept)
                + crate::aggregate::views_of(found));
            assert forall|i: int| 0 <= i < results@.len() implies !(#[trigger] results@[i]@
                is RegistryKey) by {
                if i >= kept.len() {
                    assert(results@[i] == found[i - kept.len()]);
                    assert(crate::aggregate::views_of(found)[i - kept.len()] == found[i
                        - kept.len()]@);
                }
            }
        }
        idx += 1;
    }
    results
}

/// Filesystem matching yields only file and directory artifacts.
proof fn lemma_fs_matches_no_registry(entries: Seq<FsEntry>, terms: Seq<Seq<char>>)
    ensures
        forall|i: int|
            0 <= i < fs_matches_of(entries, terms).len() ==> !(#[trigger] fs_matches_of(
                entries,
                terms,
            )[i] is RegistryKey),
    decreases entries.len(),
{
    if entries.len() > 0 {
        lemma_fs_matches_no_registry(entries.drop_last(), terms);
    }
}

} // verus!
