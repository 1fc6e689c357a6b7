//! Candidate artifacts found by a scan, their canonical textual rendering,
//! and the program identity a scan starts from.

use vstd::prelude::*;
use crate::text::{lex_le, lemma_lex_le_refl, lemma_lex_le_total, lemma_lex_le_antisym,
    lemma_lex_le_trans};
use vstd::relations::total_ordering;

verus! {

/// A program as the external enumerator reports it: a display name, a display
/// version, and optionally the path it was installed to.  The install
/// location, when present, need not exist on disk.
#[derive(Debug, PartialEq, Eq)]
pub struct ProgramInfo {
    pub name: String,
    pub version: String,
    pub install_location: Option<String>,
}

impl Clone for ProgramInfo {
    fn clone(&self) -> (res: Self)
        ensures
            res == *self,
    {
        ProgramInfo {
            name: self.name.clone(),
            version: self.version.clone(),
            install_location: match &self.install_location {
                Some(l) => Some(l.clone()),
                None => None,
            },
        }
    }
}

/// A leftover artifact: a file, a directory (one artifact, contents not
/// enumerated separately), or a fully-qualified registry key path of the form
/// `<HIVE_NAME>\<subpath>`.
#[derive(Debug, PartialEq, Eq)]
pub enum FoundItem {
    File(String),
    Directory(String),
    RegistryKey(String),
}

/// The mathematical model of a candidate artifact: the same three variants
/// over character sequences.
pub enum ItemView {
    File(Seq<char>),
    Directory(Seq<char>),
    RegistryKey(Seq<char>),
}

impl View for FoundItem {
    type V = ItemView;

    open spec fn view(&self) -> ItemView {
        match self {
            FoundItem::File(p) => ItemView::File(p@),
            FoundItem::Directory(p) => ItemView::Directory(p@),
            FoundItem::RegistryKey(k) => ItemView::RegistryKey(k@),
        }
    }
}

impl Clone for FoundItem {
    fn clone(&self) -> (res: Self)
        ensures
            res == *self,
    {
        match self {
            FoundItem::File(p) => FoundItem::File(p.clone()),
            FoundItem::Directory(p) => FoundItem::Directory(p.clone()),
            FoundItem::RegistryKey(k) => FoundItem::RegistryKey(k.clone()),
        }
    }
}

/// The canonical textual rendering of an artifact.  It serves both as the
/// display form and as the sort and deduplication key, so it is part of the
/// data contract.
pub open spec fn render_view(v: ItemView) -> Seq<char> {
    match v {
        ItemView::File(p) => "[File] "@ + p,
        ItemView::Directory(p) => "[Folder] "@ + p,
        ItemView::RegistryKey(k) => "[Registry] "@ + k,
    }
}

impl FoundItem {
    /// Renders the artifact in its canonical textual form.
    pub fn render(&self) -> (r: String)
        ensures
            r@ == render_view(self@),
    {
        match self {
            FoundItem::File(p) => {
                let mut s = String::from_str("[File] ");
                s.append(p.as_str());
                s
            },
            FoundItem::Directory(p) => {
                let mut s = String::from_str("[Folder] ");
                s.append(p.as_str());
                s
            },
            FoundItem::RegistryKey(k) => {
                let mut s = String::from_str("[Registry] ");
                s.append(k.as_str());
                s
            },
        }
    }
}

/// Two artifacts with the same canonical rendering are the same artifact:
/// the rendering is injective, which makes it a sound deduplication key.
pub proof fn lemma_render_injective(a: ItemView, b: ItemView)
    requires
        render_view(a) == render_view(b),
    ensures
        a == b,
{
    reveal_strlit("[File] ");
    reveal_strlit("[Folder] ");
    reveal_strlit("[Registry] ");
    let ra = render_view(a);
    let rb = render_view(b);
    match a {
        ItemView::File(p1) => match b {
            ItemView::File(p2) => {
                assert(p1 =~= p2) by {
                    assert("[File] "@.len() == 7);
                    assert(ra.len() == 7 + p1.len());
                    assert(rb.len() == 7 + p2.len());
                    assert(p1.len() == p2.len());
                    assert forall|i: int| 0 <= i < p1.len() implies p1[i] == p2[i] by {
                        assert(ra[7 + i] == p1[i]);
                        assert(rb[7 + i] == p2[i]);
                    }
                }
            },
            ItemView::Directory(_) => {
                assert(ra[2] == 'i' && rb[2] == 'o');
            },
            ItemView::RegistryKey(_) => {
                assert(ra[1] == 'F' && rb[1] == 'R');
            },
        },
        ItemView::Directory(p1) => match b {
            ItemView::File(_) => {
                assert(ra[2] == 'o' && rb[2] == 'i');
            },
            ItemView::Directory(p2) => {
                assert(p1 =~= p2) by {
                    assert("[Folder] "@.len() == 9);
                    assert(ra.len() == 9 + p1.len());
                    assert(rb.len() == 9 + p2.len());
                    assert(p1.len() == p2.len());
                    assert forall|i: int| 0 <= i < p1.len() implies p1[i] == p2[i] by {
                        assert(ra[9 + i] == p1[i]);
                        assert(rb[9 + i] == p2[i]);
                    }
                }
            },
            ItemView::RegistryKey(_) => {
                assert(ra[1] == 'F' && rb[1] == 'R');
            },
        },
        ItemView::RegistryKey(k1) => match b {
            ItemView::File(_) => {
                assert(ra[1] == 'R' && rb[1] == 'F');
            },
            ItemView::Directory(_) => {
                assert(ra[1] == 'R' && rb[1] == 'F');
            },
            ItemView::RegistryKey(k2) => {
                assert(k1 =~= k2) by {
                    assert("[Registry] "@.len() == 11);
                    assert(ra.len() == 11 + k1.len());
                    assert(rb.len() == 11 + k2.len());
                    assert(k1.len() == k2.len());
                    assert forall|i: int| 0 <= i < k1.len() implies k1[i] == k2[i] by {
                        assert(ra[11 + i] == k1[i]);
                        assert(rb[11 + i] == k2[i]);
                    }
                }
            },
        },
    }
}

/// The canonical order on artifacts: lexicographic on their renderings.
pub open spec fn item_le(a: ItemView, b: ItemView) -> bool {
    lex_le(render_view(a), render_view(b))
}

/// The canonical order as a relation value, for use with ordering lemmas.
pub open spec fn item_leq() -> spec_fn(ItemView, ItemView) -> bool {
    |a: ItemView, b: ItemView| item_le(a, b)
}

/// The canonical order on artifacts is a total order.
pub proof fn lemma_item_leq_total_ordering()
    ensures
        total_ordering(item_leq()),
{
    let leq = item_leq();
    assert forall|x: ItemView| #[trigger] leq(x, x) by {
        lemma_lex_le_refl(render_view(x));
    }
    assert forall|x: ItemView, y: ItemView| #[trigger] leq(x, y) && #[trigger] leq(y, x)
        implies x == y by {
        lemma_lex_le_antisym(render_view(x), render_view(y));
        lemma_render_injective(x, y);
    }
    assert forall|x: ItemView, y: ItemView, z: ItemView|
        #[trigger] leq(x, y) && #[trigger] leq(y, z) implies leq(x, z) by {
        lemma_lex_le_trans(render_view(x), render_view(y), render_view(z));
    }
    assert forall|x: ItemView, y: ItemView| #[trigger] leq(x, y) || #[trigger] leq(y, x) by {
        lemma_lex_le_total(render_view(x), render_view(y));
    }
}

} // verus!
