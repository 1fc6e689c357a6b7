//! Search-term generation: a small ordered list of non-empty lowercase
//! tokens derived from a program's name and install location, used as
//! substring-match keys by both scanners.  A degenerate identity (an empty
//! name, a name that is all spaces) simply yields fewer tokens: an empty
//! token would be a substring of every name and would have the scanners
//! flag everything, so none is ever produced.

use vstd::prelude::*;
use crate::aggregate::{dedup_adjacent, lemma_dedup_adjacent_elements, lemma_dedup_adjacent_last};
use crate::item::ProgramInfo;
use crate::platform::{file_name_of, path_file_name};
use crate::text::{lower_of, to_lowercase, remove_spaces, without_spaces};

verus! {

/// The install location of a program, as a character sequence.
pub open spec fn location_view(p: ProgramInfo) -> Option<Seq<char>> {
    match p.install_location {
        Some(l) => Some(l@),
        None => None,
    }
}

/// The terms as first constructed: the lowercased name, the lowercased name
/// with spaces removed, and — when an install location is present and has a
/// final path component — that component, lowercased.
pub open spec fn raw_terms(name: Seq<char>, install_location: Option<Seq<char>>) -> Seq<
    Seq<char>,
> {
    let base = seq![lower_of(name), lower_of(without_spaces(name))];
    match install_location {
        Some(p) => match file_name_of(p) {
            Some(f) => base.push(lower_of(f)),
            None => base,
        },
        None => base,
    }
}

/// The raw terms with every empty token removed: an empty token matches
/// everything and is never used.
pub open spec fn nonempty_tokens(tokens: Seq<Seq<char>>) -> Seq<Seq<char>> {
    tokens.filter(|t: Seq<char>| t.len() > 0)
}

/// The search terms of a program: the non-empty raw terms with consecutive
/// duplicates collapsed.  Only adjacent duplicates are removed; callers must
/// not rely on order-independent uniqueness.
pub open spec fn search_terms_of(name: Seq<char>, install_location: Option<Seq<char>>) -> Seq<
    Seq<char>,
> {
    dedup_adjacent(nonempty_tokens(raw_terms(name, install_location)))
}

/// Keeping or dropping one more token commutes with the filter.
proof fn lemma_nonempty_tokens_push(tokens: Seq<Seq<char>>, t: Seq<char>)
    ensures
        nonempty_tokens(tokens.push(t)) == if t.len() > 0 {
            nonempty_tokens(tokens).push(t)
        } else {
            nonempty_tokens(tokens)
        },
{
    reveal(Seq::filter);
    assert(tokens.push(t).drop_last() =~= tokens);
    assert(tokens.push(t).last() == t);
}

/// Collapses consecutive equal strings, keeping the first of each run.
fn dedup_strings(items: Vec<String>) -> (r: Vec<String>)
    ensures
        r.deep_view() == dedup_adjacent(items.deep_view()),
{
    let mut out: Vec<String> = Vec::new();
    let n = items.len();
    let mut idx: usize = 0;
    proof {
        assert(out.deep_view() =~= Seq::<Seq<char>>::empty());
        assert(items.deep_view().take(0) =~= dedup_adjacent(items.deep_view().take(0)));
    }
    while idx < n
        invariant
            idx <= n,
            n == items@.len(),
            out.deep_view() == dedup_adjacent(items.deep_view().take(idx as int)),
        decreases n - idx,
    {
        let item = items[idx].clone();
        proof {
            assert(items.deep_view().take(idx + 1).drop_last() =~= items.deep_view().take(
                idx as int,
            ));
            assert(items.deep_view().take(idx + 1).last() == items@[idx as int]@);
        }
        if out.len() == 0 {
            proof {
                if idx > 0 {
                    lemma_dedup_adjacent_last(items.deep_view().take(idx as int));
                }
                assert(idx == 0);
            }
            let ghost pre = out.deep_view();
            out.push(item);
            proof {
                assert(out.deep_view() =~= pre.push(item@));
                assert(items.deep_view().take(1) =~= pre.push(item@));
            }
        } else {
            let prev = &out[out.len() - 1];
            proof {
                lemma_dedup_adjacent_last(items.deep_view().take(idx as int));
            }
            if prev.eq(&item) {
                proof {
                    assert(items.deep_view().take(idx + 1)[idx as int] == items.deep_view().take(
                        idx + 1,
                    )[idx - 1]);
                    assert(dedup_adjacent(items.deep_view().take(idx + 1)) == out.deep_view());
                }
            } else {
                proof {
                    assert(items.deep_view().take(idx + 1)[idx as int] != items.deep_view().take(
                        idx + 1,
                    )[idx - 1]);
                }
                let ghost pre = out.deep_view();
                out.push(item);
                proof {
                    assert(out.deep_view() =~= pre.push(item@));
                }
            }
        }
        idx += 1;
    }
    proof {
        assert(items.deep_view().take(n as int) =~= items.deep_view());
    }
    out
}

/// Derives the search terms from a program's identity.  Always succeeds;
/// degenerate inputs simply yield fewer tokens, and no returned token is
/// ever empty.
pub fn generate_search_terms(program: &ProgramInfo) -> (r: Vec<String>)
    ensures
        r.deep_view() == search_terms_of(program.name@, location_view(*program)),
        forall|i: int| 0 <= i < r@.len() ==> #[trigger] r.deep_view()[i].len() > 0,
{
    let ghost name = program.name@;
    let ghost location = location_view(*program);
    let mut raw: Vec<String> = Vec::new();
    let ghost g0: Seq<Seq<char>> = Seq::empty();
    proof {
        reveal(Seq::filter);
        assert(raw.deep_view() =~= nonempty_tokens(g0));
    }
    let folded_name = to_lowercase(program.name.as_str());
    let ghost g1 = g0.push(lower_of(name));
    proof {
        lemma_nonempty_tokens_push(g0, lower_of(name));
    }
    if !folded_name.as_str().is_empty() {
        let ghost pre = raw.deep_view();
        raw.push(folded_name);
        proof {
            assert(raw.deep_view() =~= pre.push(lower_of(name)));
        }
    }
    let spaceless = remove_spaces(program.name.as_str());
    let folded_spaceless = to_lowercase(spaceless.as_str());
    let ghost g2 = g1.push(lower_of(without_spaces(name)));
    proof {
        lemma_nonempty_tokens_push(g1, lower_of(without_spaces(name)));
    }
    if !folded_spaceless.as_str().is_empty() {
        let ghost pre = raw.deep_view();
        raw.push(folded_spaceless);
        proof {
            assert(raw.deep_view() =~= pre.push(lower_of(without_spaces(name))));
        }
    }
    let ghost g_all = raw_terms(name, location);
    match &program.install_location {
        Some(loc) => {
            match path_file_name(loc.as_str()) {
                Some(folder_name) => {
                    let folded_folder = to_lowercase(folder_name.as_str());
                    proof {
                        let f = (match file_name_of(loc@) {
                            Some(f) => f,
                            None => Seq::empty(),
                        });
                        lemma_nonempty_tokens_push(g2, lower_of(f));
                        assert(g_all == g2.push(lower_of(f)));
                    }
                    if !folded_folder.as_str().is_empty() {
                        let ghost pre = raw.deep_view();
                        raw.push(folded_folder);
                        proof {
                            assert(raw.deep_view() =~= pre.push(folded_folder@));
                        }
                    }
                },
                None => {
                    proof {
                        assert(g_all =~= g2);
                    }
                },
            }
        },
        None => {
            proof {
                assert(g_all =~= g2);
            }
        },
    }
    proof {
        assert(raw.deep_view() == nonempty_tokens(g_all));
    }
    let out = dedup_strings(raw);
    proof {
        lemma_dedup_adjacent_elements(nonempty_tokens(g_all));
        assert forall|i: int| 0 <= i < out@.len() implies #[trigger] out.deep_view()[i].len()
            > 0 by {
            let ne = nonempty_tokens(g_all);
            assert(ne.contains(out.deep_view()[i]));
            let j = choose|j: int| 0 <= j < ne.len() && ne[j] == out.deep_view()[i];
            g_all.lemma_filter_pred(|t: Seq<char>| t.len() > 0, j);
        }
    }
    out
}

} // verus!
