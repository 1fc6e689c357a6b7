//! Registry key paths: the recognized hives and the parsing of a
//! fully-qualified key path `<HIVE_NAME>\<subpath>` into hive, parent and
//! leaf, as deletion needs them.

use vstd::prelude::*;
use crate::text::str_eq;

verus! {

/// A recognized registry hive.
#[derive(Debug, Clone, Copy, PartialEq, Eq, Structural)]
pub enum Hive {
    LocalMachine,
    CurrentUser,
}

impl Hive {
    /// The display name of the hive, as it opens a fully-qualified key path.
    pub open spec fn display_name(self) -> Seq<char> {
        match self {
            Hive::LocalMachine => "HKEY_LOCAL_MACHINE"@,
            Hive::CurrentUser => "HKEY_CURRENT_USER"@,
        }
    }
}

/// `i` is the position of the first backslash of `s`.
pub open spec fn first_sep(s: Seq<char>, i: int) -> bool {
    0 <= i < s.len() && s[i] == '\\' && (forall|j: int| 0 <= j < i ==> s[j] != '\\')
}

/// `i` is the position of the last backslash of `s`.
pub open spec fn last_sep(s: Seq<char>, i: int) -> bool {
    0 <= i < s.len() && s[i] == '\\' && (forall|j: int| i < j < s.len() ==> s[j] != '\\')
}

/// `s` holds no backslash at all.
pub open spec fn no_sep(s: Seq<char>) -> bool {
    forall|j: int| 0 <= j < s.len() ==> s[j] != '\\'
}

/// A key path with no separator cannot name a hive and a subpath.
pub open spec fn malformed(key: Seq<char>) -> bool {
    no_sep(key)
}

/// The text before the first separator names no recognized hive.
pub open spec fn unknown_hive(key: Seq<char>) -> bool {
    exists|i: int|
        #[trigger] first_sep(key, i) && key.subrange(0, i) != Hive::LocalMachine.display_name()
            && key.subrange(0, i) != Hive::CurrentUser.display_name()
}

/// The parsed form of a fully-qualified registry key path: the hive, the
/// parent subpath under the hive when the leaf is nested, and the leaf key
/// to delete.
#[derive(Debug)]
pub struct RegPathParts {
    pub hive: Hive,
    pub parent: Option<String>,
    pub leaf: String,
}

/// The parts faithfully decompose `key`: the text before the first
/// separator is the hive's display name, and the rest splits at its last
/// separator into parent and leaf — or is all leaf when it has no further
/// separator.
pub open spec fn parses_to(key: Seq<char>, hive: Hive, parent: Option<Seq<char>>, leaf: Seq<
    char,
>) -> bool {
    exists|i: int|
        #[trigger] first_sep(key, i) && key.subrange(0, i) == hive.display_name() && {
            let sub = key.subrange(i + 1, key.len() as int);
            match parent {
                Some(par) => exists|k: int|
                    #[trigger] last_sep(sub, k) && par == sub.subrange(0, k) && leaf
                        == sub.subrange(k + 1, sub.len() as int),
                None => no_sep(sub) && leaf == sub,
            }
        }
}

/// The message reported for a key path with no separator.
pub open spec fn invalid_format_message(key: Seq<char>) -> Seq<char> {
    "Invalid registry path format: "@ + key
}

/// The message reported for an unrecognized hive name.
pub open spec fn unknown_hive_message(key: Seq<char>) -> Seq<char> {
    "Unknown registry hive in path: "@ + key
}

/// The view of an optional string.
pub open spec fn opt_view(o: Option<String>) -> Option<Seq<char>> {
    match o {
        Some(s) => Some(s@),
        None => None,
    }
}

/// The three fixed registry roots a scan enumerates, one level deep: for
/// each, the hive to open it under, the subpath to open, and the display
/// prefix its matches are qualified with.
pub fn registry_scan_roots() -> (r: Vec<(Hive, String, String)>)
    ensures
        r@.len() == 3,
        r@[0].0 == Hive::LocalMachine && r@[0].1@ == "SOFTWARE"@ && r@[0].2@
            == "HKEY_LOCAL_MACHINE\\SOFTWARE"@,
        r@[1].0 == Hive::LocalMachine && r@[1].1@ == "SOFTWARE\\Wow6432Node"@ && r@[1].2@
            == "HKEY_LOCAL_MACHINE\\SOFTWARE\\Wow6432Node"@,
        r@[2].0 == Hive::CurrentUser && r@[2].1@ == "Software"@ && r@[2].2@
            == "HKEY_CURRENT_USER\\Software"@,
{
    let mut out: Vec<(Hive, String, String)> = Vec::new();
    out.push(
        (
            Hive::LocalMachine,
            String::from_str("SOFTWARE"),
            String::from_str("HKEY_LOCAL_MACHINE\\SOFTWARE"),
        ),
    );
    out.push(
        (
            Hive::LocalMachine,
            String::from_str("SOFTWARE\\Wow6432Node"),
            String::from_str("HKEY_LOCAL_MACHINE\\SOFTWARE\\Wow6432Node"),
        ),
    );
    out.push(
        (
            Hive::CurrentUser,
            String::from_str("Software"),
            String::from_str("HKEY_CURRENT_USER\\Software"),
        ),
    );
    out
}

/// Finds the position of the first backslash, if any.
fn find_first_sep(s: &str) -> (r: Option<usize>)
    ensures
        match r {
            Some(i) => first_sep(s@, i as int),
            None => no_sep(s@),
        },
{
    let n = s.unicode_len();
    let mut i: usize = 0;
    while i < n
        invariant
            i <= n,
            n == s@.len(),
            forall|j: int| 0 <= j < i ==> s@[j] != '\\',
        decreases n - i,
    {
        if s.get_char(i) == '\\' {
            return Some(i);
        }
        i += 1;
    }
    None
}

/// Finds the position of the last backslash, if any.
fn find_last_sep(s: &str) -> (r: Option<usize>)
    ensures
        match r {
            Some(i) => last_sep(s@, i as int),
            None => no_sep(s@),
        },
{
    let n = s.unicode_len();
    let mut i: usize = n;
    while i > 0
        invariant
            i <= n,
            n == s@.len(),
            forall|j: int| i <= j < n ==> s@[j] != '\\',
        decreases i,
    {
        i -= 1;
        if s.get_char(i) == '\\' {
            return Some(i);
        }
    }
    None
}

/// Splits a fully-qualified key path into hive, parent and leaf.  Exactly
/// the paths with no separator are rejected as malformed, and exactly the
/// paths whose first component names no recognized hive are rejected as
/// unknown, each with its message; every other path parses.
pub fn parse_registry_key(key: &String) -> (r: Result<RegPathParts, String>)
    ensures
        match r {
            Ok(parts) => parses_to(key@, parts.hive, opt_view(parts.parent), parts.leaf@),
            Err(m) => (malformed(key@) && m@ == invalid_format_message(key@)) || (unknown_hive(
                key@,
            ) && m@ == unknown_hive_message(key@)),
        },
        r is Err <==> malformed(key@) || unknown_hive(key@),
{
    let n = key.as_str().unicode_len();
    let sep = match find_first_sep(key.as_str()) {
        Some(i) => i,
        None => {
            let mut m = String::from_str("Invalid registry path format: ");
            m.append(key.as_str());
            return Err(m);
        },
    };
    let hive_text = key.as_str().substring_char(0, sep);
    let hive = if str_eq(hive_text, "HKEY_LOCAL_MACHINE") {
        Hive::LocalMachine
    } else if str_eq(hive_text, "HKEY_CURRENT_USER") {
        Hive::CurrentUser
    } else {
        proof {
            assert(first_sep(key@, sep as int));
        }
        let mut m = String::from_str("Unknown registry hive in path: ");
        m.append(key.as_str());
        return Err(m);
    };
    proof {
        assert(first_sep(key@, sep as int));
        assert forall|i: int| #[trigger] first_sep(key@, i) implies i == sep as int by {
            if i < sep {
                assert(key@[i] != '\\');
            }
            if i > sep {
                assert(key@[sep as int] != '\\');
            }
        }
    }
    let sub = key.as_str().substring_char(sep + 1, n);
    match find_last_sep(sub) {
        Some(k) => {
            let parent = sub.substring_char(0, k);
            let leaf = sub.substring_char(k + 1, sub.unicode_len());
            proof {
                assert(last_sep(sub@, k as int));
            }
            Ok(RegPathParts {
                hive,
                parent: Some(String::from_str(parent)),
                leaf: String::from_str(leaf),
            })
        },
        None => Ok(RegPathParts { hive, parent: None, leaf: String::from_str(sub) }),
    }
}

} // verus!
