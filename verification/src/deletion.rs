//! Best-effort batch deletion: files and directories go to the recoverable
//! trash, registry keys are deleted permanently, and every per-item failure
//! is recorded as a message while the batch continues.  The outcome is
//! success exactly when no message was recorded; otherwise the single
//! aggregate error joins every message with a newline, in processing order.

use vstd::prelude::*;
use crate::item::FoundItem;
use crate::platform::trash_delete;
use crate::registry::{invalid_format_message, malformed, parse_registry_key, unknown_hive,
    unknown_hive_message};

verus! {

/// What the platform reported for one attempted registry deletion: the key
/// was deleted, its parent key could not be opened for writing, or the
/// delete call itself failed with a reason.
#[derive(Debug, Clone, PartialEq, Eq)]
pub enum RegOutcome {
    Deleted,
    OpenParentFailed,
    DeleteFailed(String),
}

/// The registry key paths among the candidates, in order.
pub open spec fn reg_keys_of(items: Seq<FoundItem>) -> Seq<String>
    decreases items.len(),
{
    if items.len() == 0 {
        Seq::empty()
    } else {
        let rest = reg_keys_of(items.drop_last());
        match items.last() {
            FoundItem::RegistryKey(k) => rest.push(k),
            FoundItem::File(_) => rest,
            FoundItem::Directory(_) => rest,
        }
    }
}

/// Collects the registry key paths among the candidates, in order.
pub fn registry_keys_of(items: &Vec<FoundItem>) -> (r: Vec<String>)
    ensures
        r@ == reg_keys_of(items@),
{
    let mut out: Vec<String> = Vec::new();
    let n = items.len();
    let mut idx: usize = 0;
    proof {
        assert(out@ =~= reg_keys_of(items@.take(0)));
    }
    while idx < n
        invariant
            idx <= n,
            n == items@.len(),
            out@ == reg_keys_of(items@.take(idx as int)),
        decreases n - idx,
    {
        proof {
            assert(items@.take(idx + 1).drop_last() =~= items@.take(idx as int));
            assert(items@.take(idx + 1).last() == items@[idx as int]);
        }
        match &items[idx] {
            FoundItem::RegistryKey(k) => {
                out.push(k.clone());
            },
            FoundItem::File(_) => {},
            FoundItem::Directory(_) => {},
        }
        idx += 1;
    }
    proof {
        assert(items@.take(n as int) =~= items@);
    }
    out
}

/// The keys to log before deletion: present exactly when backup is enabled
/// and at least one registry key is in the batch.
pub fn backup_keys_if_enabled(items: &Vec<FoundItem>, backup: bool) -> (r: Option<Vec<String>>)
    ensures
        match r {
            Some(ks) => backup && reg_keys_of(items@).len() > 0 && ks@ == reg_keys_of(items@),
            None => !backup || reg_keys_of(items@).len() == 0,
        },
{
    if !backup {
        return None;
    }
    let keys = registry_keys_of(items);
    if keys.len() == 0 {
        None
    } else {
        Some(keys)
    }
}

/// How many file and directory candidates stand in `items`.
pub open spec fn fs_count(items: Seq<FoundItem>) -> int
    decreases items.len(),
{
    if items.len() == 0 {
        0
    } else {
        fs_count(items.drop_last()) + match items.last() {
            FoundItem::RegistryKey(_) => 0int,
            FoundItem::File(_) => 1int,
            FoundItem::Directory(_) => 1int,
        }
    }
}

/// How many registry candidates in `items` parse, and are therefore
/// attempted against the platform registry.
pub open spec fn attempted_count(items: Seq<FoundItem>) -> int
    decreases items.len(),
{
    if items.len() == 0 {
        0
    } else {
        attempted_count(items.drop_last()) + match items.last() {
            FoundItem::RegistryKey(k) => if malformed(k@) || unknown_hive(k@) {
                0int
            } else {
                1int
            },
            FoundItem::File(_) => 0int,
            FoundItem::Directory(_) => 0int,
        }
    }
}

proof fn lemma_counts_nonneg(items: Seq<FoundItem>)
    ensures
        fs_count(items) >= 0,
        attempted_count(items) >= 0,
    decreases items.len(),
{
    if items.len() > 0 {
        lemma_counts_nonneg(items.drop_last());
    }
}

proof fn lemma_counts_take(items: Seq<FoundItem>, i: int)
    requires
        0 <= i <= items.len(),
    ensures
        fs_count(items.take(i)) <= fs_count(items),
        attempted_count(items.take(i)) <= attempted_count(items),
    decreases items.len() - i,
{
    if i == items.len() {
        assert(items.take(i) =~= items);
    } else {
        lemma_counts_take(items, i + 1);
        assert(items.take(i + 1).drop_last() =~= items.take(i));
    }
}

/// The message recorded when the trash facility refuses a file or directory.
pub open spec fn file_fail_message(path: Seq<char>, reason: Seq<char>) -> Seq<char> {
    "Failed to delete "@ + path + ": "@ + reason
}

/// The message recorded when a registry key's parent cannot be opened.
pub open spec fn open_parent_message(key: Seq<char>) -> Seq<char> {
    "Could not open parent key for: "@ + key
}

/// The message recorded when the registry delete call fails.
pub open spec fn reg_fail_message(key: Seq<char>, reason: Seq<char>) -> Seq<char> {
    "Failed to delete registry key "@ + key + ": "@ + reason
}

/// The message recorded when the backup log could not be written.
pub open spec fn backup_fail_message(reason: Seq<char>) -> Seq<char> {
    "Failed to create registry log: "@ + reason
}

/// The failure messages of the batch, in processing order.  `trash_results`
/// holds one outcome per file or directory candidate (`None` for success),
/// `reg_results` one outcome per registry candidate that parses; candidates
/// that fail to parse contribute their parse message instead.
pub open spec fn deletion_messages(
    items: Seq<FoundItem>,
    trash_results: Seq<Option<String>>,
    reg_results: Seq<RegOutcome>,
) -> Seq<Seq<char>>
    decreases items.len(),
{
    if items.len() == 0 {
        Seq::empty()
    } else {
        let rest = deletion_messages(items.drop_last(), trash_results, reg_results);
        match items.last() {
            FoundItem::File(p) => match trash_results[fs_count(items.drop_last())] {
                Some(e) => rest.push(file_fail_message(p@, e@)),
                None => rest,
            },
            FoundItem::Directory(p) => match trash_results[fs_count(items.drop_last())] {
                Some(e) => rest.push(file_fail_message(p@, e@)),
                None => rest,
            },
            FoundItem::RegistryKey(k) => if malformed(k@) {
                rest.push(invalid_format_message(k@))
            } else if unknown_hive(k@) {
                rest.push(unknown_hive_message(k@))
            } else {
                match reg_results[attempted_count(items.drop_last())] {
                    RegOutcome::Deleted => rest,
                    RegOutcome::OpenParentFailed => rest.push(open_parent_message(k@)),
                    RegOutcome::DeleteFailed(e) => rest.push(reg_fail_message(k@, e@)),
                }
            },
        }
    }
}

/// Every failure message of the whole unit of work: a failed backup first,
/// then the per-item messages in processing order.
pub open spec fn all_messages(
    items: Seq<FoundItem>,
    backup_error: Option<String>,
    trash_results: Seq<Option<String>>,
    reg_results: Seq<RegOutcome>,
) -> Seq<Seq<char>> {
    match backup_error {
        Some(e) => seq![backup_fail_message(e@)] + deletion_messages(
            items,
            trash_results,
            reg_results,
        ),
        None => deletion_messages(items, trash_results, reg_results),
    }
}

/// The messages joined by newlines, in order.
pub open spec fn joined_lines(msgs: Seq<Seq<char>>) -> Seq<char>
    decreases msgs.len(),
{
    if msgs.len() == 0 {
        Seq::empty()
    } else if msgs.len() == 1 {
        msgs[0]
    } else {
        joined_lines(msgs.drop_last()) + seq!['\n'] + msgs.last()
    }
}

/// Builds `prefix + rest`.
pub(crate) fn compose2(prefix: &str, rest: &str) -> (r: String)
    ensures
        r@ == prefix@ + rest@,
{
    let mut s = String::from_str(prefix);
    s.append(rest);
    s
}

/// Builds `p1 + s1 + p2 + s2`.
pub(crate) fn compose4(p1: &str, s1: &str, p2: &str, s2: &str) -> (r: String)
    ensures
        r@ == p1@ + s1@ + p2@ + s2@,
{
    let mut s = String::from_str(p1);
    s.append(s1);
    s.append(p2);
    s.append(s2);
    s
}

/// Replays the batch against the recorded outcomes and collects every
/// failure message, in processing order.
pub fn collect_deletion_messages(
    items: &Vec<FoundItem>,
    backup_error: &Option<String>,
    trash_results: &Vec<Option<String>>,
    reg_results: &Vec<RegOutcome>,
) -> (r: Vec<String>)
    requires
        trash_results@.len() == fs_count(items@),
        reg_results@.len() == attempted_count(items@),
    ensures
        r.deep_view() == all_messages(items@, *backup_error, trash_results@, reg_results@),
{
    let mut out: Vec<String> = Vec::new();
    match backup_error {
        Some(e) => {
            let ghost pre = out.deep_view();
            out.push(compose2("Failed to create registry log: ", e.as_str()));
            proof {
                assert(out.deep_view() =~= pre.push(backup_fail_message(e@)));
            }
        },
        None => {},
    }
    let n = items.len();
    let tr_len = trash_results.len();
    let rr_len = reg_results.len();
    let mut idx: usize = 0;
    let mut fs_idx: usize = 0;
    let mut reg_idx: usize = 0;
    proof {
        assert(items@.take(0) =~= Seq::<FoundItem>::empty());
        assert(out.deep_view() =~= all_messages(
            items@.take(0),
            *backup_error,
            trash_results@,
            reg_results@,
        ));
    }
    while idx < n
        invariant
            idx <= n,
            n == items@.len(),
            tr_len == trash_results@.len(),
            rr_len == reg_results@.len(),
            trash_results@.len() == fs_count(items@),
            reg_results@.len() == attempted_count(items@),
            fs_idx == fs_count(items@.take(idx as int)),
            reg_idx == attempted_count(items@.take(idx as int)),
            out.deep_view() == all_messages(
                items@.take(idx as int),
                *backup_error,
                trash_results@,
                reg_results@,
            ),
        decreases n - idx,
    {
        proof {
            assert(items@.take(idx + 1).drop_last() =~= items@.take(idx as int));
            assert(items@.take(idx + 1).last() == items@[idx as int]);
            lemma_counts_take(items@, idx + 1);
            lemma_counts_nonneg(items@.take(idx as int));
            assert(fs_count(items@.take(idx + 1)) <= tr_len);
            assert(attempted_count(items@.take(idx + 1)) <= rr_len);
        }
        let ghost pre = out.deep_view();
        match &items[idx] {
            FoundItem::File(p) => {
                match &trash_results[fs_idx] {
                    Some(e) => {
                        out.push(compose4("Failed to delete ", p.as_str(), ": ", e.as_str()));
                        proof {
                            assert(out.deep_view() =~= pre.push(file_fail_message(p@, e@)));
                        }
                    },
                    None => {},
                }
                fs_idx += 1;
            },
            FoundItem::Directory(p) => {
                match &trash_results[fs_idx] {
                    Some(e) => {
                        out.push(compose4("Failed to delete ", p.as_str(), ": ", e.as_str()));
                        proof {
                            assert(out.deep_view() =~= pre.push(file_fail_message(p@, e@)));
                        }
                    },
                    None => {},
                }
                fs_idx += 1;
            },
            FoundItem::RegistryKey(k) => {
                match parse_registry_key(k) {
                    Err(m) => {
                        proof {
                            assert(pre.push(m@) =~= all_messages(
                                items@.take(idx + 1),
                                *backup_error,
                                trash_results@,
                                reg_results@,
                            ));
                        }
                        out.push(m);
                    },
                    Ok(_) => {
                        match &reg_results[reg_idx] {
                            RegOutcome::Deleted => {},
                            RegOutcome::OpenParentFailed => {
                                out.push(compose2("Could not open parent key for: ", k.as_str()));
                                proof {
                                    assert(out.deep_view() =~= pre.push(open_parent_message(k@)));
                                }
                            },
                            RegOutcome::DeleteFailed(e) => {
                                out.push(compose4(
                                    "Failed to delete registry key ",
                                    k.as_str(),
                                    ": ",
                                    e.as_str(),
                                ));
                                proof {
                                    assert(out.deep_view() =~= pre.push(reg_fail_message(k@, e@)));
                                }
                            },
                        }
                        reg_idx += 1;
                    },
                }
            },
        }
        idx += 1;
    }
    proof {
        assert(items@.take(n as int) =~= items@);
    }
    out
}

/// A registry outcome that is not a deletion leaves a failure message: no
/// failed registry deletion can go unreported.
proof fn lemma_reg_failure_reported(
    items: Seq<FoundItem>,
    trash_results: Seq<Option<String>>,
    reg_results: Seq<RegOutcome>,
    j: int,
)
    requires
        attempted_count(items) <= reg_results.len(),
        0 <= j < attempted_count(items),
        !(reg_results[j] is Deleted),
    ensures
        deletion_messages(items, trash_results, reg_results).len() > 0,
    decreases items.len(),
{
    lemma_counts_nonneg(items.drop_last());
    match items.last() {
        FoundItem::File(_) => {
            lemma_reg_failure_reported(items.drop_last(), trash_results, reg_results, j);
        },
        FoundItem::Directory(_) => {
            lemma_reg_failure_reported(items.drop_last(), trash_results, reg_results, j);
        },
        FoundItem::RegistryKey(k) => {
            if malformed(k@) || unknown_hive(k@) {
            } else {
                if j < attempted_count(items.drop_last()) {
                    lemma_reg_failure_reported(items.drop_last(), trash_results, reg_results, j);
                }
            }
        },
    }
}

/// Turns the collected messages into the batch outcome: success exactly when
/// no failure was recorded, the aggregate message otherwise.
pub fn deletion_outcome(msgs: Vec<String>) -> (r: Result<(), String>)
    ensures
        r is Ok <==> msgs@.len() == 0,
        match r {
            Ok(u) => msgs@.len() == 0,
            Err(m) => msgs@.len() > 0 && m@ == joined_lines(msgs.deep_view()),
        },
{
    let n = msgs.len();
    if n == 0 {
        return Ok(());
    }
    let mut s = msgs[0].clone();
    let mut i: usize = 1;
    proof {
        assert(msgs.deep_view().take(1) =~= seq![msgs@[0]@]);
        assert(s@ == joined_lines(msgs.deep_view().take(1)));
    }
    while i < n
        invariant
            1 <= i <= n,
            n == msgs@.len(),
            s@ == joined_lines(msgs.deep_view().take(i as int)),
        decreases n - i,
    {
        s.append("\n");
        s.append(msgs[i].as_str());
        proof {
            reveal_strlit("\n");
            assert("\n"@ =~= seq!['\n']);
            assert(msgs.deep_view().take(i + 1).drop_last() =~= msgs.deep_view().take(i as int));
            assert(s@ =~= joined_lines(msgs.deep_view().take(i + 1)));
        }
        i += 1;
    }
    proof {
        assert(msgs.deep_view().take(n as int) =~= msgs.deep_view());
    }
    Err(s)
}

/// The batch outcome `r` is what the recorded outcomes dictate: success when
/// they produced no message, the joined messages otherwise.
pub open spec fn outcome_matches(
    items: Seq<FoundItem>,
    backup_error: Option<String>,
    trash_results: Seq<Option<String>>,
    reg_results: Seq<RegOutcome>,
    r: Result<(), String>,
) -> bool {
    let msgs = all_messages(items, backup_error, trash_results, reg_results);
    match r {
        Ok(u) => msgs.len() == 0,
        Err(m) => msgs.len() > 0 && m@ == joined_lines(msgs),
    }
}

/// Processes every candidate independently: sends files and directories to
/// the recoverable trash, folds in the recorded registry outcomes and the
/// backup outcome, and reports success only if nothing failed.  What the
/// trash reports depends on the disk; whatever it reports, the result
/// reflects exactly those outcomes.
pub fn delete_items(
    items: &Vec<FoundItem>,
    backup_error: Option<String>,
    reg_results: &Vec<RegOutcome>,
) -> (r: Result<(), String>)
    requires
        reg_results@.len() == attempted_count(items@),
    ensures
        exists|tr: Seq<Option<String>>|
            tr.len() == fs_count(items@) && #[trigger] outcome_matches(
                items@,
                backup_error,
                tr,
                reg_results@,
                r,
            ),
        backup_error is Some ==> r is Err,
        (exists|j: int|
            0 <= j < reg_results@.len() && !(#[trigger] reg_results@[j] is Deleted)) ==> r
            is Err,
{
    let mut trash_results: Vec<Option<String>> = Vec::new();
    let n = items.len();
    let mut idx: usize = 0;
    proof {
        assert(items@.take(0) =~= Seq::<FoundItem>::empty());
    }
    while idx < n
        invariant
            idx <= n,
            n == items@.len(),
            trash_results@.len() == fs_count(items@.take(idx as int)),
        decreases n - idx,
    {
        proof {
            assert(items@.take(idx + 1).drop_last() =~= items@.take(idx as int));
            assert(items@.take(idx + 1).last() == items@[idx as int]);
        }
        match &items[idx] {
            FoundItem::File(p) => {
                match trash_delete(p.as_str()) {
                    Ok(u) => trash_results.push(None),
                    Err(e) => trash_results.push(Some(e)),
                }
            },
            FoundItem::Directory(p) => {
                match trash_delete(p.as_str()) {
                    Ok(u) => trash_results.push(None),
                    Err(e) => trash_results.push(Some(e)),
                }
            },
            FoundItem::RegistryKey(_) => {},
        }
        idx += 1;
    }
    proof {
        assert(items@.take(n as int) =~= items@);
    }
    let msgs = collect_deletion_messages(items, &backup_error, &trash_results, reg_results);
    let ghost msgs_view = msgs.deep_view();
    let r = deletion_outcome(msgs);
    proof {
        assert(outcome_matches(items@, backup_error, trash_results@, reg_results@, r));
        if backup_error is Some {
            assert(msgs_view.len() > 0);
        }
        if exists|j: int|
            0 <= j < reg_results@.len() && !(#[trigger] reg_results@[j] is Deleted) {
            let j = choose|j: int|
                0 <= j < reg_results@.len() && !(#[trigger] reg_results@[j] is Deleted);
            lemma_reg_failure_reported(items@, trash_results@, reg_results@, j);
            assert(msgs_view.len() > 0);
        }
    }
    r
}

} // verus!
