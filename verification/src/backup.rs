//! The audit trail written before registry keys are destroyed: a timestamped
//! plain-text file under the user's documents directory, listing a header, a
//! separator line, and one key path per line.  This module plans the file —
//! where it goes, what it is called, what it holds — exactly; writing it is
//! the platform's part, and failing to write it never stops the deletion.

use vstd::prelude::*;
use crate::platform::{document_dir, local_timestamp};

verus! {

/// `s` has the shape `YYYY-MM-DD_HH-MM-SS`: nineteen characters, decimal
/// digits in the date and time positions, and the fixed separators between
/// them.
pub open spec fn is_timestamp_shape(s: Seq<char>) -> bool {
    &&& s.len() == 19
    &&& (forall|i: int|
        0 <= i < 19 && i != 4 && i != 7 && i != 10 && i != 13 && i != 16 ==> '0'
            <= #[trigger] s[i] <= '9')
    &&& s[4] == '-'
    &&& s[7] == '-'
    &&& s[10] == '_'
    &&& s[13] == '-'
    &&& s[16] == '-'
}

/// Decides whether a string has the `YYYY-MM-DD_HH-MM-SS` shape.
pub fn timestamp_shaped(s: &str) -> (r: bool)
    ensures
        r == is_timestamp_shape(s@),
{
    let n = s.unicode_len();
    if n != 19 {
        return false;
    }
    let mut i: usize = 0;
    while i < 19
        invariant
            i <= 19,
            s@.len() == 19,
            forall|j: int|
                0 <= j < i && j != 4 && j != 7 && j != 10 && j != 13 && j != 16 ==> '0'
                    <= #[trigger] s@[j] <= '9',
            forall|j: int|
                0 <= j < i && (j == 4 || j == 7 || j == 13 || j == 16) ==> s@[j] == '-',
            i > 10 ==> s@[10] == '_',
        decreases 19 - i,
    {
        let c = s.get_char(i);
        if i == 4 || i == 7 || i == 13 || i == 16 {
            if c != '-' {
                return false;
            }
        } else if i == 10 {
            if c != '_' {
                return false;
            }
        } else {
            if c < '0' || c > '9' {
                return false;
            }
        }
        i += 1;
    }
    true
}

/// The name of the backup directory under the user's documents directory.
pub open spec fn backup_folder_name() -> Seq<char> {
    "KuriUninstaller_Backups"@
}

/// The name of one log file: `deleted_keys_log-<timestamp>.txt`.
pub open spec fn backup_file_name(timestamp: Seq<char>) -> Seq<char> {
    "deleted_keys_log-"@ + timestamp + ".txt"@
}

/// The header line naming the tool and the timestamp.
pub open spec fn backup_header(timestamp: Seq<char>) -> Seq<char> {
    "Log of registry keys deleted by Kuri Uninstaller at "@ + timestamp
}

/// The fixed-width separator line under the header.
pub open spec fn separator_line() -> Seq<char> {
    "--------------------------------------------------"@
}

/// Lines, each terminated by a newline.
pub open spec fn lines_text(lines: Seq<Seq<char>>) -> Seq<char>
    decreases lines.len(),
{
    if lines.len() == 0 {
        Seq::empty()
    } else {
        lines_text(lines.drop_last()) + lines.last() + seq!['\n']
    }
}

/// The whole text of one log file: header, separator, then one key path per
/// line, in the order the keys were queued for deletion.
pub open spec fn backup_text(timestamp: Seq<char>, keys: Seq<Seq<char>>) -> Seq<char> {
    lines_text(seq![backup_header(timestamp), separator_line()] + keys)
}

/// A planned backup log file: the documents directory to root it under, the
/// folder to create there, the file name, and the full file contents.
pub struct BackupPlan {
    pub documents_dir: String,
    pub folder: String,
    pub file_name: String,
    pub content: String,
}

/// Builds the full text of the log file for the given timestamp and keys.
pub fn build_backup_text(timestamp: &str, keys: &Vec<String>) -> (r: String)
    ensures
        r@ == backup_text(timestamp@, keys.deep_view()),
{
    let ghost all_lines = seq![
        backup_header(timestamp@),
        separator_line(),
    ] + keys.deep_view();
    let mut s = String::from_str("Log of registry keys deleted by Kuri Uninstaller at ");
    s.append(timestamp);
    s.append("\n");
    s.append("--------------------------------------------------");
    s.append("\n");
    proof {
        reveal_strlit("\n");
        assert("\n"@ =~= seq!['\n']);
        assert(all_lines.take(2).drop_last() =~= all_lines.take(1));
        assert(all_lines.take(1).drop_last() =~= all_lines.take(0));
        assert(lines_text(all_lines.take(0)) =~= Seq::<char>::empty());
        assert(all_lines.take(1).last() == backup_header(timestamp@));
        assert(all_lines.take(2).last() == separator_line());
        assert(lines_text(all_lines.take(1)) =~= backup_header(timestamp@) + seq!['\n']);
        assert(lines_text(all_lines.take(2)) =~= lines_text(all_lines.take(1))
            + separator_line() + seq!['\n']);
        assert(s@ =~= lines_text(all_lines.take(2)));
    }
    let n = keys.len();
    let mut i: usize = 0;
    while i < n
        invariant
            i <= n,
            n == keys@.len(),
            all_lines == seq![backup_header(timestamp@), separator_line()] + keys.deep_view(),
            all_lines.len() == 2 + n,
            s@ == lines_text(all_lines.take(2 + i as int)),
        decreases n - i,
    {
        s.append(keys[i].as_str());
        s.append("\n");
        proof {
            reveal_strlit("\n");
            assert("\n"@ =~= seq!['\n']);
            assert(all_lines.take(2 + i + 1).drop_last() =~= all_lines.take(2 + i as int));
            assert(all_lines.take(2 + i + 1).last() == keys@[i as int]@);
            assert(s@ =~= lines_text(all_lines.take(2 + i + 1)));
        }
        i += 1;
    }
    proof {
        assert(all_lines.take(2 + n as int) =~= all_lines);
    }
    s
}

/// Plans the backup log for the given keys: locates the documents directory,
/// stamps the file with the current local time, and lays out the full
/// contents.  Fails only when the platform has no documents directory, with
/// that message; the caller treats any failure as non-fatal.  The timestamp
/// in the file name and header always has the `YYYY-MM-DD_HH-MM-SS` shape:
/// should the clock ever yield text of another shape, a fixed placeholder
/// stands in for it rather than an arbitrary string.
pub fn plan_backup(keys: &Vec<String>) -> (r: Result<BackupPlan, String>)
    ensures
        match r {
            Ok(p) => {
                &&& p.folder@ == backup_folder_name()
                &&& exists|ts: Seq<char>|
                    is_timestamp_shape(ts) && #[trigger] backup_file_name(ts) == p.file_name@
                        && p.content@ == backup_text(ts, keys.deep_view())
            },
            Err(e) => e@ == "Could not find Documents directory"@,
        },
{
    let documents_dir = match document_dir() {
        Some(d) => d,
        None => {
            return Err(String::from_str("Could not find Documents directory"));
        },
    };
    let clock = local_timestamp();
    let timestamp = if timestamp_shaped(clock.as_str()) {
        clock
    } else {
        let fallback = String::from_str("0001-01-01_00-00-00");
        proof {
            reveal_strlit("0001-01-01_00-00-00");
            assert(is_timestamp_shape("0001-01-01_00-00-00"@));
        }
        fallback
    };
    let mut file_name = String::from_str("deleted_keys_log-");
    file_name.append(timestamp.as_str());
    file_name.append(".txt");
    let content = build_backup_text(timestamp.as_str(), keys);
    proof {
        assert(backup_file_name(timestamp@) == file_name@);
    }
    Ok(BackupPlan {
        documents_dir,
        folder: String::from_str("KuriUninstaller_Backups"),
        file_name,
        content,
    })
}

} // verus!
