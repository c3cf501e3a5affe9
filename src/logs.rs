//! Which files of the log directory are removed at startup.

use vstd::prelude::*;
use crate::text::views;

verus! {

/// Directory, under the application's data directory, that holds the logs.
pub const LOG_DIR_NAME: &'static str = "logs";

/// Name of the application's log file.
pub const LOG_FILE_NAME: &'static str = "siri-billing-app.log";

/// Size at which the log file is rotated, in bytes.
pub const MAX_LOG_FILE_BYTES: u64 = 10_000_000;

/// One entry of the log directory.
pub struct DirEntryInfo {
    pub name: String,
    /// Whether the entry is a regular file.
    pub is_file: bool,
}

/// Whether a file name has the extension `log`: it ends in `.log` and
/// something stands before that dot, so `.log` alone has no extension.
pub open spec fn has_log_extension(name: Seq<char>) -> bool {
    &&& name.len() > 4
    &&& name.subrange(name.len() - 4, name.len() as int) == ".log"@
}

/// Whether the entry is removed at startup.
pub open spec fn is_stale_log(e: DirEntryInfo) -> bool {
    e.is_file && has_log_extension(e.name@)
}

/// The names of the entries removed at startup, in directory order.
pub open spec fn stale_log_names(entries: Seq<DirEntryInfo>) -> Seq<Seq<char>>
    decreases entries.len(),
{
    if entries.len() == 0 {
        Seq::empty()
    } else {
        let before = stale_log_names(entries.drop_last());
        if is_stale_log(entries.last()) {
            before.push(entries.last().name@)
        } else {
            before
        }
    }
}

/// Whether `name` has the extension `log`.
pub fn log_extension(name: &str) -> (r: bool)
    ensures
        r == has_log_extension(name@),
{
    proof {
        reveal_strlit(".log");
    }
    let n = name.unicode_len();
    if n <= 4 {
        return false;
    }
    let r = name.get_char(n - 4) == '.' && name.get_char(n - 3) == 'l' && name.get_char(n - 2)
        == 'o' && name.get_char(n - 1) == 'g';
    proof {
        let tail = name@.subrange(n - 4, n as int);
        if r {
            assert(tail =~= ".log"@);
        } else {
            assert(tail[0] != '.' || tail[1] != 'l' || tail[2] != 'o' || tail[3] != 'g');
        }
    }
    r
}

/// Whether the entry is a regular file with the extension `log`.
pub fn should_delete(entry: &DirEntryInfo) -> (r: bool)
    ensures
        r == is_stale_log(*entry),
{
    entry.is_file && log_extension(entry.name.as_str())
}

/// The names of the entries to delete before logging starts. `None` stands
/// for a directory that does not exist yet: then nothing is deleted.
pub fn logs_to_delete(entries: Option<&Vec<DirEntryInfo>>) -> (r: Vec<String>)
    ensures
        views(r@) == match entries {
            Some(es) => stale_log_names(es@),
            None => Seq::empty(),
        },
{
    let mut out: Vec<String> = Vec::new();
    match entries {
        None => {
            proof {
                assert(views(out@) =~= Seq::<Seq<char>>::empty());
            }
            out
        },
        Some(es) => {
            let mut i: usize = 0;
            while i < es.len()
                invariant
                    i <= es@.len(),
                    views(out@) == stale_log_names(es@.take(i as int)),
                decreases es.len() - i,
            {
                if should_delete(&es[i]) {
                    out.push(es[i].name.clone());
                }
                proof {
                    let next = es@.take(i as int + 1);
                    assert(next.drop_last() =~= es@.take(i as int));
                    assert(next.last() == es@[i as int]);
                    assert(views(out@) =~= stale_log_names(next));
                }
                i = i + 1;
            }
            proof {
                assert(es@.take(es@.len() as int) =~= es@);
            }
            out
        },
    }
}

/// Startup cleanup removes only regular files with the extension `log`, and
/// every one of them; with no directory it removes nothing.
pub proof fn cleanup_removes_only_log_files(entries: Seq<DirEntryInfo>)
    ensures
        forall|k: int|
            0 <= k < stale_log_names(entries).len() ==> exists|i: int|
                0 <= i < entries.len() && is_stale_log(#[trigger] entries[i]) && entries[i].name@
                    == #[trigger] stale_log_names(entries)[k],
        forall|i: int|
            0 <= i < entries.len() && is_stale_log(#[trigger] entries[i])
                ==> stale_log_names(entries).contains(entries[i].name@),
    decreases entries.len(),
{
    if entries.len() > 0 {
        let init = entries.drop_last();
        cleanup_removes_only_log_files(init);
        let names = stale_log_names(entries);
        let before = stale_log_names(init);
        assert forall|k: int| 0 <= k < names.len() implies exists|i: int|
            0 <= i < entries.len() && is_stale_log(#[trigger] entries[i]) && entries[i].name@
                == #[trigger] names[k] by {
            if k < before.len() {
                assert(names[k] == before[k]);
                let i = choose|i: int|
                    0 <= i < init.len() && is_stale_log(#[trigger] init[i]) && init[i].name@
                        == before[k];
                assert(entries[i] == init[i]);
            } else {
                assert(entries[entries.len() - 1] == entries.last());
            }
        }
        assert forall|i: int|
            0 <= i < entries.len() && is_stale_log(#[trigger] entries[i]) implies names.contains(
            entries[i].name@,
        ) by {
            if i < init.len() {
                assert(init[i] == entries[i]);
                let k = choose|k: int| 0 <= k < before.len() && before[k] == entries[i].name@;
                assert(names[k] == before[k]);
            } else {
                assert(names[names.len() - 1] == entries[i].name@);
            }
        }
    }
}

} // verus!
