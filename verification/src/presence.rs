//! The presence protocol: each receiving host keeps a marker file in the
//! sync folder alive; a sender writes only when some other host's marker is
//! fresh enough.

use vstd::prelude::*;
use vstd::string::StringExecFns;

use crate::codec::spec_is_marker_name;
use crate::codec::is_receiving_file;
use crate::consts::STALE_THRESHOLD_MS;
use crate::types::FolderEntry;

verus! {

/// Saturating subtraction over `u64`.
pub open spec fn spec_sat_sub(a: u64, b: u64) -> u64 {
    if a >= b {
        (a - b) as u64
    } else {
        0
    }
}

/// The marker file name of a host.
pub open spec fn spec_marker_name_for(host: Seq<char>) -> Seq<char> {
    host + ".is-receiving.txt"@
}

/// Builds the marker file name of a host.
pub fn marker_file_name(hostname: &str) -> (r: String)
    ensures
        r@ == spec_marker_name_for(hostname@),
{
    let mut out = String::new();
    out.append(hostname);
    out.append(".is-receiving.txt");
    proof {
        assert(out@ =~= spec_marker_name_for(hostname@));
    }
    out
}

/// A folder entry that proves some other host is listening: a marker file
/// that is not this host's own and was modified within the staleness
/// threshold.
pub open spec fn spec_fresh_foreign_marker(e: FolderEntry, host: Seq<char>, now: u64) -> bool {
    &&& spec_is_marker_name(e.name@)
    &&& e.name@ != spec_marker_name_for(host)
    &&& e.modified_ms >= spec_sat_sub(now, STALE_THRESHOLD_MS)
}

/// No other host is receiving: the folder could be enumerated and none of
/// its entries is a fresh foreign marker.
pub open spec fn spec_no_computers_receiving_entries(
    entries: Seq<FolderEntry>,
    host: Seq<char>,
    now: u64,
) -> bool {
    forall|i: int| 0 <= i < entries.len() ==> !spec_fresh_foreign_marker(#[trigger] entries[i], host, now)
}

/// Some other host may be listening: the folder could not be read (assume
/// the best), or some entry is a fresh foreign marker.
pub open spec fn spec_someone_listening(
    entries: Option<Vec<FolderEntry>>,
    host: Seq<char>,
    now: u64,
) -> bool {
    match entries {
        Option::None => true,
        Option::Some(es) => !spec_no_computers_receiving_entries(es@, host, now),
    }
}

/// Whether no other host is currently receiving.  `entries` holds the sync
/// folder's direct entries, or `None` when the folder could not be read; an
/// unreadable folder optimistically counts as someone listening, since
/// failing to write is safer than failing to read.
pub fn no_computers_receiving(entries: &Option<Vec<FolderEntry>>, hostname: &str, now: u64) -> (r:
    bool)
    ensures
        entries is None ==> r == false,
        entries matches Some(es) ==> r == spec_no_computers_receiving_entries(es@, hostname@, now),
{
    let es = match entries {
        Option::None => {
            return false;
        },
        Option::Some(es) => es,
    };
    let our_marker = marker_file_name(hostname);
    let threshold = now.saturating_sub(STALE_THRESHOLD_MS);
    let n = es.len();
    let mut i: usize = 0;
    while i < n
        invariant
            entries matches Some(v) && v@ == es@,
            n == es@.len(),
            0 <= i <= n,
            threshold == spec_sat_sub(now, STALE_THRESHOLD_MS),
            our_marker@ == spec_marker_name_for(hostname@),
            forall|j: int|
                0 <= j < i ==> !spec_fresh_foreign_marker(#[trigger] es@[j], hostname@, now),
        decreases n - i,
    {
        let e = &es[i];
        if is_receiving_file(e.name.as_str()) && !<String as PartialEq>::eq(&e.name, &our_marker)
            && e.modified_ms >= threshold {
            proof {
                assert(spec_fresh_foreign_marker(es@[i as int], hostname@, now));
            }
            return false;
        }
        i = i + 1;
    }
    true
}

} // verus!
