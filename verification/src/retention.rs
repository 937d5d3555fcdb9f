//! The retention sweep: expired artifacts are deleted after an age that
//! depends on their origin, leftovers of earlier protocol versions are
//! deleted on sight, and presence markers are never touched by the sweep.

use vstd::prelude::*;

use crate::codec::{
    decode_file_name, lemma_marker_name_never_parses, spec_is_marker_name, spec_origin,
    spec_parse_fits, spec_parse_name, is_receiving_file,
};
use crate::consts::{OTHERS_CLEAN_THRESHOLD_MS, SELF_CLEAN_THRESHOLD_MS};
use crate::presence::spec_sat_sub;
use crate::text::{
    spec_contains, spec_ends_with, spec_starts_with, str_contains, str_ends_with, str_eq,
    str_starts_with,
};
use crate::types::{ClipboardOrigin, FolderEntry};

verus! {

/// A file name left behind by earlier protocol versions: a `.txt` file that
/// either starts with `receiving-` or mentions `.is-reading.`.
pub open spec fn spec_is_legacy_name(s: Seq<char>) -> bool {
    spec_ends_with(s, ".txt"@) && (spec_starts_with(s, "receiving-"@) || spec_contains(
        s,
        ".is-reading."@,
    ))
}

/// The age after which an artifact of the given origin expires.
pub open spec fn spec_sweep_threshold_ms(origin: ClipboardOrigin) -> u64 {
    match origin {
        ClipboardOrigin::Myself => SELF_CLEAN_THRESHOLD_MS,
        ClipboardOrigin::Others => OTHERS_CLEAN_THRESHOLD_MS,
    }
}

/// Whether the sweep deletes an entry: a decodable artifact goes once its
/// modification time is at least its origin's threshold old; a marker is
/// always kept; anything else goes only if it is a legacy name.
pub open spec fn spec_should_sweep(
    name: Seq<char>,
    modified_ms: u64,
    host: Seq<char>,
    now: u64,
) -> bool {
    if spec_parse_fits(name) {
        let p = spec_parse_name(name)->Some_0;
        modified_ms <= spec_sat_sub(now, spec_sweep_threshold_ms(spec_origin(p.host, host)))
    } else if spec_is_marker_name(name) {
        false
    } else {
        spec_is_legacy_name(name)
    }
}

/// The sweep decision, as a first-class predicate over folder entries.
pub open spec fn sweep_pred(host: Seq<char>, now: u64) -> spec_fn(FolderEntry) -> bool {
    |e: FolderEntry| spec_should_sweep(e.name@, e.modified_ms, host, now)
}

/// The name of a folder entry, as a first-class function.
pub open spec fn entry_name_fn() -> spec_fn(FolderEntry) -> Seq<char> {
    |e: FolderEntry| e.name@
}

/// Filtering a sequence extended by one element keeps or drops exactly that
/// element.
proof fn lemma_filter_map_push(
    s: Seq<FolderEntry>,
    e: FolderEntry,
    host: Seq<char>,
    now: u64,
)
    ensures
        sweep_pred(host, now)(e) ==> s.push(e).filter(sweep_pred(host, now)).map_values(
            entry_name_fn(),
        ) == s.filter(sweep_pred(host, now)).map_values(entry_name_fn()).push(e.name@),
        !sweep_pred(host, now)(e) ==> s.push(e).filter(sweep_pred(host, now)).map_values(
            entry_name_fn(),
        ) == s.filter(sweep_pred(host, now)).map_values(entry_name_fn()),
{
    reveal(Seq::filter);
    let pred = sweep_pred(host, now);
    assert(s.push(e).drop_last() =~= s);
    assert(s.push(e).last() == e);
    if pred(e) {
        assert(s.push(e).filter(pred) == s.filter(pred).push(e));
        assert(s.filter(pred).push(e).map_values(entry_name_fn()) =~= s.filter(pred).map_values(
            entry_name_fn(),
        ).push(e.name@));
    }
}

/// Decides, for each direct entry of the sync folder, whether the retention
/// sweep deletes it, and returns the names to delete in order.
pub fn clean_files(entries: &Vec<FolderEntry>, hostname: &str, now: u64) -> (r: Vec<String>)
    ensures
        r.deep_view() == entries@.filter(sweep_pred(hostname@, now)).map_values(entry_name_fn()),
{
    let mut out: Vec<String> = Vec::new();
    let n = entries.len();
    let mut i: usize = 0;
    proof {
        assert(entries@.subrange(0, 0) =~= Seq::<FolderEntry>::empty());
        reveal(Seq::filter);
        assert(out.deep_view() =~= entries@.subrange(0, 0).filter(
            sweep_pred(hostname@, now),
        ).map_values(entry_name_fn()));
    }
    while i < n
        invariant
            n == entries@.len(),
            0 <= i <= n,
            out.deep_view() == entries@.subrange(0, i as int).filter(
                sweep_pred(hostname@, now),
            ).map_values(entry_name_fn()),
        decreases n - i,
    {
        let e = &entries[i];
        let ghost pre = out.deep_view();
        let sweep: bool = match decode_file_name(e.name.as_str()) {
            Option::Some(d) => {
                let origin = if str_eq(d.hostname.as_str(), hostname) {
                    ClipboardOrigin::Myself
                } else {
                    ClipboardOrigin::Others
                };
                let threshold = match origin {
                    ClipboardOrigin::Myself => SELF_CLEAN_THRESHOLD_MS,
                    ClipboardOrigin::Others => OTHERS_CLEAN_THRESHOLD_MS,
                };
                e.modified_ms <= now.saturating_sub(threshold)
            },
            Option::None => {
                if is_receiving_file(e.name.as_str()) {
                    false
                } else {
                    str_ends_with(e.name.as_str(), ".txt") && (str_starts_with(
                        e.name.as_str(),
                        "receiving-",
                    ) || str_contains(e.name.as_str(), ".is-reading."))
                }
            },
        };
        if sweep {
            out.push(e.name.clone());
        }
        proof {
            assert(entries@.subrange(0, i + 1) =~= entries@.subrange(0, i as int).push(
                entries@[i as int],
            ));
            lemma_filter_map_push(entries@.subrange(0, i as int), entries@[i as int], hostname@, now);
            if sweep {
                assert(out.deep_view() =~= pre.push(e.name@));
            } else {
                assert(out.deep_view() =~= pre);
            }
        }
        i = i + 1;
    }
    proof {
        assert(entries@.subrange(0, n as int) =~= entries@);
    }
    out
}

/// A presence marker is never deleted by the periodic sweep, whatever its
/// age.
pub proof fn lemma_marker_never_swept(name: Seq<char>, modified_ms: u64, host: Seq<char>, now: u64)
    requires
        spec_is_marker_name(name),
    ensures
        !spec_should_sweep(name, modified_ms, host, now),
{
    lemma_marker_name_never_parses(name);
}

/// An artifact whose age stands exactly at its origin's threshold is
/// deleted.
pub proof fn lemma_swept_at_threshold(name: Seq<char>, host: Seq<char>, now: u64, modified_ms: u64)
    requires
        spec_parse_fits(name),
        modified_ms == spec_sat_sub(
            now,
            spec_sweep_threshold_ms(spec_origin(spec_parse_name(name)->Some_0.host, host)),
        ),
    ensures
        spec_should_sweep(name, modified_ms, host, now),
{
}

/// An artifact aged one unit below its origin's threshold is retained.
pub proof fn lemma_retained_below_threshold(
    name: Seq<char>,
    host: Seq<char>,
    now: u64,
    modified_ms: u64,
)
    requires
        spec_parse_fits(name),
        modified_ms == spec_sat_sub(
            now,
            spec_sweep_threshold_ms(spec_origin(spec_parse_name(name)->Some_0.host, host)),
        ) + 1,
    ensures
        !spec_should_sweep(name, modified_ms, host, now),
{
}

} // verus!
