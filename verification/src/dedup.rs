//! The dedup guard: decides whether a candidate outgoing snapshot is a
//! duplicate of recent activity, so that an exchange does not echo back and
//! forth between hosts.  File sets are compared as multisets of paths.

use vstd::prelude::*;
use vstd::multiset::Multiset;

use crate::consts::DUPLICATE_WINDOW_MS;
use crate::types::{ClipboardText, spec_text_is_empty};

verus! {

broadcast use vstd::multiset::group_multiset_axioms;

/// The predicate "equals `x`", as a first-class function over path strings.
pub open spec fn eq_pred(x: Seq<char>) -> spec_fn(Seq<char>) -> bool {
    |y: Seq<char>| y == x
}

/// How many times `x` occurs in `s`.
pub open spec fn spec_count(s: Seq<Seq<char>>, x: Seq<char>) -> nat {
    s.filter(eq_pred(x)).len()
}

/// Two path lists hold the same paths, with multiplicity and without regard
/// to order.
pub open spec fn spec_same_file_set(a: Seq<Seq<char>>, b: Seq<Seq<char>>) -> bool {
    a.to_multiset() == b.to_multiset()
}

/// Occurrence counting agrees with the multiset view.
proof fn lemma_count_is_multiset_count(s: Seq<Seq<char>>, x: Seq<char>)
    ensures
        spec_count(s, x) == s.to_multiset().count(x),
    decreases s.len(),
{
    reveal(Seq::filter);
    if s.len() == 0 {
        s.to_multiset_ensures();
        assert(!s.contains(x));
        assert(s.to_multiset().count(x) == 0);
    } else {
        lemma_count_is_multiset_count(s.drop_last(), x);
        s.drop_last().to_multiset_ensures();
        assert(s.drop_last().push(s.last()) =~= s);
        assert(s.to_multiset() =~= s.drop_last().to_multiset().insert(s.last()));
    }
}

/// Appending one element adds one occurrence of exactly that element.
proof fn lemma_count_push(s: Seq<Seq<char>>, e: Seq<char>, x: Seq<char>)
    ensures
        spec_count(s.push(e), x) == spec_count(s, x) + (if e == x {
            1nat
        } else {
            0nat
        }),
{
    reveal(Seq::filter);
    assert(s.push(e).drop_last() =~= s);
}

/// How often `x` occurs in `v`.
fn count_occurrences(v: &Vec<String>, x: &String) -> (r: usize)
    ensures
        r == spec_count(v.deep_view(), x@),
{
    let n = v.len();
    let mut c: usize = 0;
    let mut i: usize = 0;
    proof {
        assert(v.deep_view().subrange(0, 0) =~= Seq::<Seq<char>>::empty());
        reveal(Seq::filter);
    }
    while i < n
        invariant
            n == v@.len(),
            v.deep_view().len() == v@.len(),
            0 <= i <= n,
            c == spec_count(v.deep_view().subrange(0, i as int), x@),
            c <= i,
        decreases n - i,
    {
        let ghost pre = v.deep_view().subrange(0, i as int);
        proof {
            assert(v.deep_view().subrange(0, i + 1) =~= pre.push(v.deep_view()[i as int]));
            lemma_count_push(pre, v.deep_view()[i as int], x@);
            assert(v.deep_view()[i as int] == v@[i as int]@);
        }
        if <String as PartialEq>::eq(&v[i], x) {
            c = c + 1;
        }
        i = i + 1;
    }
    proof {
        assert(v.deep_view().subrange(0, n as int) =~= v.deep_view());
    }
    c
}

/// Whether two path lists hold the same paths with the same multiplicities,
/// regardless of order.
pub fn file_sets_equal(a: &Vec<String>, b: &Vec<String>) -> (r: bool)
    ensures
        r == spec_same_file_set(a.deep_view(), b.deep_view()),
{
    let ghost av = a.deep_view();
    let ghost bv = b.deep_view();
    proof {
        av.to_multiset_ensures();
        bv.to_multiset_ensures();
    }
    if a.len() != b.len() {
        proof {
            assert(av.len() == a@.len() && bv.len() == b@.len());
        }
        return false;
    }
    let n = a.len();
    let mut i: usize = 0;
    while i < n
        invariant
            n == a@.len() && n == b@.len(),
            av == a.deep_view() && bv == b.deep_view(),
            av.len() == n && bv.len() == n,
            0 <= i <= n,
            forall|j: int|
                0 <= j < i ==> spec_count(av, #[trigger] av[j]) == spec_count(bv, av[j]),
        decreases n - i,
    {
        let ca = count_occurrences(a, &a[i]);
        let cb = count_occurrences(b, &a[i]);
        proof {
            assert(av[i as int] == a@[i as int]@);
        }
        if ca != cb {
            proof {
                lemma_count_is_multiset_count(av, av[i as int]);
                lemma_count_is_multiset_count(bv, av[i as int]);
            }
            return false;
        }
        i = i + 1;
    }
    let mut k: usize = 0;
    while k < n
        invariant
            n == a@.len() && n == b@.len(),
            av == a.deep_view() && bv == b.deep_view(),
            av.len() == n && bv.len() == n,
            0 <= k <= n,
            forall|j: int|
                0 <= j < n ==> spec_count(av, #[trigger] av[j]) == spec_count(bv, av[j]),
            forall|j: int|
                0 <= j < k ==> spec_count(av, #[trigger] bv[j]) == spec_count(bv, bv[j]),
        decreases n - k,
    {
        let ca = count_occurrences(a, &b[k]);
        let cb = count_occurrences(b, &b[k]);
        proof {
            assert(bv[k as int] == b@[k as int]@);
        }
        if ca != cb {
            proof {
                lemma_count_is_multiset_count(av, bv[k as int]);
                lemma_count_is_multiset_count(bv, bv[k as int]);
            }
            return false;
        }
        k = k + 1;
    }
    proof {
        assert forall|x: Seq<char>| av.to_multiset().count(x) == bv.to_multiset().count(x) by {
            lemma_count_is_multiset_count(av, x);
            lemma_count_is_multiset_count(bv, x);
            if av.contains(x) {
                let j = choose|j: int| 0 <= j < av.len() && av[j] == x;
                assert(spec_count(av, av[j]) == spec_count(bv, av[j]));
            } else if bv.contains(x) {
                let j = choose|j: int| 0 <= j < bv.len() && bv[j] == x;
                assert(spec_count(av, bv[j]) == spec_count(bv, bv[j]));
            } else {
                assert(av.to_multiset().count(x) == 0);
                assert(bv.to_multiset().count(x) == 0);
            }
        }
        assert(av.to_multiset() =~= bv.to_multiset());
    }
    true
}

/// A candidate snapshot for the duplicate check, one case per content kind.
/// An image is represented by the hex digest of its canonical bytes.
pub enum ContentSnapshot {
    Text(ClipboardText),
    Image(String),
    Files(Vec<String>),
}

/// The dedup state: the last recorded beat (either direction) and the last
/// snapshots written and read, per kind.  Every field starts absent, meaning
/// "never happened yet", and is only ever replaced whole.
pub struct DedupState {
    pub last_beat: Option<u64>,
    pub last_text_written: Option<ClipboardText>,
    pub last_text_read: Option<ClipboardText>,
    pub last_image_sha256_written: Option<String>,
    pub last_image_sha256_read: Option<String>,
    pub last_file_paths_read: Option<Vec<String>>,
}

/// A candidate beat lies within the duplicate-suppression window of the last
/// recorded beat.  A last beat that lies in the future (a clock that moved
/// backwards) counts as within the window.
pub open spec fn spec_within_window(beat: u64, last: u64) -> bool {
    if beat >= last {
        beat - last < DUPLICATE_WINDOW_MS
    } else {
        true
    }
}

/// The window applies: some beat was recorded and the candidate lies within
/// its window.
pub open spec fn spec_recent(st: DedupState, beat: u64) -> bool {
    st.last_beat matches Some(lb) && spec_within_window(beat, lb)
}

/// An optional string equals a given string by contents.
pub open spec fn opt_matches_string(o: Option<Seq<char>>, s: Seq<char>) -> bool {
    o matches Some(t) && t == s
}

/// An outgoing text snapshot is a duplicate: it is empty, or, within the
/// duplicate window, equal to the last text read or the last text written.
pub open spec fn spec_dup_text(t: ClipboardText, beat: u64, st: DedupState) -> bool {
    spec_text_is_empty(t) || (spec_recent(st, beat) && ((st.last_text_read matches Some(lr)
        && lr.deep_view() == t.deep_view()) || (st.last_text_written matches Some(lw)
        && lw.deep_view() == t.deep_view())))
}

/// An outgoing image is a duplicate: within the duplicate window, its digest
/// equals the last digest read or the last digest written.
pub open spec fn spec_dup_image(sha: Seq<char>, beat: u64, st: DedupState) -> bool {
    spec_recent(st, beat) && (opt_matches_string(st.last_image_sha256_read.deep_view(), sha)
        || opt_matches_string(st.last_image_sha256_written.deep_view(), sha))
}

/// An outgoing file list is a duplicate: it is empty, or, within the
/// duplicate window, it holds the same paths as the last file list read.
pub open spec fn spec_dup_files(paths: Seq<Seq<char>>, beat: u64, st: DedupState) -> bool {
    paths.len() == 0 || (spec_recent(st, beat) && (st.last_file_paths_read matches Some(lr)
        && spec_same_file_set(paths, lr.deep_view())))
}

/// The outgoing duplicate policy: an empty text or file-set candidate is
/// always a duplicate; otherwise, only within the duplicate window, a
/// candidate equal to the last snapshot written of its kind, or to the last
/// snapshot read of its kind, is a duplicate.  Outside the window nothing is
/// compared.
pub open spec fn spec_is_duplicate_send(c: ContentSnapshot, beat: u64, st: DedupState) -> bool {
    match c {
        ContentSnapshot::Text(t) => spec_dup_text(t, beat, st),
        ContentSnapshot::Image(sha) => spec_dup_image(sha@, beat, st),
        ContentSnapshot::Files(paths) => spec_dup_files(paths.deep_view(), beat, st),
    }
}

impl DedupState {
    /// The initial dedup state: nothing recorded yet.
    pub fn new() -> (r: Self)
        ensures
            r.last_beat is None,
            r.last_text_written is None,
            r.last_text_read is None,
            r.last_image_sha256_written is None,
            r.last_image_sha256_read is None,
            r.last_file_paths_read is None,
    {
        DedupState {
            last_beat: Option::None,
            last_text_written: Option::None,
            last_text_read: Option::None,
            last_image_sha256_written: Option::None,
            last_image_sha256_read: Option::None,
            last_file_paths_read: Option::None,
        }
    }

    /// Decides whether an outgoing candidate is a duplicate of recent
    /// activity.
    pub fn is_duplicate(&self, candidate: &ContentSnapshot, beat: u64) -> (r: bool)
        ensures
            r == spec_is_duplicate_send(*candidate, beat, *self),
    {
        let recent: bool = match self.last_beat {
            Option::Some(lb) => beat < lb || beat - lb < DUPLICATE_WINDOW_MS,
            Option::None => false,
        };
        match candidate {
            ContentSnapshot::Text(t) => {
                if t.is_empty() {
                    return true;
                }
                if !recent {
                    return false;
                }
                let read_dup = match &self.last_text_read {
                    Option::Some(lr) => lr.equals(t),
                    Option::None => false,
                };
                let written_dup = match &self.last_text_written {
                    Option::Some(lw) => lw.equals(t),
                    Option::None => false,
                };
                read_dup || written_dup
            },
            ContentSnapshot::Image(sha) => {
                if !recent {
                    return false;
                }
                let read_dup = match &self.last_image_sha256_read {
                    Option::Some(lr) => <String as PartialEq>::eq(lr, sha),
                    Option::None => false,
                };
                let written_dup = match &self.last_image_sha256_written {
                    Option::Some(lw) => <String as PartialEq>::eq(lw, sha),
                    Option::None => false,
                };
                read_dup || written_dup
            },
            ContentSnapshot::Files(paths) => {
                if paths.len() == 0 {
                    return true;
                }
                if !recent {
                    return false;
                }
                match &self.last_file_paths_read {
                    Option::Some(lr) => file_sets_equal(paths, lr),
                    Option::None => false,
                }
            },
        }
    }

    /// Records that a transfer was attempted at the given beat; even a write
    /// that later fails counts for the feedback window.
    pub fn record_attempt(&mut self, beat: u64)
        ensures
            final(self).last_beat == Some(beat),
            final(self).last_text_written == old(self).last_text_written,
            final(self).last_text_read == old(self).last_text_read,
            final(self).last_image_sha256_written == old(self).last_image_sha256_written,
            final(self).last_image_sha256_read == old(self).last_image_sha256_read,
            final(self).last_file_paths_read == old(self).last_file_paths_read,
    {
        self.last_beat = Option::Some(beat);
    }

    /// Records the text snapshot that was successfully written.
    pub fn record_text_written(&mut self, t: ClipboardText)
        ensures
            final(self).last_text_written == Some(t),
            final(self).last_beat == old(self).last_beat,
            final(self).last_text_read == old(self).last_text_read,
            final(self).last_image_sha256_written == old(self).last_image_sha256_written,
            final(self).last_image_sha256_read == old(self).last_image_sha256_read,
            final(self).last_file_paths_read == old(self).last_file_paths_read,
    {
        self.last_text_written = Option::Some(t);
    }

    /// Records the digest of the image that was successfully written.
    pub fn record_image_written(&mut self, sha256: String)
        ensures
            final(self).last_image_sha256_written == Some(sha256),
            final(self).last_beat == old(self).last_beat,
            final(self).last_text_written == old(self).last_text_written,
            final(self).last_text_read == old(self).last_text_read,
            final(self).last_image_sha256_read == old(self).last_image_sha256_read,
            final(self).last_file_paths_read == old(self).last_file_paths_read,
    {
        self.last_image_sha256_written = Option::Some(sha256);
    }

    /// Records the text snapshot that was successfully applied to the
    /// clipboard.
    pub fn record_text_read(&mut self, t: ClipboardText)
        ensures
            final(self).last_text_read == Some(t),
            final(self).last_beat == old(self).last_beat,
            final(self).last_text_written == old(self).last_text_written,
            final(self).last_image_sha256_written == old(self).last_image_sha256_written,
            final(self).last_image_sha256_read == old(self).last_image_sha256_read,
            final(self).last_file_paths_read == old(self).last_file_paths_read,
    {
        self.last_text_read = Option::Some(t);
    }

    /// Records the digest of the image that was successfully applied.
    pub fn record_image_read(&mut self, sha256: String)
        ensures
            final(self).last_image_sha256_read == Some(sha256),
            final(self).last_beat == old(self).last_beat,
            final(self).last_text_written == old(self).last_text_written,
            final(self).last_text_read == old(self).last_text_read,
            final(self).last_image_sha256_written == old(self).last_image_sha256_written,
            final(self).last_file_paths_read == old(self).last_file_paths_read,
    {
        self.last_image_sha256_read = Option::Some(sha256);
    }

    /// Records the file paths that were successfully applied.
    pub fn record_files_read(&mut self, paths: Vec<String>)
        ensures
            final(self).last_file_paths_read == Some(paths),
            final(self).last_beat == old(self).last_beat,
            final(self).last_text_written == old(self).last_text_written,
            final(self).last_text_read == old(self).last_text_read,
            final(self).last_image_sha256_written == old(self).last_image_sha256_written,
            final(self).last_image_sha256_read == old(self).last_image_sha256_read,
    {
        self.last_file_paths_read = Option::Some(paths);
    }
}

} // verus!
