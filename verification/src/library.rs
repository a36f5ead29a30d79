//! The scanned local library: track paths with their metadata, and the search
//! filter over it.
use vstd::prelude::*;
use crate::metadata::TrackMeta;
use crate::paths::{file_name, file_name_spec};
use crate::text::{chars_of, contains_chars, lowercased, push_char, push_str_chars, seq_contains, to_lowercase};

verus! {

/// Track paths and, at the same position, their metadata.
#[derive(Debug)]
pub struct Library {
    pub tracks: Vec<String>,
    pub metadata: Vec<TrackMeta>,
}

/// The paths as character sequences.
pub open spec fn path_views(v: Seq<String>) -> Seq<Seq<char>> {
    v.map_values(|s: String| s@)
}

/// No path occurs twice.
pub open spec fn distinct_paths(v: Seq<String>) -> bool {
    forall|i: int, j: int| 0 <= i < j < v.len() ==> v[i]@ != v[j]@
}

/// Whether some path of `t` is `p`.
pub open spec fn lists(t: Seq<String>, p: Seq<char>) -> bool {
    exists|i: int| 0 <= i < t.len() && t[i]@ == p
}

/// How many scan results the player takes in at most per tick, so that a large
/// scan does not hold up the interface.
pub const SCAN_BATCH: usize = 200;

/// Tracks and metadata after one scan result: a known path gets the new
/// metadata, a new path is appended with it.
pub open spec fn scan_step(t: Seq<String>, m: Seq<TrackMeta>, path: String, meta: TrackMeta) -> (
    Seq<String>,
    Seq<TrackMeta>,
) {
    if lists(t, path@) {
        let i = choose|i: int| 0 <= i < t.len() && t[i]@ == path@;
        (t, m.update(i, meta))
    } else {
        (t.push(path), m.push(meta))
    }
}

/// Tracks and metadata after the scan results `b`, taken in order.
pub open spec fn scan_batch(t: Seq<String>, m: Seq<TrackMeta>, b: Seq<(String, TrackMeta)>) -> (
    Seq<String>,
    Seq<TrackMeta>,
)
    decreases b.len(),
{
    if b.len() == 0 {
        (t, m)
    } else {
        let (t1, m1) = scan_batch(t, m, b.drop_last());
        scan_step(t1, m1, b.last().0, b.last().1)
    }
}

/// The paths of `b` that `t` does not list, each where it first arrives.
pub open spec fn fresh_paths(t: Seq<String>, b: Seq<(String, TrackMeta)>) -> Seq<String>
    decreases b.len(),
{
    if b.len() == 0 {
        seq![]
    } else {
        let f = fresh_paths(t, b.drop_last());
        if lists(t, b.last().0@) || lists(f, b.last().0@) {
            f
        } else {
            f.push(b.last().0)
        }
    }
}

/// The metadata that the last result for path `p` in `b` carries, if any does.
pub open spec fn last_meta(b: Seq<(String, TrackMeta)>, p: Seq<char>) -> Option<TrackMeta>
    decreases b.len(),
{
    if b.len() == 0 {
        None
    } else if b.last().0@ == p {
        Some(b.last().1)
    } else {
        last_meta(b.drop_last(), p)
    }
}

/// One scan result keeps the library well formed: the old tracks keep their
/// places, a new path comes last, and only the path's metadata changes.
proof fn lemma_scan_step(t: Seq<String>, m: Seq<TrackMeta>, path: String, meta: TrackMeta)
    requires
        t.len() == m.len(),
        distinct_paths(t),
    ensures
        ({
            let (t2, m2) = scan_step(t, m, path, meta);
            &&& t2.len() == m2.len()
            &&& distinct_paths(t2)
            &&& t2 == (if lists(t, path@) {
                t
            } else {
                t.push(path)
            })
            &&& forall|i: int|
                0 <= i < t2.len() ==> #[trigger] m2[i] == (if t2[i]@ == path@ {
                    meta
                } else {
                    m[i]
                })
        }),
{
    if lists(t, path@) {
        let i = choose|i: int| 0 <= i < t.len() && t[i]@ == path@;
        assert forall|j: int| 0 <= j < t.len() && j != i implies t[j]@ != path@ by {
            if j < i {
            } else {
            }
        }
    } else {
        let t2 = t.push(path);
        assert forall|a: int, b: int| 0 <= a < b < t2.len() implies t2[a]@ != t2[b]@ by {
            if b == t.len() {
                assert(t2[a] == t[a]);
            }
        }
    }
}

/// A batch of scan results, taken in arrival order: no path is listed twice and
/// every track has metadata; the old tracks keep their order and the new paths
/// follow in the order they first arrived; every path of the batch is listed;
/// a path of the batch has the metadata of its last result, and any other track
/// keeps its metadata.
pub proof fn lemma_scan_batch(t: Seq<String>, m: Seq<TrackMeta>, b: Seq<(String, TrackMeta)>)
    requires
        t.len() == m.len(),
        distinct_paths(t),
    ensures
        ({
            let (t2, m2) = scan_batch(t, m, b);
            &&& t2.len() == m2.len()
            &&& distinct_paths(t2)
            &&& t2 == t + fresh_paths(t, b)
            &&& forall|k: int| 0 <= k < b.len() ==> lists(t2, #[trigger] b[k].0@)
            &&& forall|i: int|
                0 <= i < t2.len() ==> match #[trigger] last_meta(b, t2[i]@) {
                    Some(x) => m2[i] == x,
                    None => i < t.len() && m2[i] == m[i],
                }
        }),
    decreases b.len(),
{
    if b.len() == 0 {
        assert(t + fresh_paths(t, b) =~= t);
    } else {
        let b1 = b.drop_last();
        lemma_scan_batch(t, m, b1);
        let (t1, m1) = scan_batch(t, m, b1);
        let (p, x) = b.last();
        lemma_scan_step(t1, m1, p, x);
        let (t2, m2) = scan_batch(t, m, b);
        assert((t2, m2) == scan_step(t1, m1, p, x));
        let f1 = fresh_paths(t, b1);
        assert(lists(t1, p@) == (lists(t, p@) || lists(f1, p@))) by {
            if lists(t1, p@) {
                let i = choose|i: int| 0 <= i < t1.len() && t1[i]@ == p@;
                if i < t.len() {
                    assert(t[i] == t1[i]);
                } else {
                    assert(f1[i - t.len()] == t1[i]);
                }
            }
            if lists(t, p@) {
                let i = choose|i: int| 0 <= i < t.len() && t[i]@ == p@;
                assert(t1[i] == t[i]);
            }
            if lists(f1, p@) {
                let i = choose|i: int| 0 <= i < f1.len() && f1[i]@ == p@;
                assert(t1[i + t.len()] == f1[i]);
            }
        }
        if !lists(t1, p@) {
            assert(t1.push(p) =~= t + f1.push(p));
        }
        assert forall|k: int| 0 <= k < b.len() implies lists(t2, #[trigger] b[k].0@) by {
            if k < b1.len() {
                assert(b1[k] == b[k]);
                assert(lists(t1, b1[k].0@));
                let i = choose|i: int| 0 <= i < t1.len() && t1[i]@ == b1[k].0@;
                assert(t2[i] == t1[i]);
            } else if lists(t1, p@) {
                let i = choose|i: int| 0 <= i < t1.len() && t1[i]@ == p@;
                assert(t2[i] == t1[i]);
            } else {
                assert(t2[t1.len() as int] == p);
            }
        }
        assert forall|i: int| 0 <= i < t2.len() implies match #[trigger] last_meta(b, t2[i]@) {
            Some(y) => m2[i] == y,
            None => i < t.len() && m2[i] == m[i],
        } by {
            assert(m2[i] == (if t2[i]@ == p@ {
                x
            } else {
                m1[i]
            }));
            if t2[i]@ == p@ {
                assert(last_meta(b, t2[i]@) == Some(x));
            } else {
                assert(last_meta(b, t2[i]@) == last_meta(b1, t2[i]@));
                assert(i < t1.len());
                assert(t2[i] == t1[i]);
                assert(match last_meta(b1, t1[i]@) {
                    Some(y) => m1[i] == y,
                    None => i < t.len() && m1[i] == m[i],
                });
            }
        }
    }
}

impl Library {
    /// Every track has metadata and no track is listed twice.
    pub open spec fn wf(&self) -> bool {
        &&& self.tracks@.len() == self.metadata@.len()
        &&& distinct_paths(self.tracks@)
    }

    /// Whether the library lists the track at `path`.
    pub open spec fn has(&self, path: Seq<char>) -> bool {
        exists|i: int| 0 <= i < self.tracks@.len() && self.tracks@[i]@ == path
    }

    /// An empty library.
    pub fn new() -> (r: Library)
        ensures
            r.wf(),
            r.tracks@.len() == 0,
    {
        Library { tracks: Vec::new(), metadata: Vec::new() }
    }

    /// Drops every track (a rescan starts from an empty library).
    pub fn clear(&mut self)
        ensures
            final(self).wf(),
            final(self).tracks@.len() == 0,
    {
        self.tracks.clear();
        self.metadata.clear();
    }

    /// The position of `path` in the library, if it is listed.
    pub fn position(&self, path: &String) -> (r: Option<usize>)
        requires
            self.wf(),
        ensures
            match r {
                Some(i) => i < self.tracks@.len() && self.tracks@[i as int]@ == path@,
                None => !self.has(path@),
            },
    {
        let mut i: usize = 0;
        while i < self.tracks.len()
            invariant
                i <= self.tracks@.len(),
                forall|j: int| 0 <= j < i ==> self.tracks@[j]@ != path@,
            decreases self.tracks@.len() - i,
        {
            if self.tracks[i] == *path {
                return Some(i);
            }
            i += 1;
        }
        None
    }

    /// Takes in a scan result: a new path is appended with its metadata; for a
    /// path already listed only the metadata is replaced.
    pub fn merge_scanned(&mut self, path: String, meta: TrackMeta)
        requires
            old(self).wf(),
        ensures
            final(self).wf(),
            old(self).has(path@) ==> exists|i: int|
                0 <= i < old(self).tracks@.len() && old(self).tracks@[i]@ == path@
                    && final(self).tracks@ == old(self).tracks@ && final(self).metadata@
                    == old(self).metadata@.update(i, meta),
            !old(self).has(path@) ==> final(self).tracks@ == old(self).tracks@.push(path)
                && final(self).metadata@ == old(self).metadata@.push(meta),
            (final(self).tracks@, final(self).metadata@) == scan_step(
                old(self).tracks@,
                old(self).metadata@,
                path,
                meta,
            ),
    {
        proof {
            lemma_scan_step(self.tracks@, self.metadata@, path, meta);
        }
        match self.position(&path) {
            Some(i) => {
                self.metadata.set(i, meta);
                proof {
                    let t = old(self).tracks@;
                    let j = choose|j: int| 0 <= j < t.len() && t[j]@ == path@;
                    if j != i as int {
                        if j < i {
                        } else {
                        }
                    }
                    assert(j == i as int);
                }
            },
            None => {
                self.tracks.push(path);
                self.metadata.push(meta);
                proof {
                    let t = final(self).tracks@;
                    assert forall|a: int, b: int| 0 <= a < b < t.len() implies t[a]@
                        != t[b]@ by {
                        if b == t.len() - 1 {
                            assert(old(self).tracks@[a]@ != path@);
                        }
                    }
                }
            },
        }
    }

    /// Takes in a batch of scan results in arrival order, each as
    /// `merge_scanned` does.
    pub fn merge_batch(&mut self, batch: Vec<(String, TrackMeta)>)
        requires
            old(self).wf(),
        ensures
            final(self).wf(),
            (final(self).tracks@, final(self).metadata@) == scan_batch(
                old(self).tracks@,
                old(self).metadata@,
                batch@,
            ),
    {
        let ghost b = batch@;
        let n = batch.len();
        let mut rest = batch;
        let mut i: usize = 0;
        assert(b.skip(0) =~= b);
        assert(b.take(0) =~= Seq::<(String, TrackMeta)>::empty());
        while rest.len() > 0
            invariant
                self.wf(),
                i <= b.len(),
                n == b.len(),
                rest@ == b.skip(i as int),
                (self.tracks@, self.metadata@) == scan_batch(
                    old(self).tracks@,
                    old(self).metadata@,
                    b.take(i as int),
                ),
            decreases rest@.len(),
        {
            let (path, meta) = rest.remove(0);
            assert(rest@ =~= b.skip(i + 1));
            assert(b.take(i + 1).drop_last() =~= b.take(i as int));
            assert(b.take(i + 1).last() == (path, meta));
            self.merge_scanned(path, meta);
            i += 1;
        }
        assert(b.take(b.len() as int) =~= b);
    }

    /// Whether a batch of `len` scan results is as large as one tick takes.
    pub fn batch_full(len: usize) -> (r: bool)
        ensures
            r == (len >= SCAN_BATCH),
    {
        len >= SCAN_BATCH
    }

    /// The text the search matches for track `i`: the lowercased
    /// "title artist" of its metadata.
    pub open spec fn search_text(&self, i: int) -> Seq<char> {
        let m = self.metadata@[i];
        let t = match m.title {
            Some(t) => t@,
            None => seq![],
        };
        let a = match m.artist {
            Some(a) => a@,
            None => seq![],
        };
        lowercased(t + seq![' '] + a)
    }

    /// Whether track `i` matches the lowercased query `q`: its search text or its
    /// lowercased file name contains `q`.
    pub open spec fn track_matches(&self, i: int, q: Seq<char>) -> bool {
        ||| seq_contains(self.search_text(i), q)
        ||| match file_name_spec(self.tracks@[i]@) {
            Some(n) => seq_contains(lowercased(n), q),
            None => false,
        }
    }

    /// The positions among the first `k` tracks that match `q`, in order.
    pub open spec fn matching_upto(&self, q: Seq<char>, k: int) -> Seq<usize>
        decreases k,
    {
        if k <= 0 {
            seq![]
        } else {
            let rest = self.matching_upto(q, k - 1);
            if self.track_matches(k - 1, q) {
                rest.push((k - 1) as usize)
            } else {
                rest
            }
        }
    }

    /// The positions of the tracks listed for a search: every track when the
    /// search is empty, else those matching the lowercased search.
    #[verifier::opaque]
    pub open spec fn filtered(&self, search: Seq<char>) -> Seq<usize> {
        if search.len() == 0 {
            Seq::new(self.tracks@.len(), |i: int| i as usize)
        } else {
            self.matching_upto(lowercased(search), self.tracks@.len() as int)
        }
    }

    /// Whether track `i` matches the lowercased query.
    fn matches(&self, i: usize, q: &[char]) -> (r: bool)
        requires
            self.wf(),
            i < self.tracks@.len(),
        ensures
            r == self.track_matches(i as int, q@),
    {
        let m = &self.metadata[i];
        let mut text = String::new();
        match &m.title {
            Some(t) => push_str_chars(&mut text, t.as_str()),
            None => {},
        }
        push_char(&mut text, ' ');
        match &m.artist {
            Some(a) => push_str_chars(&mut text, a.as_str()),
            None => {},
        }
        proof {
            let t = match &m.title {
                Some(t) => t@,
                None => seq![],
            };
            let a = match &m.artist {
                Some(a) => a@,
                None => seq![],
            };
            assert(text@ =~= t + seq![' '] + a);
        }
        let low = to_lowercase(text.as_str());
        let lc = chars_of(low.as_str());
        if contains_chars(lc.as_slice(), q) {
            return true;
        }
        match file_name(self.tracks[i].as_str()) {
            Some(n) => {
                let ln = to_lowercase(n.as_str());
                let lnc = chars_of(ln.as_str());
                contains_chars(lnc.as_slice(), q)
            },
            None => false,
        }
    }

    /// The positions of the tracks listed for `search`, in library order.
    pub fn filtered_indices(&self, search: &str) -> (r: Vec<usize>)
        requires
            self.wf(),
        ensures
            r@ == self.filtered(search@),
    {
        reveal(Library::filtered);
        let n = self.tracks.len();
        let mut out: Vec<usize> = Vec::new();
        if search.is_empty() {
            let mut i: usize = 0;
            while i < n
                invariant
                    n == self.tracks@.len(),
                    i <= n,
                    out@ == Seq::new(i as nat, |j: int| j as usize),
                decreases n - i,
            {
                out.push(i);
                i += 1;
                assert(out@ =~= Seq::new(i as nat, |j: int| j as usize));
            }
            return out;
        }
        let low = to_lowercase(search);
        let q = chars_of(low.as_str());
        let mut i: usize = 0;
        while i < n
            invariant
                self.wf(),
                n == self.tracks@.len(),
                i <= n,
                q@ == lowercased(search@),
                out@ == self.matching_upto(q@, i as int),
            decreases n - i,
        {
            if self.matches(i, q.as_slice()) {
                out.push(i);
            }
            i += 1;
        }
        out
    }
}

/// Every position in the filter result is a track position, and positions
/// strictly increase, so no track is listed twice.
pub proof fn lemma_filtered_ordered(lib: &Library, search: Seq<char>)
    requires
        lib.tracks@.len() <= usize::MAX,
    ensures
        forall|a: int| 0 <= a < lib.filtered(search).len() ==> (lib.filtered(search)[a] as int)
            < lib.tracks@.len(),
        forall|a: int, b: int|
            0 <= a < b < lib.filtered(search).len() ==> lib.filtered(search)[a]
                < lib.filtered(search)[b],
{
    reveal(Library::filtered);
    if search.len() > 0 {
        lemma_matching_upto(lib, lowercased(search), lib.tracks@.len() as int);
    }
}

proof fn lemma_matching_upto(lib: &Library, q: Seq<char>, k: int)
    requires
        0 <= k <= lib.tracks@.len(),
        lib.tracks@.len() <= usize::MAX,
    ensures
        forall|a: int| 0 <= a < lib.matching_upto(q, k).len() ==> (lib.matching_upto(q, k)[a] as int) < k,
        forall|a: int, b: int|
            0 <= a < b < lib.matching_upto(q, k).len() ==> lib.matching_upto(q, k)[a]
                < lib.matching_upto(q, k)[b],
    decreases k,
{
    if k > 0 {
        lemma_matching_upto(lib, q, k - 1);
        let r = lib.matching_upto(q, k - 1);
        assert(((k - 1) as usize) as int == k - 1);
        if lib.track_matches(k - 1, q) {
            assert(lib.matching_upto(q, k) == r.push((k - 1) as usize));
        } else {
            assert(lib.matching_upto(q, k) == r);
        }
    }
}


proof fn lemma_matching_upto_has(lib: &Library, q: Seq<char>, k: int, i: int)
    requires
        0 <= k <= lib.tracks@.len(),
        0 <= i < lib.tracks@.len(),
        lib.tracks@.len() <= usize::MAX,
    ensures
        lib.matching_upto(q, k).contains(i as usize) <==> i < k && lib.track_matches(i, q),
    decreases k,
{
    if k > 0 {
        lemma_matching_upto_has(lib, q, k - 1, i);
        let r = lib.matching_upto(q, k - 1);
        if lib.track_matches(k - 1, q) {
            let r2 = r.push((k - 1) as usize);
            assert(lib.matching_upto(q, k) == r2);
            if i == k - 1 {
                assert(r2[r.len() as int] == i as usize);
            }
            if r2.contains(i as usize) {
                let j = choose|j: int| 0 <= j < r2.len() && #[trigger] r2[j] == i as usize;
                if j < r.len() {
                    assert(r[j] == i as usize);
                }
            }
            if r.contains(i as usize) {
                let j = choose|j: int| 0 <= j < r.len() && #[trigger] r[j] == i as usize;
                assert(r2[j] == i as usize);
            }
        }
    }
}

/// The search ignores case: with a search text, a track is shown exactly when
/// its lowercased "title artist" or its lowercased file name contains the
/// lowercased search text; an empty search shows every track.
pub proof fn lemma_search_ignores_case(lib: &Library, search: Seq<char>, i: int)
    requires
        0 <= i < lib.tracks@.len(),
        lib.tracks@.len() == lib.metadata@.len(),
        lib.tracks@.len() <= usize::MAX,
    ensures
        ({
            let q = lowercased(search);
            let m = lib.metadata@[i];
            let title = match m.title {
                Some(t) => t@,
                None => seq![],
            };
            let artist = match m.artist {
                Some(a) => a@,
                None => seq![],
            };
            lib.filtered(search).contains(i as usize) <==> (search.len() == 0 || seq_contains(
                lowercased(title + seq![' '] + artist),
                q,
            ) || (file_name_spec(lib.tracks@[i]@) matches Some(n) && seq_contains(lowercased(n), q)))
        }),
{
    reveal(Library::filtered);
    if search.len() == 0 {
        let all = Seq::new(lib.tracks@.len(), |j: int| j as usize);
        assert(all[i] == i as usize);
    } else {
        lemma_matching_upto_has(lib, lowercased(search), lib.tracks@.len() as int, i);
    }
}

/// An empty search shows every track, in library order.
pub proof fn lemma_empty_search_shows_all(lib: &Library)
    ensures
        lib.filtered(Seq::<char>::empty()) == Seq::new(lib.tracks@.len(), |i: int| i as usize),
{
    reveal(Library::filtered);
}

} // verus!
