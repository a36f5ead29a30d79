//! Synced lyrics in the LRC format (`[mm:ss.xx] text` lines) and the lookup of
//! the line that is current at a playback position.
use vstd::prelude::*;
use crate::json::{field, text, text_of, Json};
use crate::text::{
    chars_of, find_char, first_index_from, parse_u64, parse_u64_spec, slice_range, string_of,
    trim, trimmed,
};

verus! {

/// One timed line of synced lyrics.
#[derive(Debug)]
pub struct LrcLine {
    /// When the line starts, in milliseconds from the start of the track.
    pub timestamp_ms: u64,
    pub text: String,
}

impl LrcLine {
    /// The line as a pair of start time and text.
    pub open spec fn view(&self) -> (nat, Seq<char>) {
        (self.timestamp_ms as nat, self.text@)
    }
}

// ─── Lines ──────────────────────────────────────────────────────────────────

/// A line without the `\r` of a `\r\n` ending.
pub open spec fn strip_cr(c: Seq<char>) -> Seq<char> {
    if c.len() > 0 && c.last() == '\r' {
        c.drop_last()
    } else {
        c
    }
}

/// The lines completed by a `\n` so far, and the text after the last `\n`.
pub open spec fn nl_split(s: Seq<char>) -> (Seq<Seq<char>>, Seq<char>)
    decreases s.len(),
{
    if s.len() == 0 {
        (seq![], seq![])
    } else {
        let (d, c) = nl_split(s.drop_last());
        if s.last() == '\n' {
            (d.push(strip_cr(c)), seq![])
        } else {
            (d, c.push(s.last()))
        }
    }
}

/// What `str::lines` gives: the text split at `\n` (a `\r` before it is dropped);
/// a final line ending is optional.
pub open spec fn text_lines(s: Seq<char>) -> Seq<Seq<char>> {
    let (d, c) = nl_split(s);
    if c.len() > 0 {
        d.push(c)
    } else {
        d
    }
}

// ─── One line ───────────────────────────────────────────────────────────────

/// The fields of one timed LRC line `[m:s] text`, as the text holds them.
#[derive(Debug)]
pub struct LrcEntry {
    /// The minutes before the first `:` of the bracket, as a `u64`.
    pub minutes: u64,
    /// Everything in the bracket after the first `:`; read as a decimal number
    /// of seconds by the caller.
    pub seconds: String,
    /// The text after the closing bracket, trimmed.
    pub text: String,
}

impl LrcEntry {
    /// The entry as minutes, seconds text and line text.
    pub open spec fn view(&self) -> (nat, Seq<char>, Seq<char>) {
        (self.minutes as nat, self.seconds@, self.text@)
    }
}

/// The fields of an LRC line: it starts with `[`, holds a `]`, the bracket text
/// has a `:` and what comes before the first `:` is a `u64`. The minutes, the
/// text after that `:` inside the bracket, and the trimmed text after the `]`.
pub open spec fn lrc_entry(l: Seq<char>) -> Option<(nat, Seq<char>, Seq<char>)> {
    if l.len() == 0 || l[0] != '[' {
        None
    } else {
        let rest = l.drop_first();
        match first_index_from(rest, ']', 0) {
            None => None,
            Some(b) => {
                let ts = rest.subrange(0, b);
                let text = trim(rest.subrange(b + 1, rest.len() as int));
                match first_index_from(ts, ':', 0) {
                    None => None,
                    Some(k) => match parse_u64_spec(ts.subrange(0, k)) {
                        Some(m) => Some((m as nat, ts.subrange(k + 1, ts.len() as int), text)),
                        None => None,
                    },
                }
            },
        }
    }
}

/// The entries of the lines `ls` that are timed LRC lines, in their order.
pub open spec fn entries_of(ls: Seq<Seq<char>>) -> Seq<(nat, Seq<char>, Seq<char>)>
    decreases ls.len(),
{
    if ls.len() == 0 {
        seq![]
    } else {
        let acc = entries_of(ls.drop_last());
        match lrc_entry(ls.last()) {
            Some(e) => acc.push(e),
            None => acc,
        }
    }
}

/// What `lrc_entries` gives for a text.
pub open spec fn lrc_entries_spec(text: Seq<char>) -> Seq<(nat, Seq<char>, Seq<char>)> {
    entries_of(text_lines(text))
}

proof fn lemma_first_index_at(s: Seq<char>, c: char, k: int, from: int)
    requires
        0 <= from <= k < s.len(),
        s[k] == c,
        forall|j: int| from <= j < k ==> s[j] != c,
    ensures
        first_index_from(s, c, from) == Some(k),
    decreases k - from,
{
    if from < k {
        lemma_first_index_at(s, c, k, from + 1);
    }
}

proof fn lemma_first_index_prefix(s: Seq<char>, t: Seq<char>, c: char, from: int)
    requires
        0 <= from,
        first_index_from(s, c, from) is Some,
    ensures
        first_index_from(s + t, c, from) == first_index_from(s, c, from),
    decreases s.len() - from,
{
    if from < s.len() && s[from] != c {
        lemma_first_index_prefix(s, t, c, from + 1);
    }
}

/// A line is timed only when it starts with `[` and holds a `]`; then its
/// bracket must hold a `:`, the part before the first `:` gives the minutes
/// (as a `u64`) and everything after that `:` up to the `]` is the seconds
/// text.
pub proof fn lemma_lrc_entry_bracket(l: Seq<char>)
    ensures
        l.len() == 0 || l[0] != '[' ==> lrc_entry(l) is None,
        (forall|j: int| 0 <= j < l.len() ==> l[j] != ']') ==> lrc_entry(l) is None,
        lrc_entry(l) matches Some(e) ==> exists|b: int, k: int|
            #![trigger l.subrange(1, k + 1), l.subrange(k + 2, b + 1)]
            0 <= k < b && b + 1 < l.len() && l[b + 1] == ']' && l[k + 1] == ':' && (forall|j: int|
                1 <= j < b + 1 ==> l[j] != ']') && (forall|j: int| 1 <= j < k + 1 ==> l[j] != ':')
                && parse_u64_spec(l.subrange(1, k + 1)) == Some(e.0 as u64) && e.1 == l.subrange(
                k + 2,
                b + 1,
            ),
{
    if l.len() > 0 && l[0] == '[' {
        let rest = l.drop_first();
        lemma_first_index_found(rest, ']', 0);
        if let Some(b) = first_index_from(rest, ']', 0) {
            let ts = rest.subrange(0, b);
            lemma_first_index_found(ts, ':', 0);
            if let Some(k) = first_index_from(ts, ':', 0) {
                if lrc_entry(l) is Some {
                    assert(ts.subrange(0, k) =~= l.subrange(1, k + 1));
                    assert(ts.subrange(k + 1, ts.len() as int) =~= l.subrange(k + 2, b + 1));
                    assert(forall|j: int| 1 <= j < b + 1 ==> l[j] == rest[j - 1]);
                    assert(forall|j: int| 1 <= j < k + 1 ==> l[j] == ts[j - 1]);
                    assert(l[b + 1] == rest[b]);
                    assert(l[k + 1] == ts[k]);
                }
            }
        } else {
        }
    }
}

proof fn lemma_first_index_found(s: Seq<char>, c: char, from: int)
    requires
        0 <= from,
    ensures
        match first_index_from(s, c, from) {
            Some(k) => from <= k < s.len() && s[k] == c && forall|j: int| from <= j < k ==> s[j] != c,
            None => forall|j: int| from <= j < s.len() ==> s[j] != c,
        },
    decreases s.len() - from,
{
    if from < s.len() && s[from] != c {
        lemma_first_index_found(s, c, from + 1);
    }
}

/// Whether a line is a timed line, and its minutes and seconds, depend only on
/// its bracket `head` (a `[` up to the first `]`), never on the text after it:
/// a line with any text, an empty one included, gives an entry exactly when
/// its bracket alone does, with the same minutes and seconds, and the entry's
/// text is that text trimmed.
pub proof fn lemma_lrc_entry_any_text(head: Seq<char>, tail: Seq<char>)
    requires
        head.len() >= 2,
        head[0] == '[',
        head.last() == ']',
        forall|j: int| 1 <= j < head.len() - 1 ==> head[j] != ']',
    ensures
        match (lrc_entry(head + tail), lrc_entry(head)) {
            (Some(e), Some(f)) => e.0 == f.0 && e.1 == f.1 && e.2 == trim(tail),
            (None, None) => true,
            _ => false,
        },
{
    let l = head + tail;
    let rest = l.drop_first();
    let hr = head.drop_first();
    let b = hr.len() - 1;
    assert(rest =~= hr + tail);
    assert forall|j: int| 0 <= j < b implies hr[j] != ']' by {
        assert(hr[j] == head[j + 1]);
    }
    lemma_first_index_at(hr, ']', b, 0);
    lemma_first_index_prefix(hr, tail, ']', 0);
    assert(rest.subrange(0, b) =~= hr.subrange(0, b));
    assert(rest.subrange(b + 1, rest.len() as int) =~= tail);
    assert(hr.subrange(b + 1, hr.len() as int) =~= Seq::<char>::empty());
}

// ─── Ordering ───────────────────────────────────────────────────────────────

/// Inserts `e` after every entry that does not start later than it.
pub open spec fn insert_by_time(s: Seq<(nat, Seq<char>)>, e: (nat, Seq<char>)) -> Seq<
    (nat, Seq<char>),
>
    decreases s.len(),
{
    if s.len() == 0 {
        seq![e]
    } else if s.last().0 <= e.0 {
        s.push(e)
    } else {
        insert_by_time(s.drop_last(), e).push(s.last())
    }
}

/// The lines `s` stably sorted by start time: each line in turn goes after
/// every earlier one that does not start later than it.
pub open spec fn by_start(s: Seq<(nat, Seq<char>)>) -> Seq<(nat, Seq<char>)>
    decreases s.len(),
{
    if s.len() == 0 {
        seq![]
    } else {
        insert_by_time(by_start(s.drop_last()), s.last())
    }
}

/// Start times never decrease along the sequence.
pub open spec fn sorted_by_time(s: Seq<(nat, Seq<char>)>) -> bool {
    forall|i: int, j: int| 0 <= i <= j < s.len() ==> s[i].0 <= s[j].0
}

proof fn lemma_insert_by_time(s: Seq<(nat, Seq<char>)>, e: (nat, Seq<char>))
    requires
        sorted_by_time(s),
    ensures
        sorted_by_time(insert_by_time(s, e)),
        insert_by_time(s, e).len() == s.len() + 1,
        insert_by_time(s, e).to_multiset() == s.to_multiset().insert(e),
    decreases s.len(),
{
    broadcast use vstd::seq_lib::group_to_multiset_ensures;

    if s.len() == 0 {
        assert(seq![e] =~= seq![].push(e));
    } else if s.last().0 <= e.0 {
    } else {
        let t = s.drop_last();
        assert(sorted_by_time(t));
        lemma_insert_by_time(t, e);
        let u = insert_by_time(t, e);
        assert forall|i: int| 0 <= i < u.len() implies u[i].0 <= s.last().0 by {
            if u[i] == e {
            } else {
                assert(u.to_multiset().count(u[i]) > 0);
                assert(t.to_multiset().count(u[i]) > 0);
                assert(t.contains(u[i]));
                let k = choose|k: int| 0 <= k < t.len() && t[k] == u[i];
                assert(s[k] == t[k]);
            }
        }
        assert(s =~= t.push(s.last()));
    }
}

/// Sorting by start time orders the lines and neither loses nor adds one.
pub proof fn lemma_by_start(s: Seq<(nat, Seq<char>)>)
    ensures
        sorted_by_time(by_start(s)),
        by_start(s).len() == s.len(),
        by_start(s).to_multiset() == s.to_multiset(),
    decreases s.len(),
{
    broadcast use vstd::seq_lib::group_to_multiset_ensures;

    if s.len() > 0 {
        lemma_by_start(s.drop_last());
        lemma_insert_by_time(by_start(s.drop_last()), s.last());
        assert(s =~= s.drop_last().push(s.last()));
    }
}

// ─── Executable parsing ─────────────────────────────────────────────────────

/// The entry that one LRC line stands for, if any.
fn parse_lrc_entry(l: &[char]) -> (r: Option<LrcEntry>)
    ensures
        match lrc_entry(l@) {
            Some(e) => r matches Some(p) && p.view() == e,
            None => r is None,
        },
{
    if l.len() == 0 || l[0] != '[' {
        return None;
    }
    let rest = slice_range(l, 1, l.len());
    assert(rest@ =~= l@.drop_first());
    let ob = find_char(rest.as_slice(), ']');
    if ob.is_none() {
        assert(first_index_from(rest@, ']', 0) is None);
        return None;
    }
    let b = ob.unwrap();
    assert(first_index_from(rest@, ']', 0) == Some(b as int));
    let ts = slice_range(rest.as_slice(), 0, b);
    let after = slice_range(rest.as_slice(), b + 1, rest.len());
    let text = trimmed(after.as_slice());
    let ok = find_char(ts.as_slice(), ':');
    if ok.is_none() {
        assert(first_index_from(ts@, ':', 0) is None);
        return None;
    }
    let k = ok.unwrap();
    assert(first_index_from(ts@, ':', 0) == Some(k as int));
    let mins_s = slice_range(ts.as_slice(), 0, k);
    let secs_s = slice_range(ts.as_slice(), k + 1, ts.len());
    match parse_u64(mins_s.as_slice()) {
        None => None,
        Some(m) => Some(
            LrcEntry {
                minutes: m,
                seconds: string_of(secs_s.as_slice()),
                text: string_of(text.as_slice()),
            },
        ),
    }
}

/// Adds the entry of `line` to `out` when `line` is a timed LRC line.
fn take_entry(out: &mut Vec<LrcEntry>, line: &[char])
    ensures
        final(out)@.map_values(|x: LrcEntry| x.view()) == (match lrc_entry(line@) {
            Some(e) => old(out)@.map_values(|x: LrcEntry| x.view()).push(e),
            None => old(out)@.map_values(|x: LrcEntry| x.view()),
        }),
{
    match parse_lrc_entry(line) {
        None => {},
        Some(e) => {
            out.push(e);
            assert(final(out)@.map_values(|x: LrcEntry| x.view()) =~= old(out)@.map_values(
                |x: LrcEntry| x.view(),
            ).push(e.view()));
        },
    }
}

/// Splits synced lyrics into their timed lines, in the order of the text: each
/// line (as `str::lines` gives them) of the form `[m:s] text` whose `m`, up to
/// the first `:` in the bracket, is a `u64` gives its minutes, the rest of the
/// bracket as seconds text and the trimmed text after the `]`. Every other line
/// is skipped.
pub fn lrc_entries(lrc: &str) -> (r: Vec<LrcEntry>)
    ensures
        r@.map_values(|x: LrcEntry| x.view()) == lrc_entries_spec(lrc@),
{
    let cs = chars_of(lrc);
    let mut out: Vec<LrcEntry> = Vec::new();
    let mut cur: Vec<char> = Vec::new();
    let mut i: usize = 0;
    assert(out@.map_values(|x: LrcEntry| x.view()) =~= Seq::<(nat, Seq<char>, Seq<char>)>::empty());
    while i < cs.len()
        invariant
            cs@ == lrc@,
            i <= cs@.len(),
            out@.map_values(|x: LrcEntry| x.view()) == entries_of(nl_split(cs@.take(i as int)).0),
            cur@ == nl_split(cs@.take(i as int)).1,
        decreases cs@.len() - i,
    {
        let c = cs[i];
        let ghost pre = cs@.take(i as int);
        assert(cs@.take(i + 1).drop_last() =~= pre);
        if c == '\n' {
            let mut line = cur;
            if line.len() > 0 && line[line.len() - 1] == '\r' {
                line.pop();
            }
            assert(line@ =~= strip_cr(nl_split(pre).1));
            take_entry(&mut out, line.as_slice());
            proof {
                let d = nl_split(pre).0;
                assert(d.push(line@).drop_last() =~= d);
            }
            cur = Vec::new();
        } else {
            cur.push(c);
        }
        i += 1;
    }
    assert(cs@.take(cs@.len() as int) =~= cs@);
    if cur.len() > 0 {
        let ghost d = nl_split(cs@).0;
        take_entry(&mut out, cur.as_slice());
        assert(d.push(cur@).drop_last() =~= d);
    }
    out
}

/// Inserts `e` after every line that does not start later than it.
fn insert_line(out: &mut Vec<LrcLine>, e: LrcLine)
    ensures
        final(out)@.map_values(|x: LrcLine| x.view()) == insert_by_time(
            old(out)@.map_values(|x: LrcLine| x.view()),
            e.view(),
        ),
{
    let ghost s = old(out)@.map_values(|x: LrcLine| x.view());
    let mut p = out.len();
    assert(s.take(p as int) =~= s);
    assert(s.skip(p as int) =~= Seq::<(nat, Seq<char>)>::empty());
    assert(s + Seq::<(nat, Seq<char>)>::empty() =~= s);
    while p > 0 && out[p - 1].timestamp_ms > e.timestamp_ms
        invariant
            out@ == old(out)@,
            s == out@.map_values(|x: LrcLine| x.view()),
            s.len() == out@.len(),
            p <= out@.len(),
            insert_by_time(s, e.view()) == insert_by_time(s.take(p as int), e.view()) + s.skip(
                p as int,
            ),
        decreases p,
    {
        proof {
            let t = s.take(p as int);
            assert(s[p - 1] == out@[p - 1].view());
            assert(t.last() == s[p - 1]);
            assert(t.drop_last() =~= s.take(p - 1));
            assert(s.skip(p - 1) =~= seq![s[p - 1]] + s.skip(p as int));
            assert(insert_by_time(t, e.view()) == insert_by_time(t.drop_last(), e.view()).push(
                t.last(),
            ));
            assert(insert_by_time(t.drop_last(), e.view()).push(t.last()) + s.skip(p as int)
                =~= insert_by_time(t.drop_last(), e.view()) + s.skip(p - 1));
        }
        p -= 1;
    }
    proof {
        let t = s.take(p as int);
        if p > 0 {
            assert(t.last() == s[p - 1]);
        }
        assert(insert_by_time(t, e.view()) == t.push(e.view()));
    }
    out.insert(p, e);
    proof {
        let t = s.take(p as int);
        assert(final(out)@.map_values(|x: LrcLine| x.view()) =~= t.push(e.view()) + s.skip(
            p as int,
        ));
    }
}

/// The lines stably sorted by start time: lines that start at the same time
/// keep their order.
pub fn sort_by_start(lines: Vec<LrcLine>) -> (r: Vec<LrcLine>)
    ensures
        r@.map_values(|x: LrcLine| x.view()) == by_start(lines@.map_values(|x: LrcLine| x.view())),
        sorted_by_time(r@.map_values(|x: LrcLine| x.view())),
        r@.map_values(|x: LrcLine| x.view()).to_multiset() == lines@.map_values(
            |x: LrcLine| x.view(),
        ).to_multiset(),
{
    let ghost s = lines@.map_values(|x: LrcLine| x.view());
    let ghost orig = lines@;
    let n = lines.len();
    let mut out: Vec<LrcLine> = Vec::new();
    let mut rest = lines;
    let mut i: usize = 0;
    assert(out@.map_values(|x: LrcLine| x.view()) =~= by_start(s.take(0)));
    assert(orig.skip(0) =~= orig);
    while rest.len() > 0
        invariant
            n == s.len(),
            orig.len() == n,
            s == orig.map_values(|x: LrcLine| x.view()),
            i <= n,
            rest@ == orig.skip(i as int),
            out@.map_values(|x: LrcLine| x.view()) == by_start(s.take(i as int)),
        decreases rest@.len(),
    {
        let e = rest.remove(0);
        assert(e == orig[i as int]);
        assert(rest@ =~= orig.skip(i + 1));
        assert(s.take(i + 1).drop_last() =~= s.take(i as int));
        assert(s.take(i + 1).last() == e.view());
        insert_line(&mut out, e);
        i += 1;
    }
    assert(s.take(n as int) =~= s);
    proof {
        lemma_by_start(s);
    }
    out
}

/// The index of the line that is current at `pos_ms`: the last line whose start
/// time has been reached, or 0 when none has (a binary search, as
/// `partition_point` does). On lines sorted by start time: either no line has
/// started and the result is 0, or the line at the result has started and the
/// next one, if any, has not.
pub fn current_line_index(lines: &[LrcLine], pos_ms: u64) -> (r: usize)
    ensures
        lines@.len() == 0 ==> r == 0,
        lines@.len() > 0 ==> r < lines@.len(),
        sorted_by_time(lines@.map_values(|x: LrcLine| x.view())) && lines@.len() > 0 ==> {
            ||| r == 0 && lines@[0].timestamp_ms > pos_ms
            ||| lines@[r as int].timestamp_ms <= pos_ms && (r + 1 == lines@.len()
                || lines@[r + 1].timestamp_ms > pos_ms)
        },
{
    let ghost v = lines@.map_values(|x: LrcLine| x.view());
    let mut lo: usize = 0;
    let mut hi: usize = lines.len();
    while lo < hi
        invariant
            lo <= hi <= lines@.len(),
            v == lines@.map_values(|x: LrcLine| x.view()),
            v.len() == lines@.len(),
            sorted_by_time(v) ==> forall|i: int| 0 <= i < lo ==> lines@[i].timestamp_ms <= pos_ms,
            sorted_by_time(v) ==> forall|i: int|
                hi <= i < lines@.len() ==> lines@[i].timestamp_ms > pos_ms,
        decreases hi - lo,
    {
        let mid = lo + (hi - lo) / 2;
        if lines[mid].timestamp_ms <= pos_ms {
            proof {
                if sorted_by_time(v) {
                    assert forall|i: int| 0 <= i <= mid implies lines@[i].timestamp_ms
                        <= pos_ms by {
                        assert(v[i].0 <= v[mid as int].0);
                    }
                }
            }
            lo = mid + 1;
        } else {
            proof {
                if sorted_by_time(v) {
                    assert forall|i: int| mid <= i < lines@.len() implies lines@[i].timestamp_ms
                        > pos_ms by {
                        assert(v[mid as int].0 <= v[i].0);
                    }
                }
            }
            hi = mid;
        }
    }
    let r = if lo > 0 {
        lo - 1
    } else {
        0
    };
    proof {
        if sorted_by_time(v) && lines@.len() > 0 {
            if lo == 0 {
                assert(lines@[0].timestamp_ms > pos_ms);
            } else {
                assert(lines@[r as int].timestamp_ms <= pos_ms);
                if r + 1 < lines@.len() {
                    assert(lines@[r + 1].timestamp_ms > pos_ms);
                }
            }
        }
    }
    r
}

/// The synced lyrics of an LRCLIB response: `syncedLyrics` when it is a
/// non-empty string.
pub open spec fn synced_text(json: Json) -> Option<Seq<char>> {
    match text(field(json, "syncedLyrics"@)) {
        Some(t) => if t.len() > 0 {
            Some(t)
        } else {
            None
        },
        None => None,
    }
}

/// The synced lyrics of an LRCLIB response, or `None` when it has none (the
/// lines shown then stay as they are).
pub fn synced_lyrics(json: &Json) -> (r: Option<String>)
    ensures
        match synced_text(*json) {
            None => r is None,
            Some(t) => r matches Some(s) && s@ == t,
        },
{
    match text_of(json.get("syncedLyrics")) {
        Some(t) => {
            if t.as_str().is_empty() {
                None
            } else {
                Some(t.clone())
            }
        },
        None => None,
    }
}

} // verus!
