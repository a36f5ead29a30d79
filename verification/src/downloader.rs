//! Downloads through yt-dlp: the command line it is run with and how each line
//! it prints updates the download's state.
use vstd::prelude::*;
use crate::text::{
    chars_of, contains_str, find_chars_from, first_occurrence_from, is_whitespace, is_ws, owned,
    push_str_chars, seq_contains, slice_range, string_of, trim, trimmed,
};

verus! {

// ─── Text pieces ─────────────────────────────────────────────────────────────

/// `hay` with every occurrence of `needle` taken out, matched from the left
/// without overlap (`str::replace(needle, "")`).
pub open spec fn without(hay: Seq<char>, needle: Seq<char>) -> Seq<char>
    decreases hay.len(),
{
    if needle.len() == 0 {
        hay
    } else {
        match first_occurrence_from(hay, needle, 0) {
            Some(k) => if 0 <= k && k + needle.len() <= hay.len() {
                hay.subrange(0, k) + without(hay.subrange(k + needle.len(), hay.len() as int), needle)
            } else {
                hay
            },
            None => hay,
        }
    }
}

/// The last piece of `hay` split at `needle` (`split(needle).last()`): what
/// follows the last match, or all of `hay` when there is none.
pub open spec fn after_last(hay: Seq<char>, needle: Seq<char>) -> Seq<char>
    decreases hay.len(),
{
    if needle.len() == 0 {
        Seq::<char>::empty()
    } else {
        match first_occurrence_from(hay, needle, 0) {
            Some(k) => if 0 <= k && k + needle.len() <= hay.len() {
                after_last(hay.subrange(k + needle.len(), hay.len() as int), needle)
            } else {
                hay
            },
            None => hay,
        }
    }
}

/// The words read so far and the word being read, left to right.
pub open spec fn scan_words(s: Seq<char>) -> (Seq<Seq<char>>, Seq<char>)
    decreases s.len(),
{
    if s.len() == 0 {
        (seq![], seq![])
    } else {
        let (done, cur) = scan_words(s.drop_last());
        if is_ws(s.last()) {
            if cur.len() > 0 {
                (done.push(cur), seq![])
            } else {
                (done, seq![])
            }
        } else {
            (done, cur.push(s.last()))
        }
    }
}

/// The whitespace-separated words of `s` (`split_whitespace`).
pub open spec fn words(s: Seq<char>) -> Seq<Seq<char>> {
    let (done, cur) = scan_words(s);
    if cur.len() > 0 {
        done.push(cur)
    } else {
        done
    }
}

/// `w` without the `%` signs at its end (`trim_end_matches('%')`).
pub open spec fn strip_percent(w: Seq<char>) -> Seq<char>
    decreases w.len(),
{
    if w.len() > 0 && w.last() == '%' {
        strip_percent(w.drop_last())
    } else {
        w
    }
}

/// The words that end in `%`, each without its `%` signs, in order.
pub open spec fn percent_words(ws: Seq<Seq<char>>) -> Seq<Seq<char>>
    decreases ws.len(),
{
    if ws.len() == 0 {
        seq![]
    } else {
        let rest = percent_words(ws.drop_last());
        let w = ws.last();
        if w.len() > 0 && w.last() == '%' {
            rest.push(strip_percent(w))
        } else {
            rest
        }
    }
}

fn remove_all(hay: &[char], needle: &str) -> (r: Vec<char>)
    requires
        needle@.len() > 0,
    ensures
        r@ == without(hay@, needle@),
{
    let nd = chars_of(needle);
    let mut out: Vec<char> = Vec::new();
    let mut cur = slice_range(hay, 0, hay.len());
    assert(cur@ =~= hay@);
    loop
        invariant
            nd@ == needle@,
            needle@.len() > 0,
            without(hay@, needle@) == out@ + without(cur@, needle@),
        decreases cur@.len(),
    {
        match find_chars_from(cur.as_slice(), nd.as_slice(), 0) {
            None => {
                let ghost o = out@;
                let mut j: usize = 0;
                while j < cur.len()
                    invariant
                        j <= cur@.len(),
                        out@ == o + cur@.subrange(0, j as int),
                    decreases cur@.len() - j,
                {
                    out.push(cur[j]);
                    j += 1;
                    assert(out@ =~= o + cur@.subrange(0, j as int));
                }
                assert(cur@.subrange(0, cur@.len() as int) =~= cur@);
                return out;
            },
            Some(k) => {
                let ghost o = out@;
                let ghost c = cur@;
                let mut j: usize = 0;
                while j < k
                    invariant
                        k <= cur@.len(),
                        j <= k,
                        out@ == o + cur@.subrange(0, j as int),
                    decreases k - j,
                {
                    out.push(cur[j]);
                    j += 1;
                    assert(out@ =~= o + cur@.subrange(0, j as int));
                }
                let cl = cur.len();
                let nl = nd.len();
                assert(k + nl <= cl);
                let rest = slice_range(cur.as_slice(), k + nl, cl);
                assert(o + c.subrange(0, k as int) + without(rest@, needle@) =~= o + (c.subrange(
                    0,
                    k as int,
                ) + without(rest@, needle@)));
                cur = rest;
            },
        }
    }
}

fn last_piece(hay: &[char], needle: &str) -> (r: Vec<char>)
    requires
        needle@.len() > 0,
    ensures
        r@ == after_last(hay@, needle@),
{
    let nd = chars_of(needle);
    let mut cur = slice_range(hay, 0, hay.len());
    assert(cur@ =~= hay@);
    loop
        invariant
            nd@ == needle@,
            needle@.len() > 0,
            after_last(hay@, needle@) == after_last(cur@, needle@),
        decreases cur@.len(),
    {
        match find_chars_from(cur.as_slice(), nd.as_slice(), 0) {
            None => {
                return cur;
            },
            Some(k) => {
                let cl = cur.len();
                let nl = nd.len();
                assert(k + nl <= cl);
                cur = slice_range(cur.as_slice(), k + nl, cl);
            },
        }
    }
}

fn split_words(s: &[char]) -> (r: Vec<Vec<char>>)
    ensures
        r@.map_values(|w: Vec<char>| w@) == words(s@),
{
    let mut done: Vec<Vec<char>> = Vec::new();
    let mut cur: Vec<char> = Vec::new();
    let mut i: usize = 0;
    while i < s.len()
        invariant
            i <= s@.len(),
            (done@.map_values(|w: Vec<char>| w@), cur@) == scan_words(s@.take(i as int)),
        decreases s@.len() - i,
    {
        proof {
            assert(s@.take(i + 1).drop_last() =~= s@.take(i as int));
            assert(s@.take(i + 1).last() == s@[i as int]);
        }
        let ghost d0 = done@.map_values(|w: Vec<char>| w@);
        if is_whitespace(s[i]) {
            if cur.len() > 0 {
                let w = cur;
                done.push(w);
                cur = Vec::new();
                assert(done@.map_values(|w: Vec<char>| w@) =~= d0.push(w@));
            }
            assert(cur@ =~= Seq::<char>::empty());
        } else {
            cur.push(s[i]);
        }
        i += 1;
    }
    assert(s@.take(s@.len() as int) =~= s@);
    if cur.len() > 0 {
        let ghost d0 = done@.map_values(|w: Vec<char>| w@);
        let w = cur;
        done.push(w);
        assert(done@.map_values(|w: Vec<char>| w@) =~= d0.push(w@));
    }
    done
}

fn strip_percent_signs(w: &[char]) -> (r: Vec<char>)
    ensures
        r@ == strip_percent(w@),
{
    let mut end = w.len();
    assert(w@.subrange(0, end as int) =~= w@);
    while end > 0 && w[end - 1] == '%'
        invariant
            end <= w@.len(),
            strip_percent(w@) == strip_percent(w@.subrange(0, end as int)),
        decreases end,
    {
        proof {
            let t = w@.subrange(0, end as int);
            assert(t.drop_last() =~= w@.subrange(0, end - 1));
        }
        end -= 1;
    }
    let r = slice_range(w, 0, end);
    r
}

fn percent_tokens(ws: &Vec<Vec<char>>) -> (r: Vec<String>)
    ensures
        r@.map_values(|s: String| s@) == percent_words(ws@.map_values(|w: Vec<char>| w@)),
{
    let ghost wv = ws@.map_values(|w: Vec<char>| w@);
    let mut out: Vec<String> = Vec::new();
    let mut i: usize = 0;
    while i < ws.len()
        invariant
            i <= ws@.len(),
            wv == ws@.map_values(|w: Vec<char>| w@),
            out@.map_values(|s: String| s@) == percent_words(wv.take(i as int)),
        decreases ws@.len() - i,
    {
        proof {
            assert(wv.take(i + 1).drop_last() =~= wv.take(i as int));
            assert(wv.take(i + 1).last() == ws@[i as int]@);
        }
        let w = &ws[i];
        let n = w.len();
        if n > 0 && w[n - 1] == '%' {
            let ghost o = out@.map_values(|s: String| s@);
            let t = strip_percent_signs(w.as_slice());
            out.push(string_of(t.as_slice()));
            assert(out@.map_values(|s: String| s@) =~= o.push(strip_percent(ws@[i as int]@)));
        }
        i += 1;
    }
    assert(wv.take(ws@.len() as int) =~= wv);
    out
}

// ─── Lines of yt-dlp output ──────────────────────────────────────────────────

/// What one line of yt-dlp's output changes in the download's state.
#[derive(Debug)]
pub enum DownloadEvent {
    /// Nothing.
    Nothing,
    /// `[download] Destination: <file>`: the file being written.
    Destination(String),
    /// A `[download]` line with a `%`: the words that end in `%` without those
    /// signs (the last that reads as a number is the progress), and the line
    /// without its `[download]` tag as the message.
    Progress(Vec<String>, String),
    /// `[ExtractAudio] Destination: <file>`: the audio file being extracted.
    Extracting(String),
    /// Another `[ExtractAudio]` line: the message; the progress is complete.
    Extracted(String),
}

/// What a line of yt-dlp's output means (see `DownloadEvent`).
pub open spec fn line_event(l: Seq<char>, r: DownloadEvent) -> bool {
    if seq_contains(l, "[download]"@) {
        if seq_contains(l, "Destination: "@) {
            r matches DownloadEvent::Destination(d) && d@ == trim(after_last(l, "Destination: "@))
        } else if seq_contains(l, "%"@) {
            r matches DownloadEvent::Progress(ps, m) && ps@.map_values(|s: String| s@)
                == percent_words(words(l)) && m@ == trim(without(l, "[download]"@))
        } else {
            r is Nothing
        }
    } else if seq_contains(l, "[ExtractAudio]"@) && seq_contains(l, "Destination: "@) {
        r matches DownloadEvent::Extracting(d) && d@ == trim(after_last(l, "Destination: "@))
    } else if seq_contains(l, "[ExtractAudio]"@) {
        r matches DownloadEvent::Extracted(m) && m@ == trim(without(l, "[ExtractAudio]"@))
    } else {
        r is Nothing
    }
}

/// Reads one line of yt-dlp's output.
pub fn read_line(line: &str) -> (r: DownloadEvent)
    ensures
        line_event(line@, r),
{
    let l = chars_of(line);
    let ls = l.as_slice();
    proof {
        reveal_strlit("Destination: ");
        reveal_strlit("[download]");
        reveal_strlit("[ExtractAudio]");
    }
    let is_dl = contains_str(ls, "[download]");
    let has_dest = contains_str(ls, "Destination: ");
    let is_extract = contains_str(ls, "[ExtractAudio]");
    if is_dl {
        if has_dest {
            let d = last_piece(ls, "Destination: ");
            let t = trimmed(d.as_slice());
            DownloadEvent::Destination(string_of(t.as_slice()))
        } else if contains_str(ls, "%") {
            let ws = split_words(ls);
            let ps = percent_tokens(&ws);
            let m = remove_all(ls, "[download]");
            let t = trimmed(m.as_slice());
            DownloadEvent::Progress(ps, string_of(t.as_slice()))
        } else {
            DownloadEvent::Nothing
        }
    } else if is_extract && has_dest {
        let d = last_piece(ls, "Destination: ");
        let t = trimmed(d.as_slice());
        DownloadEvent::Extracting(string_of(t.as_slice()))
    } else if is_extract {
        let m = remove_all(ls, "[ExtractAudio]");
        let t = trimmed(m.as_slice());
        DownloadEvent::Extracted(string_of(t.as_slice()))
    } else {
        DownloadEvent::Nothing
    }
}

impl DownloadEvent {
    /// The status message the event sets, if any.
    pub fn message(&self) -> (r: Option<String>)
        ensures
            match self {
                DownloadEvent::Nothing => r is None,
                DownloadEvent::Destination(_) => r matches Some(m) && m@ == "Downloading..."@,
                DownloadEvent::Progress(_, msg) => r matches Some(m) && m@ == msg@,
                DownloadEvent::Extracting(_) => r matches Some(m) && m@ == "Extracting Audio..."@,
                DownloadEvent::Extracted(msg) => r matches Some(m) && m@ == msg@,
            },
    {
        match self {
            DownloadEvent::Nothing => None,
            DownloadEvent::Destination(_) => Some(owned("Downloading...")),
            DownloadEvent::Progress(_, msg) => Some(msg.clone()),
            DownloadEvent::Extracting(_) => Some(owned("Extracting Audio...")),
            DownloadEvent::Extracted(msg) => Some(msg.clone()),
        }
    }
}

// ─── Starting and finishing ──────────────────────────────────────────────────

/// The arguments yt-dlp is run with: best-quality MP3 with metadata and
/// thumbnail, the single video only, one progress line per update, written
/// to `template`.
pub fn download_args(template: &str, url: &str) -> (r: Vec<String>)
    ensures
        r@.map_values(|s: String| s@) == seq![
            "-x"@,
            "--audio-format"@,
            "mp3"@,
            "--audio-quality"@,
            "0"@,
            "--embed-metadata"@,
            "--embed-thumbnail"@,
            "--no-playlist"@,
            "--newline"@,
            "-o"@,
            template@,
            url@,
        ],
{
    let mut v: Vec<String> = Vec::new();
    v.push(owned("-x"));
    v.push(owned("--audio-format"));
    v.push(owned("mp3"));
    v.push(owned("--audio-quality"));
    v.push(owned("0"));
    v.push(owned("--embed-metadata"));
    v.push(owned("--embed-thumbnail"));
    v.push(owned("--no-playlist"));
    v.push(owned("--newline"));
    v.push(owned("-o"));
    v.push(owned(template));
    v.push(owned(url));
    assert(v@.map_values(|s: String| s@) =~= seq![
        "-x"@,
        "--audio-format"@,
        "mp3"@,
        "--audio-quality"@,
        "0"@,
        "--embed-metadata"@,
        "--embed-thumbnail"@,
        "--no-playlist"@,
        "--newline"@,
        "-o"@,
        template@,
        url@,
    ]);
    v
}

/// The message shown when a download starts.
pub fn start_message(url: &str) -> (r: String)
    ensures
        r@ == "Initializing download for: "@ + url@,
{
    let mut m = owned("Initializing download for: ");
    push_str_chars(&mut m, url);
    m
}

/// The message shown when yt-dlp exits, by whether it succeeded (on success
/// the progress is complete).
pub fn finish_message(success: bool) -> (r: String)
    ensures
        r@ == if success {
            "Download Complete"@
        } else {
            "Download Failed"@
        },
{
    if success {
        owned("Download Complete")
    } else {
        owned("Download Failed")
    }
}

} // verus!
