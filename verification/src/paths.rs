//! File-name parts of slash-separated paths, as `std::path::Path` reads them on
//! Unix: `file_name`, `file_stem` and `extension`.
use vstd::prelude::*;
use crate::text::{chars_eq, chars_of, slice_range, string_of, to_lowercase};

verus! {

/// Start of the path segment that ends at `end` (just after the previous `/`).
pub open spec fn seg_start(p: Seq<char>, end: int) -> int
    decreases end,
{
    if end <= 0 {
        0
    } else if p[end - 1] == '/' {
        end
    } else {
        seg_start(p, end - 1)
    }
}

pub proof fn lemma_seg_start(p: Seq<char>, end: int)
    requires
        0 <= end <= p.len(),
    ensures
        0 <= seg_start(p, end) <= end,
        forall|j: int| seg_start(p, end) <= j < end ==> p[j] != '/',
        seg_start(p, end) == 0 || p[seg_start(p, end) - 1] == '/',
        end > 0 && p[end - 1] != '/' ==> seg_start(p, end) < end,
    decreases end,
{
    if end > 0 && p[end - 1] != '/' {
        lemma_seg_start(p, end - 1);
    }
}

/// The last normal component of `p[..end]`: trailing separators and `.`
/// components are skipped, and a final `..` has no file name.
pub open spec fn last_component(p: Seq<char>, end: int) -> Option<Seq<char>>
    decreases end,
{
    if end <= 0 || end > p.len() {
        None
    } else if p[end - 1] == '/' {
        last_component(p, end - 1)
    } else {
        proof {
            lemma_seg_start(p, end);
        }
        let st = seg_start(p, end);
        let seg = p.subrange(st, end);
        if st >= end {
            None
        } else if seg == seq!['.'] {
            last_component(p, st)
        } else if seg == seq!['.', '.'] {
            None
        } else {
            Some(seg)
        }
    }
}

/// What `Path::file_name` gives.
pub open spec fn file_name_spec(p: Seq<char>) -> Option<Seq<char>> {
    last_component(p, p.len() as int)
}

/// Position of the last `.` in `s`, if any.
pub open spec fn last_dot(s: Seq<char>) -> Option<int>
    decreases s.len(),
{
    if s.len() == 0 {
        None
    } else if s.last() == '.' {
        Some(s.len() - 1)
    } else {
        last_dot(s.drop_last())
    }
}

/// How `Path` splits a file name at its last dot: `(before, after)`.
pub open spec fn split_at_dot(name: Seq<char>) -> (Option<Seq<char>>, Option<Seq<char>>) {
    match last_dot(name) {
        None => (None, Some(name)),
        Some(k) => if k == 0 {
            (Some(name), None)
        } else {
            (Some(name.subrange(0, k)), Some(name.subrange(k + 1, name.len() as int)))
        },
    }
}

/// What `Path::file_stem` gives.
pub open spec fn file_stem_spec(p: Seq<char>) -> Option<Seq<char>> {
    match file_name_spec(p) {
        None => None,
        Some(n) => match split_at_dot(n) {
            (Some(b), _) => Some(b),
            (None, a) => a,
        },
    }
}

/// What `Path::extension` gives.
pub open spec fn extension_spec(p: Seq<char>) -> Option<Seq<char>> {
    match file_name_spec(p) {
        None => None,
        Some(n) => match split_at_dot(n) {
            (Some(_), a) => a,
            (None, _) => None,
        },
    }
}

fn segment_start(p: &[char], end: usize) -> (r: usize)
    requires
        end <= p@.len(),
    ensures
        r == seg_start(p@, end as int),
{
    let mut k = end;
    while k > 0 && p[k - 1] != '/'
        invariant
            k <= end <= p@.len(),
            seg_start(p@, end as int) == seg_start(p@, k as int),
        decreases k,
    {
        k -= 1;
    }
    k
}

/// The characters of the last normal component of a path.
pub fn file_name_chars(p: &[char]) -> (r: Option<Vec<char>>)
    ensures
        match r {
            Some(v) => file_name_spec(p@) == Some(v@),
            None => file_name_spec(p@) is None,
        },
{
    let mut end = p.len();
    loop
        invariant
            end <= p@.len(),
            last_component(p@, end as int) == file_name_spec(p@),
        decreases end,
    {
        if end == 0 {
            return None;
        }
        if p[end - 1] == '/' {
            end -= 1;
            continue;
        }
        let st = segment_start(p, end);
        proof {
            lemma_seg_start(p@, end as int);
        }
        let seg = slice_range(p, st, end);
        if chars_eq(seg.as_slice(), &['.']) {
            assert(seq!['.'] =~= ['.']@);
            end = st;
            continue;
        }
        assert(seq!['.'] =~= ['.']@);
        assert(seq!['.', '.'] =~= ['.', '.']@);
        if chars_eq(seg.as_slice(), &['.', '.']) {
            return None;
        }
        return Some(seg);
    }
}

proof fn lemma_last_dot(s: Seq<char>)
    ensures
        match last_dot(s) {
            Some(k) => 0 <= k < s.len() && s[k] == '.' && forall|j: int| k < j < s.len() ==> s[j]
                != '.',
            None => forall|j: int| 0 <= j < s.len() ==> s[j] != '.',
        },
    decreases s.len(),
{
    if s.len() > 0 && s.last() != '.' {
        lemma_last_dot(s.drop_last());
        assert forall|j: int| 0 <= j < s.len() - 1 implies s[j] == s.drop_last()[j] by {}
    }
}

fn last_dot_index(s: &[char]) -> (r: Option<usize>)
    ensures
        match r {
            Some(k) => last_dot(s@) == Some(k as int) && k < s@.len(),
            None => last_dot(s@) is None,
        },
{
    let mut k = s.len();
    assert(s@.take(k as int) =~= s@);
    while k > 0
        invariant
            k <= s@.len(),
            last_dot(s@) == last_dot(s@.take(k as int)),
        decreases k,
    {
        if s[k - 1] == '.' {
            return Some(k - 1);
        }
        assert(s@.take(k as int).drop_last() =~= s@.take(k - 1));
        k -= 1;
    }
    None
}

/// The file name of a path, if it has one.
pub fn file_name(path: &str) -> (r: Option<String>)
    ensures
        match r {
            Some(s) => file_name_spec(path@) == Some(s@),
            None => file_name_spec(path@) is None,
        },
{
    let p = chars_of(path);
    match file_name_chars(p.as_slice()) {
        Some(v) => Some(string_of(v.as_slice())),
        None => None,
    }
}

/// The file name of a path without its extension, if it has a file name.
pub fn file_stem(path: &str) -> (r: Option<String>)
    ensures
        match r {
            Some(s) => file_stem_spec(path@) == Some(s@),
            None => file_stem_spec(path@) is None,
        },
{
    let p = chars_of(path);
    match file_name_chars(p.as_slice()) {
        None => None,
        Some(n) => {
            proof {
                lemma_last_dot(n@);
            }
            match last_dot_index(n.as_slice()) {
                None => Some(string_of(n.as_slice())),
                Some(k) => {
                    if k == 0 {
                        Some(string_of(n.as_slice()))
                    } else {
                        let b = slice_range(n.as_slice(), 0, k);
                        Some(string_of(b.as_slice()))
                    }
                },
            }
        },
    }
}

/// The extension of a path's file name, if it has one.
pub fn extension(path: &str) -> (r: Option<String>)
    ensures
        match r {
            Some(s) => extension_spec(path@) == Some(s@),
            None => extension_spec(path@) is None,
        },
{
    let p = chars_of(path);
    match file_name_chars(p.as_slice()) {
        None => None,
        Some(n) => {
            proof {
                lemma_last_dot(n@);
            }
            match last_dot_index(n.as_slice()) {
                None => None,
                Some(k) => {
                    if k == 0 {
                        None
                    } else {
                        let nl = n.len();
                        assert(k < nl);
                        let a = slice_range(n.as_slice(), k + 1, nl);
                        Some(string_of(a.as_slice()))
                    }
                },
            }
        },
    }
}

/// The extensions the library scanner takes as audio files.
pub open spec fn is_audio_ext(e: Seq<char>) -> bool {
    ||| e == seq!['m', 'p', '3']
    ||| e == seq!['w', 'a', 'v']
    ||| e == seq!['f', 'l', 'a', 'c']
    ||| e == seq!['o', 'g', 'g']
    ||| e == seq!['m', '4', 'a']
    ||| e == seq!['a', 'a', 'c']
    ||| e == seq!['o', 'p', 'u', 's']
}

/// Whether the library scanner lists this file: its extension, lowercased, is
/// one of mp3, wav, flac, ogg, m4a, aac, opus.
pub open spec fn is_audio_path_spec(path: Seq<char>) -> bool {
    match extension_spec(path) {
        Some(e) => is_audio_ext(crate::text::lowercased(e)),
        None => false,
    }
}

/// Whether the library scanner lists this file as a track.
pub fn is_audio_path(path: &str) -> (r: bool)
    ensures
        r == is_audio_path_spec(path@),
{
    match extension(path) {
        None => false,
        Some(e) => {
            let low = to_lowercase(e.as_str());
            let l = chars_of(low.as_str());
            let s = l.as_slice();
            assert(seq!['m', 'p', '3'] =~= ['m', 'p', '3']@);
            assert(seq!['w', 'a', 'v'] =~= ['w', 'a', 'v']@);
            assert(seq!['f', 'l', 'a', 'c'] =~= ['f', 'l', 'a', 'c']@);
            assert(seq!['o', 'g', 'g'] =~= ['o', 'g', 'g']@);
            assert(seq!['m', '4', 'a'] =~= ['m', '4', 'a']@);
            assert(seq!['a', 'a', 'c'] =~= ['a', 'a', 'c']@);
            assert(seq!['o', 'p', 'u', 's'] =~= ['o', 'p', 'u', 's']@);
            chars_eq(s, &['m', 'p', '3']) || chars_eq(s, &['w', 'a', 'v']) || chars_eq(
                s,
                &['f', 'l', 'a', 'c'],
            ) || chars_eq(s, &['o', 'g', 'g']) || chars_eq(s, &['m', '4', 'a']) || chars_eq(
                s,
                &['a', 'a', 'c'],
            ) || chars_eq(s, &['o', 'p', 'u', 's'])
        },
    }
}

} // verus!
