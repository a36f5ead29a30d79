//! Tag metadata of a track and how it is shown.
use vstd::prelude::*;
use crate::paths::{file_stem, file_stem_spec};
use crate::text::{chars_of, lowercased, seq_contains, to_lowercase};

verus! {

/// Tags read from an audio file.
#[derive(Debug)]
pub struct TrackMeta {
    pub title: Option<String>,
    pub artist: Option<String>,
    pub album: Option<String>,
    /// Length of the track in milliseconds, when the file reports it.
    pub duration_ms: Option<u64>,
    /// Embedded (or folder) cover image bytes.
    pub cover_art: Option<Vec<u8>>,
}

/// A copy of an optional string.
pub fn copy_opt_string(s: &Option<String>) -> (r: Option<String>)
    ensures
        r == *s,
{
    match s {
        Some(x) => Some(x.clone()),
        None => None,
    }
}

/// A copy of a byte vector.
pub fn copy_bytes(v: &Vec<u8>) -> (r: Vec<u8>)
    ensures
        r@ == v@,
{
    let mut out: Vec<u8> = Vec::new();
    let mut i: usize = 0;
    while i < v.len()
        invariant
            i <= v@.len(),
            out@ == v@.take(i as int),
        decreases v@.len() - i,
    {
        out.push(v[i]);
        i += 1;
        assert(out@ =~= v@.take(i as int));
    }
    assert(v@.take(v@.len() as int) =~= v@);
    out
}

/// A copy of optional cover-art bytes.
pub fn copy_opt_bytes(v: &Option<Vec<u8>>) -> (r: Option<Vec<u8>>)
    ensures
        r is Some <==> v is Some,
        r is Some ==> r->0@ == v->0@,
{
    match v {
        Some(b) => Some(copy_bytes(b)),
        None => None,
    }
}

/// The artist shown when a track has no artist tag.
pub open spec fn unknown_artist() -> Seq<char> {
    seq!['U', 'n', 'k', 'n', 'o', 'w', 'n', ' ', 'A', 'r', 't', 'i', 's', 't']
}

impl TrackMeta {
    /// Metadata with no tags.
    pub fn empty() -> (r: TrackMeta)
        ensures
            r.title is None,
            r.artist is None,
            r.album is None,
            r.duration_ms is None,
            r.cover_art is None,
    {
        TrackMeta { title: None, artist: None, album: None, duration_ms: None, cover_art: None }
    }

    /// A copy of the metadata (same tags, same cover bytes).
    pub fn copy(&self) -> (r: TrackMeta)
        ensures
            r.title == self.title,
            r.artist == self.artist,
            r.album == self.album,
            r.duration_ms == self.duration_ms,
            r.cover_art is Some <==> self.cover_art is Some,
            r.cover_art is Some ==> r.cover_art->0@ == self.cover_art->0@,
    {
        TrackMeta {
            title: copy_opt_string(&self.title),
            artist: copy_opt_string(&self.artist),
            album: copy_opt_string(&self.album),
            duration_ms: self.duration_ms,
            cover_art: copy_opt_bytes(&self.cover_art),
        }
    }

    /// The title shown for a track at `path`: the title tag, else the file stem,
    /// else nothing.
    pub open spec fn title_shown(&self, path: Seq<char>) -> Seq<char> {
        match self.title {
            Some(t) => t@,
            None => match file_stem_spec(path) {
                Some(s) => s,
                None => seq![],
            },
        }
    }

    /// The artist shown: the artist tag, else "Unknown Artist".
    pub open spec fn artist_shown(&self) -> Seq<char> {
        match self.artist {
            Some(a) => a@,
            None => unknown_artist(),
        }
    }

    /// The title to show for the track at `path`.
    pub fn display_title(&self, path: &str) -> (r: String)
        ensures
            r@ == self.title_shown(path@),
    {
        match &self.title {
            Some(t) => t.clone(),
            None => match file_stem(path) {
                Some(s) => s,
                None => String::new(),
            },
        }
    }

    /// The artist to show.
    pub fn display_artist(&self) -> (r: String)
        ensures
            r@ == self.artist_shown(),
    {
        match &self.artist {
            Some(a) => a.clone(),
            None => crate::text::string_of(
                &['U', 'n', 'k', 'n', 'o', 'w', 'n', ' ', 'A', 'r', 't', 'i', 's', 't'],
            ),
        }
    }
}

/// Whether a file found next to a track is taken as its cover: a `.jpg`,
/// `.jpeg` or `.png` whose lowercased name contains "cover", "folder", "album",
/// "front", "artwork" or "pasted".
pub open spec fn is_cover_image_name_spec(name: Seq<char>) -> bool {
    let l = lowercased(name);
    let image = crate::text::ends_with(l, seq!['.', 'j', 'p', 'g']) || crate::text::ends_with(
        l,
        seq!['.', 'j', 'p', 'e', 'g'],
    ) || crate::text::ends_with(l, seq!['.', 'p', 'n', 'g']);
    image && (seq_contains(l, seq!['c', 'o', 'v', 'e', 'r']) || seq_contains(
        l,
        seq!['f', 'o', 'l', 'd', 'e', 'r'],
    ) || seq_contains(l, seq!['a', 'l', 'b', 'u', 'm']) || seq_contains(
        l,
        seq!['f', 'r', 'o', 'n', 't'],
    ) || seq_contains(l, seq!['a', 'r', 't', 'w', 'o', 'r', 'k']) || seq_contains(
        l,
        seq!['p', 'a', 's', 't', 'e', 'd'],
    ))
}

/// Whether a file next to a track is taken as its cover image.
pub fn is_cover_image_name(name: &str) -> (r: bool)
    ensures
        r == is_cover_image_name_spec(name@),
{
    let low = to_lowercase(name);
    let l = chars_of(low.as_str());
    let s = l.as_slice();
    assert(seq!['.', 'j', 'p', 'g'] =~= ['.', 'j', 'p', 'g']@);
    assert(seq!['.', 'j', 'p', 'e', 'g'] =~= ['.', 'j', 'p', 'e', 'g']@);
    assert(seq!['.', 'p', 'n', 'g'] =~= ['.', 'p', 'n', 'g']@);
    assert(seq!['c', 'o', 'v', 'e', 'r'] =~= ['c', 'o', 'v', 'e', 'r']@);
    assert(seq!['f', 'o', 'l', 'd', 'e', 'r'] =~= ['f', 'o', 'l', 'd', 'e', 'r']@);
    assert(seq!['a', 'l', 'b', 'u', 'm'] =~= ['a', 'l', 'b', 'u', 'm']@);
    assert(seq!['f', 'r', 'o', 'n', 't'] =~= ['f', 'r', 'o', 'n', 't']@);
    assert(seq!['a', 'r', 't', 'w', 'o', 'r', 'k'] =~= ['a', 'r', 't', 'w', 'o', 'r', 'k']@);
    assert(seq!['p', 'a', 's', 't', 'e', 'd'] =~= ['p', 'a', 's', 't', 'e', 'd']@);
    let image = crate::text::ends_with_chars(s, &['.', 'j', 'p', 'g'])
        || crate::text::ends_with_chars(s, &['.', 'j', 'p', 'e', 'g'])
        || crate::text::ends_with_chars(s, &['.', 'p', 'n', 'g']);
    image && (crate::text::contains_chars(s, &['c', 'o', 'v', 'e', 'r'])
        || crate::text::contains_chars(s, &['f', 'o', 'l', 'd', 'e', 'r'])
        || crate::text::contains_chars(s, &['a', 'l', 'b', 'u', 'm'])
        || crate::text::contains_chars(s, &['f', 'r', 'o', 'n', 't'])
        || crate::text::contains_chars(s, &['a', 'r', 't', 'w', 'o', 'r', 'k'])
        || crate::text::contains_chars(s, &['p', 'a', 's', 't', 'e', 'd']))
}

} // verus!
