//! What the player reads from a MusicBrainz recording search: the tag summary
//! it shows and the release whose cover it fetches.
use vstd::prelude::*;
use crate::json::{deref_opt, field, follow, str_view, text, text_of, Json};
use crate::text::{owned, push_str_chars};

verus! {

/// A looked-up text, or `?` when it is missing.
pub open spec fn or_unknown(t: Option<Seq<char>>) -> Seq<char> {
    match t {
        Some(s) => s,
        None => "?"@,
    }
}

/// The first recording of a search response.
pub open spec fn first_recording(json: Json) -> Option<Json> {
    match field(json, "recordings"@) {
        Some(Json::Array(v)) => if v@.len() > 0 {
            Some(v@[0])
        } else {
            None
        },
        _ => None,
    }
}

/// The pointer `/artist-credit/0/artist/name`.
pub open spec fn artist_path() -> Seq<Seq<char>> {
    seq!["artist-credit"@, "0"@, "artist"@, "name"@]
}

/// The pointer `/releases/0/<key>`.
pub open spec fn release_path(key: Seq<char>) -> Seq<Seq<char>> {
    seq!["releases"@, "0"@, key]
}

/// The notification for a search response: `MB: title — artist | album
/// (date)` from the first recording (`?` for what it lacks), or that nothing
/// matched.
pub open spec fn mb_summary(json: Json) -> Seq<char> {
    match first_recording(json) {
        None => "No MusicBrainz match found"@,
        Some(rec) => "MB: "@ + or_unknown(text(field(rec, "title"@))) + " \u{2014} "@ + or_unknown(
            text(follow(rec, artist_path())),
        ) + " | "@ + or_unknown(text(follow(rec, release_path("title"@)))) + " ("@ + or_unknown(
            text(follow(rec, release_path("date"@))),
        ) + ")"@,
    }
}

fn first_of(json: &Json) -> (r: Option<&Json>)
    ensures
        deref_opt(r) == first_recording(*json),
{
    match json.get("recordings") {
        Some(Json::Array(v)) => {
            if v.len() > 0 {
                Some(&v[0])
            } else {
                None
            }
        },
        _ => None,
    }
}

fn push_or_unknown(out: &mut String, t: Option<&String>)
    ensures
        final(out)@ == old(out)@ + or_unknown(str_view(t)),
{
    match t {
        Some(s) => push_str_chars(out, s.as_str()),
        None => push_str_chars(out, "?"),
    }
}

/// Summarises a MusicBrainz recording search response.
pub fn parse_mb_response(json: &Json) -> (r: String)
    ensures
        r@ == mb_summary(*json),
{
    let rec = match first_of(json) {
        Some(r) => r,
        None => return owned("No MusicBrainz match found"),
    };
    let artist_toks = ["artist-credit", "0", "artist", "name"];
    let title_toks = ["releases", "0", "title"];
    let date_toks = ["releases", "0", "date"];
    assert(artist_toks@.map_values(|t: &str| t@) =~= artist_path());
    assert(title_toks@.map_values(|t: &str| t@) =~= release_path("title"@));
    assert(date_toks@.map_values(|t: &str| t@) =~= release_path("date"@));
    let mut out = owned("MB: ");
    push_or_unknown(&mut out, text_of(rec.get("title")));
    push_str_chars(&mut out, " \u{2014} ");
    push_or_unknown(&mut out, text_of(rec.follow(&artist_toks)));
    push_str_chars(&mut out, " | ");
    push_or_unknown(&mut out, text_of(rec.follow(&title_toks)));
    push_str_chars(&mut out, " (");
    push_or_unknown(&mut out, text_of(rec.follow(&date_toks)));
    push_str_chars(&mut out, ")");
    out
}

/// The pointer `/recordings/0/releases/0/id`.
pub open spec fn release_id_path() -> Seq<Seq<char>> {
    seq!["recordings"@, "0"@, "releases"@, "0"@, "id"@]
}

/// The id of the first release of the first recording of a search response.
pub fn release_id(json: &Json) -> (r: Option<String>)
    ensures
        match text(follow(*json, release_id_path())) {
            Some(id) => r matches Some(s) && s@ == id,
            None => r is None,
        },
{
    let toks = ["recordings", "0", "releases", "0", "id"];
    assert(toks@.map_values(|t: &str| t@) =~= release_id_path());
    match text_of(json.follow(&toks)) {
        Some(s) => Some(s.clone()),
        None => None,
    }
}

} // verus!
