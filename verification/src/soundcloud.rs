//! SoundCloud search results and the request URLs of the SoundCloud API.
use vstd::prelude::*;
use crate::text::{decimal, decimal2, push_char, push_decimal, push_decimal2, push_str_chars};
use crate::urlenc::{encode_utf8_of, pct_encode, percent_encode_component};
use crate::json::{deref_opt, field, field_in, opt_string_val, opt_view, string_val, text_of, u64_val, Json};

verus! {

/// The uploader of a track.
#[derive(Debug)]
pub struct ScUser {
    pub username: String,
}

/// A track found by a SoundCloud search.
#[derive(Debug)]
pub struct ScTrack {
    pub id: u64,
    pub title: String,
    pub user: ScUser,
    /// Length in milliseconds.
    pub duration: u64,
    pub stream_url: Option<String>,
    pub artwork_url: Option<String>,
}

/// `m:ss` for a number of whole seconds.
pub open spec fn duration_label_spec(ms: u64) -> Seq<char> {
    let s = (ms / 1000) as nat;
    decimal(s / 60) + seq![':'] + decimal2(s % 60)
}

impl ScTrack {
    /// The artist shown for the track: its uploader.
    pub fn display_artist(&self) -> (r: &str)
        ensures
            r@ == self.user.username@,
    {
        self.user.username.as_str()
    }

    /// The length as `m:ss` (whole seconds, rounded down).
    pub fn duration_label(&self) -> (r: String)
        ensures
            r@ == duration_label_spec(self.duration),
    {
        let s = self.duration / 1000;
        let mut out = String::new();
        push_decimal(&mut out, s / 60);
        push_char(&mut out, ':');
        push_decimal2(&mut out, s % 60);
        out
    }

    /// A copy of the track.
    pub fn copy(&self) -> (r: ScTrack)
        ensures
            r == *self,
    {
        ScTrack {
            id: self.id,
            title: self.title.clone(),
            user: ScUser { username: self.user.username.clone() },
            duration: self.duration,
            stream_url: crate::metadata::copy_opt_string(&self.stream_url),
            artwork_url: crate::metadata::copy_opt_string(&self.artwork_url),
        }
    }
}

/// A track's fields as plain values: id, title, uploader, length in
/// milliseconds, stream URL and artwork URL.
pub type ScFields = (u64, Seq<char>, Seq<char>, u64, Option<Seq<char>>, Option<Seq<char>>);

impl ScTrack {
    /// The fields of the track.
    pub open spec fn fields(&self) -> ScFields {
        (
            self.id,
            self.title@,
            self.user.username@,
            self.duration,
            opt_view(self.stream_url),
            opt_view(self.artwork_url),
        )
    }
}

/// The uploader name a JSON value gives as a `ScUser`: an object with a
/// string `username`, or an array holding just that string.
pub open spec fn user_of(j: Json) -> Option<Seq<char>> {
    match j {
        Json::Object(fs) => match field_in(fs@, "username"@) {
            Some(u) => string_val(u),
            None => None,
        },
        Json::Array(v) => if v@.len() == 1 {
            string_val(v@[0])
        } else {
            None
        },
        _ => None,
    }
}

/// The six fields if each one deserializes.
pub open spec fn all_six(
    id: Option<u64>,
    title: Option<Seq<char>>,
    user: Option<Seq<char>>,
    dur: Option<u64>,
    stream: Option<Option<Seq<char>>>,
    art: Option<Option<Seq<char>>>,
) -> Option<ScFields> {
    match (id, title, user, dur, stream, art) {
        (Some(a), Some(b), Some(c), Some(d), Some(e), Some(f)) => Some((a, b, c, d, e, f)),
        _ => None,
    }
}

/// The track a JSON value deserializes to: an object with `id`, `title`,
/// `user` and `duration` (other names ignored; a missing `stream_url` or
/// `artwork_url` is none), or an array of exactly the six fields in order.
pub open spec fn track_of(j: Json) -> Option<ScFields> {
    match j {
        Json::Object(fs) => all_six(
            match field_in(fs@, "id"@) {
                Some(x) => u64_val(x),
                None => None,
            },
            match field_in(fs@, "title"@) {
                Some(x) => string_val(x),
                None => None,
            },
            match field_in(fs@, "user"@) {
                Some(x) => user_of(x),
                None => None,
            },
            match field_in(fs@, "duration"@) {
                Some(x) => u64_val(x),
                None => None,
            },
            match field_in(fs@, "stream_url"@) {
                Some(x) => opt_string_val(x),
                None => Some(None),
            },
            match field_in(fs@, "artwork_url"@) {
                Some(x) => opt_string_val(x),
                None => Some(None),
            },
        ),
        Json::Array(v) => if v@.len() == 6 {
            all_six(
                u64_val(v@[0]),
                string_val(v@[1]),
                user_of(v@[2]),
                u64_val(v@[3]),
                opt_string_val(v@[4]),
                opt_string_val(v@[5]),
            )
        } else {
            None
        },
        _ => None,
    }
}

fn user_from(j: &Json) -> (r: Option<String>)
    ensures
        opt_view(r) == user_of(*j),
{
    match j {
        Json::Object(_) => match text_of(j.get("username")) {
            Some(u) => Some(u.clone()),
            None => None,
        },
        Json::Array(v) => {
            if v.len() == 1 {
                match v[0].as_str() {
                    Some(u) => Some(u.clone()),
                    None => None,
                }
            } else {
                None
            }
        },
        _ => None,
    }
}

fn req_u64(v: Option<&Json>) -> (r: Option<u64>)
    ensures
        r == match deref_opt(v) {
            Some(x) => u64_val(x),
            None => None,
        },
{
    match v {
        Some(x) => x.as_u64(),
        None => None,
    }
}

fn req_string(v: Option<&Json>) -> (r: Option<String>)
    ensures
        opt_view(r) == match deref_opt(v) {
            Some(x) => string_val(x),
            None => None,
        },
{
    match text_of(v) {
        Some(s) => Some(s.clone()),
        None => None,
    }
}

fn req_user(v: Option<&Json>) -> (r: Option<String>)
    ensures
        opt_view(r) == match deref_opt(v) {
            Some(x) => user_of(x),
            None => None,
        },
{
    match v {
        Some(x) => user_from(x),
        None => None,
    }
}

fn opt_string(v: Option<&Json>, missing_ok: bool) -> (r: Option<Option<String>>)
    ensures
        match r {
            Some(o) => match deref_opt(v) {
                Some(x) => opt_string_val(x) == Some(opt_view(o)),
                None => missing_ok && o is None,
            },
            None => match deref_opt(v) {
                Some(x) => opt_string_val(x) is None,
                None => !missing_ok,
            },
        },
{
    match v {
        Some(x) => x.as_opt_string(),
        None => if missing_ok {
            Some(None)
        } else {
            None
        },
    }
}

fn assemble(
    id: Option<u64>,
    title: Option<String>,
    user: Option<String>,
    dur: Option<u64>,
    stream: Option<Option<String>>,
    art: Option<Option<String>>,
) -> (r: Option<ScTrack>)
    ensures
        match r {
            Some(t) => all_six(
                id,
                opt_view(title),
                opt_view(user),
                dur,
                match stream {
                    Some(o) => Some(opt_view(o)),
                    None => None,
                },
                match art {
                    Some(o) => Some(opt_view(o)),
                    None => None,
                },
            ) == Some(t.fields()),
            None => all_six(
                id,
                opt_view(title),
                opt_view(user),
                dur,
                match stream {
                    Some(o) => Some(opt_view(o)),
                    None => None,
                },
                match art {
                    Some(o) => Some(opt_view(o)),
                    None => None,
                },
            ) is None,
        },
{
    match (id, title, user, dur, stream, art) {
        (Some(a), Some(b), Some(c), Some(d), Some(e), Some(f)) => Some(
            ScTrack {
                id: a,
                title: b,
                user: ScUser { username: c },
                duration: d,
                stream_url: e,
                artwork_url: f,
            },
        ),
        _ => None,
    }
}

/// Deserializes one search result.
pub fn decode_track(j: &Json) -> (r: Option<ScTrack>)
    ensures
        match r {
            Some(t) => track_of(*j) == Some(t.fields()),
            None => track_of(*j) is None,
        },
{
    match j {
        Json::Object(_) => {
            let id = req_u64(j.get("id"));
            let title = req_string(j.get("title"));
            let user = req_user(j.get("user"));
            let dur = req_u64(j.get("duration"));
            let stream = opt_string(j.get("stream_url"), true);
            let art = opt_string(j.get("artwork_url"), true);
            assemble(id, title, user, dur, stream, art)
        },
        Json::Array(v) => {
            if v.len() != 6 {
                return None;
            }
            let id = req_u64(Some(&v[0]));
            let title = req_string(Some(&v[1]));
            let user = req_user(Some(&v[2]));
            let dur = req_u64(Some(&v[3]));
            let stream = opt_string(Some(&v[4]), false);
            let art = opt_string(Some(&v[5]), false);
            assemble(id, title, user, dur, stream, art)
        },
        _ => None,
    }
}

/// The results of a search response: the `collection` array, or the
/// response itself when it is an array, or nothing.
pub open spec fn search_items(json: Json) -> Seq<Json> {
    match field(json, "collection"@) {
        Some(Json::Array(v)) => v@,
        _ => match json {
            Json::Array(v) => v@,
            _ => seq![],
        },
    }
}

/// The results that deserialize as tracks and have a stream URL, in order.
pub open spec fn playable(items: Seq<Json>) -> Seq<ScFields>
    decreases items.len(),
{
    if items.len() == 0 {
        seq![]
    } else {
        let rest = playable(items.drop_last());
        match track_of(items.last()) {
            Some(t) => if t.4 is Some {
                rest.push(t)
            } else {
                rest
            },
            None => rest,
        }
    }
}

/// The playable tracks of a SoundCloud search response.
pub fn search_results(json: &Json) -> (r: Vec<ScTrack>)
    ensures
        r@.map_values(|t: ScTrack| t.fields()) == playable(search_items(*json)),
{
    let empty: Vec<Json> = Vec::new();
    let items: &Vec<Json> = match json.get("collection") {
        Some(Json::Array(v)) => v,
        _ => match json {
            Json::Array(v) => v,
            _ => &empty,
        },
    };
    assert(items@ == search_items(*json));
    let mut out: Vec<ScTrack> = Vec::new();
    let n = items.len();
    let mut i: usize = 0;
    while i < n
        invariant
            n == items@.len(),
            i <= n,
            out@.map_values(|t: ScTrack| t.fields()) == playable(items@.take(i as int)),
        decreases n - i,
    {
        proof {
            assert(items@.take(i + 1).drop_last() =~= items@.take(i as int));
            assert(items@.take(i + 1).last() == items@[i as int]);
        }
        match decode_track(&items[i]) {
            Some(t) => {
                if t.stream_url.is_some() {
                    let ghost before = out@;
                    out.push(t);
                    assert(out@.map_values(|t: ScTrack| t.fields()) =~= before.map_values(
                        |t: ScTrack| t.fields(),
                    ).push(t.fields()));
                }
            },
            None => {},
        }
        i += 1;
    }
    assert(items@.take(n as int) =~= items@);
    out
}

/// The SoundCloud search URL for a query (20 results).
pub fn search_url(query: &str, client_id: &str) -> (r: String)
    ensures
        r@ == "https://api.soundcloud.com/tracks?q="@ + pct_encode(encode_utf8_of(query@))
            + "&client_id="@ + client_id@ + "&limit=20"@,
{
    let enc = percent_encode_component(query);
    let mut url = String::new();
    push_str_chars(&mut url, "https://api.soundcloud.com/tracks?q=");
    push_str_chars(&mut url, enc.as_str());
    push_str_chars(&mut url, "&client_id=");
    push_str_chars(&mut url, client_id);
    push_str_chars(&mut url, "&limit=20");
    url
}

/// The URL to download a track's audio, or `None` when it has no stream URL.
pub fn stream_request_url(track: &ScTrack, client_id: &str) -> (r: Option<String>)
    ensures
        match track.stream_url {
            Some(base) => r matches Some(u) && u@ == base@ + "?client_id="@ + client_id@,
            None => r is None,
        },
{
    match &track.stream_url {
        None => None,
        Some(base) => {
            let mut url = String::new();
            push_str_chars(&mut url, base.as_str());
            push_str_chars(&mut url, "?client_id=");
            push_str_chars(&mut url, client_id);
            Some(url)
        },
    }
}

} // verus!
