//! Spotify: the playlist and track records the player keeps, the OAuth
//! callback, and the retry delay of the playback poller.
use vstd::prelude::*;
use crate::json::{field, opt_view, text, text_of, Json};
use crate::text::{chars_of, owned, contains_str, find_char, find_chars_from, first_index_from, first_occurrence_from, seq_contains, slice_range, string_of};

verus! {

/// A playlist of the signed-in user.
#[derive(Debug)]
pub struct SpotifyPlaylist {
    pub id: String,
    pub name: String,
}

/// A track from a Spotify search.
#[derive(Debug)]
pub struct SpotifyTrack {
    pub id: Option<String>,
    pub name: String,
    /// Artist names, main artist first.
    pub artists: Vec<String>,
}

/// The authorization code carried by an OAuth redirect URL: for a URL that
/// contains `/callback?code=`, the text after the first `code=`, up to the next
/// `code=` and then up to the first `&`. `None` for any other request.
pub open spec fn callback_code(url: Seq<char>) -> Option<Seq<char>> {
    if !seq_contains(url, "/callback?code="@) {
        None
    } else {
        match first_occurrence_from(url, "code="@, 0) {
            None => None,
            Some(k) => {
                let rest = url.subrange(k + "code="@.len(), url.len() as int);
                let seg = match first_occurrence_from(rest, "code="@, 0) {
                    Some(j) => rest.subrange(0, j),
                    None => rest,
                };
                match first_index_from(seg, '&', 0) {
                    Some(a) => Some(seg.subrange(0, a)),
                    None => Some(seg),
                }
            },
        }
    }
}

/// The authorization code of an OAuth redirect request, if it is the callback.
pub fn auth_code_from_callback(url: &str) -> (r: Option<String>)
    ensures
        match callback_code(url@) {
            Some(c) => r matches Some(s) && s@ == c,
            None => r is None,
        },
{
    let u = chars_of(url);
    if !contains_str(u.as_slice(), "/callback?code=") {
        return None;
    }
    let key = chars_of("code=");
    let k = match find_chars_from(u.as_slice(), key.as_slice(), 0) {
        None => return None,
        Some(k) => k,
    };
    let ulen = u.len();
    assert(k + key@.len() <= ulen);
    let rest = slice_range(u.as_slice(), k + key.len(), ulen);
    let seg = match find_chars_from(rest.as_slice(), key.as_slice(), 0) {
        Some(j) => slice_range(rest.as_slice(), 0, j),
        None => {
            let v = slice_range(rest.as_slice(), 0, rest.len());
            assert(v@ =~= rest@);
            v
        },
    };
    match find_char(seg.as_slice(), '&') {
        Some(a) => {
            let c = slice_range(seg.as_slice(), 0, a);
            Some(string_of(c.as_slice()))
        },
        None => Some(string_of(seg.as_slice())),
    }
}

/// Seconds to wait after `errors` failed playback polls in a row: doubling from
/// 1 and capped at 32 (2 to the power `min(errors, 5)`).
pub open spec fn backoff_spec(errors: u32) -> u64 {
    if errors == 0 {
        1
    } else if errors == 1 {
        2
    } else if errors == 2 {
        4
    } else if errors == 3 {
        8
    } else if errors == 4 {
        16
    } else {
        32
    }
}

/// The wait before the next playback poll after `errors` failures in a row.
pub fn playback_backoff_secs(errors: u32) -> (r: u64)
    ensures
        r == backoff_spec(errors),
        r <= 60,
{
    let e = if errors < 5 {
        errors
    } else {
        5
    };
    let mut p: u64 = 1;
    let mut i: u32 = 0;
    while i < e
        invariant
            e <= 5,
            i <= e,
            p == (if i == 0 {
                1
            } else if i == 1 {
                2
            } else if i == 2 {
                4
            } else if i == 3 {
                8
            } else if i == 4 {
                16
            } else {
                32u64
            }),
        decreases e - i,
    {
        p = p * 2;
        i += 1;
    }
    if p < 60 {
        p
    } else {
        60
    }
}

// ─── Playlist pages ──────────────────────────────────────────────────────────

/// The items of a playlist page (`items`, when it is an array).
pub open spec fn page_items(body: Json) -> Seq<Json> {
    match field(body, "items"@) {
        Some(Json::Array(v)) => v@,
        _ => seq![],
    }
}

/// The playlists the items of a page list, as id and name: every item that
/// is not `null` and has a non-empty string `id`; its string `name`, or
/// `Unnamed Playlist`.
pub open spec fn page_playlists(items: Seq<Json>) -> Seq<(Seq<char>, Seq<char>)>
    decreases items.len(),
{
    if items.len() == 0 {
        seq![]
    } else {
        let rest = page_playlists(items.drop_last());
        let it = items.last();
        let id = match text(field(it, "id"@)) {
            Some(t) => t,
            None => Seq::<char>::empty(),
        };
        let name = match text(field(it, "name"@)) {
            Some(t) => t,
            None => "Unnamed Playlist"@,
        };
        if it is Null || id.len() == 0 {
            rest
        } else {
            rest.push((id, name))
        }
    }
}

/// The URL of the next page: `next` when it is a non-empty string.
pub open spec fn next_page(body: Json) -> Option<Seq<char>> {
    match field(body, "next"@) {
        Some(Json::Str(u)) => if u@.len() > 0 {
            Some(u@)
        } else {
            None
        },
        _ => None,
    }
}

/// The first page of the signed-in user's playlists (50 per page).
pub open spec fn first_page_url() -> Seq<char> {
    "https://api.spotify.com/v1/me/playlists?limit=50"@
}

/// How a playlist page request went, by its HTTP status.
#[derive(PartialEq, Eq, Structural, Clone, Copy, Debug)]
pub enum PageStatus {
    Success,
    /// 401: the token expired; the user has to sign in again.
    Unauthorized,
    /// Any other status outside 200 to 299.
    Failed,
}

/// Classifies the HTTP status of a playlist page.
pub fn page_status(code: u16) -> (r: PageStatus)
    ensures
        r == (if code == 401 {
            PageStatus::Unauthorized
        } else if 200 <= code <= 299 {
            PageStatus::Success
        } else {
            PageStatus::Failed
        }),
{
    if code == 401 {
        PageStatus::Unauthorized
    } else if 200 <= code && code <= 299 {
        PageStatus::Success
    } else {
        PageStatus::Failed
    }
}

/// The id and name of each playlist.
pub open spec fn playlist_views(v: Seq<SpotifyPlaylist>) -> Seq<(Seq<char>, Seq<char>)> {
    v.map_values(|p: SpotifyPlaylist| (p.id@, p.name@))
}

/// Collects the user's playlists page by page: it says which URL to fetch
/// next and takes each response body.
pub struct PlaylistPager {
    pub playlists: Vec<SpotifyPlaylist>,
    pub next: Option<String>,
}

impl PlaylistPager {
    /// Before the first page: nothing collected, the first page to fetch.
    pub fn new() -> (r: PlaylistPager)
        ensures
            r.playlists@.len() == 0,
            opt_view(r.next) == Some(first_page_url()),
    {
        PlaylistPager {
            playlists: Vec::new(),
            next: Some(owned("https://api.spotify.com/v1/me/playlists?limit=50")),
        }
    }

    /// The URL to fetch next, or `None` when every page is in.
    pub fn next_url(&self) -> (r: Option<String>)
        ensures
            opt_view(r) == opt_view(self.next),
    {
        match &self.next {
            Some(u) => Some(u.clone()),
            None => None,
        }
    }

    /// Takes a page: its playlists are added after those collected so far and
    /// its `next` becomes the URL to fetch.
    pub fn accept_page(&mut self, body: &Json)
        ensures
            playlist_views(final(self).playlists@) == playlist_views(old(self).playlists@)
                + page_playlists(page_items(*body)),
            opt_view(final(self).next) == next_page(*body),
    {
        let empty: Vec<Json> = Vec::new();
        let items: &Vec<Json> = match body.get("items") {
            Some(Json::Array(v)) => v,
            _ => &empty,
        };
        assert(items@ == page_items(*body));
        let ghost before = playlist_views(self.playlists@);
        let n = items.len();
        let mut i: usize = 0;
        while i < n
            invariant
                n == items@.len(),
                i <= n,
                playlist_views(self.playlists@) == before + page_playlists(items@.take(i as int)),
            decreases n - i,
        {
            proof {
                assert(items@.take(i + 1).drop_last() =~= items@.take(i as int));
                assert(items@.take(i + 1).last() == items@[i as int]);
            }
            let it = &items[i];
            let is_null = match it {
                Json::Null => true,
                _ => false,
            };
            if !is_null {
                let id = match text_of(it.get("id")) {
                    Some(t) => t.clone(),
                    None => String::new(),
                };
                let name = match text_of(it.get("name")) {
                    Some(t) => t.clone(),
                    None => owned("Unnamed Playlist"),
                };
                if !id.as_str().is_empty() {
                    let ghost old_v = self.playlists@;
                    self.playlists.push(SpotifyPlaylist { id, name });
                    assert(playlist_views(self.playlists@) =~= playlist_views(old_v).push(
                        (self.playlists@.last().id@, self.playlists@.last().name@),
                    ));
                }
            }
            i += 1;
        }
        assert(items@.take(n as int) =~= items@);
        self.next = match body.get("next") {
            Some(Json::Str(u)) => {
                if u.as_str().is_empty() {
                    None
                } else {
                    Some(u.clone())
                }
            },
            _ => None,
        };
    }
}

// ─── Starting playback ───────────────────────────────────────────────────────

/// A playback device of the account: whether it is the active one, and its
/// id (a device may have none).
#[derive(Debug)]
pub struct Device {
    pub is_active: bool,
    pub id: Option<String>,
}

/// The device playback starts on: the first active device, else the first
/// device; its id (none when that device has none, or there is no device).
pub open spec fn device_choice(ds: Seq<Device>) -> Option<Seq<char>> {
    if exists|i: int| 0 <= i < ds.len() && ds[i].is_active {
        let i = choose|i: int|
            0 <= i < ds.len() && ds[i].is_active && forall|j: int| 0 <= j < i ==> !ds[j].is_active;
        opt_view(ds[i].id)
    } else if ds.len() > 0 {
        opt_view(ds[0].id)
    } else {
        None
    }
}

/// Picks the device to play on (see `device_choice`).
pub fn choose_device(devices: &Vec<Device>) -> (r: Option<String>)
    ensures
        opt_view(r) == device_choice(devices@),
{
    let n = devices.len();
    let mut i: usize = 0;
    while i < n
        invariant
            n == devices@.len(),
            i <= n,
            forall|j: int| 0 <= j < i ==> !devices@[j].is_active,
        decreases n - i,
    {
        if devices[i].is_active {
            proof {
                let ds = devices@;
                assert(0 <= i < ds.len() && ds[i as int].is_active && forall|j: int|
                    0 <= j < i ==> !ds[j].is_active);
                let c = choose|c: int|
                    0 <= c < ds.len() && ds[c].is_active && forall|j: int|
                        0 <= j < c ==> !ds[j].is_active;
                if c < i {
                } else if c > i {
                    assert(!ds[i as int].is_active);
                }
                assert(c == i);
            }
            return match &devices[i].id {
                Some(id) => Some(id.clone()),
                None => None,
            };
        }
        i += 1;
    }
    if n == 0 {
        None
    } else {
        match &devices[0].id {
            Some(id) => Some(id.clone()),
            None => None,
        }
    }
}

/// The status shown when starting playback failed with error text `msg`: a
/// refusal (403) or a Premium notice means the account cannot play.
pub fn playback_error_status(msg: &str) -> (r: String)
    ensures
        r@ == if seq_contains(msg@, "403"@) || seq_contains(msg@, "Premium"@) {
            "Playback requires Spotify Premium"@
        } else {
            "Playback failed: "@ + msg@
        },
{
    let m = chars_of(msg);
    if contains_str(m.as_slice(), "403") || contains_str(m.as_slice(), "Premium") {
        owned("Playback requires Spotify Premium")
    } else {
        let mut out = owned("Playback failed: ");
        crate::text::push_str_chars(&mut out, msg);
        out
    }
}

} // verus!
