use terminal_dj::json::Json;
use terminal_dj::musicbrainz::{parse_mb_response, release_id};
use terminal_dj::soundcloud::{decode_track, search_results, search_url, stream_request_url, ScTrack, ScUser};
use terminal_dj::spotify::{
    choose_device, page_status, playback_error_status, Device, PageStatus, PlaylistPager,
};

fn o(fields: Vec<(&str, Json)>) -> Json {
    Json::Object(fields.into_iter().map(|(k, v)| (k.to_string(), v)).collect())
}

fn s(t: &str) -> Json {
    Json::Str(t.to_string())
}

fn n(v: u64) -> Json {
    Json::Number(Some(v))
}

fn recording() -> Json {
    o(vec![
        ("title", s("Song")),
        ("artist-credit", Json::Array(vec![o(vec![("artist", o(vec![("name", s("Band"))]))])])),
        ("releases", Json::Array(vec![o(vec![("title", s("Album")), ("date", s("2001")), ("id", s("rel-1"))])])),
    ])
}

#[test]
fn mb_response_is_summarised() {
    let json = o(vec![("recordings", Json::Array(vec![recording()]))]);
    assert_eq!(parse_mb_response(&json), "MB: Song \u{2014} Band | Album (2001)");
}

#[test]
fn mb_response_without_recordings_reports_no_match() {
    assert_eq!(parse_mb_response(&o(vec![("recordings", Json::Array(vec![]))])), "No MusicBrainz match found");
    assert_eq!(parse_mb_response(&o(vec![])), "No MusicBrainz match found");
    assert_eq!(parse_mb_response(&Json::Null), "No MusicBrainz match found");
}

#[test]
fn mb_response_fills_missing_fields_with_question_marks() {
    let json = o(vec![("recordings", Json::Array(vec![o(vec![("title", n(3))])]))]);
    assert_eq!(parse_mb_response(&json), "MB: ? \u{2014} ? | ? (?)");
}

#[test]
fn mb_release_id_is_found() {
    let json = o(vec![("recordings", Json::Array(vec![recording()]))]);
    assert_eq!(release_id(&json), Some("rel-1".to_string()));
    assert_eq!(release_id(&o(vec![("recordings", Json::Array(vec![]))])), None);
}

#[test]
fn json_pointer_steps_follow_fields_and_indices() {
    let json = o(vec![("a", Json::Array(vec![s("x"), o(vec![("0", s("field zero"))])]))]);
    assert_eq!(json.follow(&["a", "0"]).and_then(|j| j.as_str()).map(|t| t.as_str()), Some("x"));
    assert_eq!(json.follow(&["a", "1", "0"]).and_then(|j| j.as_str()).map(|t| t.as_str()), Some("field zero"));
    assert!(json.follow(&["a", "01"]).is_none());
    assert!(json.follow(&["a", "+1"]).is_none());
    assert!(json.follow(&["a", "2"]).is_none());
    assert!(json.follow(&["b"]).is_none());
}

fn track_json(id: u64, stream: Json) -> Json {
    o(vec![
        ("id", n(id)),
        ("title", s("Tune")),
        ("user", o(vec![("username", s("dj")), ("followers", n(9))])),
        ("duration", n(185000)),
        ("stream_url", stream),
        ("kind", s("track")),
    ])
}

#[test]
fn sc_track_object_is_decoded() {
    let t = decode_track(&track_json(7, s("https://api/stream"))).expect("track");
    assert_eq!(t.id, 7);
    assert_eq!(t.title, "Tune");
    assert_eq!(t.display_artist(), "dj");
    assert_eq!(t.duration, 185000);
    assert_eq!(t.stream_url, Some("https://api/stream".to_string()));
    assert_eq!(t.artwork_url, None);
}

#[test]
fn sc_track_array_is_decoded() {
    let j = Json::Array(vec![n(1), s("T"), Json::Array(vec![s("U")]), n(1000), Json::Null, s("art")]);
    let t = decode_track(&j).expect("track");
    assert_eq!(t.user.username, "U");
    assert_eq!(t.stream_url, None);
    assert_eq!(t.artwork_url, Some("art".to_string()));
    let short = Json::Array(vec![n(1), s("T"), Json::Array(vec![s("U")]), n(1000), Json::Null]);
    assert!(decode_track(&short).is_none());
}

#[test]
fn sc_track_with_bad_fields_is_rejected() {
    assert!(decode_track(&o(vec![("id", n(1)), ("title", s("T")), ("user", o(vec![("username", s("u"))]))])).is_none());
    let mut neg = track_json(1, Json::Null);
    if let Json::Object(fs) = &mut neg {
        fs[0].1 = Json::Number(None);
    }
    assert!(decode_track(&neg).is_none());
    assert!(decode_track(&track_json(1, n(5))).is_none());
    assert!(decode_track(&s("track")).is_none());
}

#[test]
fn sc_search_keeps_streamable_tracks_in_order() {
    let coll = Json::Array(vec![
        track_json(1, s("u1")),
        track_json(2, Json::Null),
        s("junk"),
        track_json(3, s("u3")),
    ]);
    let ids: Vec<u64> = search_results(&o(vec![("collection", coll)])).iter().map(|t| t.id).collect();
    assert_eq!(ids, vec![1, 3]);
    let top = Json::Array(vec![track_json(4, s("u4"))]);
    assert_eq!(search_results(&top).len(), 1);
    assert!(search_results(&o(vec![("results", Json::Array(vec![track_json(5, s("u"))]))])).is_empty());
}

#[test]
fn sc_duration_label_is_minutes_and_seconds() {
    let mk = |ms: u64| ScTrack {
        id: 1,
        title: String::new(),
        user: ScUser { username: "u".to_string() },
        duration: ms,
        stream_url: None,
        artwork_url: None,
    };
    assert_eq!(mk(185000).duration_label(), "3:05");
    assert_eq!(mk(999).duration_label(), "0:00");
    assert_eq!(mk(3600000).duration_label(), "60:00");
}

#[test]
fn sc_urls_are_built() {
    assert_eq!(
        search_url("a b&c", "ID"),
        "https://api.soundcloud.com/tracks?q=a%20b%26c&client_id=ID&limit=20"
    );
    let t = decode_track(&track_json(1, s("https://api/s"))).unwrap();
    assert_eq!(stream_request_url(&t, "K"), Some("https://api/s?client_id=K".to_string()));
    let u = decode_track(&track_json(1, Json::Null)).unwrap();
    assert_eq!(stream_request_url(&u, "K"), None);
}

#[test]
fn spotify_pages_are_collected() {
    let mut pager = PlaylistPager::new();
    assert_eq!(pager.next_url(), Some("https://api.spotify.com/v1/me/playlists?limit=50".to_string()));
    let page = o(vec![
        (
            "items",
            Json::Array(vec![
                o(vec![("id", s("a")), ("name", s("Alpha"))]),
                Json::Null,
                o(vec![("id", s("")), ("name", s("Empty id"))]),
                o(vec![("id", s("b"))]),
                o(vec![("name", s("No id"))]),
            ]),
        ),
        ("next", s("https://api.spotify.com/page2")),
    ]);
    pager.accept_page(&page);
    let got: Vec<(String, String)> = pager.playlists.iter().map(|p| (p.id.clone(), p.name.clone())).collect();
    assert_eq!(got, vec![("a".to_string(), "Alpha".to_string()), ("b".to_string(), "Unnamed Playlist".to_string())]);
    assert_eq!(pager.next_url(), Some("https://api.spotify.com/page2".to_string()));
    pager.accept_page(&o(vec![("items", Json::Array(vec![o(vec![("id", s("c")), ("name", s("C"))])])), ("next", Json::Null)]));
    assert_eq!(pager.playlists.len(), 3);
    assert_eq!(pager.next_url(), None);
}

#[test]
fn spotify_page_with_empty_next_is_the_last() {
    let mut pager = PlaylistPager::new();
    pager.accept_page(&o(vec![("next", s(""))]));
    assert!(pager.playlists.is_empty());
    assert_eq!(pager.next_url(), None);
}

#[test]
fn spotify_page_statuses_are_classified() {
    assert_eq!(page_status(200), PageStatus::Success);
    assert_eq!(page_status(204), PageStatus::Success);
    assert_eq!(page_status(401), PageStatus::Unauthorized);
    assert_eq!(page_status(302), PageStatus::Failed);
    assert_eq!(page_status(500), PageStatus::Failed);
}

#[test]
fn spotify_device_choice_prefers_the_active_one() {
    let d = |a: bool, id: Option<&str>| Device { is_active: a, id: id.map(|x| x.to_string()) };
    assert_eq!(choose_device(&vec![d(false, Some("one")), d(true, Some("two"))]), Some("two".to_string()));
    assert_eq!(choose_device(&vec![d(false, Some("one")), d(false, Some("two"))]), Some("one".to_string()));
    assert_eq!(choose_device(&vec![d(false, None), d(false, Some("two"))]), None);
    assert_eq!(choose_device(&vec![]), None);
}

#[test]
fn spotify_playback_errors_are_explained() {
    assert_eq!(playback_error_status("http status: 403"), "Playback requires Spotify Premium");
    assert_eq!(playback_error_status("Premium required"), "Playback requires Spotify Premium");
    assert_eq!(playback_error_status("timeout"), "Playback failed: timeout");
}
