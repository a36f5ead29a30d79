use terminal_dj::metadata::{is_cover_image_name, TrackMeta};
use terminal_dj::paths::{extension, file_name, file_stem, is_audio_path};
use terminal_dj::playlist::Playlist;
use terminal_dj::spotify::{auth_code_from_callback, playback_backoff_secs};
use terminal_dj::text::u64_to_string;
use terminal_dj::soundcloud::search_url;
use terminal_dj::urlenc::{cover_art_url, musicbrainz_search_url};

#[test]
fn display_title_falls_back_to_stem() {
    let meta = TrackMeta::empty();
    let title = meta.display_title("/tmp/tdj_test_1700000000000.mp3");
    assert!(title.contains("tdj_test_"));
    assert_eq!(title, "tdj_test_1700000000000");
}

#[test]
fn display_title_and_artist_prefer_tags() {
    let mut meta = TrackMeta::empty();
    assert_eq!(meta.display_artist(), "Unknown Artist");
    meta.title = Some("Tagged".to_string());
    meta.artist = Some("Someone".to_string());
    assert_eq!(meta.display_title("/x/y.mp3"), "Tagged");
    assert_eq!(meta.display_artist(), "Someone");
}

#[test]
fn path_parts_follow_std_path() {
    assert_eq!(file_name("/music/a/song.mp3"), Some("song.mp3".to_string()));
    assert_eq!(file_name("/music/dir/"), Some("dir".to_string()));
    assert_eq!(file_name("/"), None);
    assert_eq!(file_name("a/.."), None);
    assert_eq!(file_stem("/m/x.tar.gz"), Some("x.tar".to_string()));
    assert_eq!(file_stem("/m/.hidden"), Some(".hidden".to_string()));
    assert_eq!(extension("/m/x.tar.gz"), Some("gz".to_string()));
    assert_eq!(extension("/m/.hidden"), None);
    assert_eq!(extension("/m/noext"), None);
}

#[test]
fn audio_files_are_recognised_by_extension() {
    assert!(is_audio_path("/m/a.mp3"));
    assert!(is_audio_path("/m/A.FLAC"));
    assert!(is_audio_path("/m/b.opus"));
    assert!(!is_audio_path("/m/cover.jpg"));
    assert!(!is_audio_path("/m/mp3"));
}

#[test]
fn cover_images_are_recognised_by_name() {
    assert!(is_cover_image_name("Cover.JPG"));
    assert!(is_cover_image_name("folder.png"));
    assert!(is_cover_image_name("my album art.jpeg"));
    assert!(!is_cover_image_name("cover.gif"));
    assert!(!is_cover_image_name("photo.jpg"));
}

#[test]
fn percent_encoding_keeps_only_letters_and_digits() {
    let prefix = "https://api.soundcloud.com/tracks?q=";
    let suffix = "&client_id=C&limit=20";
    assert_eq!(search_url("AZaz09", "C"), format!("{}AZaz09{}", prefix, suffix));
    assert_eq!(search_url("a b-c_d", "C"), format!("{}a%20b%2Dc%5Fd{}", prefix, suffix));
    assert_eq!(search_url("\u{e9}", "C"), format!("{}%C3%A9{}", prefix, suffix));
}

#[test]
fn musicbrainz_and_cover_urls() {
    assert_eq!(
        musicbrainz_search_url("AC/DC", "T.N.T."),
        "https://musicbrainz.org/ws/2/recording/?query=artist%3A%22AC%2FDC%22%20AND%20recording%3A%22T%2EN%2ET%2E%22&fmt=json&limit=1"
    );
    assert_eq!(cover_art_url("abc-1"), "https://coverartarchive.org/release/abc-1/front-250");
}

#[test]
fn oauth_callback_carries_the_code() {
    assert_eq!(auth_code_from_callback("/callback?code=abc123&state=x"), Some("abc123".to_string()));
    assert_eq!(auth_code_from_callback("GET /callback?code=zz"), Some("zz".to_string()));
    assert_eq!(auth_code_from_callback("/favicon.ico"), None);
}

#[test]
fn playback_poll_backoff_doubles_up_to_a_cap() {
    assert_eq!(playback_backoff_secs(0), 1);
    assert_eq!(playback_backoff_secs(1), 2);
    assert_eq!(playback_backoff_secs(3), 8);
    assert_eq!(playback_backoff_secs(5), 32);
    assert_eq!(playback_backoff_secs(40), 32);
}

#[test]
fn new_playlist_is_empty() {
    let p = Playlist::new(3, "Road".to_string());
    assert_eq!(p.id, 3);
    assert_eq!(p.name, "Road");
    assert!(p.tracks.is_empty());
}

#[test]
fn decimal_text_of_numbers() {
    assert_eq!(u64_to_string(0), "0");
    assert_eq!(u64_to_string(1700000000), "1700000000");
    assert_eq!(u64_to_string(u64::MAX), "18446744073709551615");
}
