use terminal_dj::app::{App, ColorTheme, InputMode, RepeatMode};
use terminal_dj::metadata::TrackMeta;
use terminal_dj::soundcloud::{ScTrack, ScUser};
use terminal_dj::spotify::{SpotifyPlaylist, SpotifyTrack};
use terminal_dj::view::{
    band_label, bpm_with_vibe, controls_text, header_text, karaoke_line, karaoke_scroll, library_row,
    play_icon, playlist_row, playlist_track_row, progress_label, soundcloud_row, spinner,
    spotify_playlist_row, spotify_track_row, status_kind, track_panel, StatusKind,
};

#[test]
fn progress_label_shows_minutes_and_seconds() {
    assert_eq!(progress_label(65_500, 200_000), "1:05 / 3:20");
    assert_eq!(progress_label(0, 0), "0:00 / 0:00");
    assert_eq!(progress_label(3_600_000, 7_199_999), "60:00 / 119:59");
}

#[test]
fn spinner_turns_every_two_ticks() {
    let chars: Vec<char> = (0..10).map(spinner).collect();
    assert_eq!(chars, vec!['|', '|', '/', '/', '-', '-', '\\', '\\', '|', '|']);
}

#[test]
fn library_rows_mark_the_playing_track() {
    let mut meta = TrackMeta::empty();
    meta.artist = Some("Band".to_string());
    assert_eq!(library_row(&meta, "/m/Song.mp3", false), " \u{F0386} Song \u{2014} Band");
    assert_eq!(library_row(&meta, "/m/Song.mp3", true), " \u{F040A}  Song \u{2014} Band");
}

#[test]
fn app_library_rows_follow_the_search() {
    let mut app = App::new();
    let mut m = TrackMeta::empty();
    m.title = Some("One".to_string());
    app.library.merge_scanned("/m/1.mp3".to_string(), m);
    app.library.merge_scanned("/m/2.mp3".to_string(), TrackMeta::empty());
    app.playing_track_index = Some(1);
    let rows = app.library_rows();
    assert_eq!(
        rows,
        vec![
            " \u{F0386} One \u{2014} Unknown Artist".to_string(),
            " \u{F040A}  2 \u{2014} Unknown Artist".to_string(),
        ]
    );
    app.library_search = "one".to_string();
    assert_eq!(app.library_rows().len(), 1);
}

#[test]
fn playlist_rows() {
    assert_eq!(playlist_row("Mix", 12), " \u{F0CB8} Mix (12 tracks)");
    assert_eq!(playlist_track_row("/music/a/b.flac"), " \u{F0384} b.flac");
    assert_eq!(playlist_track_row("/"), " \u{F0384} ");
    let p = SpotifyPlaylist { id: "x".to_string(), name: "Daily".to_string() };
    assert_eq!(spotify_playlist_row(&p), " \u{F0CB8} Daily");
    let t = SpotifyTrack { id: None, name: "Hit".to_string(), artists: vec!["Star".to_string(), "Feat".to_string()] };
    assert_eq!(spotify_track_row(&t), " \u{F04C7} Hit \u{2014} Star");
}

#[test]
fn soundcloud_rows_show_the_length() {
    let t = ScTrack {
        id: 1,
        title: "Tune".to_string(),
        user: ScUser { username: "dj".to_string() },
        duration: 61_000,
        stream_url: None,
        artwork_url: None,
    };
    assert_eq!(soundcloud_row(&t), "  Tune \u{2014} dj  [1:01]");
}

#[test]
fn equalizer_labels_bracket_the_focused_band() {
    assert_eq!(band_label(0, 0, true), "[31]");
    assert_eq!(band_label(0, 0, false), "31");
    assert_eq!(band_label(5, 0, true), "1K");
    assert_eq!(band_label(9, 9, true), "[16K]");
}

#[test]
fn karaoke_view_keeps_the_line_centred() {
    assert_eq!(karaoke_scroll(10, 12, 0), 5);
    assert_eq!(karaoke_scroll(3, 12, 0), 0);
    assert_eq!(karaoke_scroll(10, 12, 2), 7);
    assert_eq!(karaoke_scroll(0, 0, u16::MAX), u16::MAX);
    assert_eq!(karaoke_line("la la", true), "\u{25B6} la la");
    assert_eq!(karaoke_line("la la", false), "la la");
}

#[test]
fn spotify_status_is_classified() {
    assert_eq!(status_kind("Connected \u{2713}  (3 playlists)"), StatusKind::Connected);
    assert_eq!(status_kind("Token exchange failed: x"), StatusKind::Problem);
    assert_eq!(status_kind("Unauthorized \u{2014} token expired"), StatusKind::Problem);
    assert_eq!(status_kind("Waiting for browser auth"), StatusKind::Pending);
}

#[test]
fn header_lists_status_library_and_theme() {
    let h = header_text(4, "Connected \u{2713}", true, 42, ColorTheme::Amber, "");
    assert_eq!(
        h,
        "\n  -  \u{F04C7} Spotify: Connected \u{2713} (Paused)\n  \u{25C8} Connected \u{2713}\n  \u{25C8} Library: 42 tracks scanned\n   Tick: 10Hz | Theme: Amber"
    );
    let h = header_text(0, "Idle", false, 0, ColorTheme::Neon, "Saved");
    assert!(h.contains("Spotify: Disconnected\n"));
    assert!(h.ends_with("Theme: Neon\n   Saved"));
}

#[test]
fn controls_depend_on_the_input_mode() {
    assert_eq!(
        controls_text(InputMode::Command, "sleep 3", 0, "", "", false, RepeatMode::Off, 0, "", false),
        ":sleep 3_"
    );
    assert_eq!(
        controls_text(InputMode::Editing, "", 0, "", "", false, RepeatMode::Off, 0, "", false),
        " Enter:Confirm  Esc:Cancel"
    );
    assert_eq!(
        controls_text(InputMode::Normal, "", 80, "120 BPM", "Off", true, RepeatMode::All, 2, "15m", false),
        " q:Quit ?:Help Tab Space:Pause\n ,:<<  .:>>  Vol:80%  120 BPM  XFade:Off\n \u{1F500}:On \u{1F501}:All Q:2 \u{1F4A4}:15m EQ:Off"
    );
}

#[test]
fn small_labels() {
    assert_eq!(bpm_with_vibe("120 BPM", &Some("Chill".to_string())), "120 BPM [Chill]");
    assert_eq!(bpm_with_vibe("-- BPM", &None), "-- BPM");
    assert_eq!(play_icon(true, true, true), "\u{23F8}");
    assert_eq!(play_icon(false, true, false), "\u{21CC}");
    assert_eq!(play_icon(false, false, true), "\u{25B6}");
    assert_eq!(play_icon(false, false, false), "\u{F040A}");
    assert_eq!(track_panel("\u{25B6}", "Song", "Band"), "\u{25B6} Song\n\u{F0803} Band");
}

#[test]
fn typing_a_search_filters_from_the_top() {
    let mut app = App::new();
    app.selected_track_index = 4;
    app.search_type('x');
    assert_eq!(app.library_search, "");
    app.begin_search();
    assert_eq!(app.input_mode, InputMode::Editing);
    assert_eq!(app.selected_track_index, 0);
    app.search_type('a');
    app.search_type('b');
    assert_eq!(app.library_search, "ab");
    app.selected_track_index = 3;
    app.search_backspace();
    assert_eq!(app.library_search, "a");
    assert_eq!(app.selected_track_index, 0);
    app.search_escape();
    assert!(!app.library_search_active);
    assert_eq!(app.library_search, "");
    assert_eq!(app.input_mode, InputMode::Normal);
}
