use terminal_dj::app::classic::{download_row, toggle_visualizer, VisualizerMode as ClassicVis};
use terminal_dj::app::playback::PlayAction;
use terminal_dj::app::{media_command, mood_color, App, Color, ColorTheme, MediaCommand, RepeatMode, VisualizerMode};
use terminal_dj::library::Library;
use terminal_dj::metadata::TrackMeta;
use terminal_dj::playlist::Playlist;
use terminal_dj::soundcloud::ScTrack;
use terminal_dj::spotify::{SpotifyPlaylist, SpotifyTrack};

fn meta(title: &str, artist: &str) -> TrackMeta {
    let mut m = TrackMeta::empty();
    m.title = Some(title.to_string());
    m.artist = Some(artist.to_string());
    m
}

fn three_tracks() -> App {
    let mut app = App::new();
    app.library.merge_scanned("/m/one.mp3".to_string(), meta("One", "Alpha"));
    app.library.merge_scanned("/m/two.mp3".to_string(), meta("Two", "Beta"));
    app.library.merge_scanned("/m/three.mp3".to_string(), meta("Three", "Alpha"));
    app
}

fn play_selected(app: &mut App) -> PlayAction {
    let pls: Vec<SpotifyPlaylist> = Vec::new();
    let res: Vec<SpotifyTrack> = Vec::new();
    let sc: Vec<ScTrack> = Vec::new();
    app.play_selected_track(&pls, &res, &sc, false)
}

#[test]
fn theme_cycle_and_names() {
    assert_eq!(ColorTheme::Neon.cycle(), ColorTheme::Amber);
    assert_eq!(ColorTheme::Matrix.cycle(), ColorTheme::Neon);
    let mut t = ColorTheme::Dracula;
    for _ in 0..5 {
        t = t.cycle();
    }
    assert_eq!(t, ColorTheme::Dracula);
    assert_eq!(ColorTheme::Amber.name(), "Amber");
    assert_eq!(ColorTheme::from_name("MaTrIx"), Some(ColorTheme::Matrix));
    assert_eq!(ColorTheme::from_name(&ColorTheme::Mono.name()), Some(ColorTheme::Mono));
    assert_eq!(ColorTheme::from_name("sepia"), None);
    assert_eq!(ColorTheme::Neon.primary(), Color::Cyan);
}

#[test]
fn new_player_starts_idle() {
    let app = App::new();
    assert_eq!(app.current_track_name, "No track playing");
    assert_eq!(app.current_artist, "-");
    assert_eq!(app.selected_tab, 0);
    assert_eq!(app.repeat, RepeatMode::Off);
    assert_eq!(app.vis_mode, VisualizerMode::Bars);
    assert!(app.karaoke_active);
    assert!(app.queue.is_empty());
}

#[test]
fn tabs_wrap_both_ways() {
    let mut app = App::new();
    app.switch_tab_back();
    assert_eq!(app.selected_tab, 5);
    app.switch_tab();
    assert_eq!(app.selected_tab, 0);
    for _ in 0..7 {
        app.switch_tab();
    }
    assert_eq!(app.selected_tab, 1);
}

#[test]
fn library_selection_wraps() {
    let mut app = three_tracks();
    app.previous_track(0, 0, 0);
    assert_eq!(app.selected_track_index, 2);
    app.next_track(0, 0, 0);
    assert_eq!(app.selected_track_index, 0);
    app.next_track(0, 0, 0);
    assert_eq!(app.selected_track_index, 1);
}

#[test]
fn library_search_filters_by_title_artist_and_file_name() {
    let mut app = three_tracks();
    app.library_search = "ALPHA".to_string();
    let shown: Vec<usize> = app.filtered_library().iter().map(|(i, _)| *i).collect();
    assert_eq!(shown, vec![0, 2]);
    app.library_search = "two.mp".to_string();
    let shown: Vec<usize> = app.filtered_library().iter().map(|(i, _)| *i).collect();
    assert_eq!(shown, vec![1]);
    app.library_search = String::new();
    assert_eq!(app.filtered_library().len(), 3);
}

#[test]
fn toggling_search_off_clears_it() {
    let mut app = three_tracks();
    app.toggle_library_search();
    assert!(app.library_search_active);
    app.library_search = "beta".to_string();
    app.selected_track_index = 2;
    app.toggle_library_search();
    assert!(!app.library_search_active);
    assert_eq!(app.library_search, "");
    assert_eq!(app.selected_track_index, 0);
}

#[test]
fn playing_a_selection_shows_its_tags() {
    let mut app = three_tracks();
    app.selected_track_index = 1;
    match play_selected(&mut app) {
        PlayAction::Local(s) => {
            assert_eq!(s.path, "/m/two.mp3");
            assert_eq!(s.artist, "Beta");
            assert_eq!(s.title, "Two");
            assert!(s.fetch_cover);
        }
        other => panic!("unexpected {:?}", other),
    }
    assert_eq!(app.playing_track_index, Some(1));
    assert_eq!(app.current_track_name, "Two");
    assert_eq!(app.current_artist, "Beta");
}

#[test]
fn tracks_advance_in_library_order() {
    let mut app = three_tracks();
    play_selected(&mut app);
    let next = app.advance_track().expect("next");
    assert_eq!(next.path, "/m/two.mp3");
    assert_eq!(app.selected_track_index, 1);
    app.advance_track();
    assert_eq!(app.playing_track_index, Some(2));
    assert!(app.advance_track().is_none());
    assert_eq!(app.playing_track_index, Some(2));
}

#[test]
fn repeat_all_wraps_to_the_first_track() {
    let mut app = three_tracks();
    app.selected_track_index = 2;
    play_selected(&mut app);
    app.cycle_repeat();
    app.cycle_repeat();
    assert_eq!(app.repeat, RepeatMode::All);
    let next = app.advance_track().expect("wraps");
    assert_eq!(next.path, "/m/one.mp3");
}

#[test]
fn repeat_one_plays_the_same_track_again() {
    let mut app = three_tracks();
    app.selected_track_index = 1;
    play_selected(&mut app);
    app.cycle_repeat();
    assert_eq!(app.repeat, RepeatMode::One);
    let again = app.advance_track().expect("again");
    assert_eq!(again.path, "/m/two.mp3");
    assert_eq!(app.playing_track_index, Some(1));
}

#[test]
fn queued_tracks_play_first_in_order() {
    let mut app = three_tracks();
    app.selected_track_index = 2;
    app.enqueue_selected();
    app.selected_track_index = 1;
    app.enqueue_selected();
    assert_eq!(app.queue, vec!["/m/three.mp3".to_string(), "/m/two.mp3".to_string()]);
    assert_eq!(app.advance_track().unwrap().path, "/m/three.mp3");
    assert_eq!(app.advance_track().unwrap().path, "/m/two.mp3");
    assert!(app.queue.is_empty());
}

#[test]
fn shuffle_draws_from_the_generator() {
    let mut app = three_tracks();
    play_selected(&mut app);
    app.toggle_shuffle();
    let before = app.rng_state;
    let next = app.advance_track().expect("random track");
    assert_ne!(app.rng_state, before);
    let expected = before.wrapping_mul(6364136223846793005).wrapping_add(1442695040888963407);
    assert_eq!(app.rng_state, expected);
    let pos = (expected as usize) % 3;
    assert_eq!(next.path, app.library.tracks[pos]);
}

#[test]
fn playlists_are_entered_and_played() {
    let mut app = three_tracks();
    let mut p = Playlist::new(7, "Mix".to_string());
    p.tracks.push("/m/three.mp3".to_string());
    p.tracks.push("/elsewhere/song.mp3".to_string());
    app.set_playlists(vec![p]);
    app.switch_tab();
    let pls: Vec<SpotifyPlaylist> = Vec::new();
    let res: Vec<SpotifyTrack> = Vec::new();
    let sc: Vec<ScTrack> = Vec::new();
    assert!(matches!(app.enter_playlist(&pls, &res, &sc, false), PlayAction::Nothing));
    assert_eq!(app.viewing_playlist_index, Some(0));
    app.next_track(0, 0, 0);
    match app.enter_playlist(&pls, &res, &sc, false) {
        PlayAction::Local(s) => {
            assert_eq!(s.path, "/elsewhere/song.mp3");
            assert_eq!(s.title, "song");
            assert_eq!(s.artist, "Unknown");
        }
        other => panic!("unexpected {:?}", other),
    }
    assert_eq!(app.playing_playlist_index, Some(0));
    assert_eq!(app.playing_track_index, Some(1));
    app.exit_playlist();
    assert_eq!(app.viewing_playlist_index, None);
}

#[test]
fn add_to_playlist_names_the_selected_track() {
    let mut app = three_tracks();
    assert_eq!(app.add_selected_track_to_playlist(), None);
    app.set_playlists(vec![Playlist::new(4, "P".to_string())]);
    app.selected_track_index = 2;
    assert_eq!(app.add_selected_track_to_playlist(), Some((4, "/m/three.mp3".to_string())));
}

#[test]
fn new_playlist_takes_the_typed_name() {
    let mut app = App::new();
    assert_eq!(app.create_playlist(), None);
    app.input = "Road trip".to_string();
    assert_eq!(app.create_playlist(), Some("Road trip".to_string()));
    assert_eq!(app.input, "");
}

#[test]
fn sleep_presets_cycle_with_labels() {
    let mut app = App::new();
    assert_eq!(app.sleep_timer_label(), "Off");
    assert_eq!(app.cycle_sleep_timer(), 900);
    assert_eq!(app.sleep_timer_label(), "15m");
    assert_eq!(app.cycle_sleep_timer(), 1800);
    assert_eq!(app.cycle_sleep_timer(), 2700);
    assert_eq!(app.cycle_sleep_timer(), 3600);
    assert_eq!(app.sleep_timer_label(), "60m");
    assert_eq!(app.cycle_sleep_timer(), 0);
    assert_eq!(app.sleep_timer_label(), "Off");
    app.cycle_sleep_timer();
    app.sleep_expired();
    assert_eq!(app.sleep_preset_idx, 0);
}

#[test]
fn scrobble_happens_once_after_thirty_seconds() {
    let mut app = App::new();
    assert!(!app.scrobble_due(None));
    assert!(!app.scrobble_due(Some(29)));
    assert!(app.scrobble_due(Some(30)));
    assert!(!app.scrobble_due(Some(300)));
}

#[test]
fn spotify_sync_runs_every_tenth_tick_when_idle() {
    let mut app = App::new();
    assert!(app.spotify_sync_due(false));
    assert!(!app.spotify_sync_due(true));
    app.tick_counters();
    assert!(!app.spotify_sync_due(false));
    for _ in 0..9 {
        app.tick_counters();
    }
    assert_eq!(app.ticks, 10);
    assert!(app.spotify_sync_due(false));
}

#[test]
fn glitch_counts_down_and_stops() {
    let mut app = App::new();
    app.trigger_glitch();
    for _ in 0..4 {
        app.tick_counters();
        assert!(app.glitch_active);
    }
    app.tick_counters();
    assert!(!app.glitch_active);
    assert_eq!(app.glitch_ticks, 0);
}

#[test]
fn spotify_playback_updates_the_now_playing_fields() {
    let mut app = App::new();
    app.apply_spotify_playback(Some(("Song".to_string(), "Artist".to_string(), 200000)), 5000);
    assert_eq!(app.current_track_name, "Song");
    assert_eq!(app.current_artist, "Artist");
    assert_eq!(app.total_duration_ms, 200000);
    assert_eq!(app.playback_pos_ms, 5000);
    app.apply_spotify_playback(None, 7000);
    assert_eq!(app.current_track_name, "Song");
    assert_eq!(app.playback_pos_ms, 7000);
}

#[test]
fn vibe_notice_and_colour() {
    let mut app = App::new();
    assert_eq!(app.apply_vibe("Chill".to_string()), "Vibe detected: Chill");
    assert_eq!(app.mood_color, Some(Color::Rgb(0, 255, 255)));
    assert_eq!(app.current_vibe, Some("Chill".to_string()));
    app.apply_vibe("Energetic".to_string());
    assert_eq!(app.mood_color, Some(Color::Rgb(255, 0, 127)));
}

#[test]
fn mood_colour_follows_keywords() {
    assert_eq!(mood_color("Lofi Beats", "x"), Some(Color::Rgb(0, 255, 255)));
    assert_eq!(mood_color("Song", "Metal Band"), Some(Color::Rgb(255, 30, 30)));
    assert_eq!(mood_color("Techno night", "DJ"), Some(Color::Rgb(60, 0, 255)));
    assert_eq!(mood_color("Quiet", "Nobody"), None);
}

#[test]
fn media_keys_map_to_commands() {
    assert_eq!(media_command(0), MediaCommand::TogglePause);
    assert_eq!(media_command(2), MediaCommand::TogglePause);
    assert_eq!(media_command(3), MediaCommand::Next);
    assert_eq!(media_command(4), MediaCommand::Previous);
    assert_eq!(media_command(9), MediaCommand::Ignore);
    assert_eq!(media_command(-1), MediaCommand::Ignore);
}

#[test]
fn cursor_stays_on_the_canvas() {
    let mut app = App::new();
    app.move_cursor(-50, -50);
    assert_eq!(app.cursor_pos, (0, 0));
    app.move_cursor(500, 500);
    assert_eq!(app.cursor_pos, (100, 40));
    app.move_cursor(-1, -1);
    assert_eq!(app.cursor_pos, (99, 39));
}

#[test]
fn seeking_moves_five_seconds() {
    let mut app = App::new();
    app.playback_pos_ms = 3000;
    assert_eq!(app.seek_target(true), 8000);
    assert_eq!(app.seek_target(false), 0);
    app.playback_pos_ms = 12000;
    assert_eq!(app.seek_target(false), 7000);
}

#[test]
fn equalizer_bands_wrap() {
    let mut app = App::new();
    app.eq_prev_band();
    assert_eq!(app.eq_selected_band, 9);
    app.eq_next_band();
    assert_eq!(app.eq_selected_band, 0);
    app.toggle_eq();
    assert!(app.show_eq && app.eq_focused);
    app.toggle_eq();
    assert!(!app.show_eq && !app.eq_focused);
}

#[test]
fn lyrics_scroll_saturates() {
    let mut app = App::new();
    app.scroll_lyrics_up();
    assert_eq!(app.lyrics_scroll, 0);
    app.scroll_lyrics_down();
    app.scroll_lyrics_down();
    assert_eq!(app.lyrics_scroll, 6);
    app.scroll_lyrics_up();
    assert_eq!(app.lyrics_scroll, 3);
}

#[test]
fn visualizer_styles_cycle() {
    let mut app = App::new();
    for _ in 0..5 {
        app.toggle_vis_mode();
    }
    assert_eq!(app.vis_mode, VisualizerMode::Bars);
    app.toggle_vis_mode();
    assert_eq!(app.vis_mode, VisualizerMode::Cyberfield);
}

#[test]
fn classic_visualizer_toggle_announces_the_style() {
    let mut m = ClassicVis::RetroCrt;
    assert_eq!(toggle_visualizer(&mut m), "Visualizer changed to NeonWaves");
    assert_eq!(toggle_visualizer(&mut m), "Visualizer changed to CyberpunkPeak");
    assert_eq!(toggle_visualizer(&mut m), "Visualizer changed to RetroCrt");
    assert_eq!(m, ClassicVis::RetroCrt);
}

#[test]
fn finished_download_goes_first_and_is_selected() {
    let mut lib = Library::new();
    lib.merge_scanned("/m/a.mp3".to_string(), meta("A", "X"));
    lib.add_download("/m/new.mp3".to_string(), meta("New", "Y"));
    assert_eq!(lib.tracks, vec!["/m/new.mp3".to_string(), "/m/a.mp3".to_string()]);
    lib.add_download("/m/a.mp3".to_string(), meta("Other", "Z"));
    assert_eq!(lib.tracks.len(), 2);
    assert_eq!(lib.metadata[1].title, Some("A".to_string()));
    assert_eq!(download_row(&lib, "", &"/m/a.mp3".to_string()), 1);
    assert_eq!(download_row(&lib, "new", &"/m/a.mp3".to_string()), 0);
    assert_eq!(download_row(&lib, "x", &"/m/a.mp3".to_string()), 0);
    assert_eq!(download_row(&lib, "", &"/m/new.mp3".to_string()), 0);
}

#[test]
fn rescans_replace_metadata_without_duplicates() {
    let mut lib = Library::new();
    lib.merge_scanned("/m/a.mp3".to_string(), TrackMeta::empty());
    lib.merge_scanned("/m/a.mp3".to_string(), meta("Tagged", "Z"));
    assert_eq!(lib.tracks.len(), 1);
    assert_eq!(lib.metadata[0].title, Some("Tagged".to_string()));
    assert_eq!(lib.position(&"/m/a.mp3".to_string()), Some(0));
    assert_eq!(lib.position(&"/m/b.mp3".to_string()), None);
    lib.clear();
    assert!(lib.tracks.is_empty());
}

#[test]
fn repeat_modes_cycle_back() {
    let mut app = App::new();
    app.cycle_repeat();
    assert_eq!(app.repeat, RepeatMode::One);
    app.cycle_repeat();
    assert_eq!(app.repeat, RepeatMode::All);
    app.cycle_repeat();
    assert_eq!(app.repeat, RepeatMode::Off);
}

#[test]
fn switches_undo_themselves() {
    let mut app = App::new();
    app.toggle_shuffle();
    app.toggle_shuffle();
    assert!(!app.shuffle);
    app.toggle_karaoke();
    app.toggle_karaoke();
    assert!(app.karaoke_active);
    app.selected_tab = 2;
    let before = app.spotify_focus;
    app.switch_spotify_focus();
    assert_ne!(app.spotify_focus, before);
    app.switch_spotify_focus();
    assert_eq!(app.spotify_focus, before);
    app.selected_tab = 0;
    app.switch_spotify_focus();
    assert_eq!(app.spotify_focus, before);
}

#[test]
fn a_scan_batch_keeps_order_and_takes_the_last_metadata() {
    let mut lib = Library::new();
    lib.merge_scanned("/m/old.mp3".to_string(), meta("Old", "A"));
    lib.merge_scanned("/m/kept.mp3".to_string(), meta("Kept", "K"));
    lib.merge_batch(vec![
        ("/m/new1.mp3".to_string(), meta("First", "B")),
        ("/m/old.mp3".to_string(), meta("Old again", "A")),
        ("/m/new2.mp3".to_string(), meta("Second", "C")),
        ("/m/new1.mp3".to_string(), meta("First, retagged", "B")),
    ]);
    assert_eq!(lib.tracks, vec!["/m/old.mp3", "/m/kept.mp3", "/m/new1.mp3", "/m/new2.mp3"]);
    let titles: Vec<Option<String>> = lib.metadata.iter().map(|m| m.title.clone()).collect();
    assert_eq!(
        titles,
        vec![
            Some("Old again".to_string()),
            Some("Kept".to_string()),
            Some("First, retagged".to_string()),
            Some("Second".to_string()),
        ]
    );
    lib.merge_batch(Vec::new());
    assert_eq!(lib.tracks.len(), 4);
}

#[test]
fn a_tick_takes_at_most_two_hundred_scan_results() {
    assert!(!Library::batch_full(0));
    assert!(!Library::batch_full(199));
    assert!(Library::batch_full(200));
    assert!(Library::batch_full(201));
}

#[test]
fn scrobbling_over_many_ticks_happens_on_the_first_with_thirty_seconds() {
    let mut app = App::new();
    let played = [None, Some(3), Some(29), Some(31), Some(45), None, Some(90)];
    let due: Vec<bool> = played.iter().map(|p| app.scrobble_due(*p)).collect();
    assert_eq!(due, vec![false, false, false, true, false, false, false]);
    assert!(app.track_scrobbled);
}

#[test]
fn enter_on_the_library_tab_plays_the_selection() {
    let mut app = three_tracks();
    app.selected_track_index = 2;
    let pls: Vec<SpotifyPlaylist> = Vec::new();
    let res: Vec<SpotifyTrack> = Vec::new();
    let sc: Vec<ScTrack> = Vec::new();
    match app.enter_playlist(&pls, &res, &sc, false) {
        PlayAction::Local(s) => {
            assert_eq!(s.path, "/m/three.mp3");
            assert_eq!(s.title, "Three");
        }
        other => panic!("unexpected {:?}", other),
    }
    assert_eq!(app.playing_track_index, Some(2));
    assert_eq!(app.current_track_name, "Three");
}

#[test]
fn previous_undoes_next_on_the_library_tab() {
    let mut app = three_tracks();
    for start in 0..3 {
        app.selected_track_index = start;
        app.next_track(0, 0, 0);
        app.previous_track(0, 0, 0);
        assert_eq!(app.selected_track_index, start);
        app.previous_track(0, 0, 0);
        assert_eq!(app.selected_track_index, (start + 3 - 1) % 3);
    }
}
