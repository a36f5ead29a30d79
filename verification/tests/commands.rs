use terminal_dj::app::{App, ColorTheme};
use terminal_dj::command::{parse_command, Command, CommandEffect};
use terminal_dj::metadata::TrackMeta;

#[test]
fn commands_are_recognised() {
    assert!(matches!(parse_command("   "), Command::Empty));
    assert!(matches!(parse_command("dl https://x"), Command::Download(u) if u == "https://x"));
    assert!(matches!(parse_command("download https://y"), Command::Download(u) if u == "https://y"));
    assert!(matches!(parse_command("  theme neon "), Command::Theme(n) if n == "neon"));
    assert!(matches!(parse_command("vol 80"), Command::Volume(n) if n == "80"));
    assert!(matches!(parse_command("crossfade 3.5"), Command::Crossfade(n) if n == "3.5"));
    assert!(matches!(parse_command("sleep 30"), Command::Sleep(30)));
    assert!(matches!(parse_command("eq reset"), Command::EqReset));
    assert!(matches!(parse_command("eq 3 +2"), Command::EqSet(3, g) if g == "+2"));
    assert!(matches!(parse_command("tag"), Command::Tag));
    assert!(matches!(parse_command("dip"), Command::Lucky));
    assert!(matches!(parse_command("lucky"), Command::Lucky));
    assert!(matches!(parse_command("beets"), Command::Beets));
    assert!(matches!(parse_command("cover https://img"), Command::Cover(u) if u == "https://img"));
}

#[test]
fn malformed_commands_are_ignored_or_unknown() {
    assert!(matches!(parse_command("sleep soon"), Command::Ignored));
    assert!(matches!(parse_command("eq 11 +1"), Command::Ignored));
    assert!(matches!(parse_command("eq 0 +1"), Command::Ignored));
    assert!(matches!(parse_command("eq loud"), Command::Ignored));
    assert!(matches!(parse_command("download a b"), Command::Unknown(c) if c == "download a b"));
    assert!(matches!(parse_command("dance"), Command::Unknown(c) if c == "dance"));
    assert!(matches!(parse_command("tag now"), Command::Unknown(c) if c == "tag now"));
}

#[test]
fn theme_command_switches_theme() {
    let mut app = App::new();
    match app.execute_command("theme DRACULA") {
        CommandEffect::Notify(n) => assert_eq!(n, "Theme: DRACULA"),
        other => panic!("unexpected {:?}", other),
    }
    assert_eq!(app.color_theme, ColorTheme::Dracula);
    assert!(matches!(app.execute_command("theme sepia"), CommandEffect::Nothing));
    assert_eq!(app.color_theme, ColorTheme::Dracula);
}

#[test]
fn sleep_command_sets_the_timer() {
    let mut app = App::new();
    match app.execute_command("sleep 15") {
        CommandEffect::Sleep(secs, n) => {
            assert_eq!(secs, 900);
            assert_eq!(n, "Sleep timer: 15m");
        }
        other => panic!("unexpected {:?}", other),
    }
    match app.execute_command("sleep 0") {
        CommandEffect::Sleep(secs, n) => {
            assert_eq!(secs, 0);
            assert_eq!(n, "Sleep timer: off");
        }
        other => panic!("unexpected {:?}", other),
    }
}

#[test]
fn unknown_command_is_reported() {
    let mut app = App::new();
    match app.execute_command("  warp 9 ") {
        CommandEffect::Notify(n) => assert_eq!(n, "Unknown command: warp 9"),
        other => panic!("unexpected {:?}", other),
    }
    assert!(matches!(app.execute_command(""), CommandEffect::Nothing));
}

#[test]
fn lucky_dip_needs_a_library() {
    let mut app = App::new();
    match app.execute_command("lucky") {
        CommandEffect::Lucky(start, n) => {
            assert!(start.is_none());
            assert_eq!(n, "Library empty, no luck today!");
        }
        other => panic!("unexpected {:?}", other),
    }
}

#[test]
fn lucky_dip_plays_a_library_track() {
    let mut app = App::new();
    app.library.merge_scanned("/m/A - One.mp3".to_string(), TrackMeta::empty());
    app.library.merge_scanned("/m/B - Two.mp3".to_string(), TrackMeta::empty());
    let before = app.rng_state;
    match app.execute_command("dip") {
        CommandEffect::Lucky(Some(start), n) => {
            assert_eq!(n, "Lucky Dip: \u{1F3B2} Playing random track...");
            let idx = app.playing_track_index.expect("playing");
            assert_eq!(start.path, app.library.tracks[idx]);
            assert_eq!(app.current_track_name, start.title);
        }
        other => panic!("unexpected {:?}", other),
    }
    assert_ne!(app.rng_state, before);
    assert_eq!(app.playing_playlist_index, None);
}

#[test]
fn hand_off_commands_carry_their_argument() {
    let mut app = App::new();
    assert!(matches!(app.execute_command("dl https://v"), CommandEffect::Download(u) if u == "https://v"));
    assert!(matches!(app.execute_command("vol 55"), CommandEffect::Volume(v) if v == "55"));
    assert!(matches!(app.execute_command("xfade 2"), CommandEffect::Crossfade(v) if v == "2"));
    assert!(matches!(app.execute_command("eq 10 -3"), CommandEffect::EqSet(10, g) if g == "-3"));
    assert!(matches!(app.execute_command("eq reset"), CommandEffect::EqReset));
    assert!(matches!(app.execute_command("tag"), CommandEffect::Tag));
    assert!(matches!(app.execute_command("beets"), CommandEffect::Beets));
    assert!(matches!(app.execute_command("cover https://c"), CommandEffect::Cover(u) if u == "https://c"));
}
