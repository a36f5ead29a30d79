//! The text the interface shows: list rows, status lines, the progress label
//! and where the karaoke view scrolls to. Drawing them is the terminal's job.
use vstd::prelude::*;
use crate::app::{App, ColorTheme, InputMode, RepeatMode};
use crate::metadata::TrackMeta;
use crate::paths::{file_name, file_name_spec};
use crate::soundcloud::{duration_label_spec, ScTrack};
use crate::spotify::{SpotifyPlaylist, SpotifyTrack};
use crate::text::{
    chars_of, contains_str, decimal, owned, push_char, push_decimal, push_str_chars, seq_contains,
};

verus! {

// ─── Clock and progress ──────────────────────────────────────────────────────

/// `m:ss / m:ss`: the playback position and the track length, in whole
/// seconds.
pub open spec fn progress_label_spec(pos_ms: u64, total_ms: u64) -> Seq<char> {
    duration_label_spec(pos_ms) + " / "@ + duration_label_spec(total_ms)
}

fn push_clock(out: &mut String, ms: u64)
    ensures
        final(out)@ == old(out)@ + duration_label_spec(ms),
{
    let s = ms / 1000;
    push_decimal(out, s / 60);
    push_char(out, ':');
    crate::text::push_decimal2(out, s % 60);
}

/// The label of the progress bar.
pub fn progress_label(pos_ms: u64, total_ms: u64) -> (r: String)
    ensures
        r@ == progress_label_spec(pos_ms, total_ms),
{
    let mut out = String::new();
    push_clock(&mut out, pos_ms);
    push_str_chars(&mut out, " / ");
    push_clock(&mut out, total_ms);
    out
}

/// The spinner character for a tick: `|`, `/`, `-`, `\` in turn, each for
/// two ticks.
pub open spec fn spinner_spec(ticks: u64) -> char {
    let k = ((ticks as usize) / 2) % 4;
    if k == 0 {
        '|'
    } else if k == 1 {
        '/'
    } else if k == 2 {
        '-'
    } else {
        '\\'
    }
}

/// The spinner character shown while the library loads.
pub fn spinner(ticks: u64) -> (r: char)
    ensures
        r == spinner_spec(ticks),
{
    let k = ((ticks as usize) / 2) % 4;
    if k == 0 {
        '|'
    } else if k == 1 {
        '/'
    } else if k == 2 {
        '-'
    } else {
        '\\'
    }
}

// ─── List rows ───────────────────────────────────────────────────────────────

/// A library row: a note icon, the title and the artist; the playing track
/// gets a play icon instead.
pub open spec fn library_row_spec(title: Seq<char>, artist: Seq<char>, playing: bool) -> Seq<char> {
    if playing {
        " \u{F040A}  "@ + title + " \u{2014} "@ + artist
    } else {
        " \u{F0386} "@ + title + " \u{2014} "@ + artist
    }
}

/// The row of a library track.
pub fn library_row(meta: &TrackMeta, path: &str, playing: bool) -> (r: String)
    ensures
        r@ == library_row_spec(meta.title_shown(path@), meta.artist_shown(), playing),
{
    let mut out = if playing {
        owned(" \u{F040A}  ")
    } else {
        owned(" \u{F0386} ")
    };
    let title = meta.display_title(path);
    let artist = meta.display_artist();
    push_str_chars(&mut out, title.as_str());
    push_str_chars(&mut out, " \u{2014} ");
    push_str_chars(&mut out, artist.as_str());
    out
}

impl App {
    /// Whether library track `orig` is the one playing (from the library, not
    /// a playlist).
    pub open spec fn plays_library_track(&self, orig: usize) -> bool {
        self.playing_playlist_index is None && self.playing_track_index == Some(orig)
    }

    /// The rows of the library list, for the tracks the search shows.
    pub fn library_rows(&self) -> (r: Vec<String>)
        requires
            self.wf(),
        ensures
            r@.len() == self.filtered_spec().len(),
            forall|k: int|
                0 <= k < r@.len() ==> {
                    let i = self.filtered_spec()[k] as int;
                    (#[trigger] r@[k])@ == library_row_spec(
                        self.library.metadata@[i].title_shown(self.library.tracks@[i]@),
                        self.library.metadata@[i].artist_shown(),
                        self.plays_library_track(self.filtered_spec()[k]),
                    )
                },
    {
        let shown = self.filtered_library();
        assert forall|a: int| 0 <= a < shown@.len() implies (#[trigger] shown@[a]).0
            == self.filtered_spec()[a] && (shown@[a].0 as int) < self.library.tracks@.len() by {
            assert(shown@[a].0 == self.filtered_spec()[a]);
        }
        let mut out: Vec<String> = Vec::new();
        let mut k: usize = 0;
        while k < shown.len()
            invariant
                self.wf(),
                shown@.len() == self.filtered_spec().len(),
                forall|a: int|
                    0 <= a < shown@.len() ==> (#[trigger] shown@[a]).0 == self.filtered_spec()[a] && (
                    shown@[a].0 as int) < self.library.tracks@.len(),
                k <= shown@.len(),
                out@.len() == k,
                forall|a: int|
                    0 <= a < k ==> {
                        let i = self.filtered_spec()[a] as int;
                        (#[trigger] out@[a])@ == library_row_spec(
                            self.library.metadata@[i].title_shown(self.library.tracks@[i]@),
                            self.library.metadata@[i].artist_shown(),
                            self.plays_library_track(self.filtered_spec()[a]),
                        )
                    },
            decreases shown@.len() - k,
        {
            let i = shown[k].0;
            assert(shown@[k as int].0 == i);
            let playing = self.playing_playlist_index.is_none() && match self.playing_track_index {
                Some(p) => p == i,
                None => false,
            };
            let row = library_row(&self.library.metadata[i], self.library.tracks[i].as_str(), playing);
            out.push(row);
            k += 1;
        }
        out
    }
}

/// A row of the playlist list: its name and number of tracks.
pub fn playlist_row(name: &str, tracks: usize) -> (r: String)
    ensures
        r@ == " \u{F0CB8} "@ + name@ + " ("@ + decimal(tracks as nat) + " tracks)"@,
{
    let mut out = owned(" \u{F0CB8} ");
    push_str_chars(&mut out, name);
    push_str_chars(&mut out, " (");
    push_decimal(&mut out, tracks as u64);
    push_str_chars(&mut out, " tracks)");
    out
}

/// A row of an opened playlist: the track's file name (nothing when it has
/// none).
pub fn playlist_track_row(path: &str) -> (r: String)
    ensures
        r@ == " \u{F0384} "@ + match file_name_spec(path@) {
            Some(n) => n,
            None => Seq::<char>::empty(),
        },
{
    let mut out = owned(" \u{F0384} ");
    match file_name(path) {
        Some(n) => push_str_chars(&mut out, n.as_str()),
        None => {},
    }
    out
}

/// A row of the SoundCloud results: title, uploader and length.
pub fn soundcloud_row(t: &ScTrack) -> (r: String)
    ensures
        r@ == "  "@ + t.title@ + " \u{2014} "@ + t.user.username@ + "  ["@ + duration_label_spec(
            t.duration,
        ) + "]"@,
{
    let mut out = owned("  ");
    push_str_chars(&mut out, t.title.as_str());
    push_str_chars(&mut out, " \u{2014} ");
    push_str_chars(&mut out, t.display_artist());
    push_str_chars(&mut out, "  [");
    let d = t.duration_label();
    push_str_chars(&mut out, d.as_str());
    push_str_chars(&mut out, "]");
    out
}

/// A row of the Spotify playlists.
pub fn spotify_playlist_row(p: &SpotifyPlaylist) -> (r: String)
    ensures
        r@ == " \u{F0CB8} "@ + p.name@,
{
    let mut out = owned(" \u{F0CB8} ");
    push_str_chars(&mut out, p.name.as_str());
    out
}

/// A row of the Spotify search results: the track and its main artist.
pub fn spotify_track_row(t: &SpotifyTrack) -> (r: String)
    requires
        t.artists@.len() > 0,
    ensures
        r@ == " \u{F04C7} "@ + t.name@ + " \u{2014} "@ + t.artists@[0]@,
{
    let mut out = owned(" \u{F04C7} ");
    push_str_chars(&mut out, t.name.as_str());
    push_str_chars(&mut out, " \u{2014} ");
    push_str_chars(&mut out, t.artists[0].as_str());
    out
}

/// The label of an equalizer band, by index: 31 Hz to 16 kHz.
pub open spec fn band_label_spec(i: int) -> Seq<char> {
    if i == 0 {
        "31"@
    } else if i == 1 {
        "62"@
    } else if i == 2 {
        "125"@
    } else if i == 3 {
        "250"@
    } else if i == 4 {
        "500"@
    } else if i == 5 {
        "1K"@
    } else if i == 6 {
        "2K"@
    } else if i == 7 {
        "4K"@
    } else if i == 8 {
        "8K"@
    } else {
        "16K"@
    }
}

/// The label of equalizer band `i` under its bar, bracketed when it is the
/// selected band of the focused panel.
pub fn band_label(i: usize, selected: usize, focused: bool) -> (r: String)
    requires
        i < 10,
    ensures
        r@ == if i == selected && focused {
            "["@ + band_label_spec(i as int) + "]"@
        } else {
            band_label_spec(i as int)
        },
{
    let name = if i == 0 {
        "31"
    } else if i == 1 {
        "62"
    } else if i == 2 {
        "125"
    } else if i == 3 {
        "250"
    } else if i == 4 {
        "500"
    } else if i == 5 {
        "1K"
    } else if i == 6 {
        "2K"
    } else if i == 7 {
        "4K"
    } else if i == 8 {
        "8K"
    } else {
        "16K"
    };
    if i == selected && focused {
        let mut out = owned("[");
        push_str_chars(&mut out, name);
        push_str_chars(&mut out, "]");
        out
    } else {
        owned(name)
    }
}

// ─── Lyrics ──────────────────────────────────────────────────────────────────

/// Where the karaoke view scrolls to: the current line kept in the middle of
/// the `height - 2` visible rows, plus the user's own scrolling (both
/// saturating).
pub open spec fn karaoke_scroll_spec(current: usize, height: u16, user: u16) -> u16 {
    let visible: int = if height >= 2 {
        height - 2
    } else {
        0
    };
    let auto: int = if current >= visible / 2 {
        current - visible / 2
    } else {
        0
    };
    let a = (auto as usize) as u16;
    if a + user <= u16::MAX {
        (a + user) as u16
    } else {
        u16::MAX
    }
}

/// The scroll offset of the karaoke view.
pub fn karaoke_scroll(current: usize, height: u16, user: u16) -> (r: u16)
    ensures
        r == karaoke_scroll_spec(current, height, user),
{
    let visible = height.saturating_sub(2) as usize;
    let auto = current.saturating_sub(visible / 2) as u16;
    auto.saturating_add(user)
}

/// A karaoke line: the current one gets a play mark.
pub fn karaoke_line(text: &str, current: bool) -> (r: String)
    ensures
        r@ == if current {
            "\u{25B6} "@ + text@
        } else {
            text@
        },
{
    if current {
        let mut out = owned("\u{25B6} ");
        push_str_chars(&mut out, text);
        out
    } else {
        owned(text)
    }
}

// ─── Status lines ────────────────────────────────────────────────────────────

/// How the Spotify status reads.
#[derive(PartialEq, Eq, Structural, Clone, Copy, Debug)]
pub enum StatusKind {
    Connected,
    Problem,
    Pending,
}

/// Connected when the status says so; a problem when it says something
/// failed or expired; else pending.
pub fn status_kind(status: &str) -> (r: StatusKind)
    ensures
        r == if seq_contains(status@, "Connected"@) {
            StatusKind::Connected
        } else if seq_contains(status@, "failed"@) || seq_contains(status@, "expired"@) {
            StatusKind::Problem
        } else {
            StatusKind::Pending
        },
{
    let s = chars_of(status);
    if contains_str(s.as_slice(), "Connected") {
        StatusKind::Connected
    } else if contains_str(s.as_slice(), "failed") || contains_str(s.as_slice(), "expired") {
        StatusKind::Problem
    } else {
        StatusKind::Pending
    }
}

/// The header's status block: spinner, Spotify connection (and pause), the
/// Spotify status, the number of scanned tracks, the theme and, when there
/// is one, the notification.
pub open spec fn header_spec(
    ticks: u64,
    status: Seq<char>,
    paused: bool,
    scanned: usize,
    theme: ColorTheme,
    notice: Seq<char>,
) -> Seq<char> {
    "\n  "@ + seq![spinner_spec(ticks)] + "  \u{F04C7} Spotify: "@ + (if seq_contains(
        status,
        "Connected"@,
    ) {
        "Connected \u{2713}"@
    } else {
        "Disconnected"@
    }) + (if paused {
        " (Paused)"@
    } else {
        Seq::<char>::empty()
    }) + "\n  \u{25C8} "@ + status + "\n  \u{25C8} Library: "@ + decimal(scanned as nat)
        + " tracks scanned\n   Tick: 10Hz | Theme: "@ + theme.name_spec() + (if notice.len() == 0 {
        Seq::<char>::empty()
    } else {
        "\n   "@ + notice
    })
}

/// The header's status block.
pub fn header_text(
    ticks: u64,
    status: &str,
    paused: bool,
    scanned: usize,
    theme: ColorTheme,
    notice: &str,
) -> (r: String)
    ensures
        r@ == header_spec(ticks, status@, paused, scanned, theme, notice@),
{
    let mut out = owned("\n  ");
    push_char(&mut out, spinner(ticks));
    push_str_chars(&mut out, "  \u{F04C7} Spotify: ");
    let s = chars_of(status);
    if contains_str(s.as_slice(), "Connected") {
        push_str_chars(&mut out, "Connected \u{2713}");
    } else {
        push_str_chars(&mut out, "Disconnected");
    }
    if paused {
        push_str_chars(&mut out, " (Paused)");
    }
    push_str_chars(&mut out, "\n  \u{25C8} ");
    push_str_chars(&mut out, status);
    push_str_chars(&mut out, "\n  \u{25C8} Library: ");
    push_decimal(&mut out, scanned as u64);
    push_str_chars(&mut out, " tracks scanned\n   Tick: 10Hz | Theme: ");
    let name = theme.name();
    push_str_chars(&mut out, name.as_str());
    if !notice.is_empty() {
        push_str_chars(&mut out, "\n   ");
        push_str_chars(&mut out, notice);
    }
    out
}

/// `On` or `Off`.
pub open spec fn on_off(b: bool) -> Seq<char> {
    if b {
        "On"@
    } else {
        "Off"@
    }
}

/// The name of a repeat mode.
pub open spec fn repeat_name(m: RepeatMode) -> Seq<char> {
    match m {
        RepeatMode::Off => "Off"@,
        RepeatMode::One => "One"@,
        RepeatMode::All => "All"@,
    }
}

fn push_on_off(out: &mut String, b: bool)
    ensures
        final(out)@ == old(out)@ + on_off(b),
{
    if b {
        push_str_chars(out, "On");
    } else {
        push_str_chars(out, "Off");
    }
}

/// The controls panel of the footer. In command mode it shows the command
/// being typed; while editing, how to confirm; otherwise the keys and the
/// playback settings (volume percent, BPM and crossfade texts as shown).
pub open spec fn controls_spec(
    mode: InputMode,
    command: Seq<char>,
    vol_pct: u32,
    bpm: Seq<char>,
    xfade: Seq<char>,
    shuffle: bool,
    repeat: RepeatMode,
    queued: usize,
    sleep: Seq<char>,
    eq: bool,
) -> Seq<char> {
    match mode {
        InputMode::Command => ":"@ + command + "_"@,
        InputMode::Editing => " Enter:Confirm  Esc:Cancel"@,
        InputMode::Normal => " q:Quit ?:Help Tab Space:Pause\n ,:<<  .:>>  Vol:"@ + decimal(
            vol_pct as nat,
        ) + "%  "@ + bpm + "  XFade:"@ + xfade + "\n \u{1F500}:"@ + on_off(shuffle)
            + " \u{1F501}:"@ + repeat_name(repeat) + " Q:"@ + decimal(queued as nat) + " \u{1F4A4}:"@
            + sleep + " EQ:"@ + on_off(eq),
    }
}

/// The controls panel of the footer.
pub fn controls_text(
    mode: InputMode,
    command: &str,
    vol_pct: u32,
    bpm: &str,
    xfade: &str,
    shuffle: bool,
    repeat: RepeatMode,
    queued: usize,
    sleep: &str,
    eq: bool,
) -> (r: String)
    ensures
        r@ == controls_spec(
            mode,
            command@,
            vol_pct,
            bpm@,
            xfade@,
            shuffle,
            repeat,
            queued,
            sleep@,
            eq,
        ),
{
    match mode {
        InputMode::Command => {
            let mut out = owned(":");
            push_str_chars(&mut out, command);
            push_str_chars(&mut out, "_");
            out
        },
        InputMode::Editing => owned(" Enter:Confirm  Esc:Cancel"),
        InputMode::Normal => {
            let mut out = owned(" q:Quit ?:Help Tab Space:Pause\n ,:<<  .:>>  Vol:");
            push_decimal(&mut out, vol_pct as u64);
            push_str_chars(&mut out, "%  ");
            push_str_chars(&mut out, bpm);
            push_str_chars(&mut out, "  XFade:");
            push_str_chars(&mut out, xfade);
            push_str_chars(&mut out, "\n \u{1F500}:");
            push_on_off(&mut out, shuffle);
            push_str_chars(&mut out, " \u{1F501}:");
            match repeat {
                RepeatMode::Off => push_str_chars(&mut out, "Off"),
                RepeatMode::One => push_str_chars(&mut out, "One"),
                RepeatMode::All => push_str_chars(&mut out, "All"),
            }
            push_str_chars(&mut out, " Q:");
            push_decimal(&mut out, queued as u64);
            push_str_chars(&mut out, " \u{1F4A4}:");
            push_str_chars(&mut out, sleep);
            push_str_chars(&mut out, " EQ:");
            push_on_off(&mut out, eq);
            out
        },
    }
}

/// The BPM text with the detected vibe after it in brackets, if any.
pub fn bpm_with_vibe(bpm: &str, vibe: &Option<String>) -> (r: String)
    ensures
        r@ == match vibe {
            Some(v) => bpm@ + " ["@ + v@ + "]"@,
            None => bpm@,
        },
{
    let mut out = owned(bpm);
    match vibe {
        Some(v) => {
            push_str_chars(&mut out, " [");
            push_str_chars(&mut out, v.as_str());
            push_str_chars(&mut out, "]");
        },
        None => {},
    }
    out
}

/// The playback icon: paused, crossfading, or playing (`full` selects the
/// play triangle of the Now Playing view over the footer's icon).
pub fn play_icon(paused: bool, crossfading: bool, full: bool) -> (r: &'static str)
    ensures
        r@ == if paused {
            "\u{23F8}"@
        } else if crossfading {
            "\u{21CC}"@
        } else if full {
            "\u{25B6}"@
        } else {
            "\u{F040A}"@
        },
{
    if paused {
        "\u{23F8}"
    } else if crossfading {
        "\u{21CC}"
    } else if full {
        "\u{25B6}"
    } else {
        "\u{F040A}"
    }
}

/// The footer's track panel: icon and title, then the artist.
pub fn track_panel(icon: &str, title: &str, artist: &str) -> (r: String)
    ensures
        r@ == icon@ + " "@ + title@ + "\n\u{F0803} "@ + artist@,
{
    let mut out = owned(icon);
    push_str_chars(&mut out, " ");
    push_str_chars(&mut out, title);
    push_str_chars(&mut out, "\n\u{F0803} ");
    push_str_chars(&mut out, artist);
    out
}

} // verus!
