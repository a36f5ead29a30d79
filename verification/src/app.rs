//! The player's state and the decisions it takes on key presses, ticks and
//! finished tracks. Audio output, network and disk stay with the caller, which
//! performs the actions these methods hand back.
use vstd::prelude::*;
use crate::library::Library;
use crate::playlist::Playlist;
use crate::text::{chars_of, contains_str, lowercased, push_char, push_str_chars, seq_contains, to_lowercase};

pub mod classic;
pub mod playback;

verus! {

// ─── Enums ──────────────────────────────────────────────────────────────────

/// Which list of the Spotify tab has the focus.
#[derive(PartialEq, Eq, Structural, Clone, Copy, Debug)]
pub enum SpotifyFocus {
    Playlists,
    Search,
}

/// What key presses go to.
#[derive(PartialEq, Eq, Structural, Clone, Copy, Debug)]
pub enum InputMode {
    Normal,
    Editing,
    Command,
}

/// The visualizer drawing style.
#[derive(PartialEq, Eq, Structural, Clone, Copy, Debug)]
pub enum VisualizerMode {
    Bars,
    Cyberfield,
    Matrix,
    Plasma,
    Oscilloscope,
}

/// What happens when a track ends.
#[derive(PartialEq, Eq, Structural, Clone, Copy, Debug)]
pub enum RepeatMode {
    Off,
    One,
    All,
}

/// The colour scheme of the interface.
#[derive(PartialEq, Eq, Structural, Clone, Copy, Debug)]
pub enum ColorTheme {
    Neon,
    Amber,
    Mono,
    Dracula,
    Matrix,
}

/// A terminal colour: a named one or an RGB triple.
#[derive(PartialEq, Eq, Structural, Clone, Copy, Debug)]
pub enum Color {
    Cyan,
    Yellow,
    White,
    Gray,
    Green,
    Rgb(u8, u8, u8),
}

impl ColorTheme {
    /// The accent colour of the theme.
    pub fn primary(self) -> (r: Color)
        ensures
            r == (match self {
                ColorTheme::Neon => Color::Cyan,
                ColorTheme::Amber => Color::Rgb(255, 176, 0),
                ColorTheme::Mono => Color::White,
                ColorTheme::Dracula => Color::Rgb(189, 147, 249),
                ColorTheme::Matrix => Color::Rgb(0, 255, 70),
            }),
    {
        match self {
            ColorTheme::Neon => Color::Cyan,
            ColorTheme::Amber => Color::Rgb(255, 176, 0),
            ColorTheme::Mono => Color::White,
            ColorTheme::Dracula => Color::Rgb(189, 147, 249),
            ColorTheme::Matrix => Color::Rgb(0, 255, 70),
        }
    }

    /// The second colour of the theme.
    pub fn secondary(self) -> (r: Color)
        ensures
            r == (match self {
                ColorTheme::Neon => Color::Yellow,
                ColorTheme::Amber => Color::Rgb(255, 220, 100),
                ColorTheme::Mono => Color::Gray,
                ColorTheme::Dracula => Color::Rgb(255, 121, 198),
                ColorTheme::Matrix => Color::Green,
            }),
    {
        match self {
            ColorTheme::Neon => Color::Yellow,
            ColorTheme::Amber => Color::Rgb(255, 220, 100),
            ColorTheme::Mono => Color::Gray,
            ColorTheme::Dracula => Color::Rgb(255, 121, 198),
            ColorTheme::Matrix => Color::Green,
        }
    }

    /// The background colour of the theme.
    pub fn bg(self) -> (r: Color)
        ensures
            r == (match self {
                ColorTheme::Dracula => Color::Rgb(40, 42, 54),
                _ => Color::Rgb(10, 10, 35),
            }),
    {
        match self {
            ColorTheme::Dracula => Color::Rgb(40, 42, 54),
            _ => Color::Rgb(10, 10, 35),
        }
    }

    /// The theme that follows in the cycle Neon, Amber, Mono, Dracula, Matrix.
    pub open spec fn next_spec(self) -> ColorTheme {
        match self {
            ColorTheme::Neon => ColorTheme::Amber,
            ColorTheme::Amber => ColorTheme::Mono,
            ColorTheme::Mono => ColorTheme::Dracula,
            ColorTheme::Dracula => ColorTheme::Matrix,
            ColorTheme::Matrix => ColorTheme::Neon,
        }
    }

    /// The next theme in the cycle.
    pub fn cycle(self) -> (r: ColorTheme)
        ensures
            r == self.next_spec(),
    {
        match self {
            ColorTheme::Neon => ColorTheme::Amber,
            ColorTheme::Amber => ColorTheme::Mono,
            ColorTheme::Mono => ColorTheme::Dracula,
            ColorTheme::Dracula => ColorTheme::Matrix,
            ColorTheme::Matrix => ColorTheme::Neon,
        }
    }

    /// The display name of a theme.
    pub open spec fn name_spec(self) -> Seq<char> {
        match self {
            ColorTheme::Neon => seq!['N', 'e', 'o', 'n'],
            ColorTheme::Amber => seq!['A', 'm', 'b', 'e', 'r'],
            ColorTheme::Mono => seq!['M', 'o', 'n', 'o'],
            ColorTheme::Dracula => seq!['D', 'r', 'a', 'c', 'u', 'l', 'a'],
            ColorTheme::Matrix => seq!['M', 'a', 't', 'r', 'i', 'x'],
        }
    }

    /// The display name of the theme.
    pub fn name(self) -> (r: String)
        ensures
            r@ == self.name_spec(),
    {
        let cs: &[char] = match self {
            ColorTheme::Neon => &['N', 'e', 'o', 'n'],
            ColorTheme::Amber => &['A', 'm', 'b', 'e', 'r'],
            ColorTheme::Mono => &['M', 'o', 'n', 'o'],
            ColorTheme::Dracula => &['D', 'r', 'a', 'c', 'u', 'l', 'a'],
            ColorTheme::Matrix => &['M', 'a', 't', 'r', 'i', 'x'],
        };
        proof {
            assert(['N', 'e', 'o', 'n']@ =~= seq!['N', 'e', 'o', 'n']);
            assert(['A', 'm', 'b', 'e', 'r']@ =~= seq!['A', 'm', 'b', 'e', 'r']);
            assert(['M', 'o', 'n', 'o']@ =~= seq!['M', 'o', 'n', 'o']);
            assert(['D', 'r', 'a', 'c', 'u', 'l', 'a']@ =~= seq!['D', 'r', 'a', 'c', 'u', 'l', 'a']);
            assert(['M', 'a', 't', 'r', 'i', 'x']@ =~= seq!['M', 'a', 't', 'r', 'i', 'x']);
        }
        crate::text::string_of(cs)
    }

    /// The theme whose lowercase name is `l`, if any.
    pub open spec fn from_lower_spec(l: Seq<char>) -> Option<ColorTheme> {
        if l == seq!['n', 'e', 'o', 'n'] {
            Some(ColorTheme::Neon)
        } else if l == seq!['a', 'm', 'b', 'e', 'r'] {
            Some(ColorTheme::Amber)
        } else if l == seq!['m', 'o', 'n', 'o'] {
            Some(ColorTheme::Mono)
        } else if l == seq!['d', 'r', 'a', 'c', 'u', 'l', 'a'] {
            Some(ColorTheme::Dracula)
        } else if l == seq!['m', 'a', 't', 'r', 'i', 'x'] {
            Some(ColorTheme::Matrix)
        } else {
            None
        }
    }

    /// The theme named `s`, compared case-insensitively (after lowercasing).
    pub fn from_name(s: &str) -> (r: Option<ColorTheme>)
        ensures
            r == Self::from_lower_spec(lowercased(s@)),
    {
        let low = to_lowercase(s);
        let l = chars_of(low.as_str());
        let ls = l.as_slice();
        proof {
            assert(['n', 'e', 'o', 'n']@ =~= seq!['n', 'e', 'o', 'n']);
            assert(['a', 'm', 'b', 'e', 'r']@ =~= seq!['a', 'm', 'b', 'e', 'r']);
            assert(['m', 'o', 'n', 'o']@ =~= seq!['m', 'o', 'n', 'o']);
            assert(['d', 'r', 'a', 'c', 'u', 'l', 'a']@ =~= seq!['d', 'r', 'a', 'c', 'u', 'l', 'a']);
            assert(['m', 'a', 't', 'r', 'i', 'x']@ =~= seq!['m', 'a', 't', 'r', 'i', 'x']);
        }
        if crate::text::chars_eq(ls, &['n', 'e', 'o', 'n']) {
            Some(ColorTheme::Neon)
        } else if crate::text::chars_eq(ls, &['a', 'm', 'b', 'e', 'r']) {
            Some(ColorTheme::Amber)
        } else if crate::text::chars_eq(ls, &['m', 'o', 'n', 'o']) {
            Some(ColorTheme::Mono)
        } else if crate::text::chars_eq(ls, &['d', 'r', 'a', 'c', 'u', 'l', 'a']) {
            Some(ColorTheme::Dracula)
        } else if crate::text::chars_eq(ls, &['m', 'a', 't', 'r', 'i', 'x']) {
            Some(ColorTheme::Matrix)
        } else {
            None
        }
    }
}

/// Cycling the theme five times comes back to the start.
pub proof fn lemma_theme_cycle_period(t: ColorTheme)
    ensures
        t.next_spec().next_spec().next_spec().next_spec().next_spec() == t,
{
}

/// Looking a theme up by its own display name gives the theme back.
pub proof fn lemma_theme_name_roundtrip(t: ColorTheme)
    ensures
        ColorTheme::from_lower_spec(t.name_spec().map_values(|c: char| crate::text::ascii_lower(c)))
            == Some(t),
{
    let n = t.name_spec();
    let l = n.map_values(|c: char| crate::text::ascii_lower(c));
    match t {
        ColorTheme::Neon => assert(l =~= seq!['n', 'e', 'o', 'n']),
        ColorTheme::Amber => assert(l =~= seq!['a', 'm', 'b', 'e', 'r']),
        ColorTheme::Mono => assert(l =~= seq!['m', 'o', 'n', 'o']),
        ColorTheme::Dracula => assert(l =~= seq!['d', 'r', 'a', 'c', 'u', 'l', 'a']),
        ColorTheme::Matrix => assert(l =~= seq!['m', 'a', 't', 'r', 'i', 'x']),
    }
}

/// Display names are ASCII, so lowercasing them maps `A`-`Z` to `a`-`z`.
pub proof fn lemma_theme_name_ascii(t: ColorTheme)
    ensures
        crate::text::all_ascii(t.name_spec()),
{
}

// ─── Mood ───────────────────────────────────────────────────────────────────

/// The mood colour for a lowercased "track artist" text: the first matching
/// keyword group wins.
pub open spec fn mood_for(l: Seq<char>) -> Option<Color> {
    if seq_contains(l, "chill"@) || seq_contains(l, "lofi"@) || seq_contains(l, "ambient"@) {
        Some(Color::Rgb(0, 255, 255))
    } else if seq_contains(l, "synthwave"@) || seq_contains(l, "retro"@) || seq_contains(
        l,
        "80s"@,
    ) {
        Some(Color::Rgb(255, 0, 127))
    } else if seq_contains(l, "rock"@) || seq_contains(l, "metal"@) || seq_contains(l, "punk"@) {
        Some(Color::Rgb(255, 30, 30))
    } else if seq_contains(l, "jazz"@) || seq_contains(l, "soul"@) || seq_contains(l, "blues"@) {
        Some(Color::Rgb(255, 190, 0))
    } else if seq_contains(l, "pop"@) || seq_contains(l, "dance"@) || seq_contains(l, "disco"@) {
        Some(Color::Rgb(50, 255, 50))
    } else if seq_contains(l, "dark"@) || seq_contains(l, "techno"@) {
        Some(Color::Rgb(60, 0, 255))
    } else {
        None
    }
}

/// The mood colour for a track name and artist.
pub open spec fn mood_of(track: Seq<char>, artist: Seq<char>) -> Option<Color> {
    mood_for(lowercased(track + seq![' '] + artist))
}

/// The mood colour for a track name and artist.
pub fn mood_color(track: &str, artist: &str) -> (r: Option<Color>)
    ensures
        r == mood_of(track@, artist@),
{
    let mut combined = String::new();
    push_str_chars(&mut combined, track);
    push_char(&mut combined, ' ');
    push_str_chars(&mut combined, artist);
    assert(combined@ =~= track@ + seq![' '] + artist@);
    let low = to_lowercase(combined.as_str());
    let l = chars_of(low.as_str());
    let s = l.as_slice();
    if contains_str(s, "chill") || contains_str(s, "lofi") || contains_str(s, "ambient") {
        Some(Color::Rgb(0, 255, 255))
    } else if contains_str(s, "synthwave") || contains_str(s, "retro") || contains_str(s, "80s") {
        Some(Color::Rgb(255, 0, 127))
    } else if contains_str(s, "rock") || contains_str(s, "metal") || contains_str(s, "punk") {
        Some(Color::Rgb(255, 30, 30))
    } else if contains_str(s, "jazz") || contains_str(s, "soul") || contains_str(s, "blues") {
        Some(Color::Rgb(255, 190, 0))
    } else if contains_str(s, "pop") || contains_str(s, "dance") || contains_str(s, "disco") {
        Some(Color::Rgb(50, 255, 50))
    } else if contains_str(s, "dark") || contains_str(s, "techno") {
        Some(Color::Rgb(60, 0, 255))
    } else {
        None
    }
}

// ─── The state ──────────────────────────────────────────────────────────────

/// Number of tabs: Library, Playlists, Spotify, SoundCloud, Visualizer, Now Playing.
pub const TAB_COUNT: usize = 6;

/// Number of equalizer bands.
pub const BAND_COUNT: usize = 10;

/// Sleep timer presets, in seconds (the first one is "off").
pub open spec fn sleep_preset_secs(i: int) -> u64 {
    if i == 1 {
        900
    } else if i == 2 {
        1800
    } else if i == 3 {
        2700
    } else if i == 4 {
        3600
    } else {
        0
    }
}

/// Everything the player decides on, as plain values.
#[derive(Debug)]
pub struct App {
    pub library: Library,
    pub playlists: Vec<Playlist>,
    pub selected_tab: usize,
    pub selected_track_index: usize,
    pub selected_playlist_index: usize,
    pub viewing_playlist_index: Option<usize>,
    pub selected_playlist_track_index: usize,
    pub spotify_focus: SpotifyFocus,
    pub spotify_playlist_index: usize,
    pub spotify_search_index: usize,
    pub input: String,
    pub input_mode: InputMode,
    pub command_buffer: String,
    pub lyrics_scroll: u16,
    pub karaoke_active: bool,
    pub current_track_name: String,
    pub current_artist: String,
    pub current_vibe: Option<String>,
    /// Playback position in milliseconds.
    pub playback_pos_ms: u64,
    /// Length of the current track in milliseconds.
    pub total_duration_ms: u64,
    pub mood_color: Option<Color>,
    pub show_help: bool,
    pub vis_mode: VisualizerMode,
    pub cursor_pos: (u16, u16),
    pub ticks: u64,
    pub playing_track_index: Option<usize>,
    pub playing_playlist_index: Option<usize>,
    pub shuffle: bool,
    pub repeat: RepeatMode,
    /// Tracks queued to play next, first one first.
    pub queue: Vec<String>,
    pub color_theme: ColorTheme,
    pub sleep_preset_idx: usize,
    pub library_search: String,
    pub library_search_active: bool,
    pub current_cover_art: Option<Vec<u8>>,
    pub track_scrobbled: bool,
    pub show_eq: bool,
    pub eq_focused: bool,
    pub eq_selected_band: usize,
    pub crossfade_active: bool,
    pub pending_xfade_track: Option<String>,
    pub pending_xfade_duration_ms: u64,
    pub pending_xfade_track_idx: Option<usize>,
    pub pending_xfade_pl_idx: Option<usize>,
    pub zen_mode: bool,
    pub glitch_active: bool,
    pub glitch_ticks: u32,
    pub soundcloud_search_index: usize,
    pub rng_state: u64,
}

/// The selection after moving down a list of `n` entries (wrapping around);
/// unchanged for an empty list.
pub open spec fn next_index(i: usize, n: int) -> usize {
    if n > 0 {
        ((i + 1) % n) as usize
    } else {
        i
    }
}

/// The selection after moving up a list of `n` entries (wrapping around);
/// unchanged for an empty list.
pub open spec fn prev_index(i: usize, n: int) -> usize {
    if n > 0 {
        if i > 0 {
            (i - 1) as usize
        } else {
            (n - 1) as usize
        }
    } else {
        i
    }
}

fn step_next(i: usize, n: usize) -> (r: usize)
    ensures
        r == next_index(i, n as int),
{
    if n == 0 {
        return i;
    }
    proof {
        vstd::arithmetic::div_mod::lemma_add_mod_noop(i as int, 1, n as int);
        vstd::arithmetic::div_mod::lemma_mod_bound(i as int, n as int);
        vstd::arithmetic::div_mod::lemma_mod_bound(i as int + 1, n as int);
        if n > 1 {
            vstd::arithmetic::div_mod::lemma_small_mod(1, n as nat);
        } else {
            vstd::arithmetic::div_mod::lemma_mod_self_0(1);
            assert((i as int + 1) % 1 == 0) by (nonlinear_arith);
        }
    }
    let m = i % n;
    if m + 1 == n {
        proof {
            vstd::arithmetic::div_mod::lemma_mod_self_0(n as int);
        }
        0
    } else {
        proof {
            vstd::arithmetic::div_mod::lemma_small_mod((m + 1) as nat, n as nat);
        }
        m + 1
    }
}

fn step_prev(i: usize, n: usize) -> (r: usize)
    ensures
        r == prev_index(i, n as int),
{
    if n == 0 {
        i
    } else if i > 0 {
        i - 1
    } else {
        n - 1
    }
}

/// The text without its last character (`String::pop`); empty text stays
/// empty.
fn without_last(s: &String) -> (r: String)
    ensures
        r@ == if s@.len() > 0 {
            s@.drop_last()
        } else {
            s@
        },
{
    let cs = chars_of(s.as_str());
    let n = cs.len();
    if n > 0 {
        let kept = crate::text::slice_range(cs.as_slice(), 0, n - 1);
        assert(kept@ =~= s@.drop_last());
        crate::text::string_of(kept.as_slice())
    } else {
        s.clone()
    }
}

impl App {
    /// The library is well formed and the sleep preset is one of the five.
    pub open spec fn wf(&self) -> bool {
        &&& self.library.wf()
        &&& self.sleep_preset_idx < 5
    }

    /// The player before anything was loaded or played.
    pub fn new() -> (r: App)
        ensures
            r.wf(),
            r.library.tracks@.len() == 0,
            r.playlists@.len() == 0,
            r.selected_tab == 0,
            r.selected_track_index == 0,
            r.viewing_playlist_index is None,
            r.input_mode == InputMode::Normal,
            r.karaoke_active,
            r.current_track_name@ == "No track playing"@,
            r.current_artist@ == "-"@,
            r.playing_track_index is None,
            r.playing_playlist_index is None,
            !r.shuffle,
            r.repeat == RepeatMode::Off,
            r.queue@.len() == 0,
            r.color_theme == ColorTheme::Neon,
            r.sleep_preset_idx == 0,
            r.library_search@.len() == 0,
            !r.crossfade_active,
            r.vis_mode == VisualizerMode::Bars,
            r.cursor_pos == (10u16, 10u16),
            r.rng_state == 12345678901234567,
            r.library.metadata@.len() == 0,
            r.selected_playlist_index == 0,
            r.selected_playlist_track_index == 0,
            r.spotify_focus == SpotifyFocus::Playlists,
            r.spotify_playlist_index == 0,
            r.spotify_search_index == 0,
            r.input@.len() == 0,
            r.command_buffer@.len() == 0,
            r.lyrics_scroll == 0,
            r.current_vibe is None,
            r.playback_pos_ms == 0,
            r.total_duration_ms == 0,
            r.mood_color is None,
            !r.show_help,
            r.ticks == 0,
            !r.library_search_active,
            r.current_cover_art is None,
            !r.track_scrobbled,
            !r.show_eq,
            !r.eq_focused,
            r.eq_selected_band == 0,
            r.pending_xfade_track is None,
            r.pending_xfade_duration_ms == 0,
            r.pending_xfade_track_idx is None,
            r.pending_xfade_pl_idx is None,
            !r.zen_mode,
            !r.glitch_active,
            r.glitch_ticks == 0,
            r.soundcloud_search_index == 0,
    {
        App {
            library: Library::new(),
            playlists: Vec::new(),
            selected_tab: 0,
            selected_track_index: 0,
            selected_playlist_index: 0,
            viewing_playlist_index: None,
            selected_playlist_track_index: 0,
            spotify_focus: SpotifyFocus::Playlists,
            spotify_playlist_index: 0,
            spotify_search_index: 0,
            input: String::new(),
            input_mode: InputMode::Normal,
            command_buffer: String::new(),
            lyrics_scroll: 0,
            karaoke_active: true,
            current_track_name: "No track playing".to_owned(),
            current_artist: "-".to_owned(),
            current_vibe: None,
            playback_pos_ms: 0,
            total_duration_ms: 0,
            mood_color: None,
            show_help: false,
            vis_mode: VisualizerMode::Bars,
            cursor_pos: (10, 10),
            ticks: 0,
            playing_track_index: None,
            playing_playlist_index: None,
            shuffle: false,
            repeat: RepeatMode::Off,
            queue: Vec::new(),
            color_theme: ColorTheme::Neon,
            sleep_preset_idx: 0,
            library_search: String::new(),
            library_search_active: false,
            current_cover_art: None,
            track_scrobbled: false,
            show_eq: false,
            eq_focused: false,
            eq_selected_band: 0,
            crossfade_active: false,
            pending_xfade_track: None,
            pending_xfade_duration_ms: 0,
            pending_xfade_track_idx: None,
            pending_xfade_pl_idx: None,
            zen_mode: false,
            glitch_active: false,
            glitch_ticks: 0,
            soundcloud_search_index: 0,
            rng_state: 12345678901234567,
        }
    }

    /// The positions of the library tracks shown for the current search.
    pub open spec fn filtered_spec(&self) -> Seq<usize> {
        self.library.filtered(self.library_search@)
    }

    /// The library tracks shown for the current search, as (position, path).
    pub fn filtered_library(&self) -> (r: Vec<(usize, String)>)
        requires
            self.wf(),
        ensures
            r@.len() == self.filtered_spec().len(),
            forall|k: int|
                0 <= k < r@.len() ==> r@[k].0 == self.filtered_spec()[k] && (r@[k].0 as int)
                    < self.library.tracks@.len() && r@[k].1 == self.library.tracks@[r@[k].0 as int],
    {
        let idx = self.library.filtered_indices(self.library_search.as_str());
        let ntracks = self.library.tracks.len();
        proof {
            crate::library::lemma_filtered_ordered(&self.library, self.library_search@);
        }
        let mut out: Vec<(usize, String)> = Vec::new();
        let mut k: usize = 0;
        while k < idx.len()
            invariant
                idx@ == self.filtered_spec(),
                forall|a: int| 0 <= a < idx@.len() ==> (idx@[a] as int) < self.library.tracks@.len(),
                k <= idx@.len(),
                out@.len() == k,
                forall|a: int|
                    0 <= a < k ==> out@[a].0 == idx@[a] && out@[a].1
                        == self.library.tracks@[idx@[a] as int],
            decreases idx@.len() - k,
        {
            let i = idx[k];
            out.push((i, self.library.tracks[i].clone()));
            k += 1;
        }
        out
    }

    // ─── Tabs and lists ─────────────────────────────────────────────────────

    /// Moves to the next tab (wrapping after the last).
    pub fn switch_tab(&mut self)
        ensures
            *final(self) == (App {
                selected_tab: ((old(self).selected_tab as int + 1) % 6) as usize,
                ..*old(self)
            }),
    {
        self.selected_tab = step_next(self.selected_tab, TAB_COUNT);
    }

    /// Moves to the previous tab (wrapping before the first).
    pub fn switch_tab_back(&mut self)
        ensures
            *final(self) == (App {
                selected_tab: ((old(self).selected_tab as int + 5) % 6) as usize,
                ..*old(self)
            }),
    {
        let m = self.selected_tab % TAB_COUNT;
        proof {
            let t = old(self).selected_tab as int;
            assert((t + 5) % 6 == (t % 6 + 5) % 6) by (nonlinear_arith);
        }
        self.selected_tab = (m + 5) % TAB_COUNT;
    }

    /// Scrolls the lyrics three lines up (not past the top).
    pub fn scroll_lyrics_up(&mut self)
        ensures
            *final(self) == (App {
                lyrics_scroll: if old(self).lyrics_scroll >= 3 {
                    (old(self).lyrics_scroll - 3) as u16
                } else {
                    0
                },
                ..*old(self)
            }),
    {
        self.lyrics_scroll = self.lyrics_scroll.saturating_sub(3);
    }

    /// Scrolls the lyrics three lines down (saturating).
    pub fn scroll_lyrics_down(&mut self)
        ensures
            *final(self) == (App {
                lyrics_scroll: if old(self).lyrics_scroll <= u16::MAX - 3 {
                    (old(self).lyrics_scroll + 3) as u16
                } else {
                    u16::MAX
                },
                ..*old(self)
            }),
    {
        self.lyrics_scroll = self.lyrics_scroll.saturating_add(3);
    }

    /// The visualizer style after `m` in the cycle.
    pub open spec fn next_vis(m: VisualizerMode) -> VisualizerMode {
        match m {
            VisualizerMode::Bars => VisualizerMode::Cyberfield,
            VisualizerMode::Cyberfield => VisualizerMode::Matrix,
            VisualizerMode::Matrix => VisualizerMode::Plasma,
            VisualizerMode::Plasma => VisualizerMode::Oscilloscope,
            VisualizerMode::Oscilloscope => VisualizerMode::Bars,
        }
    }

    /// Switches to the next visualizer style.
    pub fn toggle_vis_mode(&mut self)
        ensures
            *final(self) == (App { vis_mode: Self::next_vis(old(self).vis_mode), ..*old(self) }),
    {
        self.vis_mode = match self.vis_mode {
            VisualizerMode::Bars => VisualizerMode::Cyberfield,
            VisualizerMode::Cyberfield => VisualizerMode::Matrix,
            VisualizerMode::Matrix => VisualizerMode::Plasma,
            VisualizerMode::Plasma => VisualizerMode::Oscilloscope,
            VisualizerMode::Oscilloscope => VisualizerMode::Bars,
        };
    }

    /// Switches the focus between the two Spotify lists, on the Spotify tab only.
    pub fn switch_spotify_focus(&mut self)
        ensures
            *final(self) == (if old(self).selected_tab == 2 {
                App {
                    spotify_focus: match old(self).spotify_focus {
                        SpotifyFocus::Playlists => SpotifyFocus::Search,
                        SpotifyFocus::Search => SpotifyFocus::Playlists,
                    },
                    ..*old(self)
                }
            } else {
                *old(self)
            }),
    {
        if self.selected_tab == 2 {
            self.spotify_focus = match self.spotify_focus {
                SpotifyFocus::Playlists => SpotifyFocus::Search,
                SpotifyFocus::Search => SpotifyFocus::Playlists,
            };
        }
    }

    /// The player after the selection of the current tab's list moved down one
    /// entry (wrapping around), given the lengths of the lists fetched in the
    /// background.
    pub open spec fn moved_down(&self, spotify_playlists: usize, spotify_results: usize, soundcloud_results: usize) -> App {
        (match self.selected_tab {
        0 => App {
            selected_track_index: next_index(
                self.selected_track_index,
                self.filtered_spec().len() as int,
            ),
            ..*self
        },
        1 => match self.viewing_playlist_index {
            Some(idx) => if idx < self.playlists@.len() {
                App {
                    selected_playlist_track_index: next_index(
                        self.selected_playlist_track_index,
                        self.playlists@[idx as int].tracks@.len() as int,
                    ),
                    ..*self
                }
            } else {
                *self
            },
            None => App {
                selected_playlist_index: next_index(
                    self.selected_playlist_index,
                    self.playlists@.len() as int,
                ),
                ..*self
            },
        },
        2 => if self.spotify_focus == SpotifyFocus::Playlists {
            App {
                spotify_playlist_index: next_index(
                    self.spotify_playlist_index,
                    spotify_playlists as int,
                ),
                ..*self
            }
        } else {
            App {
                spotify_search_index: next_index(
                    self.spotify_search_index,
                    spotify_results as int,
                ),
                ..*self
            }
        },
        3 => App {
            soundcloud_search_index: next_index(
                self.soundcloud_search_index,
                soundcloud_results as int,
            ),
            ..*self
        },
        _ => *self,
    })
    }

    /// Moves the selection of the current tab's list down one entry, wrapping
    /// around. `spotify_playlists`, `spotify_results` and `soundcloud_results`
    /// are the lengths of the lists that are fetched in the background.
    pub fn next_track(
        &mut self,
        spotify_playlists: usize,
        spotify_results: usize,
        soundcloud_results: usize,
    )
        requires
            old(self).wf(),
        ensures
            *final(self) == old(self).moved_down(spotify_playlists, spotify_results, soundcloud_results),
    {
        match self.selected_tab {
            0 => {
                let n = self.library.filtered_indices(self.library_search.as_str()).len();
                self.selected_track_index = step_next(self.selected_track_index, n);
            },
            1 => {
                match self.viewing_playlist_index {
                    Some(idx) => {
                        if idx < self.playlists.len() {
                            let n = self.playlists[idx].tracks.len();
                            self.selected_playlist_track_index = step_next(
                                self.selected_playlist_track_index,
                                n,
                            );
                        }
                    },
                    None => {
                        let n = self.playlists.len();
                        self.selected_playlist_index = step_next(self.selected_playlist_index, n);
                    },
                }
            },
            2 => {
                if self.spotify_focus == SpotifyFocus::Playlists {
                    self.spotify_playlist_index = step_next(
                        self.spotify_playlist_index,
                        spotify_playlists,
                    );
                } else {
                    self.spotify_search_index = step_next(self.spotify_search_index, spotify_results);
                }
            },
            3 => {
                self.soundcloud_search_index = step_next(
                    self.soundcloud_search_index,
                    soundcloud_results,
                );
            },
            _ => {},
        }
    }

    /// The player after the selection of the current tab's list moved up one
    /// entry (wrapping around), given the lengths of the lists fetched in the
    /// background.
    pub open spec fn moved_up(&self, spotify_playlists: usize, spotify_results: usize, soundcloud_results: usize) -> App {
        (match self.selected_tab {
        0 => App {
            selected_track_index: prev_index(
                self.selected_track_index,
                self.filtered_spec().len() as int,
            ),
            ..*self
        },
        1 => match self.viewing_playlist_index {
            Some(idx) => if idx < self.playlists@.len() {
                App {
                    selected_playlist_track_index: prev_index(
                        self.selected_playlist_track_index,
                        self.playlists@[idx as int].tracks@.len() as int,
                    ),
                    ..*self
                }
            } else {
                *self
            },
            None => App {
                selected_playlist_index: prev_index(
                    self.selected_playlist_index,
                    self.playlists@.len() as int,
                ),
                ..*self
            },
        },
        2 => if self.spotify_focus == SpotifyFocus::Playlists {
            App {
                spotify_playlist_index: prev_index(
                    self.spotify_playlist_index,
                    spotify_playlists as int,
                ),
                ..*self
            }
        } else {
            App {
                spotify_search_index: prev_index(
                    self.spotify_search_index,
                    spotify_results as int,
                ),
                ..*self
            }
        },
        3 => App {
            soundcloud_search_index: prev_index(
                self.soundcloud_search_index,
                soundcloud_results as int,
            ),
            ..*self
        },
        _ => *self,
    })
    }

    /// Moves the selection of the current tab's list up one entry, wrapping
    /// around; the list lengths are as for `next_track`.
    pub fn previous_track(
        &mut self,
        spotify_playlists: usize,
        spotify_results: usize,
        soundcloud_results: usize,
    )
        requires
            old(self).wf(),
        ensures
            *final(self) == old(self).moved_up(spotify_playlists, spotify_results, soundcloud_results),
    {
        match self.selected_tab {
            0 => {
                let n = self.library.filtered_indices(self.library_search.as_str()).len();
                self.selected_track_index = step_prev(self.selected_track_index, n);
            },
            1 => {
                match self.viewing_playlist_index {
                    Some(idx) => {
                        if idx < self.playlists.len() {
                            let n = self.playlists[idx].tracks.len();
                            self.selected_playlist_track_index = step_prev(
                                self.selected_playlist_track_index,
                                n,
                            );
                        }
                    },
                    None => {
                        let n = self.playlists.len();
                        self.selected_playlist_index = step_prev(self.selected_playlist_index, n);
                    },
                }
            },
            2 => {
                if self.spotify_focus == SpotifyFocus::Playlists {
                    self.spotify_playlist_index = step_prev(
                        self.spotify_playlist_index,
                        spotify_playlists,
                    );
                } else {
                    self.spotify_search_index = step_prev(self.spotify_search_index, spotify_results);
                }
            },
            3 => {
                self.soundcloud_search_index = step_prev(
                    self.soundcloud_search_index,
                    soundcloud_results,
                );
            },
            _ => {},
        }
    }
}

/// The value of a `u16` read as an `i16` (two's complement).
pub open spec fn as_i16(u: u16) -> int {
    if u < 32768 {
        u as int
    } else {
        u - 65536
    }
}

/// A cursor coordinate after moving by `d`: the `i16` sum, saturated, then
/// kept between 0 and `limit`.
pub open spec fn cursor_step(u: u16, d: i16, limit: int) -> u16 {
    let s = as_i16(u) + d;
    let s = if s > i16::MAX {
        i16::MAX as int
    } else if s < i16::MIN {
        i16::MIN as int
    } else {
        s
    };
    let s = if s < 0 {
        0
    } else {
        s
    };
    (if s > limit {
        limit
    } else {
        s
    }) as u16
}

fn cursor_move(u: u16, d: i16, limit: u16) -> (r: u16)
    ensures
        r == cursor_step(u, d, limit as int),
{
    let x = u as i16;
    assert(u < 32768 ==> (u as i16) as int == u as int) by (bit_vector);
    assert(u >= 32768 ==> (u as i16) as int == u as int - 65536) by (bit_vector);
    let wide = x as i32 + d as i32;
    let s: i32 = if wide > 32767 {
        32767
    } else if wide < -32768 {
        -32768
    } else {
        wide
    };
    let s = if s < 0 {
        0u16
    } else {
        s as u16
    };
    if s > limit {
        limit
    } else {
        s
    }
}

/// The label of a sleep timer preset.
pub open spec fn sleep_label_spec(i: int) -> Seq<char> {
    if i == 1 {
        "15m"@
    } else if i == 2 {
        "30m"@
    } else if i == 3 {
        "45m"@
    } else if i == 4 {
        "60m"@
    } else {
        "Off"@
    }
}

/// The state of the random generator after one draw.
pub open spec fn lcg_next(s: u64) -> u64 {
    vstd::wrapping::u64_specs::wrapping_add(
        vstd::wrapping::u64_specs::wrapping_mul(s, 6364136223846793005),
        1442695040888963407,
    )
}

/// What a media key (play, pause, toggle, next, previous) asks for.
#[derive(PartialEq, Eq, Structural, Clone, Copy, Debug)]
pub enum MediaCommand {
    TogglePause,
    Next,
    Previous,
    Ignore,
}

/// The command for a media-key event code (0 play, 1 pause, 2 toggle, 3 next,
/// 4 previous).
pub fn media_command(code: i8) -> (r: MediaCommand)
    ensures
        r == (if 0 <= code <= 2 {
            MediaCommand::TogglePause
        } else if code == 3 {
            MediaCommand::Next
        } else if code == 4 {
            MediaCommand::Previous
        } else {
            MediaCommand::Ignore
        }),
{
    if 0 <= code && code <= 2 {
        MediaCommand::TogglePause
    } else if code == 3 {
        MediaCommand::Next
    } else if code == 4 {
        MediaCommand::Previous
    } else {
        MediaCommand::Ignore
    }
}

impl App {
    /// Moves the visualizer cursor by `(dx, dy)`, kept within 0..=100 and 0..=40.
    pub fn move_cursor(&mut self, dx: i16, dy: i16)
        ensures
            *final(self) == (App {
                cursor_pos: (
                    cursor_step(old(self).cursor_pos.0, dx, 100),
                    cursor_step(old(self).cursor_pos.1, dy, 40),
                ),
                ..*old(self)
            }),
    {
        let x = cursor_move(self.cursor_pos.0, dx, 100);
        let y = cursor_move(self.cursor_pos.1, dy, 40);
        self.cursor_pos = (x, y);
    }

    /// Leaves the playlist being viewed.
    pub fn exit_playlist(&mut self)
        ensures
            *final(self) == (App { viewing_playlist_index: None, ..*old(self) }),
    {
        self.viewing_playlist_index = None;
    }

    /// Takes the typed name for a new playlist: when the input is empty nothing
    /// changes and `None` is returned; else the name is returned (the caller
    /// stores the playlist), the input is cleared and input goes back to normal.
    pub fn create_playlist(&mut self) -> (r: Option<String>)
        ensures
            old(self).input@.len() == 0 ==> r is None && *final(self) == *old(self),
            old(self).input@.len() > 0 ==> (r matches Some(n) && n@ == old(self).input@) && *final(self) == (App { input: final(self).input, input_mode: InputMode::Normal, ..*old(self) })
                && final(self).input@.len() == 0,
    {
        if self.input.as_str().is_empty() {
            return None;
        }
        let name = self.input.clone();
        self.input = String::new();
        self.input_mode = InputMode::Normal;
        Some(name)
    }

    /// Replaces the playlists (after they were read back from the database).
    pub fn set_playlists(&mut self, playlists: Vec<Playlist>)
        ensures
            *final(self) == (App { playlists, ..*old(self) }),
    {
        self.playlists = playlists;
    }

    /// On the Library tab: the playlist id and track path to add, for the
    /// selected library track and the selected playlist, when both exist.
    pub fn add_selected_track_to_playlist(&self) -> (r: Option<(i64, String)>)
        requires
            self.wf(),
        ensures
            r == (if self.selected_tab == 0 && self.selected_track_index
                < self.filtered_spec().len() && self.selected_playlist_index
                < self.playlists@.len() {
                Some(
                    (
                        self.playlists@[self.selected_playlist_index as int].id,
                        self.library.tracks@[self.filtered_spec()[self.selected_track_index as int] as int],
                    ),
                )
            } else {
                None
            }),
    {
        if self.selected_tab != 0 {
            return None;
        }
        let filtered = self.filtered_library();
        if self.selected_track_index >= filtered.len() {
            return None;
        }
        if self.selected_playlist_index >= self.playlists.len() {
            return None;
        }
        let track = filtered[self.selected_track_index].1.clone();
        Some((self.playlists[self.selected_playlist_index].id, track))
    }

    /// The track the Library or Playlists tab has selected, if any.
    pub open spec fn selected_path(&self) -> Option<String> {
        if self.selected_tab == 0 {
            if self.selected_track_index < self.filtered_spec().len() {
                Some(self.library.tracks@[self.filtered_spec()[self.selected_track_index as int] as int])
            } else {
                None
            }
        } else if self.selected_tab == 1 {
            match self.viewing_playlist_index {
                Some(idx) => if idx < self.playlists@.len()
                    && self.selected_playlist_track_index < self.playlists@[idx as int].tracks@.len() {
                    Some(self.playlists@[idx as int].tracks@[self.selected_playlist_track_index as int])
                } else {
                    None
                },
                None => None,
            }
        } else {
            None
        }
    }

    /// Appends the selected library or playlist track to the play queue.
    pub fn enqueue_selected(&mut self)
        requires
            old(self).wf(),
        ensures
            *final(self) == (match old(self).selected_path() {
                Some(p) => App { queue: final(self).queue, ..*old(self) },
                None => *old(self),
            }),
            final(self).queue@ == (match old(self).selected_path() {
                Some(p) => old(self).queue@.push(p),
                None => old(self).queue@,
            }),
    {
        let item: Option<String> = if self.selected_tab == 0 {
            let filtered = self.filtered_library();
            if self.selected_track_index < filtered.len() {
                Some(filtered[self.selected_track_index].1.clone())
            } else {
                None
            }
        } else if self.selected_tab == 1 {
            match self.viewing_playlist_index {
                Some(idx) => {
                    if idx < self.playlists.len() && self.selected_playlist_track_index
                        < self.playlists[idx].tracks.len() {
                        Some(self.playlists[idx].tracks[self.selected_playlist_track_index].clone())
                    } else {
                        None
                    }
                },
                None => None,
            }
        } else {
            None
        };
        match item {
            Some(t) => self.queue.push(t),
            None => {},
        }
    }

    /// Turns shuffle on or off.
    pub fn toggle_shuffle(&mut self)
        ensures
            *final(self) == (App { shuffle: !old(self).shuffle, ..*old(self) }),
    {
        self.shuffle = !self.shuffle;
    }

    /// The repeat mode after `m`: Off, One, All, Off, ...
    pub open spec fn next_repeat(m: RepeatMode) -> RepeatMode {
        match m {
            RepeatMode::Off => RepeatMode::One,
            RepeatMode::One => RepeatMode::All,
            RepeatMode::All => RepeatMode::Off,
        }
    }

    /// Moves to the next repeat mode.
    pub fn cycle_repeat(&mut self)
        ensures
            *final(self) == (App { repeat: Self::next_repeat(old(self).repeat), ..*old(self) }),
    {
        self.repeat = match self.repeat {
            RepeatMode::Off => RepeatMode::One,
            RepeatMode::One => RepeatMode::All,
            RepeatMode::All => RepeatMode::Off,
        };
    }

    /// Moves to the next colour theme.
    pub fn cycle_theme(&mut self)
        ensures
            *final(self) == (App { color_theme: old(self).color_theme.next_spec(), ..*old(self) }),
    {
        self.color_theme = self.color_theme.cycle();
    }

    /// Moves to the next sleep timer preset (off, 15, 30, 45, 60 minutes) and
    /// returns its length in seconds (0 when the timer is off).
    pub fn cycle_sleep_timer(&mut self) -> (r: u64)
        requires
            old(self).wf(),
        ensures
            *final(self) == (App {
                sleep_preset_idx: ((old(self).sleep_preset_idx + 1) % 5) as usize,
                ..*old(self)
            }),
            r == sleep_preset_secs((old(self).sleep_preset_idx + 1) % 5),
    {
        let i = step_next(self.sleep_preset_idx, 5);
        self.sleep_preset_idx = i;
        if i == 1 {
            900
        } else if i == 2 {
            1800
        } else if i == 3 {
            2700
        } else if i == 4 {
            3600
        } else {
            0
        }
    }

    /// The label of the current sleep timer preset.
    pub fn sleep_timer_label(&self) -> (r: String)
        ensures
            r@ == sleep_label_spec(self.sleep_preset_idx as int),
    {
        let i = self.sleep_preset_idx;
        if i == 1 {
            "15m".to_owned()
        } else if i == 2 {
            "30m".to_owned()
        } else if i == 3 {
            "45m".to_owned()
        } else if i == 4 {
            "60m".to_owned()
        } else {
            "Off".to_owned()
        }
    }

    /// The sleep timer went off: the preset goes back to "off" (the caller
    /// pauses playback).
    pub fn sleep_expired(&mut self)
        ensures
            *final(self) == (App { sleep_preset_idx: 0, ..*old(self) }),
    {
        self.sleep_preset_idx = 0;
    }

    /// Turns karaoke (synced lyrics) on or off.
    pub fn toggle_karaoke(&mut self)
        ensures
            *final(self) == (App { karaoke_active: !old(self).karaoke_active, ..*old(self) }),
    {
        self.karaoke_active = !self.karaoke_active;
    }

    /// Shows or hides the equalizer; it has the focus exactly when shown.
    pub fn toggle_eq(&mut self)
        ensures
            *final(self) == (App {
                show_eq: !old(self).show_eq,
                eq_focused: !old(self).show_eq,
                ..*old(self)
            }),
    {
        self.show_eq = !self.show_eq;
        if self.show_eq {
            self.eq_focused = true;
        } else {
            self.eq_focused = false;
        }
    }

    /// Selects the next equalizer band (wrapping after the last).
    pub fn eq_next_band(&mut self)
        ensures
            *final(self) == (App {
                eq_selected_band: ((old(self).eq_selected_band + 1) % 10) as usize,
                ..*old(self)
            }),
    {
        self.eq_selected_band = step_next(self.eq_selected_band, BAND_COUNT);
    }

    /// Selects the previous equalizer band (the last one before the first).
    pub fn eq_prev_band(&mut self)
        ensures
            *final(self) == (App {
                eq_selected_band: if old(self).eq_selected_band == 0 {
                    9
                } else {
                    (old(self).eq_selected_band - 1) as usize
                },
                ..*old(self)
            }),
    {
        self.eq_selected_band = match self.eq_selected_band.checked_sub(1) {
            Some(b) => b,
            None => BAND_COUNT - 1,
        };
    }

    /// Starts the glitch effect for five ticks.
    pub fn trigger_glitch(&mut self)
        ensures
            *final(self) == (App { glitch_active: true, glitch_ticks: 5, ..*old(self) }),
    {
        self.glitch_active = true;
        self.glitch_ticks = 5;
    }

    /// Turns the library search on or off; turning it off clears the search and
    /// the selection.
    pub fn toggle_library_search(&mut self)
        ensures
            final(self).library_search_active == !old(self).library_search_active,
            old(self).library_search_active ==> final(self).library_search@.len() == 0 && *final(self) == (App {
                library_search_active: false,
                library_search: final(self).library_search,
                selected_track_index: 0,
                ..*old(self)
            }),
            !old(self).library_search_active ==> *final(self) == (App {
                library_search_active: true,
                ..*old(self)
            }),
    {
        self.library_search_active = !self.library_search_active;
        if !self.library_search_active {
            self.library_search = String::new();
            self.selected_track_index = 0;
        }
    }

    /// Starts typing a library search: the search is emptied and shown, the
    /// selection goes to the top and keys go to the search.
    pub fn begin_search(&mut self)
        ensures
            final(self).library_search@.len() == 0,
            *final(self) == (App {
                library_search_active: true,
                library_search: final(self).library_search,
                selected_track_index: 0,
                input_mode: InputMode::Editing,
                ..*old(self)
            }),
    {
        self.library_search_active = true;
        self.library_search = String::new();
        self.selected_track_index = 0;
        self.input_mode = InputMode::Editing;
    }

    /// A character typed while editing: it extends the search, when one is
    /// shown, and the selection goes back to the top.
    pub fn search_type(&mut self, c: char)
        ensures
            old(self).library_search_active ==> final(self).library_search@
                == old(self).library_search@.push(c) && *final(self) == (App {
                library_search: final(self).library_search,
                selected_track_index: 0,
                ..*old(self)
            }),
            !old(self).library_search_active ==> *final(self) == *old(self),
    {
        if self.library_search_active {
            push_char(&mut self.library_search, c);
            self.selected_track_index = 0;
        }
    }

    /// Backspace while editing: the search, when one is shown, loses its last
    /// character, and the selection goes back to the top.
    pub fn search_backspace(&mut self)
        ensures
            old(self).library_search_active ==> final(self).library_search@ == (if old(
                self,
            ).library_search@.len() > 0 {
                old(self).library_search@.drop_last()
            } else {
                old(self).library_search@
            }) && *final(self) == (App {
                library_search: final(self).library_search,
                selected_track_index: 0,
                ..*old(self)
            }),
            !old(self).library_search_active ==> *final(self) == *old(self),
    {
        if self.library_search_active {
            let shorter = without_last(&self.library_search);
            self.library_search = shorter;
            self.selected_track_index = 0;
        }
    }

    /// Escape while editing: a shown search is emptied and hidden; keys go
    /// back to normal.
    pub fn search_escape(&mut self)
        ensures
            old(self).library_search_active ==> final(self).library_search@.len() == 0
                && *final(self) == (App {
                library_search: final(self).library_search,
                library_search_active: false,
                input_mode: InputMode::Normal,
                ..*old(self)
            }),
            !old(self).library_search_active ==> *final(self) == (App {
                input_mode: InputMode::Normal,
                ..*old(self)
            }),
    {
        if self.library_search_active {
            self.library_search = String::new();
            self.library_search_active = false;
        }
        self.input_mode = InputMode::Normal;
    }

    /// Draws the next pseudo-random number (a 64-bit linear congruential step).
    pub fn next_random(&mut self) -> (r: u64)
        ensures
            r == lcg_next(old(self).rng_state),
            *final(self) == (App { rng_state: r, ..*old(self) }),
    {
        self.rng_state = self.rng_state.wrapping_mul(6364136223846793005).wrapping_add(
            1442695040888963407,
        );
        self.rng_state
    }

    /// Recomputes the mood colour from the current track name and artist.
    pub fn update_mood(&mut self)
        ensures
            *final(self) == (App {
                mood_color: mood_of(old(self).current_track_name@, old(self).current_artist@),
                ..*old(self)
            }),
    {
        self.mood_color = mood_color(self.current_track_name.as_str(), self.current_artist.as_str());
    }

    /// Where a seek lands: five seconds after the playback position going
    /// forward, five seconds before it (not before the start) going back.
    pub fn seek_target(&self, forward: bool) -> (r: u64)
        requires
            forward ==> self.playback_pos_ms <= u64::MAX - 5000,
        ensures
            r == if forward {
                self.playback_pos_ms + 5000
            } else if self.playback_pos_ms >= 5000 {
                self.playback_pos_ms - 5000
            } else {
                0
            },
    {
        if forward {
            self.playback_pos_ms + 5000
        } else if self.playback_pos_ms >= 5000 {
            self.playback_pos_ms - 5000
        } else {
            0
        }
    }

    /// One tick of bookkeeping: the glitch effect counts down (and stops at
    /// zero) and the tick counter advances.
    pub fn tick_counters(&mut self)
        requires
            old(self).ticks < u64::MAX,
        ensures
            *final(self) == (App {
                glitch_ticks: if old(self).glitch_ticks > 0 {
                    (old(self).glitch_ticks - 1) as u32
                } else {
                    0
                },
                glitch_active: if old(self).glitch_ticks == 1 {
                    false
                } else {
                    old(self).glitch_active
                },
                ticks: (old(self).ticks + 1) as u64,
                ..*old(self)
            }),
    {
        let g = self.glitch_ticks;
        if g > 0 {
            self.glitch_ticks = g - 1;
            if g == 1 {
                self.glitch_active = false;
            }
        }
        self.ticks = self.ticks + 1;
    }

    /// Whether the current track is to be scrobbled now: it has not been yet and
    /// has played at least 30 seconds (`played_secs` is `None` when nothing
    /// is playing). Marks it scrobbled when so.
    pub fn scrobble_due(&mut self, played_secs: Option<u64>) -> (r: bool)
        ensures
            (r, *final(self)) == old(self).scrobble_decision(played_secs),
    {
        if !self.track_scrobbled {
            match played_secs {
                Some(s) => {
                    if s >= 30 {
                        self.track_scrobbled = true;
                        return true;
                    }
                },
                None => {},
            }
        }
        false
    }

    /// The scrobble decision: due when the track has not been scrobbled and
    /// has played at least 30 seconds, and then the track is marked scrobbled.
    pub open spec fn scrobble_decision(&self, played_secs: Option<u64>) -> (bool, App) {
        let due = !self.track_scrobbled && (played_secs matches Some(s) && s >= 30);
        (due, if due {
            App { track_scrobbled: true, ..*self }
        } else {
            *self
        })
    }

    /// Whether the Spotify playback state is to be read this tick: every tenth
    /// tick, while nothing plays locally.
    pub fn spotify_sync_due(&self, local_playing: bool) -> (r: bool)
        ensures
            r == (self.ticks % 10 == 0 && !local_playing),
    {
        self.ticks % 10 == 0 && !local_playing
    }

    /// Takes in the Spotify playback state: the current item's name, first
    /// artist and length (when it is a track) and the progress.
    pub fn apply_spotify_playback(&mut self, item: Option<(String, String, u64)>, progress_ms: u64)
        ensures
            *final(self) == (match item {
                Some((n, a, d)) => App {
                    current_track_name: n,
                    current_artist: a,
                    total_duration_ms: d,
                    playback_pos_ms: progress_ms,
                    mood_color: mood_of(n@, a@),
                    ..*old(self)
                },
                None => App {
                    playback_pos_ms: progress_ms,
                    mood_color: mood_of(old(self).current_track_name@, old(self).current_artist@),
                    ..*old(self)
                },
            }),
    {
        match item {
            Some((n, a, d)) => {
                self.current_track_name = n;
                self.current_artist = a;
                self.total_duration_ms = d;
            },
            None => {},
        }
        self.playback_pos_ms = progress_ms;
        self.update_mood();
    }

    /// Takes in a detected vibe ("Chill", "Energetic", ...): it is kept, a known
    /// one sets the mood colour, and the notification to show is returned.
    pub fn apply_vibe(&mut self, mood: String) -> (r: String)
        ensures
            r@ == "Vibe detected: "@ + mood@,
            *final(self) == (App {
                current_vibe: Some(mood),
                mood_color: if mood@ == "Chill"@ {
                    Some(Color::Rgb(0, 255, 255))
                } else if mood@ == "Energetic"@ {
                    Some(Color::Rgb(255, 0, 127))
                } else {
                    old(self).mood_color
                },
                ..*old(self)
            }),
    {
        let mut note = "Vibe detected: ".to_owned();
        push_str_chars(&mut note, mood.as_str());
        let chill = crate::text::str_eq_chars("Chill", chars_of(mood.as_str()).as_slice());
        let energetic = crate::text::str_eq_chars("Energetic", chars_of(mood.as_str()).as_slice());
        if chill {
            self.mood_color = Some(Color::Rgb(0, 255, 255));
        } else if energetic {
            self.mood_color = Some(Color::Rgb(255, 0, 127));
        }
        self.current_vibe = Some(mood);
        note
    }
}

/// Moving down then up a non-empty list comes back to a selection that was on
/// the list.
pub proof fn lemma_next_then_prev(i: usize, n: int)
    requires
        0 <= i < n,
        n <= usize::MAX,
    ensures
        prev_index(next_index(i, n), n) == i,
{
    if i + 1 < n {
        vstd::arithmetic::div_mod::lemma_small_mod((i + 1) as nat, n as nat);
    } else {
        vstd::arithmetic::div_mod::lemma_mod_self_0(n);
    }
}

/// On the library tab, moving the selection up undoes moving it down, and
/// moving up alone goes to the previous shown track, from the first to the
/// last: for `n` shown tracks and a selection `s < n`, it goes to
/// `(s + n - 1) % n`.
pub proof fn lemma_library_down_then_up(a: App, spotify_playlists: usize, spotify_results: usize, soundcloud_results: usize)
    requires
        a.selected_tab == 0,
        0 < a.filtered_spec().len() <= usize::MAX,
        a.selected_track_index < a.filtered_spec().len(),
    ensures
        a.moved_down(spotify_playlists, spotify_results, soundcloud_results).moved_up(
            spotify_playlists,
            spotify_results,
            soundcloud_results,
        ) == a,
        a.moved_up(spotify_playlists, spotify_results, soundcloud_results).selected_track_index
            == (a.selected_track_index + a.filtered_spec().len() - 1) % (a.filtered_spec().len() as int),
{
    let n = a.filtered_spec().len() as int;
    let s = a.selected_track_index;
    lemma_next_then_prev(s, n);
    let d = a.moved_down(spotify_playlists, spotify_results, soundcloud_results);
    assert(d.filtered_spec() == a.filtered_spec());
    assert(d.moved_up(spotify_playlists, spotify_results, soundcloud_results) == App {
        selected_track_index: prev_index(next_index(s, n), n),
        ..a
    });
    if s > 0 {
        vstd::arithmetic::div_mod::lemma_small_mod((s - 1) as nat, n as nat);
        vstd::arithmetic::div_mod::lemma_mod_add_multiples_vanish(s - 1, n);
        assert(s + n - 1 == n + (s - 1));
    } else {
        vstd::arithmetic::div_mod::lemma_small_mod((n - 1) as nat, n as nat);
    }
}

/// Moving up then down a non-empty list comes back to a selection that was on
/// the list.
pub proof fn lemma_prev_then_next(i: usize, n: int)
    requires
        0 <= i < n,
        n <= usize::MAX,
    ensures
        next_index(prev_index(i, n), n) == i,
{
    if i > 0 {
        vstd::arithmetic::div_mod::lemma_small_mod(i as nat, n as nat);
    } else {
        vstd::arithmetic::div_mod::lemma_mod_self_0(n);
    }
}

/// Switching tab forward then back gives the same tab, for any tab index the
/// interface uses.
pub proof fn lemma_tab_roundtrip(t: usize)
    requires
        t < 6,
    ensures
        ((((t as int + 1) % 6) + 5) % 6) == t,
{
}


/// Going through the repeat modes three times comes back to the same mode.
pub proof fn lemma_repeat_cycle(m: RepeatMode)
    ensures
        App::next_repeat(App::next_repeat(App::next_repeat(m))) == m,
        App::next_repeat(m) != m,
{
}

/// Going through the visualizer styles five times comes back to the same
/// style.
pub proof fn lemma_vis_cycle(m: VisualizerMode)
    ensures
        App::next_vis(App::next_vis(App::next_vis(App::next_vis(App::next_vis(m))))) == m,
        App::next_vis(m) != m,
{
}

/// Going through the sleep presets five times comes back to the same preset.
pub proof fn lemma_sleep_cycle(i: int)
    requires
        0 <= i < 5,
    ensures
        (((((i + 1) % 5 + 1) % 5 + 1) % 5 + 1) % 5 + 1) % 5 == i,
{
}

/// A track is scrobbled at most once: once a decision says it is due, no
/// later decision says so again (until a new track starts).
pub proof fn lemma_scrobble_once(a: App, first: Option<u64>, later: Option<u64>)
    ensures
        a.scrobble_decision(first).0 ==> !a.scrobble_decision(first).1.scrobble_decision(later).0,
        a.scrobble_decision(first).0 ==> a.scrobble_decision(first).1.scrobble_decision(later).1
            == a.scrobble_decision(first).1,
{
}

/// Whether a track has played long enough to be scrobbled (`None`: nothing
/// plays).
pub open spec fn scrobble_reached(played_secs: Option<u64>) -> bool {
    played_secs matches Some(s) && s >= 30
}

/// The scrobble decisions over ticks that report `ps` in turn, with no new
/// track started between them, and the player after them.
pub open spec fn scrobble_run(a: App, ps: Seq<Option<u64>>) -> (Seq<bool>, App)
    decreases ps.len(),
{
    if ps.len() == 0 {
        (seq![], a)
    } else {
        let (due, b) = a.scrobble_decision(ps[0]);
        let (rest, last) = scrobble_run(b, ps.drop_first());
        (seq![due] + rest, last)
    }
}

/// Whether tick `i` of `ps` is the first to report 30 seconds played.
pub open spec fn first_reached(ps: Seq<Option<u64>>, i: int) -> bool {
    &&& scrobble_reached(ps[i])
    &&& forall|j: int| 0 <= j < i ==> !scrobble_reached(#[trigger] ps[j])
}

/// Whether some tick of `ps` reports 30 seconds played.
pub open spec fn any_reached(ps: Seq<Option<u64>>) -> bool {
    exists|i: int| 0 <= i < ps.len() && scrobble_reached(#[trigger] ps[i])
}

proof fn lemma_first_reached_shift(ps: Seq<Option<u64>>, i: int)
    requires
        ps.len() > 0,
        !scrobble_reached(ps[0]),
        0 < i < ps.len(),
    ensures
        first_reached(ps, i) == first_reached(ps.drop_first(), i - 1),
        any_reached(ps) == any_reached(ps.drop_first()),
{
    let t = ps.drop_first();
    assert(t[i - 1] == ps[i]);
    if first_reached(t, i - 1) {
        assert forall|j: int| 0 <= j < i implies !scrobble_reached(#[trigger] ps[j]) by {
            if j > 0 {
                assert(ps[j] == t[j - 1]);
            }
        }
    }
    if first_reached(ps, i) {
        assert forall|j: int| 0 <= j < i - 1 implies !scrobble_reached(#[trigger] t[j]) by {
            assert(ps[j + 1] == t[j]);
        }
    }
    if any_reached(t) {
        let k = choose|k: int| 0 <= k < t.len() && scrobble_reached(#[trigger] t[k]);
        assert(ps[k + 1] == t[k]);
    }
    if any_reached(ps) {
        let k = choose|k: int| 0 <= k < ps.len() && scrobble_reached(#[trigger] ps[k]);
        assert(t[k - 1] == ps[k]);
    }
}

proof fn lemma_scrobble_run_marked(a: App, ps: Seq<Option<u64>>)
    requires
        a.track_scrobbled,
    ensures
        scrobble_run(a, ps).0 =~= Seq::new(ps.len(), |i: int| false),
        scrobble_run(a, ps).1 == a,
    decreases ps.len(),
{
    if ps.len() > 0 {
        lemma_scrobble_run_marked(a, ps.drop_first());
    }
}

/// Over any run of ticks with no new track started, the track is scrobbled at
/// most once: on the first tick that reports 30 seconds played, if it was not
/// scrobbled before. From then on it is marked scrobbled; nothing else changes.
pub proof fn lemma_scrobble_run(a: App, ps: Seq<Option<u64>>)
    ensures
        scrobble_run(a, ps).0.len() == ps.len(),
        forall|i: int|
            0 <= i < ps.len() ==> #[trigger] scrobble_run(a, ps).0[i] == (!a.track_scrobbled
                && first_reached(ps, i)),
        forall|i: int, j: int|
            0 <= i < j < ps.len() ==> !(#[trigger] scrobble_run(a, ps).0[i]
                && #[trigger] scrobble_run(a, ps).0[j]),
        scrobble_run(a, ps).1 == (App {
            track_scrobbled: a.track_scrobbled || any_reached(ps),
            ..a
        }),
    decreases ps.len(),
{
    if a.track_scrobbled {
        lemma_scrobble_run_marked(a, ps);
        return;
    }
    if ps.len() == 0 {
        return;
    }
    let (due, b) = a.scrobble_decision(ps[0]);
    let t = ps.drop_first();
    let r = scrobble_run(a, ps).0;
    if due {
        lemma_scrobble_run_marked(b, t);
        assert(r == seq![true] + scrobble_run(b, t).0);
        assert(first_reached(ps, 0));
        assert(any_reached(ps));
        assert forall|i: int| 0 < i < ps.len() implies !first_reached(ps, i) by {
            assert(!scrobble_reached(ps[0]) || !first_reached(ps, i));
        }
    } else {
        lemma_scrobble_run(b, t);
        assert(b == a);
        assert(r == seq![false] + scrobble_run(a, t).0);
        assert(!first_reached(ps, 0));
        assert forall|i: int| 0 < i < ps.len() implies first_reached(ps, i) == first_reached(
            t,
            i - 1,
        ) by {
            lemma_first_reached_shift(ps, i);
        }
        if ps.len() > 1 {
            lemma_first_reached_shift(ps, 1);
        } else {
            assert(!any_reached(ps));
            assert(!any_reached(t));
        }
        assert forall|i: int| 0 <= i < ps.len() implies #[trigger] r[i] == first_reached(ps, i) by {
            if i > 0 {
                assert(r[i] == scrobble_run(a, t).0[i - 1]);
            }
        }
    }
    assert forall|i: int, j: int| 0 <= i < j < ps.len() implies !(#[trigger] r[i]
        && #[trigger] r[j]) by {
        if r[i] && r[j] {
            assert(first_reached(ps, j));
            assert(scrobble_reached(ps[i]));
        }
    }
}

/// Queued tracks come first: when a track ends with something queued (and no
/// crossfade running), the head of the queue plays next and leaves the
/// queue; the rest keep their order.
pub proof fn lemma_queue_plays_first(a: App)
    requires
        !a.crossfade_active,
        a.queue@.len() > 0,
    ensures
        a.advance_step().play == Some(a.queue@[0]),
        a.advance_step().pop_queue,
        a.advance_step().playing_pl is None,
{
}

/// Repeating one track: with nothing queued, the track that ended plays
/// again, and the playing and selected positions stay as they are.
pub proof fn lemma_repeat_one_replays(a: App)
    requires
        !a.crossfade_active,
        a.queue@.len() == 0,
        a.repeat == RepeatMode::One,
        a.replay_target() is Some,
    ensures
        a.advance_step().play == a.replay_target(),
        !a.advance_step().pop_queue,
        a.advance_step().playing_track == a.playing_track_index,
        a.advance_step().playing_pl == a.playing_playlist_index,
        a.advance_step().sel_track == a.selected_track_index,
        a.advance_step().sel_pl_track == a.selected_playlist_track_index,
        a.advance_step().rng == a.rng_state,
{
}

/// Moving down a non-empty list always lands on the list; moving up does
/// from any selection on the list (or just past its end).
pub proof fn lemma_moves_stay_in_range(i: usize, n: int)
    requires
        0 < n <= usize::MAX,
    ensures
        0 <= next_index(i, n) < n,
        i <= n ==> 0 <= prev_index(i, n) < n,
{
}


/// The on/off switches undo themselves: switching shuffle, karaoke, the
/// equalizer panel or the Spotify focus twice gives back the same state.
pub proof fn lemma_toggles_undo(a: App)
    requires
        a.show_eq == a.eq_focused,
    ensures
        (App { shuffle: !(App { shuffle: !a.shuffle, ..a }).shuffle, ..(App { shuffle: !a.shuffle, ..a }) })
            == a,
        (App {
            karaoke_active: !(App { karaoke_active: !a.karaoke_active, ..a }).karaoke_active,
            ..(App { karaoke_active: !a.karaoke_active, ..a })
        }) == a,
        ({
            let once = App { show_eq: !a.show_eq, eq_focused: !a.show_eq, ..a };
            App { show_eq: !once.show_eq, eq_focused: !once.show_eq, ..once }
        }) == a,
        ({
            let flip = |f: SpotifyFocus|
                match f {
                    SpotifyFocus::Playlists => SpotifyFocus::Search,
                    SpotifyFocus::Search => SpotifyFocus::Playlists,
                };
            flip(flip(a.spotify_focus))
        }) == a.spotify_focus,
{
}

} // verus!
