//! What plays next: starting a track, the queue, repeat and shuffle, the
//! selection a key press plays, and crossfades.
use vstd::prelude::*;
use crate::app::{lcg_next, mood_of, mood_color, App, RepeatMode, SpotifyFocus};
use crate::metadata::copy_opt_bytes;
use crate::paths::{file_stem, file_stem_spec};
use crate::soundcloud::ScTrack;
use crate::spotify::{SpotifyPlaylist, SpotifyTrack};
use crate::text::{chars_of, find_chars_from, first_occurrence_from, slice_range, string_of};

verus! {

/// Optional cover bytes `a` are a copy of `b`.
pub open spec fn same_cover(a: Option<Vec<u8>>, b: Option<Vec<u8>>) -> bool {
    &&& (a is Some <==> b is Some)
    &&& (a is Some ==> a->0@ == b->0@)
}

/// Artist and title read from a file stem of the form "Artist - Title"; a stem
/// without " - " gives the artist "Unknown" and the whole stem as title.
pub open spec fn stem_labels(path: Seq<char>) -> (Seq<char>, Seq<char>) {
    let stem = match file_stem_spec(path) {
        Some(s) => s,
        None => seq![],
    };
    match first_occurrence_from(stem, " - "@, 0) {
        Some(k) => (stem.subrange(0, k), stem.subrange(k + " - "@.len(), stem.len() as int)),
        None => ("Unknown"@, stem),
    }
}

/// A track that starts playing: what the caller loads and shows.
#[derive(Debug)]
pub struct PlayStart {
    pub path: String,
    pub artist: String,
    pub title: String,
    /// No cover art is known: the caller looks one up online.
    pub fetch_cover: bool,
}

/// What a press of Enter asks the caller to do.
#[derive(Debug)]
pub enum PlayAction {
    Nothing,
    /// Play a local file (the state already shows it).
    Local(PlayStart),
    /// Start Spotify playback of a track or playlist id; lyrics are fetched for
    /// a track, not for a playlist.
    Spotify { uri: String, is_playlist: bool },
    /// Download and play a SoundCloud track; `notice` is shown meanwhile.
    SoundCloud { track: ScTrack, notice: String },
}

/// The state changes of one "what plays next" decision.
pub struct Step {
    pub play: Option<String>,
    pub pop_queue: bool,
    pub rng: u64,
    pub playing_track: Option<usize>,
    pub playing_pl: Option<usize>,
    pub sel_pl_track: usize,
    pub sel_track: usize,
}

/// The first position of `x` in `s`.
pub open spec fn first_pos(s: Seq<usize>, x: usize) -> Option<int>
    decreases s.len(),
{
    if s.len() == 0 {
        None
    } else {
        match first_pos(s.drop_last(), x) {
            Some(p) => Some(p),
            None => if s.last() == x {
                Some(s.len() - 1)
            } else {
                None
            },
        }
    }
}

proof fn lemma_first_pos(s: Seq<usize>, x: usize)
    ensures
        match first_pos(s, x) {
            Some(p) => 0 <= p < s.len() && s[p] == x && forall|j: int| 0 <= j < p ==> s[j] != x,
            None => forall|j: int| 0 <= j < s.len() ==> s[j] != x,
        },
    decreases s.len(),
{
    if s.len() > 0 {
        lemma_first_pos(s.drop_last(), x);
        assert forall|j: int| 0 <= j < s.len() - 1 implies s[j] == s.drop_last()[j] by {}
    }
}

proof fn lemma_first_pos_increasing(s: Seq<usize>, q: int)
    requires
        0 <= q < s.len(),
        forall|a: int, b: int| 0 <= a < b < s.len() ==> s[a] < s[b],
    ensures
        first_pos(s, s[q]) == Some(q),
{
    lemma_first_pos(s, s[q]);
    match first_pos(s, s[q]) {
        Some(p) => {
            if p < q {
                assert(s[p] < s[q]);
            } else if p > q {
                assert(s[q] != s[q]);
            }
        },
        None => {
            assert(s[q] != s[q]);
        },
    }
}

fn find_pos(s: &Vec<usize>, x: usize) -> (r: Option<usize>)
    ensures
        match r {
            Some(p) => first_pos(s@, x) == Some(p as int) && p < s@.len(),
            None => first_pos(s@, x) is None,
        },
{
    let mut i: usize = 0;
    while i < s.len()
        invariant
            i <= s@.len(),
            forall|j: int| 0 <= j < i ==> s@[j] != x,
        decreases s@.len() - i,
    {
        if s[i] == x {
            proof {
                lemma_first_pos(s@, x);
                match first_pos(s@, x) {
                    Some(p) => {
                        if p > i {
                            assert(s@[i as int] != x);
                        } else if p < i {
                            assert(s@[p] != x);
                        }
                    },
                    None => {
                        assert(s@[i as int] != x);
                    },
                }
            }
            return Some(i);
        }
        i += 1;
    }
    proof {
        lemma_first_pos(s@, x);
        match first_pos(s@, x) {
            Some(p) => {
                assert(s@[p] != x);
            },
            None => {},
        }
    }
    None
}

/// One draw of the random generator, without changing any state.
pub fn lcg(s: u64) -> (r: u64)
    ensures
        r == lcg_next(s),
{
    s.wrapping_mul(6364136223846793005).wrapping_add(1442695040888963407)
}

/// What Enter does to the player on the tabs that play a selection: the state
/// after it (`post`) and what is played (`r`), from the state before it
/// (`pre`), the Spotify playlists and search results, the SoundCloud results
/// and whether a SoundCloud client is configured.
pub open spec fn selection_played(
    pre: App,
    post: App,
    r: PlayAction,
    pls: Seq<SpotifyPlaylist>,
    res: Seq<SpotifyTrack>,
    sc: Seq<ScTrack>,
    ready: bool,
) -> bool {
    &&& pre.selected_tab <= 1 ==> match pre.local_selection() {
        Some((p, pt, pp, v)) => App {
            playing_track_index: pt,
            playing_playlist_index: pp,
            viewing_playlist_index: v,
            ..pre
        }.begins(post, p@) && (r matches PlayAction::Local(s) && s.path@ == p@),
        None => post == pre && r is Nothing,
    }
    &&& pre.selected_tab == 2 ==> match pre.spotify_pick(pls, res) {
        Some((uri, is_pl, artist, title)) => {
            let (a, t) = if is_pl {
                ("Playlist"@, title)
            } else {
                (artist, title)
            };
            &&& post.current_artist@ == a
            &&& post.current_track_name@ == t
            &&& post == (App {
                current_artist: post.current_artist,
                current_track_name: post.current_track_name,
                mood_color: mood_of(t, a),
                ..pre
            })
            &&& r matches PlayAction::Spotify { uri: u, is_playlist } && u@ == uri
                && is_playlist == is_pl
        },
        None => post == pre && r is Nothing,
    }
    &&& pre.selected_tab == 3 ==> post == pre && (
    if pre.soundcloud_search_index < sc.len() && ready {
        r matches PlayAction::SoundCloud { track, notice } && track
            == sc[pre.soundcloud_search_index as int] && notice@
            == "Streaming: "@ + track.title@
    } else {
        r is Nothing
    })
    &&& pre.selected_tab > 3 ==> post == pre && r is Nothing
}


impl App {
    /// Where the metadata of `path` is kept, if the library lists it.
    pub open spec fn meta_index(&self, path: Seq<char>) -> Option<int> {
        if self.library.has(path) {
            Some(
                choose|i: int|
                    0 <= i < self.library.tracks@.len() && self.library.tracks@[i]@ == path,
            )
        } else {
            None
        }
    }

    /// The artist and title shown for a track: from its metadata when the
    /// library lists it, else from its file stem.
    pub open spec fn labels_spec(&self, path: Seq<char>) -> (Seq<char>, Seq<char>) {
        match self.meta_index(path) {
            Some(i) => (
                self.library.metadata@[i].artist_shown(),
                self.library.metadata@[i].title_shown(path),
            ),
            None => stem_labels(path),
        }
    }

    /// `next` is this state with the track at `path` started: lyrics scrolled to
    /// the top, its labels and cover art shown (no cover when the library does
    /// not list it), not yet scrobbled, position 0, and the mood recomputed.
    pub open spec fn begins(&self, next: App, path: Seq<char>) -> bool {
        let (artist, title) = self.labels_spec(path);
        &&& next.current_artist@ == artist
        &&& next.current_track_name@ == title
        &&& match self.meta_index(path) {
            Some(i) => same_cover(next.current_cover_art, self.library.metadata@[i].cover_art),
            None => next.current_cover_art is None,
        }
        &&& next == (App {
            current_artist: next.current_artist,
            current_track_name: next.current_track_name,
            current_cover_art: next.current_cover_art,
            lyrics_scroll: 0,
            track_scrobbled: false,
            mood_color: mood_of(title, artist),
            playback_pos_ms: 0,
            ..*self
        })
    }

    proof fn lemma_meta_index(&self, path: Seq<char>, i: int)
        requires
            self.wf(),
            0 <= i < self.library.tracks@.len(),
            self.library.tracks@[i]@ == path,
        ensures
            self.meta_index(path) == Some(i),
    {
        let k = choose|k: int|
            0 <= k < self.library.tracks@.len() && self.library.tracks@[k]@ == path;
        if k != i {
            if k < i {
                assert(self.library.tracks@[k]@ != self.library.tracks@[i]@);
            } else {
                assert(self.library.tracks@[i]@ != self.library.tracks@[k]@);
            }
        }
    }

    /// The artist and title shown for the track at `path`.
    pub fn track_labels(&self, path: &String) -> (r: (String, String))
        requires
            self.wf(),
        ensures
            (r.0@, r.1@) == self.labels_spec(path@),
    {
        match self.library.position(path) {
            Some(i) => {
                proof {
                    self.lemma_meta_index(path@, i as int);
                }
                let m = &self.library.metadata[i];
                (m.display_artist(), m.display_title(path.as_str()))
            },
            None => {
                let stem = match file_stem(path.as_str()) {
                    Some(s) => s,
                    None => String::new(),
                };
                let sc = chars_of(stem.as_str());
                let sep = chars_of(" - ");
                match find_chars_from(sc.as_slice(), sep.as_slice(), 0) {
                    Some(k) => {
                        let n = sc.len();
                        let a = slice_range(sc.as_slice(), 0, k);
                        let t = slice_range(sc.as_slice(), k + sep.len(), n);
                        (string_of(a.as_slice()), string_of(t.as_slice()))
                    },
                    None => ("Unknown".to_owned(), stem),
                }
            },
        }
    }

    /// Starts the track at `path` in the state (the caller plays the file, looks
    /// up lyrics and, when `fetch_cover`, cover art).
    pub fn begin_track(&mut self, path: &String) -> (r: PlayStart)
        requires
            old(self).wf(),
        ensures
            old(self).begins(*final(self), path@),
            r.path@ == path@,
            r.artist@ == final(self).current_artist@,
            r.title@ == final(self).current_track_name@,
            r.fetch_cover == final(self).current_cover_art is None,
    {
        let (artist, title) = self.track_labels(path);
        let cover = match self.library.position(path) {
            Some(i) => {
                proof {
                    self.lemma_meta_index(path@, i as int);
                }
                copy_opt_bytes(&self.library.metadata[i].cover_art)
            },
            None => None,
        };
        self.lyrics_scroll = 0;
        self.current_cover_art = cover;
        self.mood_color = mood_color(title.as_str(), artist.as_str());
        self.current_artist = artist.clone();
        self.current_track_name = title.clone();
        self.track_scrobbled = false;
        self.playback_pos_ms = 0;
        let fetch_cover = self.current_cover_art.is_none();
        PlayStart { path: path.clone(), artist, title, fetch_cover }
    }

    // ─── What plays next ────────────────────────────────────────────────────

    /// The state changes of no decision.
    pub open spec fn keep_step(&self) -> Step {
        Step {
            play: None,
            pop_queue: false,
            rng: self.rng_state,
            playing_track: self.playing_track_index,
            playing_pl: self.playing_playlist_index,
            sel_pl_track: self.selected_playlist_track_index,
            sel_track: self.selected_track_index,
        }
    }

    /// The track that "repeat one" plays again, if it can still be found.
    pub open spec fn replay_target(&self) -> Option<String> {
        match self.playing_playlist_index {
            Some(pl) => match self.playing_track_index {
                Some(i) => if pl < self.playlists@.len() && i < self.playlists@[pl as int].tracks@.len() {
                    Some(self.playlists@[pl as int].tracks@[i as int])
                } else {
                    None
                },
                None => None,
            },
            None => match self.playing_track_index {
                Some(orig) => if orig < self.library.tracks@.len() {
                    Some(self.library.tracks@[orig as int])
                } else {
                    None
                },
                None => None,
            },
        }
    }

    /// The number of tracks of playlist `pl` (0 when there is no such playlist).
    pub open spec fn playlist_len(&self, pl: usize) -> int {
        if pl < self.playlists@.len() {
            self.playlists@[pl as int].tracks@.len() as int
        } else {
            0
        }
    }

    /// The next position in playlist `pl`: random under shuffle, else the one
    /// after the playing one (the first when none plays); `None` past the end
    /// unless repeating all. Also gives the generator state after the draw.
    pub open spec fn playlist_next(&self, pl: usize) -> (Option<int>, u64) {
        let n = self.playlist_len(pl);
        let rng = if self.shuffle {
            lcg_next(self.rng_state)
        } else {
            self.rng_state
        };
        let next: int = if self.shuffle {
            (lcg_next(self.rng_state) as usize) as int % n
        } else {
            match self.playing_track_index {
                Some(i) => i + 1,
                None => 0,
            }
        };
        if next >= n {
            (if self.repeat == RepeatMode::All {
                Some(0)
            } else {
                None
            }, rng)
        } else {
            (Some(next), rng)
        }
    }

    /// The position, in the filtered library, of the track after `orig`; the
    /// first one when `orig` is last or not listed and the library repeats.
    pub open spec fn library_next_pos(&self, orig: usize) -> Option<int> {
        let f = self.filtered_spec();
        match first_pos(f, orig) {
            Some(p) => if p + 1 < f.len() {
                Some(p + 1)
            } else if self.repeat == RepeatMode::All && f.len() > 0 {
                Some(0)
            } else {
                None
            },
            None => if self.repeat == RepeatMode::All && f.len() > 0 {
                Some(0)
            } else {
                None
            },
        }
    }

    /// The step when a track of playlist `pl` played.
    pub open spec fn playlist_step(&self, pl: usize) -> Step {
        let keep = self.keep_step();
        if self.playlist_len(pl) == 0 {
            keep
        } else {
            let (next, rng) = self.playlist_next(pl);
            match next {
                None => Step { rng, ..keep },
                Some(a) => Step {
                    play: Some(self.playlists@[pl as int].tracks@[a]),
                    rng,
                    playing_track: Some(a as usize),
                    sel_pl_track: a as usize,
                    ..keep
                },
            }
        }
    }

    /// The step when library track `orig` played.
    pub open spec fn library_step(&self, orig: usize) -> Step {
        let keep = self.keep_step();
        let f = self.filtered_spec();
        if self.shuffle {
            if f.len() == 0 {
                keep
            } else {
                let r = lcg_next(self.rng_state);
                let pos = (r as usize) as int % (f.len() as int);
                Step {
                    play: Some(self.library.tracks@[f[pos] as int]),
                    rng: r,
                    playing_track: Some(f[pos]),
                    sel_track: pos as usize,
                    ..keep
                }
            }
        } else {
            match self.library_next_pos(orig) {
                Some(q) => Step {
                    play: Some(self.library.tracks@[f[q] as int]),
                    playing_track: Some(f[q]),
                    sel_track: q as usize,
                    ..keep
                },
                None => keep,
            }
        }
    }

    /// What plays when the current track ends: nothing during a crossfade; else
    /// the head of the queue (leaving the playlist); else, repeating one, the
    /// same track; else the next track of the playlist or of the filtered
    /// library (random under shuffle, wrapping when repeating all).
    pub open spec fn advance_step(&self) -> Step {
        let keep = self.keep_step();
        if self.crossfade_active {
            keep
        } else if self.queue@.len() > 0 {
            Step { play: Some(self.queue@[0]), pop_queue: true, playing_pl: None, ..keep }
        } else if self.repeat == RepeatMode::One && self.replay_target() is Some {
            Step { play: self.replay_target(), ..keep }
        } else {
            match self.playing_playlist_index {
                Some(pl) => self.playlist_step(pl),
                None => match self.playing_track_index {
                    Some(orig) => self.library_step(orig),
                    None => keep,
                },
            }
        }
    }

    /// The state with a step's index changes applied (the queue aside).
    pub open spec fn with_step(&self, st: Step, queue: Vec<String>) -> App {
        App {
            rng_state: st.rng,
            playing_track_index: st.playing_track,
            playing_playlist_index: st.playing_pl,
            selected_playlist_track_index: st.sel_pl_track,
            selected_track_index: st.sel_track,
            queue,
            ..*self
        }
    }

    /// The playlist pick after the playing track of playlist `pl`: the position
    /// of the next track, if any, and the generator state.
    fn playlist_choice(&self, pl: usize) -> (r: (Option<usize>, u64))
        requires
            self.wf(),
        ensures
            r.1 == self.playlist_step(pl).rng,
            match r.0 {
                Some(a) => pl < self.playlists@.len() && a < self.playlists@[pl as int].tracks@.len()
                    && self.playlist_step(pl).play == Some(
                    self.playlists@[pl as int].tracks@[a as int],
                ) && self.playlist_step(pl).playing_track == Some(a)
                    && self.playlist_step(pl).sel_pl_track == a,
                None => self.playlist_step(pl) == (Step { rng: r.1, ..self.keep_step() }),
            },
    {
        let n = if pl < self.playlists.len() {
            self.playlists[pl].tracks.len()
        } else {
            0
        };
        if n == 0 {
            return (None, self.rng_state);
        }
        let mut rng = self.rng_state;
        let next: Option<usize> = if self.shuffle {
            rng = lcg(self.rng_state);
            let k = (rng as usize) % n;
            Some(k)
        } else {
            match self.playing_track_index {
                Some(i) => {
                    if i >= n - 1 {
                        None
                    } else {
                        Some(i + 1)
                    }
                },
                None => Some(0),
            }
        };
        match next {
            Some(a) => (Some(a), rng),
            None => {
                if self.repeat == RepeatMode::All {
                    (Some(0), rng)
                } else {
                    (None, rng)
                }
            },
        }
    }

    fn playlist_advance(&mut self, pl: usize) -> (r: Option<String>)
        requires
            old(self).wf(),
        ensures
            r == old(self).playlist_step(pl).play,
            *final(self) == old(self).with_step(old(self).playlist_step(pl), old(self).queue),
    {
        let (c, rng) = self.playlist_choice(pl);
        self.rng_state = rng;
        match c {
            None => None,
            Some(a) => {
                let t = self.playlists[pl].tracks[a].clone();
                self.playing_track_index = Some(a);
                self.selected_playlist_track_index = a;
                Some(t)
            },
        }
    }

    /// The library pick after `orig`: the position in the library and in the
    /// filtered list of the next track, if any, and the generator state.
    fn library_choice(&self, orig: usize) -> (r: (Option<(usize, usize)>, u64))
        requires
            self.wf(),
        ensures
            r.1 == self.library_step(orig).rng,
            match r.0 {
                Some((o, p)) => o < self.library.tracks@.len() && self.library_step(orig).play == Some(
                    self.library.tracks@[o as int],
                ) && self.library_step(orig).playing_track == Some(o)
                    && self.library_step(orig).sel_track == p,
                None => self.library_step(orig) == self.keep_step() || self.library_step(
                    orig,
                ) == (Step { rng: r.1, ..self.keep_step() }),
            },
    {
        let ntracks = self.library.tracks.len();
        let f = self.library.filtered_indices(self.library_search.as_str());
        proof {
            crate::library::lemma_filtered_ordered(&self.library, self.library_search@);
        }
        if self.shuffle {
            if f.len() == 0 {
                return (None, self.rng_state);
            }
            let r = lcg(self.rng_state);
            let pos = (r as usize) % f.len();
            return (Some((f[pos], pos)), r);
        }
        let q: Option<usize> = match find_pos(&f, orig) {
            Some(p) => {
                if p + 1 < f.len() {
                    Some(p + 1)
                } else if self.repeat == RepeatMode::All && f.len() > 0 {
                    Some(0)
                } else {
                    None
                }
            },
            None => {
                if self.repeat == RepeatMode::All && f.len() > 0 {
                    Some(0)
                } else {
                    None
                }
            },
        };
        match q {
            None => (None, self.rng_state),
            Some(q) => {
                let next_orig = f[q];
                let sel = match find_pos(&f, next_orig) {
                    Some(p) => p,
                    None => 0,
                };
                proof {
                    lemma_first_pos_increasing(f@, q as int);
                }
                (Some((next_orig, sel)), self.rng_state)
            },
        }
    }

    fn library_advance(&mut self, orig: usize) -> (r: Option<String>)
        requires
            old(self).wf(),
        ensures
            r == old(self).library_step(orig).play,
            *final(self) == old(self).with_step(old(self).library_step(orig), old(self).queue),
    {
        let (c, rng) = self.library_choice(orig);
        self.rng_state = rng;
        match c {
            None => None,
            Some((o, p)) => {
                let t = self.library.tracks[o].clone();
                self.playing_track_index = Some(o);
                self.selected_track_index = p;
                Some(t)
            },
        }
    }

    /// The track that ended: decides what plays next and starts it in the state.
    /// The returned start is `None` exactly when nothing plays next.
    #[verifier::rlimit(80)]
    pub fn advance_track(&mut self) -> (r: Option<PlayStart>)
        requires
            old(self).wf(),
        ensures
            final(self).wf(),
            r is Some <==> old(self).advance_step().play is Some,
            ({
                let st = old(self).advance_step();
                let q = if st.pop_queue {
                    old(self).queue@.drop_first()
                } else {
                    old(self).queue@
                };
                let mid = old(self).with_step(st, final(self).queue);
                &&& final(self).queue@ == q
                &&& match st.play {
                    Some(p) => mid.begins(*final(self), p@) && (r matches Some(s) && s.path@ == p@),
                    None => *final(self) == mid,
                }
            }),
    {
        if self.crossfade_active {
            return None;
        }
        if self.queue.len() > 0 {
            let queued = self.queue.remove(0);
            assert(self.queue@ =~= old(self).queue@.drop_first());
            self.playing_playlist_index = None;
            let s = self.begin_track(&queued);
            return Some(s);
        }
        if self.repeat == RepeatMode::One {
            let target: Option<String> = match self.playing_playlist_index {
                Some(pl) => match self.playing_track_index {
                    Some(i) => {
                        if pl < self.playlists.len() && i < self.playlists[pl].tracks.len() {
                            Some(self.playlists[pl].tracks[i].clone())
                        } else {
                            None
                        }
                    },
                    None => None,
                },
                None => match self.playing_track_index {
                    Some(orig) => {
                        if orig < self.library.tracks.len() {
                            Some(self.library.tracks[orig].clone())
                        } else {
                            None
                        }
                    },
                    None => None,
                },
            };
            match target {
                Some(t) => {
                    let s = self.begin_track(&t);
                    return Some(s);
                },
                None => {},
            }
        }
        let next = match self.playing_playlist_index {
            Some(pl) => self.playlist_advance(pl),
            None => match self.playing_track_index {
                Some(orig) => self.library_advance(orig),
                None => None,
            },
        };
        match next {
            Some(t) => {
                let s = self.begin_track(&t);
                Some(s)
            },
            None => None,
        }
    }

    /// The track a crossfade would move to, with its position in the library or
    /// playlist and the playlist: the head of the queue, else the next of the
    /// playlist or filtered library as `advance_step` picks it (repeat-one
    /// aside). Also gives the generator state after any draw.
    pub open spec fn peek_spec(&self) -> (Option<(String, Option<usize>, Option<usize>)>, u64) {
        if self.queue@.len() > 0 {
            (Some((self.queue@[0], None, None)), self.rng_state)
        } else {
            match self.playing_playlist_index {
                Some(pl) => {
                    let st = self.playlist_step(pl);
                    match st.play {
                        Some(p) => (Some((p, st.playing_track, Some(pl))), st.rng),
                        None => (None, st.rng),
                    }
                },
                None => match self.playing_track_index {
                    Some(orig) => {
                        let st = self.library_step(orig);
                        match st.play {
                            Some(p) => (Some((p, st.playing_track, None)), st.rng),
                            None => (None, st.rng),
                        }
                    },
                    None => (None, self.rng_state),
                },
            }
        }
    }

    /// The track a crossfade would move to; only the random generator advances.
    pub fn peek_next_track(&mut self) -> (r: Option<(String, Option<usize>, Option<usize>)>)
        requires
            old(self).wf(),
        ensures
            r == old(self).peek_spec().0,
            *final(self) == (App { rng_state: old(self).peek_spec().1, ..*old(self) }),
    {
        if self.queue.len() > 0 {
            return Some((self.queue[0].clone(), None, None));
        }
        match self.playing_playlist_index {
            Some(pl) => {
                let (c, rng) = self.playlist_choice(pl);
                self.rng_state = rng;
                match c {
                    Some(a) => Some((self.playlists[pl].tracks[a].clone(), Some(a), Some(pl))),
                    None => None,
                }
            },
            None => match self.playing_track_index {
                Some(orig) => {
                    let (c, rng) = self.library_choice(orig);
                    self.rng_state = rng;
                    match c {
                        Some((o, _p)) => Some((self.library.tracks[o].clone(), Some(o), None)),
                        None => None,
                    }
                },
                None => None,
            },
        }
    }

    // ─── Enter ──────────────────────────────────────────────────────────────

    /// The local track Enter plays on the Library or Playlists tab, with the
    /// playing positions and viewed playlist it leaves: the selected filtered
    /// library track; the selected track of the viewed playlist; or, with no
    /// playlist open, the first track of the selected playlist.
    pub open spec fn local_selection(&self) -> Option<(String, Option<usize>, Option<usize>, Option<usize>)> {
        if self.selected_tab == 0 {
            let f = self.filtered_spec();
            if self.selected_track_index < f.len() {
                Some((
                    self.library.tracks@[f[self.selected_track_index as int] as int],
                    Some(f[self.selected_track_index as int]),
                    None,
                    self.viewing_playlist_index,
                ))
            } else {
                None
            }
        } else if self.selected_tab == 1 {
            match self.viewing_playlist_index {
                Some(idx) => if idx < self.playlists@.len() && self.selected_playlist_track_index
                    < self.playlists@[idx as int].tracks@.len() {
                    Some((
                        self.playlists@[idx as int].tracks@[self.selected_playlist_track_index as int],
                        Some(self.selected_playlist_track_index),
                        Some(idx),
                        Some(idx),
                    ))
                } else {
                    None
                },
                None => {
                    let p = self.selected_playlist_index;
                    if p < self.playlists@.len() && self.playlists@[p as int].tracks@.len() > 0 {
                        Some((self.playlists@[p as int].tracks@[0], Some(0usize), Some(p), Some(p)))
                    } else {
                        None
                    }
                },
            }
        } else {
            None
        }
    }

    /// What Enter plays on the Spotify tab: the selected playlist (as a
    /// playlist, with its name as title) or the selected search result that has
    /// an id (as a track, with its first artist).
    pub open spec fn spotify_pick(
        &self,
        pls: Seq<SpotifyPlaylist>,
        res: Seq<SpotifyTrack>,
    ) -> Option<(Seq<char>, bool, Seq<char>, Seq<char>)> {
        if self.spotify_focus == SpotifyFocus::Playlists {
            if self.spotify_playlist_index < pls.len() {
                let p = pls[self.spotify_playlist_index as int];
                Some((p.id@, true, seq![], p.name@))
            } else {
                None
            }
        } else {
            if self.spotify_search_index < res.len() {
                let t = res[self.spotify_search_index as int];
                match t.id {
                    Some(id) => Some((id@, false, t.artists@[0]@, t.name@)),
                    None => None,
                }
            } else {
                None
            }
        }
    }

    /// A Spotify search result chosen with Enter has an artist.
    pub open spec fn spotify_pick_ok(&self, res: Seq<SpotifyTrack>) -> bool {
        self.selected_tab == 2 && self.spotify_focus == SpotifyFocus::Search
            && self.spotify_search_index < res.len() && res[self.spotify_search_index as int].id is Some
            ==> res[self.spotify_search_index as int].artists@.len() > 0
    }

    fn play_local_selection(&mut self) -> (r: PlayAction)
        requires
            old(self).wf(),
            old(self).selected_tab == 0 || old(self).selected_tab == 1,
        ensures
            match old(self).local_selection() {
                Some((p, pt, pp, v)) => App {
                    playing_track_index: pt,
                    playing_playlist_index: pp,
                    viewing_playlist_index: v,
                    ..*old(self)
                }.begins(*final(self), p@) && (r matches PlayAction::Local(s) && s.path@ == p@),
                None => *final(self) == *old(self) && r is Nothing,
            },
    {
        let pick: Option<(String, Option<usize>, Option<usize>, Option<usize>)> = if self.selected_tab
            == 0 {
            let f = self.filtered_library();
            if self.selected_track_index < f.len() {
                let (orig, path) = (f[self.selected_track_index].0, f[self.selected_track_index].1.clone());
                Some((path, Some(orig), None, self.viewing_playlist_index))
            } else {
                None
            }
        } else {
            match self.viewing_playlist_index {
                Some(idx) => {
                    if idx < self.playlists.len() && self.selected_playlist_track_index
                        < self.playlists[idx].tracks.len() {
                        Some((
                            self.playlists[idx].tracks[self.selected_playlist_track_index].clone(),
                            Some(self.selected_playlist_track_index),
                            Some(idx),
                            Some(idx),
                        ))
                    } else {
                        None
                    }
                },
                None => {
                    let p = self.selected_playlist_index;
                    if p < self.playlists.len() && self.playlists[p].tracks.len() > 0 {
                        Some((self.playlists[p].tracks[0].clone(), Some(0usize), Some(p), Some(p)))
                    } else {
                        None
                    }
                },
            }
        };
        match pick {
            None => PlayAction::Nothing,
            Some((path, pt, pp, v)) => {
                self.playing_track_index = pt;
                self.playing_playlist_index = pp;
                self.viewing_playlist_index = v;
                let s = self.begin_track(&path);
                PlayAction::Local(s)
            },
        }
    }

    fn play_spotify_selection(
        &mut self,
        spotify_playlists: &Vec<SpotifyPlaylist>,
        spotify_results: &Vec<SpotifyTrack>,
    ) -> (r: PlayAction)
        requires
            old(self).selected_tab == 2,
            old(self).spotify_pick_ok(spotify_results@),
        ensures
            match old(self).spotify_pick(spotify_playlists@, spotify_results@) {
                Some((uri, is_pl, artist, title)) => {
                    let (a, t) = if is_pl {
                        ("Playlist"@, title)
                    } else {
                        (artist, title)
                    };
                    &&& final(self).current_artist@ == a
                    &&& final(self).current_track_name@ == t
                    &&& *final(self) == (App {
                        current_artist: final(self).current_artist,
                        current_track_name: final(self).current_track_name,
                        mood_color: mood_of(t, a),
                        ..*old(self)
                    })
                    &&& r matches PlayAction::Spotify { uri: u, is_playlist } && u@ == uri
                        && is_playlist == is_pl
                },
                None => *final(self) == *old(self) && r is Nothing,
            },
    {
            let pick: Option<(String, bool, String, String)> = if self.spotify_focus
                == SpotifyFocus::Playlists {
                if self.spotify_playlist_index < spotify_playlists.len() {
                    let p = &spotify_playlists[self.spotify_playlist_index];
                    Some((p.id.clone(), true, String::new(), p.name.clone()))
                } else {
                    None
                }
            } else {
                if self.spotify_search_index < spotify_results.len() {
                    let t = &spotify_results[self.spotify_search_index];
                    match &t.id {
                        Some(id) => Some((id.clone(), false, t.artists[0].clone(), t.name.clone())),
                        None => None,
                    }
                } else {
                    None
                }
            };
            match pick {
                None => PlayAction::Nothing,
                Some((uri, is_playlist, artist, title)) => {
                    if !is_playlist {
                        self.current_artist = artist;
                        self.current_track_name = title;
                    } else {
                        self.current_track_name = title;
                        self.current_artist = "Playlist".to_owned();
                    }
                    self.update_mood();
                    PlayAction::Spotify { uri, is_playlist }
                },
            }
    }

    /// Enter: plays what the current tab has selected. The lists fetched in the
    /// background are passed in: the Spotify playlists and search results, the
    /// SoundCloud results, and whether a SoundCloud client is configured.
    pub fn play_selected_track(
        &mut self,
        spotify_playlists: &Vec<SpotifyPlaylist>,
        spotify_results: &Vec<SpotifyTrack>,
        soundcloud_results: &Vec<ScTrack>,
        soundcloud_ready: bool,
    ) -> (r: PlayAction)
        requires
            old(self).wf(),
            old(self).spotify_pick_ok(spotify_results@),
        ensures
            final(self).wf(),
            selection_played(
                *old(self),
                *final(self),
                r,
                spotify_playlists@,
                spotify_results@,
                soundcloud_results@,
                soundcloud_ready,
            ),
    {
        if self.selected_tab == 0 || self.selected_tab == 1 {
            return self.play_local_selection();
        }
        if self.selected_tab == 2 {
            return self.play_spotify_selection(spotify_playlists, spotify_results);
        }
        if self.selected_tab == 3 {
            if self.soundcloud_search_index < soundcloud_results.len() && soundcloud_ready {
                let track = soundcloud_results[self.soundcloud_search_index].copy();
                let mut notice = "Streaming: ".to_owned();
                crate::text::push_str_chars(&mut notice, track.title.as_str());
                return PlayAction::SoundCloud { track, notice };
            }
            return PlayAction::Nothing;
        }
        PlayAction::Nothing
    }

    /// Enter on the Playlists tab with no playlist open opens the selected one
    /// (when there are playlists); anywhere else Enter plays the selection as
    /// `play_selected_track` does.
    pub fn enter_playlist(
        &mut self,
        spotify_playlists: &Vec<SpotifyPlaylist>,
        spotify_results: &Vec<SpotifyTrack>,
        soundcloud_results: &Vec<ScTrack>,
        soundcloud_ready: bool,
    ) -> (r: PlayAction)
        requires
            old(self).wf(),
            old(self).spotify_pick_ok(spotify_results@),
        ensures
            final(self).wf(),
            old(self).selected_tab == 1 && old(self).viewing_playlist_index is None ==> r is Nothing
                && *final(self) == (if old(self).playlists@.len() > 0 {
                App {
                    viewing_playlist_index: Some(old(self).selected_playlist_index),
                    selected_playlist_track_index: 0,
                    ..*old(self)
                }
            } else {
                *old(self)
            }),
            !(old(self).selected_tab == 1 && old(self).viewing_playlist_index is None)
                ==> selection_played(
                *old(self),
                *final(self),
                r,
                spotify_playlists@,
                spotify_results@,
                soundcloud_results@,
                soundcloud_ready,
            ),
    {
        if self.selected_tab == 1 && self.viewing_playlist_index.is_none() {
            if self.playlists.len() > 0 {
                self.viewing_playlist_index = Some(self.selected_playlist_index);
                self.selected_playlist_track_index = 0;
            }
            PlayAction::Nothing
        } else {
            self.play_selected_track(
                spotify_playlists,
                spotify_results,
                soundcloud_results,
                soundcloud_ready,
            )
        }
    }

    // ─── Crossfade ──────────────────────────────────────────────────────────

    /// Finds the track a crossfade moves to and shows its labels and mood
    /// already (the caller starts the fade and then calls `crossfade_started`).
    /// Returns the path, its position in library or playlist, and the playlist.
    pub fn prepare_crossfade(&mut self) -> (r: Option<(String, Option<usize>, Option<usize>)>)
        requires
            old(self).wf(),
        ensures
            final(self).wf(),
            r == old(self).peek_spec().0,
            match r {
                None => *final(self) == (App { rng_state: old(self).peek_spec().1, ..*old(self) }),
                Some((p, _, _)) => {
                    let (a, t) = old(self).labels_spec(p@);
                    &&& final(self).current_artist@ == a
                    &&& final(self).current_track_name@ == t
                    &&& *final(self) == (App {
                        rng_state: old(self).peek_spec().1,
                        current_artist: final(self).current_artist,
                        current_track_name: final(self).current_track_name,
                        mood_color: mood_of(t, a),
                        ..*old(self)
                    })
                },
            },
    {
        let pk = self.peek_next_track();
        match pk {
            None => None,
            Some((path, ti, pi)) => {
                let (artist, title) = self.track_labels(&path);
                self.current_artist = artist;
                self.current_track_name = title;
                self.update_mood();
                Some((path, ti, pi))
            },
        }
    }

    /// The crossfade to `path` has started.
    pub fn crossfade_started(
        &mut self,
        path: String,
        duration_ms: u64,
        track_idx: Option<usize>,
        pl_idx: Option<usize>,
    )
        ensures
            *final(self) == (App {
                crossfade_active: true,
                pending_xfade_track: Some(path),
                pending_xfade_duration_ms: duration_ms,
                pending_xfade_track_idx: track_idx,
                pending_xfade_pl_idx: pl_idx,
                ..*old(self)
            }),
    {
        self.crossfade_active = true;
        self.pending_xfade_track = Some(path);
        self.pending_xfade_duration_ms = duration_ms;
        self.pending_xfade_track_idx = track_idx;
        self.pending_xfade_pl_idx = pl_idx;
    }

    /// The crossfade has finished: the faded-in track becomes the playing one
    /// (its positions, length and cover art; the library selection follows it),
    /// it is not yet scrobbled, and the crossfade ends. Returns its path.
    pub fn on_crossfade_complete(&mut self) -> (r: Option<String>)
        requires
            old(self).wf(),
        ensures
            final(self).wf(),
            r == old(self).pending_xfade_track,
            match old(self).pending_xfade_track {
                None => *final(self) == (App { crossfade_active: false, ..*old(self) }),
                Some(p) => {
                    &&& match old(self).meta_index(p@) {
                        Some(i) => same_cover(
                            final(self).current_cover_art,
                            old(self).library.metadata@[i].cover_art,
                        ),
                        None => same_cover(final(self).current_cover_art, old(self).current_cover_art),
                    }
                    &&& *final(self) == (App {
                        playing_track_index: old(self).pending_xfade_track_idx,
                        playing_playlist_index: old(self).pending_xfade_pl_idx,
                        pending_xfade_track: None,
                        pending_xfade_track_idx: None,
                        pending_xfade_pl_idx: None,
                        total_duration_ms: old(self).pending_xfade_duration_ms,
                        track_scrobbled: false,
                        current_cover_art: final(self).current_cover_art,
                        selected_track_index: match (
                            old(self).pending_xfade_track_idx,
                            old(self).pending_xfade_pl_idx,
                        ) {
                            (Some(orig), None) => match first_pos(old(self).filtered_spec(), orig) {
                                Some(q) => q as usize,
                                None => 0,
                            },
                            _ => old(self).selected_track_index,
                        },
                        crossfade_active: false,
                        ..*old(self)
                    })
                },
            },
    {
        let path = match &self.pending_xfade_track {
            None => {
                self.crossfade_active = false;
                return None;
            },
            Some(p) => p.clone(),
        };
        let cover = self.cover_after_fade(&path);
        let sel = self.selection_after_fade();
        self.playing_track_index = self.pending_xfade_track_idx;
        self.playing_playlist_index = self.pending_xfade_pl_idx;
        self.pending_xfade_track = None;
        self.pending_xfade_track_idx = None;
        self.pending_xfade_pl_idx = None;
        self.total_duration_ms = self.pending_xfade_duration_ms;
        self.track_scrobbled = false;
        self.current_cover_art = cover;
        self.selected_track_index = sel;
        self.crossfade_active = false;
        Some(path)
    }

    fn cover_after_fade(&self, path: &String) -> (r: Option<Vec<u8>>)
        requires
            self.wf(),
        ensures
            match self.meta_index(path@) {
                Some(i) => same_cover(r, self.library.metadata@[i].cover_art),
                None => same_cover(r, self.current_cover_art),
            },
    {
        match self.library.position(path) {
            Some(i) => {
                proof {
                    self.lemma_meta_index(path@, i as int);
                }
                copy_opt_bytes(&self.library.metadata[i].cover_art)
            },
            None => copy_opt_bytes(&self.current_cover_art),
        }
    }

    fn selection_after_fade(&self) -> (r: usize)
        requires
            self.wf(),
        ensures
            r == match (self.pending_xfade_track_idx, self.pending_xfade_pl_idx) {
                (Some(orig), None) => match first_pos(self.filtered_spec(), orig) {
                    Some(q) => q as usize,
                    None => 0,
                },
                _ => self.selected_track_index,
            },
    {
        match (self.pending_xfade_track_idx, self.pending_xfade_pl_idx) {
            (Some(orig), None) => {
                let f = self.library.filtered_indices(self.library_search.as_str());
                match find_pos(&f, orig) {
                    Some(q) => q,
                    None => 0,
                }
            },
            _ => self.selected_track_index,
        }
    }

    /// A buffered SoundCloud track starts: its title, uploader and length are
    /// shown, the mood follows, and it is not yet scrobbled.
    pub fn begin_soundcloud(&mut self, track: &ScTrack)
        ensures
            final(self).current_track_name@ == track.title@,
            final(self).current_artist@ == track.user.username@,
            *final(self) == (App {
                current_track_name: final(self).current_track_name,
                current_artist: final(self).current_artist,
                total_duration_ms: track.duration,
                mood_color: mood_of(track.title@, track.user.username@),
                track_scrobbled: false,
                playback_pos_ms: 0,
                ..*old(self)
            }),
    {
        self.current_track_name = track.title.clone();
        self.current_artist = track.user.username.clone();
        self.total_duration_ms = track.duration;
        self.update_mood();
        self.track_scrobbled = false;
        self.playback_pos_ms = 0;
    }
}

// ─── Laws ───────────────────────────────────────────────────────────────────

/// In a playlist without shuffle, the track after the playing one plays next;
/// after the last one, repeat-all goes back to the playlist's first track and
/// otherwise nothing plays (with the queue empty, no crossfade running and
/// repeat-one off).
#[verifier::rlimit(50)]
pub proof fn lemma_playlist_plays_in_order(a: App, pl: usize, i: usize)
    requires
        !a.crossfade_active,
        a.queue@.len() == 0,
        a.repeat != RepeatMode::One,
        !a.shuffle,
        a.playing_playlist_index == Some(pl),
        a.playing_track_index == Some(i),
        pl < a.playlists@.len(),
        i < a.playlists@[pl as int].tracks@.len(),
    ensures
        ({
            let tracks = a.playlists@[pl as int].tracks@;
            let st = a.advance_step();
            &&& i + 1 < tracks.len() ==> st.play == Some(tracks[i + 1]) && st.playing_track
                == Some((i + 1) as usize) && st.sel_pl_track == (i + 1) as usize
            &&& i + 1 == tracks.len() && a.repeat == RepeatMode::All ==> st.play == Some(tracks[0])
                && st.playing_track == Some(0usize) && st.sel_pl_track == 0
            &&& i + 1 == tracks.len() && a.repeat == RepeatMode::Off ==> st.play is None
                && st.playing_track == Some(i)
            &&& st.playing_pl == Some(pl)
            &&& !st.pop_queue
        }),
{
    let n = a.playlists@[pl as int].tracks@.len() as int;
    assert(a.playlist_len(pl) == n);
    assert(a.advance_step() == a.playlist_step(pl));
    let (next, rng) = a.playlist_next(pl);
    assert(rng == a.rng_state);
    let st = a.playlist_step(pl);
    let tracks = a.playlists@[pl as int].tracks@;
    if i + 1 < n {
        assert(next == Some(i + 1));
        assert(st.play == Some(tracks[i + 1]));
        assert(st.playing_track == Some((i + 1) as usize));
    } else if a.repeat == RepeatMode::All {
        assert(next == Some(0int));
        assert(st.play == Some(tracks[0]));
        assert(st.playing_track == Some(0usize));
    } else {
        assert(next is None);
        assert(st.play is None);
    }
}

/// In a playlist under shuffle, the next track is drawn from the whole
/// playlist: the generator advances once and its new state, modulo the length,
/// picks the position (with the queue empty, no crossfade running and
/// repeat-one off).
#[verifier::rlimit(50)]
pub proof fn lemma_playlist_shuffle_draws(a: App, pl: usize)
    requires
        !a.crossfade_active,
        a.queue@.len() == 0,
        a.repeat != RepeatMode::One,
        a.shuffle,
        a.playing_playlist_index == Some(pl),
        pl < a.playlists@.len(),
        a.playlists@[pl as int].tracks@.len() > 0,
    ensures
        ({
            let tracks = a.playlists@[pl as int].tracks@;
            let r = lcg_next(a.rng_state);
            let k = (r as usize) as int % (tracks.len() as int);
            let st = a.advance_step();
            &&& st.rng == r
            &&& st.play == Some(tracks[k])
            &&& st.playing_track == Some(k as usize)
            &&& st.playing_pl == Some(pl)
        }),
{
    let n = a.playlists@[pl as int].tracks@.len() as int;
    assert(a.playlist_len(pl) == n);
    assert(a.advance_step() == a.playlist_step(pl));
    let r = lcg_next(a.rng_state);
    let k = (r as usize) as int % n;
    assert(0 <= k < n);
    assert(a.playlist_next(pl) == (Some(k), r));
}

/// A crossfade moves to the track that would play next when the current one
/// ends (repeat-one aside, which replays instead): the head of the queue when
/// there is one, else the next track of the playlist or library; and when
/// nothing would play next, no crossfade starts.
pub proof fn lemma_crossfade_goes_where_the_track_would(a: App)
    requires
        !a.crossfade_active,
        a.repeat != RepeatMode::One,
    ensures
        match a.peek_spec().0 {
            Some((p, _, _)) => a.advance_step().play == Some(p),
            None => a.advance_step().play is None,
        },
        a.queue@.len() > 0 ==> a.peek_spec().0 == Some(
            (a.queue@[0], None::<usize>, None::<usize>),
        ) && a.advance_step().play == Some(a.queue@[0]),
        a.queue@.len() == 0 ==> a.peek_spec().1 == a.advance_step().rng,
{
    if a.queue@.len() == 0 {
        match a.playing_playlist_index {
            Some(pl) => assert(a.advance_step() == a.playlist_step(pl)),
            None => match a.playing_track_index {
                Some(orig) => assert(a.advance_step() == a.library_step(orig)),
                None => {},
            },
        }
    }
}

/// Enter on the Spotify tab with the playlists list focused plays the selected
/// playlist as a playlist: its id with `is_playlist` set, its name as title and
/// "Playlist" as artist. With the search results focused, a result with an id
/// plays as a track, with its first artist.
pub proof fn lemma_spotify_enter(
    pre: App,
    post: App,
    r: PlayAction,
    pls: Seq<SpotifyPlaylist>,
    res: Seq<SpotifyTrack>,
    sc: Seq<ScTrack>,
    ready: bool,
)
    requires
        selection_played(pre, post, r, pls, res, sc, ready),
        pre.selected_tab == 2,
    ensures
        pre.spotify_focus == SpotifyFocus::Playlists && pre.spotify_playlist_index < pls.len()
            ==> (r matches PlayAction::Spotify { uri, is_playlist } && is_playlist && uri@
            == pls[pre.spotify_playlist_index as int].id@) && post.current_artist@ == "Playlist"@
            && post.current_track_name@ == pls[pre.spotify_playlist_index as int].name@,
        pre.spotify_focus == SpotifyFocus::Search && pre.spotify_search_index < res.len() && res[
            pre.spotify_search_index as int].id is Some ==> (r matches PlayAction::Spotify {
            uri,
            is_playlist,
        } && !is_playlist && uri@ == res[pre.spotify_search_index as int].id->0@)
            && post.current_artist@ == res[pre.spotify_search_index as int].artists@[0]@
            && post.current_track_name@ == res[pre.spotify_search_index as int].name@,
        pre.spotify_focus == SpotifyFocus::Playlists && pre.spotify_playlist_index >= pls.len()
            ==> r is Nothing && post == pre,
        pre.spotify_focus == SpotifyFocus::Search && (pre.spotify_search_index >= res.len() || res[
            pre.spotify_search_index as int].id is None) ==> r is Nothing && post == pre,
{
}

} // verus!
