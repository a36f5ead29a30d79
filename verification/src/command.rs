//! The `:` command line: parsing a command and applying what needs no outside
//! work.
use vstd::prelude::*;
use crate::app::{lcg_next, App, ColorTheme};
use crate::app::playback::PlayStart;
use crate::text::{
    chars_of, decimal, find_char, first_index_from, lowercased, parse_u64, parse_u64_spec,
    push_decimal, push_str_chars, slice_range, string_of, trim, trimmed,
};

verus! {

/// A command typed after `:`.
#[derive(Debug)]
pub enum Command {
    /// Blank input.
    Empty,
    /// `download <url>` or `dl <url>`.
    Download(String),
    /// `theme <name>`.
    Theme(String),
    /// `volume <percent>` or `vol <percent>` (the number is read by the caller).
    Volume(String),
    /// `crossfade <seconds>` or `xfade <seconds>` (read by the caller).
    Crossfade(String),
    /// `sleep <minutes>`.
    Sleep(u64),
    /// `eq reset`.
    EqReset,
    /// `eq <band 1-10> <dB>` (the gain is read by the caller).
    EqSet(usize, String),
    /// `tag`: look the current track up on MusicBrainz.
    Tag,
    /// `lucky` or `dip`: play a random library track.
    Lucky,
    /// `beets`: sync with a beets library.
    Beets,
    /// `cover <url>`: fetch cover art from a URL.
    Cover(String),
    /// A well-formed command whose argument is not usable (it does nothing).
    Ignored,
    /// Anything else.
    Unknown(String),
}

/// The command split at its first two spaces (at most three parts, as
/// `splitn(3, ' ')` gives).
pub open spec fn split3(s: Seq<char>) -> Seq<Seq<char>> {
    match first_index_from(s, ' ', 0) {
        None => seq![s],
        Some(a) => {
            let first = s.subrange(0, a);
            let rest = s.subrange(a + 1, s.len() as int);
            match first_index_from(rest, ' ', 0) {
                None => seq![first, rest],
                Some(b) => seq![first, rest.subrange(0, b), rest.subrange(b + 1, rest.len() as int)],
            }
        },
    }
}

/// The band number of `eq <band> <dB>` when it is 1 to 10.
pub open spec fn band_of(s: Seq<char>) -> Option<usize> {
    match parse_u64_spec(s) {
        Some(b) => if 1 <= b <= 10 {
            Some(b as usize)
        } else {
            None
        },
        None => None,
    }
}

/// `r` is the command typed as `raw` (trimmed and split into words).
pub open spec fn is_command(r: Command, raw: Seq<char>) -> bool {
    let cmd = trim(raw);
    let p = split3(cmd);
    if cmd.len() == 0 {
        r is Empty
    } else if p.len() == 2 && (p[0] == "download"@ || p[0] == "dl"@) {
        r matches Command::Download(u) && u@ == p[1]
    } else if p.len() == 2 && p[0] == "theme"@ {
        r matches Command::Theme(n) && n@ == p[1]
    } else if p.len() == 2 && (p[0] == "volume"@ || p[0] == "vol"@) {
        r matches Command::Volume(n) && n@ == p[1]
    } else if p.len() == 2 && (p[0] == "crossfade"@ || p[0] == "xfade"@) {
        r matches Command::Crossfade(n) && n@ == p[1]
    } else if p.len() == 2 && p[0] == "sleep"@ {
        match parse_u64_spec(p[1]) {
            Some(m) => r == Command::Sleep(m),
            None => r is Ignored,
        }
    } else if p.len() == 2 && p[0] == "eq"@ {
        if p[1] == "reset"@ {
            r is EqReset
        } else {
            r is Ignored
        }
    } else if p.len() == 3 && p[0] == "eq"@ {
        match band_of(p[1]) {
            Some(b) => r matches Command::EqSet(band, g) && band == b && g@ == p[2],
            None => r is Ignored,
        }
    } else if p.len() == 1 && p[0] == "tag"@ {
        r is Tag
    } else if p.len() == 1 && (p[0] == "lucky"@ || p[0] == "dip"@) {
        r is Lucky
    } else if p.len() == 1 && p[0] == "beets"@ {
        r is Beets
    } else if p.len() == 2 && p[0] == "cover"@ {
        r matches Command::Cover(u) && u@ == p[1]
    } else {
        r matches Command::Unknown(c) && c@ == cmd
    }
}

fn split_words(s: &[char]) -> (r: Vec<Vec<char>>)
    ensures
        r@.len() == split3(s@).len(),
        forall|i: int| 0 <= i < r@.len() ==> r@[i]@ == split3(s@)[i],
{
    match find_char(s, ' ') {
        None => {
            let mut v: Vec<Vec<char>> = Vec::new();
            let w = slice_range(s, 0, s.len());
            assert(w@ =~= s@);
            v.push(w);
            v
        },
        Some(a) => {
            let n = s.len();
            let first = slice_range(s, 0, a);
            let rest = slice_range(s, a + 1, n);
            let mut v: Vec<Vec<char>> = Vec::new();
            v.push(first);
            match find_char(rest.as_slice(), ' ') {
                None => {
                    v.push(rest);
                },
                Some(b) => {
                    let m = rest.len();
                    let second = slice_range(rest.as_slice(), 0, b);
                    let third = slice_range(rest.as_slice(), b + 1, m);
                    v.push(second);
                    v.push(third);
                },
            }
            v
        },
    }
}

fn word_is(w: &Vec<char>, lit: &str) -> (r: bool)
    ensures
        r == (w@ == lit@),
{
    crate::text::str_eq_chars(lit, w.as_slice())
}

/// Parses a command line typed after `:`.
pub fn parse_command(raw: &str) -> (r: Command)
    ensures
        is_command(r, raw@),
{
    let all = chars_of(raw);
    let cmd = trimmed(all.as_slice());
    if cmd.len() == 0 {
        return Command::Empty;
    }
    let p = split_words(cmd.as_slice());
    let n = p.len();
    if n == 2 && (word_is(&p[0], "download") || word_is(&p[0], "dl")) {
        return Command::Download(string_of(p[1].as_slice()));
    }
    if n == 2 && word_is(&p[0], "theme") {
        return Command::Theme(string_of(p[1].as_slice()));
    }
    if n == 2 && (word_is(&p[0], "volume") || word_is(&p[0], "vol")) {
        return Command::Volume(string_of(p[1].as_slice()));
    }
    if n == 2 && (word_is(&p[0], "crossfade") || word_is(&p[0], "xfade")) {
        return Command::Crossfade(string_of(p[1].as_slice()));
    }
    if n == 2 && word_is(&p[0], "sleep") {
        return match parse_u64(p[1].as_slice()) {
            Some(m) => Command::Sleep(m),
            None => Command::Ignored,
        };
    }
    if n == 2 && word_is(&p[0], "eq") {
        if word_is(&p[1], "reset") {
            return Command::EqReset;
        }
        return Command::Ignored;
    }
    if n == 3 && word_is(&p[0], "eq") {
        return match parse_u64(p[1].as_slice()) {
            Some(b) => {
                if 1 <= b && b <= 10 {
                    Command::EqSet(b as usize, string_of(p[2].as_slice()))
                } else {
                    Command::Ignored
                }
            },
            None => Command::Ignored,
        };
    }
    if n == 1 && word_is(&p[0], "tag") {
        return Command::Tag;
    }
    if n == 1 && (word_is(&p[0], "lucky") || word_is(&p[0], "dip")) {
        return Command::Lucky;
    }
    if n == 1 && word_is(&p[0], "beets") {
        return Command::Beets;
    }
    if n == 2 && word_is(&p[0], "cover") {
        return Command::Cover(string_of(p[1].as_slice()));
    }
    Command::Unknown(string_of(cmd.as_slice()))
}

/// What the caller does after a command.
#[derive(Debug)]
pub enum CommandEffect {
    Nothing,
    /// Show this notification (the state already changed).
    Notify(String),
    /// Download this URL into the music folder.
    Download(String),
    /// Set the volume from this percentage text.
    Volume(String),
    /// Set the crossfade from this seconds text.
    Crossfade(String),
    /// Set the sleep timer to this many seconds from now (0: off) and show the
    /// notification.
    Sleep(u64, String),
    /// Reset every equalizer band and show "EQ reset".
    EqReset,
    /// Set equalizer band `band` (1-10) from this gain text.
    EqSet(usize, String),
    /// Look the current track up on MusicBrainz.
    Tag,
    /// Sync with the beets library.
    Beets,
    /// Fetch cover art from this URL.
    Cover(String),
    /// A random track started (when the library is not empty); show the text.
    Lucky(Option<PlayStart>, String),
}

/// What running the command `c` does: `old` is the state before, `new` the
/// state after and `r` what is handed back to the caller.
pub open spec fn command_applied(old: App, new: App, c: Command, r: CommandEffect) -> bool {
    match c {
        Command::Empty | Command::Ignored => new == old && r is Nothing,
        Command::Download(u) => new == old && (r matches CommandEffect::Download(v) && v@ == u@),
        Command::Theme(name) => match ColorTheme::from_lower_spec(lowercased(name@)) {
            Some(t) => new == (App { color_theme: t, ..old }) && (r matches CommandEffect::Notify(
                n,
            ) && n@ == "Theme: "@ + name@),
            None => new == old && r is Nothing,
        },
        Command::Volume(v) => new == old && (r matches CommandEffect::Volume(w) && w@ == v@),
        Command::Crossfade(v) => new == old && (r matches CommandEffect::Crossfade(w) && w@ == v@),
        Command::Sleep(m) => new == old && if m == 0 {
            r matches CommandEffect::Sleep(s, n) && s == 0 && n@ == "Sleep timer: off"@
        } else {
            r matches CommandEffect::Sleep(s, n) && s == (if m * 60 <= u64::MAX {
                m * 60
            } else {
                u64::MAX as int
            }) && n@ == "Sleep timer: "@ + decimal(m as nat) + "m"@
        },
        Command::EqReset => new == old && r is EqReset,
        Command::EqSet(b, g) => new == old && (r matches CommandEffect::EqSet(b2, g2) && b2 == b
            && g2@ == g@),
        Command::Tag => new == old && r is Tag,
        Command::Lucky => lucky_applied(old, new, r),
        Command::Beets => new == old && r is Beets,
        Command::Cover(u) => new == old && (r matches CommandEffect::Cover(v) && v@ == u@),
        Command::Unknown(cmd) => new == old && (r matches CommandEffect::Notify(n) && n@
            == "Unknown command: "@ + cmd@),
    }
}

/// The lucky dip: with an empty library nothing changes; otherwise the next
/// random number picks a library track, which starts playing.
pub open spec fn lucky_applied(old: App, new: App, r: CommandEffect) -> bool {
    let n = old.library.tracks@.len();
    if n == 0 {
        new == old && (r matches CommandEffect::Lucky(s, t) && s is None && t@
            == "Library empty, no luck today!"@)
    } else {
        let r2 = lcg_next(old.rng_state);
        let idx = ((r2 as usize) as int % (n as int)) as usize;
        let path = old.library.tracks@[idx as int]@;
        &&& App {
            rng_state: r2,
            playing_track_index: Some(idx),
            playing_playlist_index: None,
            ..old
        }.begins(new, path)
        &&& r matches CommandEffect::Lucky(s, _t) && s matches Some(ps) && ps.path@ == path
    }
}

impl App {
    /// Runs a command typed after `:` (see `parse_command`): the theme, sleep
    /// and lucky-dip commands change the state here; the others are handed to
    /// the caller.
    pub fn execute_command(&mut self, raw: &str) -> (r: CommandEffect)
        requires
            old(self).wf(),
        ensures
            final(self).wf(),
            exists|c: Command| #[trigger]
                is_command(c, raw@) && command_applied(*old(self), *final(self), c, r),
    {
        let c = parse_command(raw);
        let ghost gc = c;
        let r = self.apply_command(c);
        assert(is_command(gc, raw@) && command_applied(*old(self), *final(self), gc, r));
        r
    }

    /// Runs a parsed command.
    pub fn apply_command(&mut self, c: Command) -> (r: CommandEffect)
        requires
            old(self).wf(),
        ensures
            final(self).wf(),
            command_applied(*old(self), *final(self), c, r),
    {
        match c {
            Command::Empty => CommandEffect::Nothing,
            Command::Download(u) => CommandEffect::Download(u),
            Command::Theme(name) => {
                match ColorTheme::from_name(name.as_str()) {
                    Some(t) => {
                        self.color_theme = t;
                        let mut n = "Theme: ".to_owned();
                        push_str_chars(&mut n, name.as_str());
                        CommandEffect::Notify(n)
                    },
                    None => CommandEffect::Nothing,
                }
            },
            Command::Volume(v) => CommandEffect::Volume(v),
            Command::Crossfade(v) => CommandEffect::Crossfade(v),
            Command::Sleep(m) => {
                if m == 0 {
                    CommandEffect::Sleep(0, "Sleep timer: off".to_owned())
                } else {
                    let secs = if m <= u64::MAX / 60 {
                        m * 60
                    } else {
                        u64::MAX
                    };
                    let mut n = "Sleep timer: ".to_owned();
                    push_decimal(&mut n, m);
                    push_str_chars(&mut n, "m");
                    CommandEffect::Sleep(secs, n)
                }
            },
            Command::EqReset => CommandEffect::EqReset,
            Command::EqSet(b, g) => CommandEffect::EqSet(b, g),
            Command::Tag => CommandEffect::Tag,
            Command::Lucky => self.lucky_dip(),
            Command::Beets => CommandEffect::Beets,
            Command::Cover(u) => CommandEffect::Cover(u),
            Command::Ignored => CommandEffect::Nothing,
            Command::Unknown(cmd) => {
                let mut n = "Unknown command: ".to_owned();
                push_str_chars(&mut n, cmd.as_str());
                CommandEffect::Notify(n)
            },
        }
    }

    /// Plays a random library track (the lucky dip).
    fn lucky_dip(&mut self) -> (r: CommandEffect)
        requires
            old(self).wf(),
        ensures
            final(self).wf(),
            lucky_applied(*old(self), *final(self), r),
    {
        let n = self.library.tracks.len();
        if n == 0 {
            return CommandEffect::Lucky(None, "Library empty, no luck today!".to_owned());
        }
        let r = self.next_random();
        let idx = (r as usize) % n;
        let path = self.library.tracks[idx].clone();
        self.playing_track_index = Some(idx);
        self.playing_playlist_index = None;
        let s = self.begin_track(&path);
        CommandEffect::Lucky(Some(s), "Lucky Dip: \u{1F3B2} Playing random track...".to_owned())
    }
}

} // verus!
