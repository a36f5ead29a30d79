# terminal_dj

The decision-making core of Terminal DJ, a music player for the terminal,
written in Verus and verified.

## Layout

- `src/` — the verified library.
  - `app.rs`, `app/playback.rs` — the player state: tabs, lists and selections,
    what plays next (queue, repeat, shuffle, playlists, crossfade), sleep timer,
    scrobbling and Spotify sync decisions; `app/classic.rs` — the first layout's
    modes and download intake.
  - `command.rs` — the `:` command line.
  - `library.rs`, `metadata.rs`, `paths.rs`, `playlist.rs` — the local library
    and its search.
  - `karaoke.rs` — LRC lyrics: splitting the text into timed lines, ordering them, and the current line (the seconds field is read as a float in `app/lyrics.rs`).
  - `json.rs`, `musicbrainz.rs`, `soundcloud.rs`, `spotify.rs`, `lastfm.rs` —
    what is read from and sent to the web services (Last.fm signing goes through
    the `md5` crate, URL encoding through `percent-encoding`).
  - `downloader.rs` — yt-dlp's command line and output.
  - `view.rs` — the texts the interface shows.
  - `text.rs`, `urlenc.rs` — character-level helpers.
- `tests/` — tests of the library.
- `app/` — the program around it: terminal, audio, database, HTTP, background
  tasks and drawing.
