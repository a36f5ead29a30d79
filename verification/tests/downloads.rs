use terminal_dj::downloader::{download_args, finish_message, read_line, start_message, DownloadEvent};

#[test]
fn destination_line_names_the_file() {
    let e = read_line("[download] Destination: /music/My Song.webm  ");
    match &e {
        DownloadEvent::Destination(f) => assert_eq!(f, "/music/My Song.webm"),
        other => panic!("unexpected {:?}", other),
    }
    assert_eq!(e.message(), Some("Downloading...".to_string()));
}

#[test]
fn destination_is_taken_after_the_last_marker() {
    match read_line("[download] Destination: a Destination: b.mp3") {
        DownloadEvent::Destination(f) => assert_eq!(f, "b.mp3"),
        other => panic!("unexpected {:?}", other),
    }
}

#[test]
fn progress_line_gives_percent_words_and_message() {
    let e = read_line("[download]  42.5% of 3.00MiB at 1.00MiB/s ETA 00:02");
    match &e {
        DownloadEvent::Progress(ps, m) => {
            assert_eq!(ps, &vec!["42.5".to_string()]);
            assert_eq!(m, "42.5% of 3.00MiB at 1.00MiB/s ETA 00:02");
        }
        other => panic!("unexpected {:?}", other),
    }
    assert_eq!(e.message(), Some("42.5% of 3.00MiB at 1.00MiB/s ETA 00:02".to_string()));
}

#[test]
fn progress_words_lose_all_trailing_percent_signs() {
    match read_line("[download] 100%% x% done") {
        DownloadEvent::Progress(ps, _) => assert_eq!(ps, vec!["100".to_string(), "x".to_string()]),
        other => panic!("unexpected {:?}", other),
    }
}

#[test]
fn extract_lines_are_told_apart() {
    match read_line("[ExtractAudio] Destination: /music/Song.mp3") {
        DownloadEvent::Extracting(f) => assert_eq!(f, "/music/Song.mp3"),
        other => panic!("unexpected {:?}", other),
    }
    let e = read_line("[ExtractAudio] Not converting audio");
    match &e {
        DownloadEvent::Extracted(m) => assert_eq!(m, "Not converting audio"),
        other => panic!("unexpected {:?}", other),
    }
    assert_eq!(read_line("[ExtractAudio] Destination: x").message(), Some("Extracting Audio...".to_string()));
}

#[test]
fn other_lines_change_nothing() {
    assert!(matches!(read_line("[youtube] abc: Downloading webpage"), DownloadEvent::Nothing));
    assert!(matches!(read_line("[download] Resuming download"), DownloadEvent::Nothing));
    assert!(matches!(read_line(""), DownloadEvent::Nothing));
    assert_eq!(read_line("plain").message(), None);
}

#[test]
fn yt_dlp_arguments_are_fixed() {
    let args = download_args("/m/%(title)s.%(ext)s", "https://v");
    assert_eq!(
        args,
        vec![
            "-x", "--audio-format", "mp3", "--audio-quality", "0", "--embed-metadata",
            "--embed-thumbnail", "--no-playlist", "--newline", "-o", "/m/%(title)s.%(ext)s",
            "https://v",
        ]
    );
}

#[test]
fn download_messages() {
    assert_eq!(start_message("https://v"), "Initializing download for: https://v");
    assert_eq!(finish_message(true), "Download Complete");
    assert_eq!(finish_message(false), "Download Failed");
}
