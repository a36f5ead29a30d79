use vstd::prelude::*;

pub mod text;
pub mod paths;
pub mod karaoke;
pub mod metadata;
pub mod playlist;
pub mod library;
pub mod app;
pub mod urlenc;
pub mod soundcloud;
pub mod spotify;
pub mod command;
pub mod lastfm;
pub mod json;
pub mod musicbrainz;
pub mod downloader;
pub mod view;

verus! {
} // verus!
