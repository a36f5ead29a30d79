//! User playlists kept in the local database.
use vstd::prelude::*;

verus! {

/// A named, ordered list of track paths.
#[derive(Debug)]
pub struct Playlist {
    pub id: i64,
    pub name: String,
    pub tracks: Vec<String>,
}

impl Playlist {
    /// An empty playlist with the given database id and name.
    pub fn new(id: i64, name: String) -> (r: Playlist)
        ensures
            r.id == id,
            r.name == name,
            r.tracks@.len() == 0,
    {
        Playlist { id, name, tracks: Vec::new() }
    }
}

} // verus!
