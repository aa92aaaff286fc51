//! Songs queued in a room.

use vstd::prelude::*;

verus! {

/// A stored song.
#[derive(Debug, Clone, PartialEq, Eq)]
pub struct Song {
    pub id: i32,
    pub uri: String,
    pub title: String,
    pub room_id: String,
    pub album: String,
    pub duration_ms: i32,
    pub image: String,
}

/// A song to store.
#[derive(Debug, Clone, PartialEq, Eq)]
pub struct NewSong {
    pub uri: String,
    pub title: String,
    pub room_id: String,
    pub album: String,
    pub duration_ms: i32,
    pub image: String,
}

} // verus!
