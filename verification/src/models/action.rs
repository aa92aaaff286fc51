//! The log of what each room's clients did last.

use vstd::prelude::*;

verus! {

/// A logged action. `timestamp` is in nanoseconds since the Unix epoch
/// (negative before it).
#[derive(Debug, Clone, PartialEq, Eq)]
pub struct RoomAction {
    pub id: i32,
    pub room_id: String,
    pub action: String,
    pub timestamp: i128,
}

/// An action to log. `timestamp` is in nanoseconds since the Unix epoch
/// (negative before it).
#[derive(Debug, Clone, PartialEq, Eq)]
pub struct NewRoomAction {
    pub room_id: String,
    pub action: String,
    pub timestamp: i128,
}

/// The action logged when a client reads the songs of a room.
pub const SONG_GET_ACTION: &'static str = "SongGet";

/// The action logged when a client adds a song to a room.
pub const ADD_SONG_ACTION: &'static str = "AddSong";

/// The record that logs `action` in room `room_id` at time `now`.
pub fn new_room_action(room_id: String, action: String, now: i128) -> (r: NewRoomAction)
    ensures
        r == (NewRoomAction { room_id, action, timestamp: now }),
{
    NewRoomAction { action, timestamp: now, room_id }
}

} // verus!
