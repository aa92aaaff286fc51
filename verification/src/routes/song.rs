//! The song routes: read the queue of a room, add a song to it.

use vstd::prelude::*;
use crate::models::song::NewSong;
use crate::routes::{is_data_response, is_error_response, send_data, send_error, Response};

verus! {

/// The song that a client asks to add.
#[derive(Debug, Clone, PartialEq, Eq)]
pub struct AddSongProps {
    pub title: String,
    pub duration_ms: i32,
    pub image: String,
    pub album: String,
    pub uri: String,
}

/// Message of the failure to read the songs of a room.
pub const GET_SONGS_FAILED: &'static str = "GetSongs: Could not retrieve any song";

/// Message of the failure to read the song a client sent.
pub const ADD_SONGS_BAD_DATA: &'static str = "AddSongs: Data should contain fields room_id and title";

/// Message of the failure to read the last song added to a room.
pub const ADD_SONGS_NO_LATEST_TRACK: &'static str = "AddSongs: Can't get latest_track";

/// The cause reported when a client adds the last song again.
pub const LOGIC_ERROR: &'static str = "Logic Error";

/// Message of the refusal to add the last song again.
pub const ADD_SONGS_REPEATED: &'static str = "AddSongs: Trying to add the last song again";

/// Message of the failure to store a song.
pub const ADD_SONGS_INSERT_FAILED: &'static str = "AddSongs: Could not add song to room";

/// The end of adding a song: the answer, and the room and song to record as
/// the room's last song, where the song was stored.
#[derive(Debug, Clone, PartialEq, Eq)]
pub struct AddSongFinish {
    pub latest_track: Option<(String, String)>,
    pub response: Response,
}

/// The first decision of adding a song, once the client's data is read:
/// go on with the song, or answer the failure to read it.
pub fn add_songs_after_parse(detailed: bool, parsed: Result<AddSongProps, String>) -> (r: Result<
    AddSongProps,
    Response,
>)
    ensures
        match parsed {
            Ok(props) => r == Ok::<AddSongProps, Response>(props),
            Err(e) => r matches Err(resp) && is_error_response(
                resp,
                detailed,
                e@,
                500,
                ADD_SONGS_BAD_DATA@,
            ),
        },
{
    match parsed {
        Ok(props) => Ok(props),
        Err(e) => Err(send_error(detailed, e.as_str(), 500, ADD_SONGS_BAD_DATA)),
    }
}

/// The song that the room stores for the client's data.
pub open spec fn new_song_for(room_id: String, props: AddSongProps) -> NewSong {
    NewSong {
        room_id,
        title: props.title,
        uri: props.uri,
        album: props.album,
        duration_ms: props.duration_ms,
        image: props.image,
    }
}

/// Whether a room takes a song, given its last song: only a different one.
pub open spec fn takes_song(latest: Seq<char>, uri: Seq<char>) -> bool {
    latest != uri
}

/// The room's last song after a request to add `uri`: `uri` where the room
/// took it and stored it (see `add_songs_after_insert`), unchanged where it
/// was refused.
pub open spec fn latest_after(latest: Seq<char>, uri: Seq<char>) -> Seq<char> {
    if takes_song(latest, uri) {
        uri
    } else {
        latest
    }
}

/// A room never gets the same song twice in a row: after any request to add
/// `uri`, a second request to add `uri` is refused.
pub proof fn no_song_twice_in_a_row(latest: Seq<char>, uri: Seq<char>)
    ensures
        !takes_song(latest_after(latest, uri), uri),
{
}

/// A room takes any song that differs from its last song, whatever the
/// last song is (the empty text of a new room included), and refuses the
/// last song itself.
pub proof fn takes_song_exactly_when_it_differs(latest: Seq<char>, uri: Seq<char>)
    ensures
        latest != uri ==> takes_song(latest, uri),
        !takes_song(uri, uri),
{
}

/// The song stored for a request is the requested one, in the room asked for.
pub proof fn new_song_is_the_requested_song(room_id: String, props: AddSongProps)
    ensures
        new_song_for(room_id, props).room_id == room_id,
        new_song_for(room_id, props).uri == props.uri,
        new_song_for(room_id, props).title == props.title,
        new_song_for(room_id, props).album == props.album,
        new_song_for(room_id, props).duration_ms == props.duration_ms,
        new_song_for(room_id, props).image == props.image,
{
}

/// The second decision of adding a song, once the room's last song is
/// read: a song equal to the last one is refused, any other is stored.
pub fn add_songs_after_latest_track(
    detailed: bool,
    room_id: String,
    props: AddSongProps,
    latest_track: Result<String, String>,
) -> (r: Result<NewSong, Response>)
    ensures
        match latest_track {
            Err(e) => r matches Err(resp) && is_error_response(
                resp,
                detailed,
                e@,
                500,
                ADD_SONGS_NO_LATEST_TRACK@,
            ),
            Ok(latest) => if !takes_song(latest@, props.uri@) {
                r matches Err(resp) && is_error_response(
                    resp,
                    detailed,
                    LOGIC_ERROR@,
                    500,
                    ADD_SONGS_REPEATED@,
                )
            } else {
                r == Ok::<NewSong, Response>(new_song_for(room_id, props))
            },
        },
        latest_track matches Ok(latest) ==> (latest@ != props.uri@ <==> r is Ok),
        latest_track matches Ok(latest) ==> (latest@ != props.uri@ ==> (r matches Ok(song) && song.room_id
            == room_id && song.uri == props.uri && song.title == props.title && song.album
            == props.album && song.duration_ms == props.duration_ms && song.image == props.image)),
{
    match latest_track {
        Err(e) => Err(send_error(detailed, e.as_str(), 500, ADD_SONGS_NO_LATEST_TRACK)),
        Ok(latest) => {
            if latest == props.uri {
                Err(send_error(detailed, LOGIC_ERROR, 500, ADD_SONGS_REPEATED))
            } else {
                Ok(
                    NewSong {
                        room_id,
                        title: props.title,
                        uri: props.uri,
                        album: props.album,
                        duration_ms: props.duration_ms,
                        image: props.image,
                    },
                )
            }
        },
    }
}

/// The last decision of adding a song, once the store answered: a stored
/// song becomes the room's last song and its rows are sent back; a failure
/// is answered and changes nothing.
pub fn add_songs_after_insert(
    detailed: bool,
    room_id: String,
    uri: String,
    inserted: Result<Option<String>, String>,
) -> (r: AddSongFinish)
    ensures
        match inserted {
            Ok(rows_json) => r.latest_track == Some((room_id, uri)) && is_data_response(
                r.response,
                match rows_json {
                    Some(d) => Some(d@),
                    None => None,
                },
            ),
            Err(e) => r.latest_track is None && is_error_response(
                r.response,
                detailed,
                e@,
                500,
                ADD_SONGS_INSERT_FAILED@,
            ),
        },
{
    match inserted {
        Ok(rows_json) => {
            let response = match rows_json {
                Some(d) => send_data(Some(d.as_str())),
                None => send_data(None),
            };
            AddSongFinish { latest_track: Some((room_id, uri)), response }
        },
        Err(e) => AddSongFinish {
            latest_track: None,
            response: send_error(detailed, e.as_str(), 500, ADD_SONGS_INSERT_FAILED),
        },
    }
}

} // verus!
