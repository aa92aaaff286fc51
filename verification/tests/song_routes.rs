use spotify_rooms::models::song::NewSong;
use spotify_rooms::models::SERDE_ERROR;
use spotify_rooms::routes::song::{
    add_songs_after_insert, add_songs_after_latest_track, add_songs_after_parse, AddSongProps,
};

fn props(uri: &str) -> AddSongProps {
    AddSongProps {
        title: "Song".to_string(),
        duration_ms: 1234,
        image: "img".to_string(),
        album: "Album".to_string(),
        uri: uri.to_string(),
    }
}

#[test]
fn unreadable_song_data() {
    let r = add_songs_after_parse(false, Err("expected value".to_string())).unwrap_err();
    assert_eq!(r.status, 500);
    assert_eq!(
        r.body,
        r#"{"data":null,"success":false,"status_code":500,"error":"AddSongs: Data should contain fields room_id and title"}"#
    );
    assert_eq!(add_songs_after_parse(false, Ok(props("u"))).unwrap(), props("u"));
}

#[test]
fn last_song_is_refused() {
    let r = add_songs_after_latest_track(true, "R".to_string(), props("spotify:1"), Ok("spotify:1".to_string()))
        .unwrap_err();
    assert_eq!(r.status, 500);
    assert_eq!(
        r.body,
        r#"{"data":null,"success":false,"status_code":500,"error":"AddSongs: Trying to add the last song again, error: Logic Error"}"#
    );
}

#[test]
fn same_song_twice_in_a_row_is_refused() {
    let song = add_songs_after_latest_track(false, "R".to_string(), props("spotify:5"), Ok("spotify:4".to_string()))
        .unwrap();
    let finish = add_songs_after_insert(false, "R".to_string(), song.uri.clone(), Ok(Some("[]".to_string())));
    let (_, latest) = finish.latest_track.unwrap();
    let again = add_songs_after_latest_track(false, "R".to_string(), props("spotify:5"), Ok(latest));
    assert_eq!(again.unwrap_err().status, 500);
}

#[test]
fn other_song_is_stored() {
    let song = add_songs_after_latest_track(false, "R".to_string(), props("spotify:2"), Ok("spotify:1".to_string()))
        .unwrap();
    assert_eq!(
        song,
        NewSong {
            uri: "spotify:2".to_string(),
            title: "Song".to_string(),
            room_id: "R".to_string(),
            album: "Album".to_string(),
            duration_ms: 1234,
            image: "img".to_string(),
        }
    );
}

#[test]
fn unreadable_last_song() {
    let r = add_songs_after_latest_track(false, "R".to_string(), props("u"), Err("no row".to_string()))
        .unwrap_err();
    assert_eq!(
        r.body,
        r#"{"data":null,"success":false,"status_code":500,"error":"AddSongs: Can't get latest_track"}"#
    );
}

#[test]
fn stored_song_becomes_last_song() {
    let f = add_songs_after_insert(false, "R".to_string(), "u".to_string(), Ok(Some("[{\"id\":1}]".to_string())));
    assert_eq!(f.latest_track, Some(("R".to_string(), "u".to_string())));
    assert_eq!(f.response.status, 200);
    assert_eq!(
        f.response.body,
        r#"{"data":[{"id":1}],"success":true,"status_code":200,"error":null}"#
    );
    let g = add_songs_after_insert(false, "R".to_string(), "u".to_string(), Ok(None));
    assert_eq!(g.response.body, SERDE_ERROR);
}

#[test]
fn failed_insert_changes_nothing() {
    let f = add_songs_after_insert(false, "R".to_string(), "u".to_string(), Err("dup".to_string()));
    assert_eq!(f.latest_track, None);
    assert_eq!(
        f.response.body,
        r#"{"data":null,"success":false,"status_code":500,"error":"AddSongs: Could not add song to room"}"#
    );
}
