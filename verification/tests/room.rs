use spotify_rooms::models::room::{
    create_room_step, expiry_cutoff, new_room, room_from_token, Room, RoomCreationAction,
    RoomCreationEvent, ROOM_ID_LENGTH, ROOM_ID_SHORT_LENGTH, ROOM_LIFETIME_NANOS,
};
use spotify_rooms::models::spotify_id::NewSpotifyUser;

fn user() -> NewSpotifyUser {
    NewSpotifyUser {
        spotify_id: "alice".to_string(),
        access_token: "at".to_string(),
        refresh_token: "rt".to_string(),
        expire_date: 10,
    }
}

fn room(id: &str) -> Room {
    Room {
        room_id: id.to_string(),
        spotify_id: "alice".to_string(),
        room_id_short: id[..6].to_string(),
        creation_date: 5,
    }
}

fn is_well_formed_fresh(r: &Room, spotify_id: &str, now: i128) -> bool {
    r.room_id.len() == ROOM_ID_LENGTH
        && r.room_id.chars().all(|c| c.is_ascii_digit() || c.is_ascii_uppercase())
        && r.room_id_short == r.room_id[..ROOM_ID_SHORT_LENGTH]
        && r.spotify_id == spotify_id
        && r.creation_date == now
}

#[test]
fn token_is_upper_cased_and_shortened() {
    let token = b"abcXYZ09qr".to_vec();
    let r = room_from_token(&"bob".to_string(), 42, &token);
    assert_eq!(r.room_id, "ABCXYZ09QR");
    assert_eq!(r.room_id_short, "ABCXYZ");
    assert_eq!(r.spotify_id, "bob");
    assert_eq!(r.creation_date, 42);
}

#[test]
fn token_of_six_characters() {
    let r = room_from_token(&"bob".to_string(), 1, &b"zzzzzz".to_vec());
    assert_eq!(r.room_id, "ZZZZZZ");
    assert_eq!(r.room_id_short, "ZZZZZZ");
}

#[test]
fn new_rooms_are_well_formed_and_differ() {
    let a = new_room(&"alice".to_string(), 100);
    let b = new_room(&"alice".to_string(), 100);
    assert!(is_well_formed_fresh(&a, "alice", 100));
    assert!(is_well_formed_fresh(&b, "alice", 100));
    assert_ne!(a.room_id, b.room_id);
}

#[test]
fn existing_room_is_kept() {
    let rooms = vec![room("FIRST1xxxx"), room("SECOND")];
    match create_room_step(&user(), 9, RoomCreationEvent::Existing(rooms)) {
        RoomCreationAction::Done(r) => assert_eq!(r, room("FIRST1xxxx")),
        _ => panic!("an account with a room gets no new room"),
    }
}

#[test]
fn account_without_room_gets_a_candidate() {
    match create_room_step(&user(), 9, RoomCreationEvent::Existing(vec![])) {
        RoomCreationAction::Insert(r) => assert!(is_well_formed_fresh(&r, "alice", 9)),
        _ => panic!("expected a candidate"),
    }
}

#[test]
fn rejected_candidate_is_replaced() {
    match create_room_step(&user(), 11, RoomCreationEvent::InsertRejected) {
        RoomCreationAction::Insert(r) => assert!(is_well_formed_fresh(&r, "alice", 11)),
        _ => panic!("expected a candidate"),
    }
}

#[test]
fn inserted_row_is_the_room() {
    let rows = vec![room("ROWONE"), room("ROWTWO")];
    match create_room_step(&user(), 11, RoomCreationEvent::Inserted(rows)) {
        RoomCreationAction::Done(r) => assert_eq!(r, room("ROWONE")),
        _ => panic!("expected the stored room"),
    }
}

#[test]
fn rooms_expire_after_a_day() {
    assert_eq!(ROOM_LIFETIME_NANOS, 60 * 60 * 24 * 1_000_000_000);
    assert_eq!(expiry_cutoff(1_700_000_000_000_000_123), 1_700_000_000_000_000_123 - 86_400_000_000_000);
    assert_eq!(expiry_cutoff(86_400_000_000_000), 0);
    assert_eq!(expiry_cutoff(5), 5 - 86_400_000_000_000);
    assert_eq!(expiry_cutoff(-1_000), -1_000 - 86_400_000_000_000);
}

#[test]
fn other_insert_failure_ends_the_making() {
    match create_room_step(&user(), 11, RoomCreationEvent::InsertFailed("connection lost".to_string())) {
        RoomCreationAction::Fail(reason) => assert_eq!(reason, "connection lost"),
        _ => panic!("expected a failure"),
    }
}

#[test]
fn second_making_keeps_the_first_room() {
    let first = match create_room_step(&user(), 1, RoomCreationEvent::Existing(vec![])) {
        RoomCreationAction::Insert(r) => r,
        _ => panic!("expected a candidate"),
    };
    let stored = match create_room_step(&user(), 1, RoomCreationEvent::Inserted(vec![first.clone()])) {
        RoomCreationAction::Done(r) => r,
        _ => panic!("expected the stored room"),
    };
    assert_eq!(stored, first);
    match create_room_step(&user(), 2, RoomCreationEvent::Existing(vec![stored.clone()])) {
        RoomCreationAction::Done(r) => assert_eq!(r, stored),
        _ => panic!("an account has at most one room"),
    }
}
