//! Rooms: one per Spotify account, named by a random identifier.

use vstd::prelude::*;
use crate::models::spotify_id::NewSpotifyUser;
use crate::models::room_token::{random_alphanumeric, RoomToken};

verus! {

/// A room. `creation_date` is in nanoseconds since the Unix epoch (negative
/// before it).
#[derive(Debug, Clone, PartialEq, Eq)]
pub struct Room {
    pub room_id: String,
    pub spotify_id: String,
    pub room_id_short: String,
    pub creation_date: i128,
}

/// Number of characters of a room identifier.
pub const ROOM_ID_LENGTH: usize = 64;

/// Number of characters of the short form of a room identifier.
pub const ROOM_ID_SHORT_LENGTH: usize = 6;

/// How long a room lives, in nanoseconds: one day.
pub const ROOM_LIFETIME_NANOS: i128 = 86_400_000_000_000;

/// ASCII letters and digits.
pub open spec fn is_ascii_alphanumeric(b: u8) -> bool {
    ||| 48 <= b <= 57
    ||| 65 <= b <= 90
    ||| 97 <= b <= 122
}

/// The upper-case form of an ASCII character.
pub open spec fn ascii_uppercase(b: u8) -> u8 {
    if 97 <= b <= 122 {
        (b - 32) as u8
    } else {
        b
    }
}

/// The room identifier made of a random token: the token in upper case.
pub open spec fn room_id_from_token(token: Seq<u8>) -> Seq<char> {
    token.map_values(|b: u8| ascii_uppercase(b) as char)
}

/// What a room identifier looks like: 64 upper-case ASCII letters and digits.
pub open spec fn is_room_id(s: Seq<char>) -> bool {
    &&& s.len() == ROOM_ID_LENGTH
    &&& forall|i: int|
        0 <= i < s.len() ==> {
            ||| '0' <= #[trigger] s[i] <= '9'
            ||| 'A' <= s[i] <= 'Z'
        }
}

/// The room that `token` names, for account `spotify_id`, created at `now`.
pub open spec fn is_room_from_token(room: Room, spotify_id: Seq<char>, now: i128, token: Seq<u8>) -> bool {
    &&& room.room_id@ == room_id_from_token(token)
    &&& room.room_id_short@ == room.room_id@.take(ROOM_ID_SHORT_LENGTH as int)
    &&& room.spotify_id@ == spotify_id
    &&& room.creation_date == now
}

/// The room is named by a token of the random draw.
pub open spec fn is_drawn_room(room: Room, spotify_id: Seq<char>, now: i128) -> bool {
    exists|t: RoomToken| #[trigger] is_room_from_token(room, spotify_id, now, t.bytes_view())
}

/// A new room for account `spotify_id`, created at `now`, named by a token
/// of the random draw: a well-formed identifier whose first six characters
/// are its short form.
pub open spec fn is_fresh_room(room: Room, spotify_id: Seq<char>, now: i128) -> bool {
    &&& is_drawn_room(room, spotify_id, now)
    &&& is_room_id(room.room_id@)
    &&& room.room_id_short@ == room.room_id@.take(ROOM_ID_SHORT_LENGTH as int)
    &&& room.spotify_id@ == spotify_id
    &&& room.creation_date == now
}

/// The room that a random token names: the token in upper case as its
/// identifier, the first six characters of it as its short form.
pub fn room_from_token(spotify_id: &String, now: i128, token: &Vec<u8>) -> (room: Room)
    requires
        token@.len() >= ROOM_ID_SHORT_LENGTH,
        forall|i: int| 0 <= i < token@.len() ==> #[trigger] token@[i] < 128,
    ensures
        is_room_from_token(room, spotify_id@, now, token@),
{
    let mut room_id = String::new();
    let mut room_id_short = String::new();
    let mut i: usize = 0;
    while i < token.len()
        invariant
            i <= token@.len(),
            token@.len() >= ROOM_ID_SHORT_LENGTH,
            room_id@.len() == i,
            forall|j: int| 0 <= j < i ==> #[trigger] room_id@[j] == ascii_uppercase(token@[j]) as char,
            room_id_short@ == room_id@.take(if i < ROOM_ID_SHORT_LENGTH { i as int } else { ROOM_ID_SHORT_LENGTH as int }),
        decreases token@.len() - i,
    {
        let b: u8 = token[i];
        let c: u8 = if 97 <= b && b <= 122 { b - 32 } else { b };
        room_id.push(c as char);
        if i < ROOM_ID_SHORT_LENGTH {
            room_id_short.push(c as char);
        }
        i = i + 1;
    }
    assert(room_id@ =~= room_id_from_token(token@));
    Room { room_id, spotify_id: spotify_id.clone(), room_id_short, creation_date: now }
}

/// An alphanumeric token of 64 characters names a well-formed room identifier.
pub proof fn lemma_token_names_room_id(token: Seq<u8>)
    requires
        token.len() == ROOM_ID_LENGTH,
        forall|i: int| 0 <= i < token.len() ==> is_ascii_alphanumeric(#[trigger] token[i]),
    ensures
        is_room_id(room_id_from_token(token)),
{
    let s = room_id_from_token(token);
    assert forall|i: int| 0 <= i < s.len() implies {
        ||| '0' <= #[trigger] s[i] <= '9'
        ||| 'A' <= s[i] <= 'Z'
    } by {
        assert(is_ascii_alphanumeric(token[i]));
    }
}

/// A fresh room is named by a drawn token: its identifier is that token in
/// upper case and its short form the first six characters of it.
pub proof fn fresh_room_is_named_by_a_drawn_token(room: Room, spotify_id: Seq<char>, now: i128)
    requires
        is_fresh_room(room, spotify_id, now),
    ensures
        exists|t: RoomToken|
            room.room_id@ == room_id_from_token(#[trigger] t.bytes_view()) && room.room_id_short@
                == room.room_id@.take(6),
        room.room_id@.len() == 64,
{
    let t = choose|t: RoomToken| #[trigger] is_room_from_token(room, spotify_id, now, t.bytes_view());
    assert(room.room_id@ == room_id_from_token(t.bytes_view()));
}

/// The identifier a token names keeps the token's characters, letters
/// brought to upper case: each character is the token's byte, or, for a
/// lower-case letter, that letter in upper case.
pub proof fn room_id_keeps_the_token(token: Seq<u8>)
    ensures
        room_id_from_token(token).len() == token.len(),
        forall|i: int|
            0 <= i < token.len() ==> {
                ||| !(97 <= token[i] <= 122) && #[trigger] room_id_from_token(token)[i] == token[i] as char
                ||| 97 <= token[i] <= 122 && room_id_from_token(token)[i] == (token[i] - 32) as char
            },
{
}

/// A new room for the account, under a fresh random identifier.
pub fn new_room(spotify_id: &String, now: i128) -> (room: Room)
    ensures
        is_fresh_room(room, spotify_id@, now),
{
    let token = random_alphanumeric(ROOM_ID_LENGTH);
    proof {
        lemma_token_names_room_id(token.bytes_view());
    }
    let room = room_from_token(spotify_id, now, token.bytes());
    assert(is_room_from_token(room, spotify_id@, now, token.bytes_view()));
    room
}

/// What the store answered while a room is being made for an account.
pub enum RoomCreationEvent {
    /// The rooms that already belong to the account.
    Existing(Vec<Room>),
    /// The store refused the candidate room: its short identifier is taken.
    InsertRejected,
    /// The insert failed for another reason, given as text.
    InsertFailed(String),
    /// The store inserted the candidate room and gave back these rows.
    Inserted(Vec<Room>),
}

/// What to do next while a room is being made for an account.
pub enum RoomCreationAction {
    /// The account's room: making it is over.
    Done(Room),
    /// Insert this candidate room into the store.
    Insert(Room),
    /// Making the room failed, for this reason.
    Fail(String),
}

/// The room that an account keeps, given the rooms it already has: the
/// first of them, if any.
pub open spec fn kept_room(existing: Seq<Room>) -> Option<Room> {
    if existing.len() > 0 {
        Some(existing[0])
    } else {
        None
    }
}

/// The decision after each answer of the store while a room is being made
/// for `spotify_user` at time `now`: an account that has a room keeps its
/// first room; otherwise candidates with fresh random identifiers are
/// inserted until the store takes one, and the row it gives back is the room.
/// A candidate refused because its short identifier is taken is replaced;
/// any other failure of the insert ends the making with that failure.
pub fn create_room_step(spotify_user: &NewSpotifyUser, now: i128, event: RoomCreationEvent) -> (action:
    RoomCreationAction)
    requires
        event matches RoomCreationEvent::Inserted(rows) ==> rows@.len() > 0,
    ensures
        match event {
            RoomCreationEvent::Existing(rooms) => match kept_room(rooms@) {
                Some(room) => action == RoomCreationAction::Done(room),
                None => action matches RoomCreationAction::Insert(room) && is_fresh_room(
                    room,
                    spotify_user.spotify_id@,
                    now,
                ),
            },
            RoomCreationEvent::InsertRejected => action matches RoomCreationAction::Insert(room)
                && is_fresh_room(room, spotify_user.spotify_id@, now),
            RoomCreationEvent::InsertFailed(reason) => action == RoomCreationAction::Fail(reason),
            RoomCreationEvent::Inserted(rows) => action == RoomCreationAction::Done(rows@[0]),
        },
{
    match event {
        RoomCreationEvent::Existing(rooms) => {
            let mut rooms = rooms;
            if rooms.len() > 0 {
                RoomCreationAction::Done(rooms.remove(0))
            } else {
                RoomCreationAction::Insert(new_room(&spotify_user.spotify_id, now))
            }
        },
        RoomCreationEvent::InsertRejected => RoomCreationAction::Insert(
            new_room(&spotify_user.spotify_id, now),
        ),
        RoomCreationEvent::InsertFailed(reason) => RoomCreationAction::Fail(reason),
        RoomCreationEvent::Inserted(rows) => {
            let mut rows = rows;
            RoomCreationAction::Done(rows.remove(0))
        },
    }
}

/// The rooms of the store that belong to account `spotify_id`, in order.
pub open spec fn rooms_of(store: Seq<Room>, spotify_id: Seq<char>) -> Seq<Room> {
    store.filter(owned_by(spotify_id))
}

/// Whether a room belongs to account `spotify_id`.
pub open spec fn owned_by(spotify_id: Seq<char>) -> spec_fn(Room) -> bool {
    |r: Room| r.spotify_id@ == spotify_id
}

/// After an account with no room has its room stored, the store holds
/// exactly that room for the account, and a second making of a room for it
/// keeps that room: an account has at most one room.
pub proof fn one_room_per_account(store: Seq<Room>, room: Room, spotify_id: Seq<char>)
    requires
        rooms_of(store, spotify_id).len() == 0,
        room.spotify_id@ == spotify_id,
    ensures
        rooms_of(store.push(room), spotify_id) == seq![room],
        kept_room(rooms_of(store.push(room), spotify_id)) == Some(room),
{
    store.lemma_filter_push(room, owned_by(spotify_id));
    assert(owned_by(spotify_id)(room));
    assert(rooms_of(store, spotify_id) =~= Seq::<Room>::empty());
    assert(rooms_of(store.push(room), spotify_id) =~= seq![room]);
}

/// No two rooms of the store share a short identifier.
pub open spec fn short_ids_distinct(store: Seq<Room>) -> bool {
    forall|i: int, j: int|
        0 <= i < store.len() && 0 <= j < store.len() && i != j ==> store[i].room_id_short@
            != store[j].room_id_short@
}

/// The store takes a candidate room only where no stored room has its short
/// identifier.
pub open spec fn store_takes(store: Seq<Room>, room: Room) -> bool {
    forall|i: int| 0 <= i < store.len() ==> #[trigger] store[i].room_id_short@ != room.room_id_short@
}

/// Short identifiers stay distinct: a candidate whose short identifier is
/// taken is refused and replaced (see `create_room_step`), and storing one
/// that the store takes keeps them distinct.
pub proof fn insert_keeps_short_ids_distinct(store: Seq<Room>, room: Room)
    requires
        short_ids_distinct(store),
        store_takes(store, room),
    ensures
        short_ids_distinct(store.push(room)),
{
    let s = store.push(room);
    assert forall|i: int, j: int|
        0 <= i < s.len() && 0 <= j < s.len() && i != j implies s[i].room_id_short@
        != s[j].room_id_short@ by {
        if i == store.len() {
            assert(s[j] == store[j]);
        } else if j == store.len() {
            assert(s[i] == store[i]);
        } else {
            assert(s[i] == store[i] && s[j] == store[j]);
        }
    }
}

/// A room that the periodic clean-up clears at time `now`: one created a
/// day or more before.
pub open spec fn is_expired(room: Room, now: i128) -> bool {
    room.creation_date + ROOM_LIFETIME_NANOS <= now
}

/// The time before which rooms are cleared at time `now`: the rooms created
/// at or before it are exactly the expired ones.
pub fn expiry_cutoff(now: i128) -> (cutoff: i128)
    requires
        now >= i128::MIN + ROOM_LIFETIME_NANOS,
    ensures
        cutoff == now - ROOM_LIFETIME_NANOS,
        forall|room: Room| #[trigger] is_expired(room, now) <==> room.creation_date <= cutoff,
{
    now - ROOM_LIFETIME_NANOS
}

} // verus!
