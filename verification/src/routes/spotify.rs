//! The Spotify routes: sign a user in and open their room, search tracks.

use vstd::prelude::*;
use crate::models::room::Room;
use crate::models::spotify_api::{
    SpotifyMe, SpotifySearch, SpotifySearchResult, SpotifyTokens, SpotifyTrack,
    SpotifyTrackFiltered,
};
use crate::models::spotify_id::{NewSpotifyUser, SpotifyUser};
use crate::models::SPOTIFY_API_SEARCH_MISSING_FIELDS;
use crate::routes::{is_data_response, is_error_response, send_data, send_error, Response};
use crate::text::{decimal, decimal_denotes_its_number, digits_value, push_decimal};

verus! {

/// Message of the failure to exchange the authorization code.
pub const AUTH_TOKENS_FAILED: &'static str = "Spotify Auth: Could not retrieve tokens";

/// Message of the failure to read the user's profile.
pub const AUTH_PROFILE_FAILED: &'static str = "Spotify me: Could not access user information";

/// The cause reported for an account that is not premium.
pub const NOT_PREMIUM: &'static str = "Account not premium";

/// Message of the refusal of an account that is not premium.
pub const AUTH_NOT_PREMIUM: &'static str = "Spotify me: Spotify account needs to be premium";

/// Message of the failure to make the user's room.
pub const AUTH_ROOM_FAILED: &'static str = "Create room: Could not create a new room";

/// Message of the failure to store the user's account.
pub const AUTH_ACCOUNT_FAILED: &'static str = "Create account: Could not add user";

/// Message of the failure to find the account of a room.
pub const SEARCH_ACCOUNT_FAILED: &'static str = "Search: Could not associate room_id to spotify_id";

/// Message of the failure of a search on Spotify's side.
pub const SEARCH_FAILED: &'static str = "Search: Could not fetch data from Spotify";

/// Where the server is reached when no address is configured.
pub const DEFAULT_BACKEND_URL: &'static str = "http://127.0.0.1:8080";

/// Nanoseconds in a second.
pub const NANOS_PER_SEC: i128 = 1_000_000_000;

/// The product of a Spotify account that may use the server.
pub const PREMIUM_PRODUCT: &'static str = "premium";

/// The tokens of a user who signed in, with the time their access token
/// expires, in nanoseconds since the Unix epoch (negative before it).
#[derive(Debug, Clone, PartialEq, Eq)]
pub struct GrantedTokens {
    pub access_token: String,
    pub refresh_token: String,
    pub expire_date: i128,
}

/// The first decision of signing in, once Spotify answered the code
/// exchange at time `now` (in nanoseconds since the Unix epoch): keep the
/// tokens, which expire `expires_in` seconds from now, or answer the failure.
pub fn authenticate_after_tokens(detailed: bool, tokens: Result<SpotifyTokens, String>, now: i128) -> (r:
    Result<GrantedTokens, Response>)
    requires
        tokens matches Ok(t) ==> now + t.expires_in * NANOS_PER_SEC <= i128::MAX,
    ensures
        match tokens {
            Ok(t) => r == Ok::<GrantedTokens, Response>(
                GrantedTokens {
                    access_token: t.access_token,
                    refresh_token: t.refresh_token,
                    expire_date: (now + t.expires_in * NANOS_PER_SEC) as i128,
                },
            ),
            Err(e) => r matches Err(resp) && is_error_response(
                resp,
                detailed,
                e@,
                500,
                AUTH_TOKENS_FAILED@,
            ),
        },
{
    match tokens {
        Ok(t) => Ok(
            GrantedTokens {
                access_token: t.access_token,
                refresh_token: t.refresh_token,
                expire_date: now + t.expires_in as i128 * NANOS_PER_SEC,
            },
        ),
        Err(e) => Err(send_error(detailed, e.as_str(), 500, AUTH_TOKENS_FAILED)),
    }
}

/// The second decision of signing in, once Spotify sent the user's
/// profile: only a premium account is let in, and it becomes the account
/// to store.
pub fn authenticate_after_profile(
    detailed: bool,
    granted: GrantedTokens,
    profile: Result<SpotifyMe, String>,
) -> (r: Result<NewSpotifyUser, Response>)
    ensures
        match profile {
            Ok(me) => if me.product@ == PREMIUM_PRODUCT@ {
                r == Ok::<NewSpotifyUser, Response>(
                    NewSpotifyUser {
                        spotify_id: me.id,
                        access_token: granted.access_token,
                        refresh_token: granted.refresh_token,
                        expire_date: granted.expire_date,
                    },
                )
            } else {
                r matches Err(resp) && is_error_response(
                    resp,
                    detailed,
                    NOT_PREMIUM@,
                    403,
                    AUTH_NOT_PREMIUM@,
                )
            },
            Err(e) => r matches Err(resp) && is_error_response(
                resp,
                detailed,
                e@,
                500,
                AUTH_PROFILE_FAILED@,
            ),
        },
{
    match profile {
        Err(e) => Err(send_error(detailed, e.as_str(), 500, AUTH_PROFILE_FAILED)),
        Ok(me) => {
            let premium = String::from_str(PREMIUM_PRODUCT);
            if me.product != premium {
                Err(send_error(detailed, NOT_PREMIUM, 403, AUTH_NOT_PREMIUM))
            } else {
                Ok(
                    NewSpotifyUser {
                        spotify_id: me.id,
                        access_token: granted.access_token,
                        refresh_token: granted.refresh_token,
                        expire_date: granted.expire_date,
                    },
                )
            }
        },
    }
}

/// The third decision of signing in, once the user's room is made.
pub fn authenticate_after_room(detailed: bool, room: Result<Room, String>) -> (r: Result<
    Room,
    Response,
>)
    ensures
        match room {
            Ok(room) => r == Ok::<Room, Response>(room),
            Err(e) => r matches Err(resp) && is_error_response(
                resp,
                detailed,
                e@,
                500,
                AUTH_ROOM_FAILED@,
            ),
        },
{
    match room {
        Ok(room) => Ok(room),
        Err(e) => Err(send_error(detailed, e.as_str(), 500, AUTH_ROOM_FAILED)),
    }
}

/// The answer of signing in, once the account is stored: the room, given
/// its JSON text, or the failure to store the account.
pub fn authenticate_after_account(
    detailed: bool,
    stored: Result<(), String>,
    room_json: Option<String>,
) -> (r: Response)
    ensures
        match stored {
            Ok(_) => is_data_response(
                r,
                match room_json {
                    Some(d) => Some(d@),
                    None => None,
                },
            ),
            Err(e) => is_error_response(r, detailed, e@, 500, AUTH_ACCOUNT_FAILED@),
        },
{
    match stored {
        Err(e) => send_error(detailed, e.as_str(), 500, AUTH_ACCOUNT_FAILED),
        Ok(_) => match room_json {
            Some(d) => send_data(Some(d.as_str())),
            None => send_data(None),
        },
    }
}

/// What a client asks the search route.
#[derive(Debug, Clone, PartialEq, Eq)]
pub struct SearchRequest {
    pub q: String,
    pub offset: u16,
}

/// The filtered form of a search result.
#[derive(Debug, Clone, PartialEq, Eq)]
pub struct SearchResultFiltered {}

/// The address of the server: the configured one, or the default.
pub fn backend_url(configured: Option<String>) -> (r: String)
    ensures
        match configured {
            Some(url) => r == url,
            None => r@ == DEFAULT_BACKEND_URL@,
        },
{
    match configured {
        Some(url) => url,
        None => String::from_str(DEFAULT_BACKEND_URL),
    }
}

/// The first decision of a search: a request without a query is refused
/// with status `400`.
pub fn search_check_request(request: &SearchRequest) -> (r: Option<Response>)
    ensures
        request.q@.len() == 0 <==> r is Some,
        r matches Some(resp) ==> resp.status == 400 && resp.body@
            == SPOTIFY_API_SEARCH_MISSING_FIELDS@,
{
    if request.q.as_str().is_empty() {
        Some(Response { status: 400, body: String::from_str(SPOTIFY_API_SEARCH_MISSING_FIELDS) })
    } else {
        None
    }
}

/// The second decision of a search, once the account of the room is read.
pub fn search_after_account(detailed: bool, account: Result<SpotifyUser, String>) -> (r: Result<
    SpotifyUser,
    Response,
>)
    ensures
        match account {
            Ok(a) => r == Ok::<SpotifyUser, Response>(a),
            Err(e) => r matches Err(resp) && is_error_response(
                resp,
                detailed,
                e@,
                500,
                SEARCH_ACCOUNT_FAILED@,
            ),
        },
{
    match account {
        Ok(a) => Ok(a),
        Err(e) => Err(send_error(detailed, e.as_str(), 500, SEARCH_ACCOUNT_FAILED)),
    }
}

/// The part of a track that clients get: its first album image, its
/// address, album, title and length.
pub open spec fn filtered_track(t: SpotifyTrack) -> SpotifyTrackFiltered {
    SpotifyTrackFiltered {
        image: if t.album.images@.len() > 0 {
            Some(t.album.images@[0].url)
        } else {
            None
        },
        uri: t.uri,
        album: t.album.name,
        title: t.name,
        duration_ms: t.duration_ms,
    }
}

/// The address of the next page of a search on this server.
pub open spec fn next_page_text(
    backend_url: Seq<char>,
    room_id: Seq<char>,
    q: Seq<char>,
    offset: u16,
) -> Seq<char> {
    backend_url + "/search/"@ + room_id + "?q="@ + q + "&offset="@ + decimal((offset + 10) as nat)
}

/// `page` is the page that the search route sends for Spotify's page
/// `tracks`: the tracks, filtered, in Spotify's order; Spotify's offset,
/// total, limit and address; a link to the next page on this server where
/// Spotify has one; no link back.
pub open spec fn is_filtered_page(
    page: SpotifySearchResult<SpotifyTrackFiltered>,
    tracks: SpotifySearchResult<SpotifyTrack>,
    backend_url: Seq<char>,
    room_id: Seq<char>,
    request: &SearchRequest,
) -> bool {
    &&& page.items@.len() == tracks.items@.len()
    &&& forall|i: int|
        0 <= i < page.items@.len() ==> #[trigger] page.items@[i] == filtered_track(tracks.items@[i])
    &&& page.offset == tracks.offset
    &&& page.href == tracks.href
    &&& page.limit == tracks.limit
    &&& page.total == tracks.total
    &&& page.previous is None
    &&& page.next is Some <==> tracks.next is Some
    &&& page.next matches Some(n) ==> n@ == next_page_text(backend_url, room_id, request.q@, request.offset)
}

/// A filtered track carries the album's first image (none for an album
/// without images), and the track's address, album name, title and length.
pub proof fn filtered_track_keeps_the_first_image(t: SpotifyTrack)
    ensures
        t.album.images@.len() > 0 ==> filtered_track(t).image == Some(t.album.images@[0].url),
        t.album.images@.len() == 0 ==> filtered_track(t).image is None,
        filtered_track(t).uri == t.uri,
        filtered_track(t).album == t.album.name,
        filtered_track(t).title == t.name,
        filtered_track(t).duration_ms == t.duration_ms,
{
}

/// The link to the next page asks this server for the request's offset
/// plus ten: it is the server's search address for the room and query,
/// ending in `&offset=` and a decimal notation that denotes `offset + 10`.
pub proof fn next_link_asks_for_the_following_page(
    backend_url: Seq<char>,
    room_id: Seq<char>,
    q: Seq<char>,
    offset: u16,
)
    requires
        offset + 10 <= u16::MAX,
    ensures
        next_page_text(backend_url, room_id, q, offset) == backend_url + "/search/"@ + room_id
            + "?q="@ + q + "&offset="@ + decimal((offset + 10) as nat),
        digits_value(decimal((offset + 10) as nat)) == offset + 10,
{
    decimal_denotes_its_number((offset + 10) as nat);
}

/// The filtered form of one track.
pub fn filter_track(t: SpotifyTrack) -> (r: SpotifyTrackFiltered)
    ensures
        r == filtered_track(t),
{
    let mut images = t.album.images;
    let image = if images.len() > 0 {
        Some(images.remove(0).url)
    } else {
        None
    };
    SpotifyTrackFiltered {
        image,
        uri: t.uri,
        album: t.album.name,
        title: t.name,
        duration_ms: t.duration_ms,
    }
}

/// The page of results that the search route sends for Spotify's page.
pub fn filter_search_results(
    tracks: SpotifySearchResult<SpotifyTrack>,
    backend_url: &str,
    room_id: &str,
    request: &SearchRequest,
) -> (r: SpotifySearchResult<SpotifyTrackFiltered>)
    requires
        tracks.next is Some ==> request.offset + 10 <= u16::MAX,
    ensures
        is_filtered_page(r, tracks, backend_url@, room_id@, request),
{
    let ghost source = tracks.items@;
    let mut items: Vec<SpotifyTrackFiltered> = Vec::new();
    for t in it: tracks.items
        invariant
            it.seq() == source,
            items@.len() == it.index(),
            forall|i: int|
                0 <= i < it.index() ==> #[trigger] items@[i] == filtered_track(source[i]),
    {
        items.push(filter_track(t));
    }
    let next = if tracks.next.is_some() {
        let mut n = String::from_str(backend_url);
        n.append("/search/");
        n.append(room_id);
        n.append("?q=");
        n.append(request.q.as_str());
        n.append("&offset=");
        push_decimal(&mut n, (request.offset + 10) as u64);
        Some(n)
    } else {
        None
    };
    SpotifySearchResult {
        items,
        offset: tracks.offset,
        next,
        href: tracks.href,
        limit: tracks.limit,
        previous: None,
        total: tracks.total,
    }
}

/// The third decision of a search, once Spotify answered: the page to send,
/// or the failure.
pub fn search_after_results(
    detailed: bool,
    results: Result<SpotifySearch, String>,
    backend_url: &str,
    room_id: &str,
    request: &SearchRequest,
) -> (r: Result<SpotifySearchResult<SpotifyTrackFiltered>, Response>)
    requires
        results matches Ok(s) ==> (s.tracks.next is Some ==> request.offset + 10 <= u16::MAX),
    ensures
        match results {
            Ok(s) => r matches Ok(page) && is_filtered_page(
                page,
                s.tracks,
                backend_url@,
                room_id@,
                request,
            ),
            Err(e) => r matches Err(resp) && is_error_response(
                resp,
                detailed,
                e@,
                500,
                SEARCH_FAILED@,
            ),
        },
{
    match results {
        Ok(s) => Ok(filter_search_results(s.tracks, backend_url, room_id, request)),
        Err(e) => Err(send_error(detailed, e.as_str(), 500, SEARCH_FAILED)),
    }
}

} // verus!
