//! Values exchanged with the Spotify Web API.

use vstd::prelude::*;

verus! {

/// The form sent to the token endpoint to exchange an authorization code.
#[derive(Debug, Clone, PartialEq, Eq)]
pub struct Authenticate {
    pub grant_type: String,
    pub code: String,
    pub redirect_uri: String,
    pub client_id: String,
    pub client_secret: String,
}

/// The form sent to the token endpoint to refresh an access token.
#[derive(Debug, Clone, PartialEq, Eq)]
pub struct RefreshAccountData {
    pub refresh_token: String,
    pub grant_type: String,
    pub client_id: String,
    pub client_secret: String,
}

/// The token endpoint's answer to a refresh.
#[derive(Debug, Clone, PartialEq, Eq)]
pub struct RefreshAccountResult {
    pub access_token: String,
    pub token_type: String,
    pub expires_in: u16,
    pub scope: String,
}

/// The token endpoint's answer to an authorization-code exchange.
#[derive(Debug, Clone, PartialEq, Eq)]
pub struct SpotifyTokens {
    pub access_token: String,
    pub token_type: String,
    pub expires_in: u16,
    pub refresh_token: String,
    pub scope: String,
}

#[derive(Debug, Clone, PartialEq, Eq)]
pub struct SpotifyExplicitContent {
    pub filter_enabled: bool,
    pub filter_locked: bool,
}

#[derive(Debug, Clone, PartialEq, Eq)]
pub struct SpotifyExternalUrls {
    pub spotify: String,
}

#[derive(Debug, Clone, PartialEq, Eq)]
pub struct SpotifyFollowers {
    pub href: Option<String>,
    pub total: u16,
}

#[derive(Debug, Clone, PartialEq, Eq)]
pub struct SpotifyImage {
    pub url: String,
    pub height: u16,
    pub width: u16,
}

#[derive(Debug, Clone, PartialEq, Eq)]
pub struct SpotifyMeError {
    pub status: u16,
    pub message: String,
}

/// The profile of the signed-in Spotify user.
#[derive(Debug, Clone, PartialEq, Eq)]
pub struct SpotifyMe {
    pub country: String,
    pub display_name: String,
    pub email: String,
    pub explicit_content: SpotifyExplicitContent,
    pub external_urls: SpotifyExternalUrls,
    pub followers: SpotifyFollowers,
    pub href: String,
    pub id: String,
    pub images: Vec<SpotifyImage>,
    pub product: String,
    pub kind: String,
    pub uri: String,
    pub error: Option<SpotifyMeError>,
}

/// The body of an authentication request: the authorization code.
#[derive(Debug, Clone, PartialEq, Eq)]
pub struct Code {
    pub code: String,
}

#[derive(Debug, Clone, PartialEq, Eq)]
pub struct SpotifyExternalId {
    pub isrc: String,
}

#[derive(Debug, Clone, PartialEq, Eq)]
pub struct SpotifyArtist {
    pub external_urls: SpotifyExternalUrls,
    pub followers: SpotifyFollowers,
    pub genres: Vec<String>,
    pub href: String,
    pub id: String,
    pub images: Vec<SpotifyImage>,
    pub name: String,
    pub popularity: u16,
    pub kind: String,
    pub uri: String,
}

#[derive(Debug, Clone, PartialEq, Eq)]
pub struct SpotifyTrackArtist {
    pub external_urls: SpotifyExternalUrls,
    pub href: String,
    pub id: String,
    pub name: String,
    pub kind: String,
    pub uri: String,
}

#[derive(Debug, Clone, PartialEq, Eq)]
pub struct SpotifyTrackAlbum {
    pub album_type: String,
    pub artists: Vec<SpotifyTrackArtist>,
    pub external_urls: SpotifyExternalUrls,
    pub href: String,
    pub id: String,
    pub images: Vec<SpotifyImage>,
    pub name: String,
    pub release_date: String,
    pub release_date_precision: String,
    pub total_tracks: u16,
    pub kind: String,
    pub uri: String,
}

#[derive(Debug, Clone, PartialEq, Eq)]
pub struct SpotifyTrack {
    pub album: SpotifyTrackAlbum,
    pub artists: Vec<SpotifyTrackArtist>,
    pub disc_number: u8,
    pub duration_ms: u32,
    pub explicit: bool,
    pub external_ids: SpotifyExternalId,
    pub external_urls: SpotifyExternalUrls,
    pub href: String,
    pub id: String,
    pub is_local: bool,
    pub name: String,
    pub popularity: u16,
    pub preview_url: Option<String>,
    pub track_number: u16,
    pub kind: String,
    pub uri: String,
}

/// The part of a track that the search route hands to clients.
#[derive(Debug, Clone, PartialEq, Eq)]
pub struct SpotifyTrackFiltered {
    pub image: Option<String>,
    pub uri: String,
    pub album: String,
    pub title: String,
    pub duration_ms: u32,
}

/// One page of search results.
#[derive(Debug, Clone, PartialEq, Eq)]
pub struct SpotifySearchResult<T> {
    pub href: String,
    pub limit: u16,
    pub offset: u16,
    pub total: u16,
    pub next: Option<String>,
    pub previous: Option<String>,
    pub items: Vec<T>,
}

/// The answer of the search endpoint.
#[derive(Debug, Clone, PartialEq, Eq)]
pub struct SpotifySearch {
    pub tracks: SpotifySearchResult<SpotifyTrack>,
}

} // verus!
