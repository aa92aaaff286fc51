//! Spotify accounts registered with the server.

use vstd::prelude::*;
use crate::models::spotify_api::RefreshAccountResult;

verus! {

/// A stored Spotify account. `expire_date` is in nanoseconds since the Unix
/// epoch (negative before it).
#[derive(Debug, Clone, PartialEq, Eq)]
pub struct SpotifyUser {
    pub id: i32,
    pub spotify_id: String,
    pub access_token: String,
    pub refresh_token: String,
    pub expire_date: i128,
}

/// An account to store. `expire_date` is in nanoseconds since the Unix
/// epoch (negative before it).
#[derive(Debug, Clone, PartialEq, Eq)]
pub struct NewSpotifyUser {
    pub spotify_id: String,
    pub access_token: String,
    pub refresh_token: String,
    pub expire_date: i128,
}

/// Message of the failure to store an account.
pub const CREATE_SPOTIFY_USER_FAILED: &'static str = "Could not create or update spotify user";

/// The account after a refresh of its tokens: the new access token where
/// the refresh succeeded, the account unchanged where it failed.
pub fn apply_refreshed_tokens(account: SpotifyUser, refreshed: Option<RefreshAccountResult>) -> (r:
    SpotifyUser)
    ensures
        match refreshed {
            Some(tokens) => r == (SpotifyUser { access_token: tokens.access_token, ..account }),
            None => r == account,
        },
{
    let mut account = account;
    if let Some(tokens) = refreshed {
        account.access_token = tokens.access_token;
    }
    account
}

} // verus!
