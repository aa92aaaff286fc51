//! The logic of a server where the clients of one Spotify premium account
//! share a room and queue songs in it: room identifiers, the JSON answers
//! of the routes, the decisions of each route between its calls to the
//! store and to Spotify, and the requests sent to Spotify.

pub mod json;
pub mod models;
pub mod text;
pub mod routes;
pub mod utils;
pub mod spotify_api;
