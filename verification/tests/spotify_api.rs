use spotify_rooms::models::action::{new_room_action, NewRoomAction, ADD_SONG_ACTION, SONG_GET_ACTION};
use spotify_rooms::models::spotify_api::RefreshAccountResult;
use spotify_rooms::models::spotify_id::{apply_refreshed_tokens, SpotifyUser};
use spotify_rooms::spotify_api::{
    authenticate_body, authenticate_form, bearer_authorization, refresh_body, refresh_form, search_url,
};

#[test]
fn authenticate_form_fields() {
    let f = authenticate_form("code1".to_string(), "http://host", "id".to_string(), "secret".to_string());
    assert_eq!(f.grant_type, "authorization_code");
    assert_eq!(f.code, "code1");
    assert_eq!(f.redirect_uri, "http://host/callback.html");
    assert_eq!(f.client_id, "id");
    assert_eq!(f.client_secret, "secret");
}

#[test]
fn refresh_form_fields() {
    let f = refresh_form("rt".to_string(), "id".to_string(), "secret".to_string());
    assert_eq!(f.refresh_token, "rt");
    assert_eq!(f.grant_type, "refresh_token");
    assert_eq!(f.client_id, "id");
    assert_eq!(f.client_secret, "secret");
}

#[test]
fn form_bodies() {
    let f = authenticate_form("c d".to_string(), "http://host", "id".to_string(), "s&t".to_string());
    assert_eq!(
        authenticate_body(&f),
        "grant_type=authorization_code&code=c+d&redirect_uri=http%3A%2F%2Fhost%2Fcallback.html&client_id=id&client_secret=s%26t"
    );
    let r = refresh_form("rt".to_string(), "id".to_string(), "secret".to_string());
    assert_eq!(
        refresh_body(&r),
        "refresh_token=rt&grant_type=refresh_token&client_id=id&client_secret=secret"
    );
    let u = refresh_form("é*-._~ +".to_string(), "".to_string(), "x".to_string());
    assert_eq!(
        refresh_body(&u),
        "refresh_token=%C3%A9*-._%7E+%2B&grant_type=refresh_token&client_id=&client_secret=x"
    );
}

#[test]
fn request_headers_and_addresses() {
    assert_eq!(bearer_authorization("tok"), "Bearer tok");
    assert_eq!(
        search_url("daft punk", 30),
        "https://api.spotify.com/v1/search?q=daft punk&type=track&market=FR&limit=10&offset=30"
    );
}

fn account() -> SpotifyUser {
    SpotifyUser {
        id: 3,
        spotify_id: "alice".to_string(),
        access_token: "old".to_string(),
        refresh_token: "rt".to_string(),
        expire_date: 9,
    }
}

#[test]
fn refresh_replaces_only_the_access_token() {
    let fresh = RefreshAccountResult {
        access_token: "new".to_string(),
        token_type: "Bearer".to_string(),
        expires_in: 3600,
        scope: "s".to_string(),
    };
    let mut expected = account();
    expected.access_token = "new".to_string();
    assert_eq!(apply_refreshed_tokens(account(), Some(fresh)), expected);
    assert_eq!(apply_refreshed_tokens(account(), None), account());
}

#[test]
fn room_action_record() {
    assert_eq!(
        new_room_action("R".to_string(), SONG_GET_ACTION.to_string(), 77),
        NewRoomAction { room_id: "R".to_string(), action: "SongGet".to_string(), timestamp: 77 }
    );
    assert_eq!(ADD_SONG_ACTION, "AddSong");
}
