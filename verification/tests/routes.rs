use spotify_rooms::models::{
    INTERNAL_SERVER_ERROR, INTERNAL_SERVER_ERROR_MESSAGE, SERDE_ERROR, SERDE_ERROR_MESSAGE,
    SPOTIFY_API_FORBIDDEN, SPOTIFY_API_FORBIDDEN_MESSAGE,
};
use spotify_rooms::routes::{format_failure, send_data, send_error, send_result, StringError};
use spotify_rooms::utils;

#[test]
fn format_error_in_debug_and_release() {
    assert_eq!(
        utils::debug::format_error("disk full", "Could not add"),
        "Could not add, error: disk full"
    );
    assert_eq!(utils::release::format_error("disk full", "Could not add"), "Could not add");
    assert_eq!(format_failure(true, "e", "m"), "m, error: e");
    assert_eq!(format_failure(false, "e", "m"), "m");
}

#[test]
fn data_answer() {
    let r = send_data(Some("{\"a\":1}"));
    assert_eq!(r.status, 200);
    assert_eq!(r.body, r#"{"data":{"a":1},"success":true,"status_code":200,"error":null}"#);
}

#[test]
fn unserializable_data_answer() {
    let r = send_data(None);
    assert_eq!(r.status, 500);
    assert_eq!(r.body, SERDE_ERROR);
}

#[test]
fn error_answer_in_release() {
    let r = send_error(false, "boom", 404, "Not here");
    assert_eq!(r.status, 404);
    assert_eq!(r.body, r#"{"data":null,"success":false,"status_code":404,"error":"Not here"}"#);
}

#[test]
fn error_answer_in_debug() {
    let r = send_error(true, "boom", 500, "Rooms: Could not retrieve any room");
    assert_eq!(r.status, 500);
    assert_eq!(
        r.body,
        r#"{"data":null,"success":false,"status_code":500,"error":"Rooms: Could not retrieve any room, error: boom"}"#
    );
}

#[test]
fn invalid_status_code_gives_internal_error() {
    for code in [0u16, 99, 1000, 65535] {
        let r = send_error(true, "boom", code, "msg");
        assert_eq!(r.status, 500);
        assert_eq!(r.body, INTERNAL_SERVER_ERROR);
    }
    assert_eq!(send_error(false, "b", 100, "m").status, 100);
    assert_eq!(send_error(false, "b", 999, "m").status, 999);
}

#[test]
fn result_answers() {
    let ok = send_result(false, Ok(Some("[]".to_string())), "fail");
    assert_eq!(ok.body, r#"{"data":[],"success":true,"status_code":200,"error":null}"#);
    let unserializable = send_result(false, Ok(None), "fail");
    assert_eq!(unserializable.body, SERDE_ERROR);
    let err = send_result(true, Err("db down".to_string()), "Accounts: Could not retrieve any account");
    assert_eq!(err.status, 500);
    assert_eq!(
        err.body,
        r#"{"data":null,"success":false,"status_code":500,"error":"Accounts: Could not retrieve any account, error: db down"}"#
    );
}

#[test]
fn string_error_text() {
    assert_eq!(StringError("Logic Error").to_string(), "Logic Error");
}

#[test]
fn release_answers_for_preset_messages_are_preset_bodies() {
    assert_eq!(send_error(false, "any cause", 500, INTERNAL_SERVER_ERROR_MESSAGE).body, INTERNAL_SERVER_ERROR);
    assert_eq!(send_error(false, "other", 500, SERDE_ERROR_MESSAGE).body, SERDE_ERROR);
    assert_eq!(send_error(false, "x", 403, SPOTIFY_API_FORBIDDEN_MESSAGE).body, SPOTIFY_API_FORBIDDEN);
}
