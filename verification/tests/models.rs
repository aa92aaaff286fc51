use spotify_rooms::json::encode_json_string;
use spotify_rooms::models::{
    GenericOutput, INTERNAL_SERVER_ERROR, INTERNAL_SERVER_ERROR_MESSAGE,
    NOT_IMPLEMENTED_RELEASE_MODE, NOT_IMPLEMENTED_RELEASE_MODE_MESSAGE, SERDE_ERROR,
    SERDE_ERROR_MESSAGE, SPOTIFY_API_FORBIDDEN, SPOTIFY_API_FORBIDDEN_MESSAGE,
    SPOTIFY_API_SEARCH_MISSING_FIELDS, SPOTIFY_API_SEARCH_MISSING_FIELDS_MESSAGE,
};

#[test]
fn generic_output_serialize() {
    let obj = GenericOutput {
        data: Some("Very good test"),
        success: true,
        error: None,
        status_code: 200,
    };

    let data_json = encode_json_string("Very good test");
    let input = obj.to_json(Some(data_json.as_str()));
    let expected = r#"{"data":"Very good test","success":true,"status_code":200,"error":null}"#;

    assert_eq!(input, expected);
}

fn error_output(status_code: u16, message: &str) -> String {
    let out: GenericOutput<()> = GenericOutput {
        data: None,
        success: false,
        status_code,
        error: Some(message.to_string()),
    };
    out.to_json(None)
}

#[test]
fn preset_bodies_equal_serialized_answers() {
    assert_eq!(error_output(500, SERDE_ERROR_MESSAGE), SERDE_ERROR);
    assert_eq!(error_output(501, NOT_IMPLEMENTED_RELEASE_MODE_MESSAGE), NOT_IMPLEMENTED_RELEASE_MODE);
    assert_eq!(error_output(500, INTERNAL_SERVER_ERROR_MESSAGE), INTERNAL_SERVER_ERROR);
    assert_eq!(error_output(403, SPOTIFY_API_FORBIDDEN_MESSAGE), SPOTIFY_API_FORBIDDEN);
    assert_eq!(
        error_output(400, SPOTIFY_API_SEARCH_MISSING_FIELDS_MESSAGE),
        SPOTIFY_API_SEARCH_MISSING_FIELDS
    );
}

#[test]
fn error_message_is_escaped() {
    let out = error_output(404, "say \"hi\"\\\n");
    assert_eq!(
        out,
        r#"{"data":null,"success":false,"status_code":404,"error":"say \"hi\"\\\n"}"#
    );
}

#[test]
fn payload_is_written_as_given() {
    let out = GenericOutput {
        data: Some(vec![1, 2]),
        success: true,
        status_code: 200,
        error: None,
    };
    assert_eq!(
        out.to_json(Some("[1,2]")),
        r#"{"data":[1,2],"success":true,"status_code":200,"error":null}"#
    );
}

#[test]
fn json_string_of_plain_and_special_text() {
    assert_eq!(encode_json_string("abc"), "\"abc\"");
    assert_eq!(encode_json_string(""), "\"\"");
    assert_eq!(encode_json_string("a\tb"), "\"a\\tb\"");
    assert_eq!(encode_json_string("é"), "\"é\"");
    assert_eq!(encode_json_string("\u{1}\u{1f}\u{8}\u{c}\r/"), "\"\\u0001\\u001f\\b\\f\\r/\"");
}

#[test]
fn status_code_zero_and_max() {
    assert_eq!(
        error_output(0, "x"),
        r#"{"data":null,"success":false,"status_code":0,"error":"x"}"#
    );
    assert_eq!(
        error_output(65535, "x"),
        r#"{"data":null,"success":false,"status_code":65535,"error":"x"}"#
    );
}
