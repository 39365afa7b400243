use osu_client::error::OsuError;
use osu_client::response::{handle_status, parse_bytes, response_error};
use std::collections::HashMap;

#[test]
fn status_200_gives_the_body() {
    let body = br#"{"id":5}"#.to_vec();
    assert_eq!(handle_status(200, body.clone()).unwrap(), body);
}

#[test]
fn status_200_body_is_parsed_into_the_target_shape() {
    let bytes = handle_status(200, br#"{"id":5}"#.to_vec()).unwrap();
    let parsed = serde_json::from_slice::<HashMap<String, u32>>(&bytes);
    let value = parse_bytes(bytes, parsed).unwrap();
    assert_eq!(value.get("id"), Some(&5));
    assert_eq!(value.len(), 1);
}

#[test]
fn status_200_body_of_another_shape_is_a_parsing_error_with_the_body() {
    let bytes = handle_status(200, br#"{"id":"five"}"#.to_vec()).unwrap();
    let parsed = serde_json::from_slice::<HashMap<String, u32>>(&bytes);
    match parse_bytes(bytes, parsed) {
        Err(OsuError::Parsing { body, .. }) => assert_eq!(body, r#"{"id":"five"}"#),
        other => panic!("unexpected result: {:?}", other),
    }
}

#[test]
fn status_404_is_not_found_whatever_the_body() {
    assert!(matches!(handle_status(404, Vec::new()), Err(OsuError::NotFound)));
    assert!(matches!(
        handle_status(404, br#"{"error":"gone"}"#.to_vec()),
        Err(OsuError::NotFound)
    ));
    assert!(matches!(handle_status(404, vec![0xff, 0xfe]), Err(OsuError::NotFound)));
}

#[test]
fn status_503_carries_the_body() {
    match handle_status(503, b"maintenance".to_vec()) {
        Err(OsuError::ServiceUnavailable(body)) => assert_eq!(body, "maintenance"),
        other => panic!("unexpected result: {:?}", other),
    }
}

#[test]
fn status_503_with_invalid_utf8_keeps_what_can_be_read() {
    match handle_status(503, vec![b'a', 0xff, b'b']) {
        Err(OsuError::ServiceUnavailable(body)) => assert_eq!(body, "a\u{fffd}b"),
        other => panic!("unexpected result: {:?}", other),
    }
}

#[test]
fn status_400_with_payload_is_an_api_error() {
    match handle_status(400, br#"{"error":"invalid_scope"}"#.to_vec()) {
        Err(OsuError::Response { status, body, source }) => {
            assert_eq!(status, 400);
            assert_eq!(body, r#"{"error":"invalid_scope"}"#);
            assert_eq!(source.error.as_deref(), Some("invalid_scope"));
        }
        other => panic!("unexpected result: {:?}", other),
    }
}

#[test]
fn status_400_without_json_is_an_unparseable_error_body() {
    match handle_status(400, b"not json".to_vec()) {
        Err(OsuError::ParsingError { status, body, .. }) => {
            assert_eq!(status, 400);
            assert_eq!(body, "not json");
        }
        other => panic!("unexpected result: {:?}", other),
    }
}

#[test]
fn payload_without_message_is_an_api_error_without_message() {
    match handle_status(401, br#"{"authentication":"basic"}"#.to_vec()) {
        Err(OsuError::Response { status, source, .. }) => {
            assert_eq!(status, 401);
            assert_eq!(source.error, None);
        }
        other => panic!("unexpected result: {:?}", other),
    }
    match handle_status(422, br#"{"error":null,"hint":[1,2]}"#.to_vec()) {
        Err(OsuError::Response { status, source, .. }) => {
            assert_eq!(status, 422);
            assert_eq!(source.error, None);
        }
        other => panic!("unexpected result: {:?}", other),
    }
}

#[test]
fn json_that_is_no_object_is_no_payload() {
    assert!(matches!(
        handle_status(500, br#"["error"]"#.to_vec()),
        Err(OsuError::ParsingError { status: 500, .. })
    ));
    assert!(matches!(handle_status(500, Vec::new()), Err(OsuError::ParsingError { .. })));
}

#[test]
fn status_429_is_classified_like_any_other_error() {
    match handle_status(429, br#"{"error":"Too Many Attempts."}"#.to_vec()) {
        Err(OsuError::Response { status, source, .. }) => {
            assert_eq!(status, 429);
            assert_eq!(source.error.as_deref(), Some("Too Many Attempts."));
        }
        other => panic!("unexpected result: {:?}", other),
    }
    assert!(matches!(
        handle_status(429, b"slow down".to_vec()),
        Err(OsuError::ParsingError { status: 429, .. })
    ));
}

#[test]
fn other_success_statuses_are_not_successes() {
    assert!(matches!(
        handle_status(204, Vec::new()),
        Err(OsuError::ParsingError { status: 204, .. })
    ));
    assert!(matches!(
        handle_status(201, br#"{"id":5}"#.to_vec()),
        Err(OsuError::Response { status: 201, .. })
    ));
}

#[test]
fn classification_depends_on_status_and_body_alone() {
    let first = format!("{:?}", handle_status(400, br#"{"error":"x"}"#.to_vec()));
    let second = format!("{:?}", handle_status(400, br#"{"error":"x"}"#.to_vec()));
    assert_eq!(first, second);
}

#[test]
fn response_error_takes_the_payload_as_given() {
    match response_error(418, "body".to_owned(), Ok(Some("teapot".to_owned()))) {
        OsuError::Response { status, body, source } => {
            assert_eq!(status, 418);
            assert_eq!(body, "body");
            assert_eq!(source.error.as_deref(), Some("teapot"));
        }
        other => panic!("unexpected error: {:?}", other),
    }
    let failure = serde_json::from_slice::<u32>(b"x").unwrap_err();
    assert!(matches!(
        response_error(418, "body".to_owned(), Err(failure)),
        OsuError::ParsingError { status: 418, .. }
    ));
}
