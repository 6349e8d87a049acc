use url::Url;
use youtube_data::error::{
    replace_sensitive_query_params, BuilderErrorKind, Error, ErrorKind, ErrorSource, RequestUrl,
    YouTubeError, YouTubeErrorDetail, YouTubeErrorRepr,
};
use youtube_data::status::StatusCode;

fn request_url(url: &Url) -> RequestUrl {
    RequestUrl {
        path: url.path().to_string(),
        query: url
            .query_pairs()
            .map(|(key, value)| (key.to_string(), value.to_string()))
            .collect(),
    }
}

fn missing_filter_payload() -> YouTubeError {
    YouTubeError::new(
        StatusCode::from_u16(400).unwrap(),
        "No filter selected. Expected one of: for_username, id, managed_by_me, mine".to_string(),
        vec![YouTubeErrorDetail {
            message: "No filter selected. Expected one of: for_username, id, managed_by_me, mine"
                .to_string(),
            domain: "youtube.parameter".to_string(),
            reason: "missingRequiredParameter".to_string(),
            location: None,
            location_type: None,
        }],
        None,
    )
}

fn bad_request_detail() -> YouTubeErrorDetail {
    YouTubeErrorDetail {
        message: "Request contains an invalid argument.".to_string(),
        domain: "global".to_string(),
        reason: "badRequest".to_string(),
        location: None,
        location_type: None,
    }
}

#[test]
fn test_display_error() {
    let missing_param = Error::missing_required_parameter(
        "No filter selected. Expected one of: for_username, id, managed_by_me, mine",
    );
    assert_eq!(
        missing_param.to_text(),
        "builder error: \"No filter selected. Expected one of: for_username, id, managed_by_me, mine\""
    );

    let client_error = Error::client_error(
        missing_filter_payload(),
        request_url(&Url::parse("https://www.youtube.com").unwrap()),
    );
    let assert_message = format!(
        "{}{}{}{}",
        "client error for url (\"/?\"): 400 Bad Request message: \"No filter selected.",
        " Expected one of: for_username, id, managed_by_me, mine\"",
        " [message: \"No filter selected. Expected one of: for_username, id, managed_by_me, mine\",",
        " domain: \"youtube.parameter\", reason: \"missingRequiredParameter\"]"
    );
    assert_eq!(client_error.to_text(), assert_message);
}

#[test]
fn test_replace_sensitive_query_params() {
    let url = Url::parse_with_params(
        "https://www.googleapis.com/youtube/v3/channels",
        &[
            ("part", "snippet"),
            ("id", "UC_x5XG1OV2P6uZZ5FSM9Ttw"),
            ("key", "SECRET123"),
        ],
    )
    .unwrap();
    let replaced_url = replace_sensitive_query_params(Some(request_url(&url)));
    assert!(replaced_url.is_some());
    let replaced_url = replaced_url.unwrap();
    assert_eq!(
        replaced_url,
        "/youtube/v3/channels?id=UC_x5XG1OV2P6uZZ5FSM9Ttw&key=[API_KEY]&part=snippet"
    );
}

#[test]
fn redaction_of_no_url_is_nothing() {
    assert_eq!(replace_sensitive_query_params(None), None);
}

#[test]
fn redaction_never_shows_the_key() {
    let url = RequestUrl {
        path: "/youtube/v3/search".to_string(),
        query: vec![
            ("key".to_string(), "SECRET123".to_string()),
            ("q".to_string(), "surfing".to_string()),
        ],
    };
    let shown = replace_sensitive_query_params(Some(url)).unwrap();
    assert_eq!(shown, "/youtube/v3/search?key=[API_KEY]&q=surfing");
    assert!(!shown.contains("SECRET123"));
}

#[test]
fn redaction_does_not_depend_on_the_order_of_the_query() {
    let pairs = [("part", "snippet"), ("key", "SECRET123"), ("id", "abc"), ("hl", "en")];
    let forward = RequestUrl {
        path: "/p".to_string(),
        query: pairs.iter().map(|(k, v)| (k.to_string(), v.to_string())).collect(),
    };
    let backward = RequestUrl {
        path: "/p".to_string(),
        query: pairs.iter().rev().map(|(k, v)| (k.to_string(), v.to_string())).collect(),
    };
    let expected = "/p?hl=en&id=abc&key=[API_KEY]&part=snippet";
    assert_eq!(replace_sensitive_query_params(Some(forward)).unwrap(), expected);
    assert_eq!(replace_sensitive_query_params(Some(backward)).unwrap(), expected);
}

#[test]
fn redaction_orders_by_key_before_value() {
    // "a" is a prefix of "a1": the shorter key comes first, though `=` sorts after `1`.
    let url = RequestUrl {
        path: "/p".to_string(),
        query: vec![
            ("a1".to_string(), "x".to_string()),
            ("a".to_string(), "z".to_string()),
            ("a".to_string(), "y".to_string()),
        ],
    };
    assert_eq!(replace_sensitive_query_params(Some(url)).unwrap(), "/p?a=y&a=z&a1=x");
}

#[test]
fn redaction_hides_every_key_pair() {
    let url = RequestUrl {
        path: "/p".to_string(),
        query: vec![
            ("key".to_string(), "one".to_string()),
            ("key".to_string(), "two".to_string()),
        ],
    };
    assert_eq!(
        replace_sensitive_query_params(Some(url)).unwrap(),
        "/p?key=[API_KEY]&key=[API_KEY]"
    );
}

#[test]
fn builder_errors_render_their_message() {
    let invalid = Error::invalid_parameter("bad value");
    assert_eq!(invalid.to_text(), "builder error: \"bad value\"");
    assert!(matches!(
        invalid.kind(),
        ErrorKind::BuilderError(BuilderErrorKind::InvalidParameter { .. })
    ));

    let incompatible = Error::incompatible_parameters("a, b");
    assert_eq!(incompatible.to_text(), "builder error: \"a, b\"");
    assert!(matches!(
        incompatible.kind(),
        ErrorKind::BuilderError(BuilderErrorKind::IncompatibleParameters { .. })
    ));

    let missing = Error::missing_required_parameter("nothing chosen");
    assert!(matches!(
        missing.kind(),
        ErrorKind::BuilderError(BuilderErrorKind::MissingRequiredParameter { .. })
    ));

    let unauthorized = Error::authorization_required("not allowed");
    assert_eq!(unauthorized.to_text(), "builder error: \"not allowed\"");
    assert!(matches!(
        unauthorized.kind(),
        ErrorKind::BuilderError(BuilderErrorKind::AuthorizationRequired { .. })
    ));
    assert!(unauthorized.url().is_none());
    assert!(unauthorized.source().is_none());
}

#[test]
fn builder_error_kind_gives_its_message() {
    let error = Error::invalid_parameter("bad value");
    match error.kind() {
        ErrorKind::BuilderError(kind) => assert_eq!(kind.message(), "bad value"),
        _ => panic!("not a builder error"),
    }
}

#[test]
fn transport_and_server_errors_render_kind_and_source() {
    let transport = Error::new(
        ErrorKind::ReqwestError,
        Some(ErrorSource::Other("connection refused".to_string())),
        None,
    );
    assert_eq!(transport.to_text(), "reqwest error: connection refused");

    let server = Error::new(ErrorKind::ServerError, None, None);
    assert_eq!(server.to_text(), "server error");
}

#[test]
fn client_error_renders_status_name_and_every_detail() {
    let payload = YouTubeError::new(
        StatusCode::from_u16(400).unwrap(),
        "Request contains an invalid argument.".to_string(),
        vec![bad_request_detail(), bad_request_detail(), bad_request_detail()],
        Some("INVALID_ARGUMENT".to_string()),
    );
    let url = Url::parse(
        "https://www.googleapis.com/youtube/v3/search?channelId=dasvvdasvrgegrebr232&key=k&part=snippet&type=channel,playlist,video",
    )
    .unwrap();
    let error = Error::client_error(payload, request_url(&url));
    let detail =
        "message: \"Request contains an invalid argument.\", domain: \"global\", reason: \"badRequest\"";
    let expected = format!(
        "{}{}{}{}",
        "client error for url (\"/youtube/v3/search?channelId=dasvvdasvrgegrebr232&key=[API_KEY]&part=snippet&type=channel,playlist,video\"): ",
        "400 Bad Request status: \"INVALID_ARGUMENT\" ",
        "message: \"Request contains an invalid argument.\" ",
        format!("[{}, {}, {}]", detail, detail, detail)
    );
    assert_eq!(error.to_text(), expected);
    assert_eq!(
        error.url().unwrap(),
        "/youtube/v3/search?channelId=dasvvdasvrgegrebr232&key=[API_KEY]&part=snippet&type=channel,playlist,video"
    );
}

#[test]
fn detail_renders_location_and_its_type() {
    let detail = YouTubeErrorDetail {
        message: "m".to_string(),
        domain: "d".to_string(),
        reason: "r".to_string(),
        location: Some("part".to_string()),
        location_type: Some("parameter".to_string()),
    };
    assert_eq!(
        detail.to_text(),
        "message: \"m\", domain: \"d\", reason: \"r\", location: \"part\", location_type: \"parameter\""
    );
}

#[test]
fn payload_getters_give_what_was_put_in() {
    let payload = missing_filter_payload();
    assert_eq!(payload.code(), StatusCode::from_u16(400).unwrap());
    assert_eq!(payload.code().as_u16(), 400);
    assert_eq!(
        payload.message(),
        "No filter selected. Expected one of: for_username, id, managed_by_me, mine"
    );
    assert_eq!(payload.errors().len(), 1);
    assert_eq!(payload.status(), None);
}

#[test]
fn payload_without_details_renders_empty_brackets() {
    let payload = YouTubeError::new(
        StatusCode::from_u16(503).unwrap(),
        "down".to_string(),
        vec![],
        None,
    );
    assert_eq!(payload.to_text(), "503 Service Unavailable message: \"down\" []");
}

#[test]
fn status_code_has_three_digits() {
    assert!(StatusCode::from_u16(99).is_none());
    assert!(StatusCode::from_u16(1000).is_none());
    assert_eq!(StatusCode::from_u16(100).unwrap().as_u16(), 100);
    assert_eq!(StatusCode::from_u16(999).unwrap().as_u16(), 999);
    assert_eq!(StatusCode::from_u16(404).unwrap().to_text(), "404 Not Found");
    assert_eq!(StatusCode::from_u16(799).unwrap().to_text(), "799 <unknown status code>");
}

#[test]
fn payload_status_decides_between_client_and_server_error() {
    let url = || RequestUrl { path: "/p".to_string(), query: vec![] };
    let payload = |code: u16| {
        YouTubeError::new(StatusCode::from_u16(code).unwrap(), "m".to_string(), vec![], None)
    };
    assert!(matches!(Error::from_payload(payload(400), url()).kind(), ErrorKind::ClientError));
    assert!(matches!(Error::from_payload(payload(499), url()).kind(), ErrorKind::ClientError));
    assert!(matches!(Error::from_payload(payload(500), url()).kind(), ErrorKind::ServerError));
    assert!(matches!(Error::from_payload(payload(599), url()).kind(), ErrorKind::ServerError));
    assert!(matches!(Error::from_payload(payload(600), url()).kind(), ErrorKind::ClientError));
    assert_eq!(
        Error::server_error(payload(500), url()).to_text(),
        "server error for url (\"/p?\"): 500 Internal Server Error message: \"m\" []"
    );
    assert_eq!(
        Error::transport("timed out".to_string()).to_text(),
        "reqwest error: timed out"
    );
    assert!(StatusCode::from_u16(503).unwrap().is_server_error());
    assert!(!StatusCode::from_u16(404).unwrap().is_server_error());
}

#[test]
fn payload_renders_behind_a_given_status_line() {
    let body = YouTubeErrorRepr {
        code: StatusCode::from_u16(418).unwrap(),
        message: "m".to_string(),
        errors: vec![bad_request_detail()],
        status: Some("S".to_string()),
    };
    assert_eq!(
        body.to_text_after("LINE".to_string()),
        "LINE status: \"S\" message: \"m\" [message: \"Request contains an invalid argument.\", domain: \"global\", reason: \"badRequest\"]"
    );
    assert_eq!(
        body.to_text(),
        "418 I'm a teapot status: \"S\" message: \"m\" [message: \"Request contains an invalid argument.\", domain: \"global\", reason: \"badRequest\"]"
    );
}
