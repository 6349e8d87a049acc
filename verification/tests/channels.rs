use youtube_data::api::{DataApi, ListApi};
use youtube_data::channels::Part;
use youtube_data::error::{
    BuilderErrorKind, Error, ErrorKind, RequestUrl, YouTubeError, YouTubeErrorDetail,
};
use youtube_data::handler::YouTube;
use youtube_data::status::StatusCode;

fn get_youtube_without_user_agent() -> YouTube {
    YouTube::new("test-api-key".to_string(), None)
}

#[test]
fn test_request_without_filters() {
    let without_filters = get_youtube_without_user_agent()
        .channels()
        .list(vec![])
        .request();
    assert_eq!(true, without_filters.is_err());
    let err = without_filters.unwrap_err();
    assert_eq!(
        "builder error: \"No filter selected. Expected one of: for_username, id, managed_by_me, mine\"",
        err.to_text()
    );
}

#[test]
fn channels_test_request_multiple_filters() {
    let multiple_filters = get_youtube_without_user_agent()
        .channels()
        .list(vec![])
        .id("something")
        .for_username("something")
        .request();
    assert_eq!(true, multiple_filters.is_err());
    let err = multiple_filters.unwrap_err();
    assert_eq!(
        "builder error: \"Incompatible parameters specified in the request: for_username, id\"",
        err.to_text()
    );
}

/// test use filters that require authentication wihtout authentication
#[test]
fn channels_test_request_without_auth() {
    let without_auth = get_youtube_without_user_agent()
        .channels()
        .list(vec![])
        .mine(true)
        .request();
    assert_eq!(true, without_auth.is_err());
    let err = without_auth.unwrap_err();
    assert_eq!(
        "builder error: \"The request uses the `mine` parameter but is not properly authorized\"",
        err.to_text()
    );
}

#[test]
fn channels_request_by_id_sends_key_part_and_id() {
    let youtube = get_youtube_without_user_agent();
    let params = youtube
        .channels()
        .list(vec![Part::Snippet])
        .id("UCa9Y57gfeY0Zro_noHRVrnw")
        .request()
        .unwrap();
    assert_eq!(params.get("key"), Some("test-api-key"));
    assert_eq!(params.get("part"), Some("snippet"));
    assert_eq!(params.get("id"), Some("UCa9Y57gfeY0Zro_noHRVrnw"));
    assert_eq!(params.get("forUsername"), None);
    assert_eq!(params.get("maxResults"), None);
    let mut pairs = params.pairs();
    pairs.sort();
    assert_eq!(
        pairs,
        vec![
            ("id".to_string(), "UCa9Y57gfeY0Zro_noHRVrnw".to_string()),
            ("key".to_string(), "test-api-key".to_string()),
            ("part".to_string(), "snippet".to_string()),
        ]
    );
}

#[test]
fn channels_part_defaults_to_id_and_joins_with_commas() {
    let youtube = get_youtube_without_user_agent();
    let params = youtube.channels().list(vec![]).id("x").request().unwrap();
    assert_eq!(params.get("part"), Some("id"));

    let params = youtube
        .channels()
        .list(vec![Part::Snippet, Part::Statistics, Part::ContentOwnerDetails])
        .for_username("someone")
        .request()
        .unwrap();
    assert_eq!(params.get("part"), Some("snippet,statistics,contentOwnerDetails"));
    assert_eq!(params.get("forUsername"), Some("someone"));
}

#[test]
fn channels_empty_part_and_empty_key_are_left_out() {
    let youtube = get_youtube_without_user_agent();
    let params = youtube.channels().list(vec![Part::Snippet]).part(vec![]).id("x").request().unwrap();
    assert_eq!(params.contains_key("part"), false);
    assert_eq!(params.get("key"), Some("test-api-key"));

    let keyless = YouTube::new(String::new(), None);
    let params = keyless.channels().list(vec![]).id("x").request().unwrap();
    assert_eq!(params.contains_key("key"), false);
    assert_eq!(params.get("part"), Some("id"));
}

#[test]
fn channels_session_can_be_cloned() {
    let youtube = YouTube::new("test-api-key".to_string(), Some("agent/1.0".to_string()));
    let copy = youtube.clone();
    assert_eq!(copy.api_key(), "test-api-key");
    assert_eq!(copy.user_agent(), Some("agent/1.0"));
    assert_eq!(copy.base_path(), youtube.base_path());
    let params = copy.channels().list(vec![]).id("x").request().unwrap();
    assert_eq!(params.get("key"), Some("test-api-key"));
}

#[test]
fn channels_page_size_is_clamped_to_fifty() {
    let youtube = get_youtube_without_user_agent();
    let params = youtube.channels().list(vec![]).id("x").max_results(1000).request().unwrap();
    assert_eq!(params.get("maxResults"), Some("50"));

    let params = youtube.channels().list(vec![]).id("x").max_results(50).request().unwrap();
    assert_eq!(params.get("maxResults"), Some("50"));

    let params = youtube.channels().list(vec![]).id("x").max_results(7).request().unwrap();
    assert_eq!(params.get("maxResults"), Some("7"));

    let params = youtube.channels().list(vec![]).id("x").max_results(0).request().unwrap();
    assert_eq!(params.get("maxResults"), Some("0"));
}

#[test]
fn channels_optional_parameters_are_sent_unless_empty() {
    let youtube = get_youtube_without_user_agent();
    let params = youtube
        .channels()
        .list(vec![])
        .id("x")
        .hl("ja")
        .page_token("CAUQAA")
        .request()
        .unwrap();
    assert_eq!(params.get("hl"), Some("ja"));
    assert_eq!(params.get("pageToken"), Some("CAUQAA"));

    let params = youtube.channels().list(vec![]).id("x").hl("").page_token("").request().unwrap();
    assert_eq!(params.contains_key("hl"), false);
    assert_eq!(params.contains_key("pageToken"), false);
}

#[test]
fn channels_all_filters_set_names_all_four() {
    let err = get_youtube_without_user_agent()
        .channels()
        .list(vec![])
        .mine(true)
        .managed_by_me(false)
        .id("a")
        .for_username("b")
        .request()
        .unwrap_err();
    assert_eq!(
        err.to_text(),
        "builder error: \"Incompatible parameters specified in the request: for_username, id, managed_by_me, mine\""
    );
    assert!(matches!(
        err.kind(),
        ErrorKind::BuilderError(BuilderErrorKind::IncompatibleParameters { .. })
    ));
}

#[test]
fn channels_managed_by_me_needs_authorization() {
    let err = get_youtube_without_user_agent()
        .channels()
        .list(vec![])
        .managed_by_me(true)
        .hl("en")
        .max_results(5)
        .request()
        .unwrap_err();
    assert_eq!(
        err.to_text(),
        "builder error: \"The request uses the `managed_by_me` parameter but is not properly authorized\""
    );
    assert!(matches!(
        err.kind(),
        ErrorKind::BuilderError(BuilderErrorKind::AuthorizationRequired { .. })
    ));
}

#[test]
fn channels_content_owner_needs_authorization_unless_empty() {
    let youtube = get_youtube_without_user_agent();
    let err = youtube
        .channels()
        .list(vec![])
        .id("x")
        .on_behalf_of_content_owner("owner")
        .request()
        .unwrap_err();
    assert_eq!(
        err.to_text(),
        "builder error: \"The request uses the `on_behalf_of_content_owner` parameter but is not properly authorized\""
    );

    let params = youtube
        .channels()
        .list(vec![])
        .id("x")
        .on_behalf_of_content_owner("")
        .request()
        .unwrap();
    assert_eq!(params.contains_key("onBehalfOfContentOwner"), false);
}

#[test]
fn channels_missing_filter_is_a_missing_parameter() {
    let err = get_youtube_without_user_agent()
        .channels()
        .list(vec![Part::Id])
        .hl("en")
        .request()
        .unwrap_err();
    assert!(matches!(
        err.kind(),
        ErrorKind::BuilderError(BuilderErrorKind::MissingRequiredParameter { .. })
    ));
}

#[test]
fn channels_request_can_be_repeated() {
    let youtube = get_youtube_without_user_agent();
    let service = youtube.channels();
    let mut list = service.list(vec![]);
    list.id("x").max_results(3);
    let first = list.request().unwrap().pairs();
    let second = list.request().unwrap().pairs();
    assert_eq!(first, second);
}

#[test]
fn channels_path_and_part_tokens() {
    let youtube = get_youtube_without_user_agent();
    assert_eq!(youtube.channels().list(vec![]).api_path(), "channels");
    assert_eq!(youtube.base_path(), "https://www.googleapis.com/youtube/v3");
    assert_eq!(youtube.api_key(), "test-api-key");
    assert_eq!(youtube.user_agent(), None);
    let tokens: Vec<&str> = [
        Part::AuditDetails,
        Part::BrandingSettings,
        Part::ContentDetails,
        Part::ContentOwnerDetails,
        Part::Id,
        Part::Localizations,
        Part::Snippet,
        Part::Statistics,
        Part::Status,
        Part::TopicDetails,
    ]
    .iter()
    .map(|part| part.as_str())
    .collect();
    assert_eq!(
        tokens,
        vec![
            "auditDetails",
            "brandingSettings",
            "contentDetails",
            "contentOwnerDetails",
            "id",
            "localizations",
            "snippet",
            "statistics",
            "status",
            "topicDetails"
        ]
    );
}

#[test]
fn test_request_with_invalid_id() {
    let youtube = get_youtube_without_user_agent();
    let params = youtube
        .channels()
        .list(vec![Part::Snippet])
        .id("UC_x5XG1OV2P6uZZ5FSM9Ttw日本語한국어English")
        .request()
        .unwrap();
    // what the API answers to this request
    let answer = YouTubeError::new(
        StatusCode::from_u16(400).unwrap(),
        "Request contains an invalid argument.".to_string(),
        vec![YouTubeErrorDetail {
            message: "Request contains an invalid argument.".to_string(),
            domain: "global".to_string(),
            reason: "badRequest".to_string(),
            location: None,
            location_type: None,
        }],
        Some("INVALID_ARGUMENT".to_string()),
    );
    let url = RequestUrl { path: "/youtube/v3/channels".to_string(), query: params.pairs() };
    let invalid_id: Result<(), Error> = Err(Error::from_payload(answer, url));
    assert_eq!(true, invalid_id.is_err());
    let err = invalid_id.unwrap_err();
    let assert_message = format!(
        "{}{}{}{}",
        "client error for url (\"/youtube/v3/channels?id=UC_x5XG1OV2P6uZZ5FSM9Ttw日本語한국어English&key=[API_KEY]&part=snippet\"): ",
        "400 Bad Request status: \"INVALID_ARGUMENT\" ",
        "message: \"Request contains an invalid argument.\" ",
        "[message: \"Request contains an invalid argument.\", domain: \"global\", reason: \"badRequest\"]"
    );
    assert_eq!(assert_message, err.to_text());
}
