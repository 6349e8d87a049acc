use youtube_data::api::{DataApi, ListApi};
use youtube_data::error::{BuilderErrorKind, ErrorKind};
use youtube_data::handler::YouTube;
use youtube_data::videos::{Chart, MyRating, Part};

fn get_develop_key() -> String {
    "test-api-key".to_string()
}

#[test]
#[should_panic]
fn test_request_without_filter() {
    let youtube = YouTube::new(get_develop_key(), None);

    let _ = youtube.videos().list(vec![Part::Snippet]).request().unwrap();
}

#[test]
#[should_panic]
fn videos_test_request_multiple_filters() {
    let youtube = YouTube::new(get_develop_key(), None);

    let _ = youtube
        .videos()
        .list(vec![Part::Snippet])
        .chart(Chart::MostPopular)
        .id(vec!["Ks-_Mh1QhMc", "c0KYU2j0TM4", "eIho2S0ZahI"])
        .request()
        .unwrap();
}

#[test]
fn videos_without_filter_is_a_missing_parameter() {
    let youtube = YouTube::new(get_develop_key(), None);
    let err = youtube.videos().list(vec![Part::Snippet]).request().unwrap_err();
    assert_eq!(
        err.to_text(),
        "builder error: \"No filter selected. Expected one of: chart, id, my_rating\""
    );
    assert!(matches!(
        err.kind(),
        ErrorKind::BuilderError(BuilderErrorKind::MissingRequiredParameter { .. })
    ));
}

#[test]
fn videos_multiple_filters_are_named_in_order() {
    let youtube = YouTube::new(get_develop_key(), None);
    let err = youtube
        .videos()
        .list(vec![Part::Snippet])
        .my_rating(MyRating::Like)
        .chart(Chart::MostPopular)
        .request()
        .unwrap_err();
    assert_eq!(
        err.to_text(),
        "builder error: \"Incompatible parameters specified in the request: chart, my_rating\""
    );

    let err = youtube
        .videos()
        .list(vec![Part::Snippet])
        .my_rating(MyRating::Like)
        .id(vec![])
        .chart(Chart::MostPopular)
        .request()
        .unwrap_err();
    assert_eq!(
        err.to_text(),
        "builder error: \"Incompatible parameters specified in the request: chart, id, my_rating\""
    );
}

#[test]
fn videos_empty_id_list_is_an_invalid_parameter() {
    let youtube = YouTube::new(get_develop_key(), None);
    let err = youtube.videos().list(vec![Part::Snippet]).id(vec![]).request().unwrap_err();
    assert_eq!(
        err.to_text(),
        "builder error: \"Request contains an invalid argument: parameter `id` must not be empty\""
    );
    assert!(matches!(
        err.kind(),
        ErrorKind::BuilderError(BuilderErrorKind::InvalidParameter { .. })
    ));
}

#[test]
fn videos_my_rating_needs_authorization() {
    let youtube = YouTube::new(get_develop_key(), None);
    let err = youtube
        .videos()
        .list(vec![])
        .my_rating(MyRating::Dislike)
        .max_results(3)
        .request()
        .unwrap_err();
    assert_eq!(
        err.to_text(),
        "builder error: \"The request uses the `my_rating` parameter but is not properly authorized\""
    );
}

#[test]
fn videos_content_owner_needs_authorization() {
    let youtube = YouTube::new(get_develop_key(), None);
    let err = youtube
        .videos()
        .list(vec![])
        .id(vec!["a"])
        .on_behalf_of_content_owner("")
        .request()
        .unwrap_err();
    assert_eq!(
        err.to_text(),
        "builder error: \"The request uses the `on_behalf_of_content_owner` parameter but is not properly authorized\""
    );
}

#[test]
fn videos_ids_are_joined_with_commas() {
    let youtube = YouTube::new(get_develop_key(), None);
    let params = youtube
        .videos()
        .list(vec![Part::Snippet])
        .id(vec!["Ks-_Mh1QhMc", "c0KYU2j0TM4", "eIho2S0ZahI"])
        .request()
        .unwrap();
    assert_eq!(params.get("id"), Some("Ks-_Mh1QhMc,c0KYU2j0TM4,eIho2S0ZahI"));
    assert_eq!(params.get("part"), Some("snippet"));
    assert_eq!(params.get("key"), Some("test-api-key"));
    assert_eq!(params.contains_key("chart"), false);
}

#[test]
fn videos_empty_ids_are_left_out_of_the_list() {
    let youtube = YouTube::new(get_develop_key(), None);
    let params = youtube.videos().list(vec![]).id(vec!["a", "", "b"]).request().unwrap();
    assert_eq!(params.get("id"), Some("a,b"));
    let params = youtube.videos().list(vec![]).id(vec![""]).request().unwrap();
    assert_eq!(params.contains_key("id"), false);
}

#[test]
fn videos_chart_carries_the_category() {
    let youtube = YouTube::new(get_develop_key(), None);
    let params = youtube
        .videos()
        .list(vec![Part::Snippet, Part::LiveStreamingDetails])
        .chart(Chart::MostPopular)
        .video_category_id("10")
        .region_code("JP")
        .hl("ja")
        .page_token("next")
        .max_results(10)
        .request()
        .unwrap();
    assert_eq!(params.get("chart"), Some("mostPopular"));
    assert_eq!(params.get("videoCategoryId"), Some("10"));
    assert_eq!(params.get("regionCode"), Some("JP"));
    assert_eq!(params.get("hl"), Some("ja"));
    assert_eq!(params.get("pageToken"), Some("next"));
    assert_eq!(params.get("maxResults"), Some("10"));
    assert_eq!(params.get("part"), Some("snippet,liveStreamingDetails"));
}

#[test]
fn videos_category_goes_out_only_with_a_chart() {
    let youtube = YouTube::new(get_develop_key(), None);
    let params =
        youtube.videos().list(vec![]).id(vec!["a"]).video_category_id("10").request().unwrap();
    assert_eq!(params.contains_key("videoCategoryId"), false);
}

#[test]
fn videos_sizes_are_clamped() {
    let youtube = YouTube::new(get_develop_key(), None);
    let params = youtube
        .videos()
        .list(vec![])
        .id(vec!["a"])
        .max_height(5000)
        .max_width(9000)
        .max_results(1000)
        .request()
        .unwrap();
    assert_eq!(params.get("maxHeight"), Some("4320"));
    assert_eq!(params.get("maxWidth"), Some("8192"));
    assert_eq!(params.get("maxResults"), Some("50"));

    let params =
        youtube.videos().list(vec![]).id(vec!["a"]).max_height(71).max_width(0).request().unwrap();
    assert_eq!(params.get("maxHeight"), Some("72"));
    assert_eq!(params.get("maxWidth"), Some("72"));

    let params = youtube
        .videos()
        .list(vec![])
        .id(vec!["a"])
        .max_height(72)
        .max_width(8192)
        .request()
        .unwrap();
    assert_eq!(params.get("maxHeight"), Some("72"));
    assert_eq!(params.get("maxWidth"), Some("8192"));

    let params = youtube
        .videos()
        .list(vec![])
        .id(vec!["a"])
        .max_height(4320)
        .max_width(1280)
        .request()
        .unwrap();
    assert_eq!(params.get("maxHeight"), Some("4320"));
    assert_eq!(params.get("maxWidth"), Some("1280"));
}

#[test]
fn videos_path_and_tokens() {
    let youtube = YouTube::new(get_develop_key(), None);
    assert_eq!(youtube.videos().list(vec![]).api_path(), "videos");
    assert_eq!(Chart::MostPopular.as_str(), "mostPopular");
    assert_eq!(MyRating::Dislike.as_str(), "dislike");
    assert_eq!(MyRating::Like.as_str(), "like");
    let tokens: Vec<&str> = [
        Part::ContentDetails,
        Part::FileDetails,
        Part::Id,
        Part::LiveStreamingDetails,
        Part::Localizations,
        Part::Player,
        Part::ProcessingDetails,
        Part::RecordingDetails,
        Part::Snippet,
        Part::Statistics,
        Part::Status,
        Part::Suggestions,
        Part::TopicDetails,
    ]
    .iter()
    .map(|part| part.as_str())
    .collect();
    assert_eq!(
        tokens,
        vec![
            "contentDetails",
            "fileDetails",
            "id",
            "liveStreamingDetails",
            "localizations",
            "player",
            "processingDetails",
            "recordingDetails",
            "snippet",
            "statistics",
            "status",
            "suggestions",
            "topicDetails"
        ]
    );
}
