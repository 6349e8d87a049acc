use youtube_data::channels::{ChannelListResource, ChannelListResponse};
use youtube_data::model::{ListResponse, PageInfo, Thumbnail, ThumbnailKind, Thumbnails};
use youtube_data::params::RequestParameters;
use youtube_data::time::Timestamp;

fn thumbnail(url: &str) -> Thumbnail {
    Thumbnail { url: url.to_string(), width: Some(120), height: Some(90) }
}

fn page(results_per_page: i32, items: usize) -> ListResponse<u32> {
    ListResponse {
        kind: "youtube#videoListResponse".to_string(),
        etag: "etag".to_string(),
        next_page_token: None,
        prev_page_token: None,
        region_code: None,
        page_info: PageInfo { total_results: 1000, results_per_page },
        items: (0..items as u32).collect(),
    }
}

#[test]
fn page_holds_no_more_items_than_its_size() {
    assert!(page(5, 0).is_well_formed());
    assert!(page(5, 5).is_well_formed());
    assert!(!page(5, 6).is_well_formed());
    assert!(page(0, 0).is_well_formed());
    assert!(!page(0, 1).is_well_formed());
    assert!(!page(-1, 0).is_well_formed());
}

#[test]
fn page_knows_whether_another_follows() {
    let mut first = page(5, 5);
    assert!(!first.has_next_page());
    first.next_page_token = Some("CAUQAA".to_string());
    assert!(first.has_next_page());
}

#[test]
fn channel_page_is_a_list_response() {
    let response: ChannelListResponse = ListResponse {
        kind: "youtube#channelListResponse".to_string(),
        etag: "etag".to_string(),
        next_page_token: None,
        prev_page_token: None,
        region_code: None,
        page_info: PageInfo { total_results: 1, results_per_page: 5 },
        items: vec![ChannelListResource {
            kind: "youtube#channel".to_string(),
            etag: "etag".to_string(),
            id: "UCa9Y57gfeY0Zro_noHRVrnw".to_string(),
            snippet: None,
        }],
    };
    assert!(response.is_well_formed());
    assert_eq!("UCa9Y57gfeY0Zro_noHRVrnw", response.items[0].id);
}

#[test]
fn thumbnails_hold_one_image_of_each_size() {
    let mut set = Thumbnails::new();
    assert!(set.get(ThumbnailKind::Default).is_none());
    assert!(set.insert(ThumbnailKind::Default, thumbnail("a")).is_none());
    assert!(set.insert(ThumbnailKind::Maxres, thumbnail("b")).is_none());
    assert_eq!(set.get(ThumbnailKind::Default).unwrap().url, "a");
    assert_eq!(set.get(ThumbnailKind::Maxres).unwrap().url, "b");
    assert!(set.get(ThumbnailKind::Medium).is_none());
    assert!(set.get(ThumbnailKind::High).is_none());
    assert!(set.get(ThumbnailKind::Standard).is_none());

    let before = set.insert(ThumbnailKind::Default, thumbnail("c"));
    assert_eq!(before.unwrap().url, "a");
    assert_eq!(set.get(ThumbnailKind::Default).unwrap().url, "c");
    assert_eq!(set.get(ThumbnailKind::Maxres).unwrap().url, "b");

    assert!(set.insert(ThumbnailKind::Medium, thumbnail("m")).is_none());
    assert!(set.insert(ThumbnailKind::High, thumbnail("h")).is_none());
    assert!(set.insert(ThumbnailKind::Standard, thumbnail("s")).is_none());
    assert_eq!(set.get(ThumbnailKind::Medium).unwrap().url, "m");
    assert_eq!(set.get(ThumbnailKind::High).unwrap().url, "h");
    assert_eq!(set.get(ThumbnailKind::Standard).unwrap().url, "s");
}

#[test]
fn parameters_replace_the_value_of_a_key() {
    let mut params = RequestParameters::new();
    assert_eq!(params.get("a"), None);
    assert!(params.pairs().is_empty());
    params.insert("a".to_string(), "1".to_string());
    params.insert("b".to_string(), "2".to_string());
    params.insert("a".to_string(), "3".to_string());
    assert_eq!(params.get("a"), Some("3"));
    assert_eq!(params.get("b"), Some("2"));
    assert!(params.contains_key("a"));
    assert!(!params.contains_key("c"));
    params.insert("c".to_string(), String::new());
    assert!(!params.contains_key("c"));
    params.insert("b".to_string(), String::new());
    assert_eq!(params.get("b"), Some("2"));
    assert_eq!(
        params.pairs(),
        vec![("a".to_string(), "3".to_string()), ("b".to_string(), "2".to_string())]
    );
}

#[test]
fn timestamps_render_as_rfc3339_in_utc() {
    assert_eq!(Timestamp::from_seconds(0).to_rfc3339().unwrap(), "1970-01-01T00:00:00Z");
    assert_eq!(
        Timestamp::from_seconds(1609459200).to_rfc3339().unwrap(),
        "2021-01-01T00:00:00Z"
    );
    assert_eq!(Timestamp::from_seconds(-1).to_rfc3339().unwrap(), "1969-12-31T23:59:59Z");
    assert_eq!(Timestamp::from_seconds(i64::MAX).to_rfc3339(), None);
    assert_eq!(Timestamp::from_seconds(1609459200).seconds, 1609459200);
}
