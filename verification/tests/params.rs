use chrono::{TimeZone, Utc};
use youtube_data::api::{rendered, rendered_list, rendered_time, DataApi};
use youtube_data::params::RequestParameters;
use youtube_data::time::Timestamp;

struct Test {}

impl DataApi for Test {
    fn api_path(&self) -> &str {
        ""
    }
}

#[test]
fn test_insert_query_parameter() {
    let test = Test {};
    let mut map = RequestParameters::new();

    // string
    test.insert_query_parameter(&mut map, "key1", Some("value"));
    // none
    test.insert_query_parameter(&mut map, "key2", None::<String>);
    // empty string
    test.insert_query_parameter(&mut map, "key3", Some(""));
    // bool
    test.insert_query_parameter(&mut map, "key4", Some(true));

    assert_eq!(map.get("key1").unwrap(), "value");
    assert_eq!(map.contains_key("key2"), false);
    assert_eq!(map.contains_key("key3"), false);
    assert_eq!(map.get("key4").unwrap(), "true");
}

#[test]
fn test_insert_date_time_query_parameter() {
    let test = Test {};
    let mut map = RequestParameters::new();

    let instant = Utc.with_ymd_and_hms(2021, 1, 1, 0, 0, 0).unwrap();
    test.insert_date_time_query_parameter(
        &mut map,
        "key1",
        Some(Timestamp::from_seconds(instant.timestamp())),
    );

    assert_eq!(map.get("key1").unwrap(), "2021-01-01T00:00:00Z");
}

#[test]
fn test_insert_query_parameters() {
    let test = Test {};
    let mut map = RequestParameters::new();

    test.insert_query_parameters(&mut map, "key1", Some(&vec!["value1", "value2"]));

    assert_eq!(map.get("key1").unwrap(), "value1,value2");
}

#[test]
fn insert_offers_takes_each_offer_in_order() {
    let test = Test {};
    let mut map = RequestParameters::new();
    map.insert("kept".to_string(), "yes".to_string());
    let offers = vec![
        ("a", Some("1".to_string())),
        ("b", None),
        ("c", Some(String::new())),
        ("a", Some("2".to_string())),
        ("d", Some("4".to_string())),
    ];
    test.insert_offers(&mut map, &offers);
    assert_eq!(map.get("kept"), Some("yes"));
    assert_eq!(map.get("a"), Some("2"));
    assert_eq!(map.contains_key("b"), false);
    assert_eq!(map.contains_key("c"), false);
    assert_eq!(map.get("d"), Some("4"));
    assert_eq!(map.pairs().len(), 3);
}

#[test]
fn rendered_values_keep_absence() {
    assert_eq!(rendered(Some(12u32)), Some("12".to_string()));
    assert_eq!(rendered(None::<u32>), None);
    assert_eq!(rendered(Some("")), Some(String::new()));
    assert_eq!(rendered_list(Some(&vec!["a", "b"])), Some("a,b".to_string()));
    assert_eq!(rendered_list(None::<&Vec<&str>>), None);
    assert_eq!(
        rendered_time(Some(Timestamp::from_seconds(1609459200))),
        Some("2021-01-01T00:00:00Z".to_string())
    );
    assert_eq!(rendered_time(Some(Timestamp::from_seconds(i64::MIN))), None);
    assert_eq!(rendered_time(None), None);
}

#[test]
fn date_time_out_of_range_is_left_out() {
    let test = Test {};
    let mut map = RequestParameters::new();
    test.insert_date_time_query_parameter(&mut map, "key1", Some(Timestamp::from_seconds(i64::MAX)));
    test.insert_date_time_query_parameter(&mut map, "key2", None);
    assert!(map.pairs().is_empty());
}
