use youtube_data::api::{list_to_wire, selected, WireValue};
use youtube_data::text::{decimal_string, join, pair_le_exec, sort_pairs, str_le};

fn pair(key: &str, value: &str) -> (String, String) {
    (key.to_string(), value.to_string())
}

#[test]
fn decimal_string_writes_numerals() {
    assert_eq!(decimal_string(0), "0");
    assert_eq!(decimal_string(7), "7");
    assert_eq!(decimal_string(10), "10");
    assert_eq!(decimal_string(50), "50");
    assert_eq!(decimal_string(4320), "4320");
    assert_eq!(decimal_string(1234567890), "1234567890");
    assert_eq!(decimal_string(u32::MAX), "4294967295");
}

#[test]
fn join_puts_the_separator_between_neighbours() {
    let none: Vec<String> = vec![];
    assert_eq!(join(&none, ", "), "");
    assert_eq!(join(&vec!["a".to_string()], ", "), "a");
    assert_eq!(join(&vec!["a".to_string(), "b".to_string(), "c".to_string()], ", "), "a, b, c");
    assert_eq!(join(&vec!["".to_string(), "".to_string()], "&"), "&");
}

#[test]
fn str_le_is_the_order_of_bytes() {
    assert!(str_le("", ""));
    assert!(str_le("", "a"));
    assert!(!str_le("a", ""));
    assert!(str_le("a", "a"));
    assert!(str_le("a", "ab"));
    assert!(!str_le("ab", "a"));
    assert!(str_le("ab", "b"));
    assert!(str_le("Z", "a"));
    assert!(str_le("a1", "a="));
    assert!(str_le("z", "日本語"));
    assert!(!str_le("日本語", "z"));
    for (a, b) in [("id", "key"), ("key", "part"), ("abc", "abd"), ("x", "xy")] {
        assert_eq!(str_le(a, b), a <= b);
        assert_eq!(str_le(b, a), b <= a);
    }
}

#[test]
fn pairs_are_ordered_by_key_then_value() {
    assert!(pair_le_exec(&pair("a", "z"), &pair("b", "a")));
    assert!(!pair_le_exec(&pair("b", "a"), &pair("a", "z")));
    assert!(pair_le_exec(&pair("a", "1"), &pair("a", "2")));
    assert!(!pair_le_exec(&pair("a", "2"), &pair("a", "1")));
    assert!(pair_le_exec(&pair("a", "1"), &pair("a", "1")));
    assert!(pair_le_exec(&pair("a", "x"), &pair("a1", "x")));
}

#[test]
fn sort_pairs_sorts_and_keeps_every_pair() {
    let sorted = sort_pairs(vec![
        pair("part", "snippet"),
        pair("key", "k"),
        pair("id", "2"),
        pair("id", "1"),
        pair("key", "k"),
    ]);
    assert_eq!(
        sorted,
        vec![
            pair("id", "1"),
            pair("id", "2"),
            pair("key", "k"),
            pair("key", "k"),
            pair("part", "snippet"),
        ]
    );
    assert_eq!(sort_pairs(vec![]), vec![]);
}

#[test]
fn wire_forms_of_plain_values() {
    assert_eq!(true.to_wire(), "true");
    assert_eq!(false.to_wire(), "false");
    assert_eq!(42u32.to_wire(), "42");
    assert_eq!("text".to_wire(), "text");
    assert_eq!("text".to_string().to_wire(), "text");
    assert_eq!((&7u32).to_wire(), "7");
}

#[test]
fn list_wire_form_leaves_out_empty_members() {
    assert_eq!(list_to_wire(&vec!["a", "", "b", ""]), "a,b");
    assert_eq!(list_to_wire(&vec!["", ""]), "");
    let none: Vec<&str> = vec![];
    assert_eq!(list_to_wire(&none), "");
    assert_eq!(list_to_wire(&vec![1u32, 20, 300]), "1,20,300");
}

#[test]
fn selected_names_the_members_that_are_set() {
    let names = selected(&vec![(true, "a"), (false, "b"), (true, "c")]);
    assert_eq!(names, vec!["a".to_string(), "c".to_string()]);
    assert_eq!(selected(&vec![(false, "a")]), Vec::<String>::new());
}
