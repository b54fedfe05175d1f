use inventory_core::items;
use inventory_core::inventory_items;
use inventory_core::text::{join, replace_marker, str_eq, u64_to_string};

#[test]
fn item_sort_keys_resolve_through_the_whitelist() {
    assert_eq!(items::map_sort_field("name"), "name");
    assert_eq!(items::map_sort_field("value"), "numeric_value");
    assert_eq!(items::map_sort_field("level"), "level");
    assert_eq!(items::map_sort_field("bulk"), "bulk");
}

#[test]
fn unknown_sort_key_falls_back_to_name() {
    assert_eq!(items::map_sort_field("bogus"), "name");
    assert_eq!(items::map_sort_field(""), "name");
    assert_eq!(items::map_sort_field("name; DROP"), "name");
}

#[test]
fn inventory_sort_adds_quantity_to_the_whitelist() {
    assert_eq!(inventory_items::map_sort_field("quantity"), "quantity");
    assert_eq!(inventory_items::map_sort_field("value"), "numeric_value");
    assert_eq!(inventory_items::map_sort_field("bogus"), "name");
}

#[test]
fn decimal_rendering_matches_the_usual_notation() {
    assert_eq!(u64_to_string(0), "0");
    assert_eq!(u64_to_string(7), "7");
    assert_eq!(u64_to_string(905), "905");
    assert_eq!(u64_to_string(u64::MAX), "18446744073709551615");
}

#[test]
fn replace_marker_replaces_every_occurrence() {
    assert_eq!(replace_marker("a<X>b<X>c", "<X>", "Y"), "aYbYc");
    assert_eq!(replace_marker("no marker", "<X>", "Y"), "no marker");
    assert_eq!(replace_marker("<X>", "<X>", ""), "");
    assert_eq!(replace_marker("aaa", "aa", "b"), "ba");
}

#[test]
fn join_places_the_separator_between_neighbours() {
    assert_eq!(join(&vec![], ","), "");
    assert_eq!(join(&vec!["a".to_string()], ","), "a");
    assert_eq!(join(&vec!["a".to_string(), "b".to_string(), "c".to_string()], ", "), "a, b, c");
}

#[test]
fn str_eq_decides_string_equality() {
    assert!(str_eq("", ""));
    assert!(str_eq("abc", "abc"));
    assert!(!str_eq("abc", "abd"));
    assert!(!str_eq("abc", "ab"));
}
