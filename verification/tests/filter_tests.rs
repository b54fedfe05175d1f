use inventory_core::filter::{InventoryItemQueryFilter, ItemQueryFilter};

fn empty_filter() -> ItemQueryFilter {
    ItemQueryFilter { search_value: None, included_traits: None, excluded_traits: None }
}

#[test]
fn empty_filter_resolves_marker_to_empty() {
    let (text, params) = empty_filter().to_cypher_query("MATCH (item:Item) <FILTER> RETURN item");
    assert_eq!(text, "MATCH (item:Item)  RETURN item");
    assert!(params.is_empty());
}

#[test]
fn empty_search_and_empty_lists_produce_no_conditions() {
    let f = ItemQueryFilter {
        search_value: Some(String::new()),
        included_traits: Some(Vec::new()),
        excluded_traits: Some(Vec::new()),
    };
    let (text, params) = f.to_cypher_query("HEAD <FILTER> TAIL");
    assert_eq!(text, "HEAD  TAIL");
    // the joined list of included traits is still bound, as the empty string
    assert_eq!(params, vec![("included_traits".to_string(), String::new())]);
}

#[test]
fn search_value_travels_only_as_parameter() {
    let f = ItemQueryFilter {
        search_value: Some("Sword".to_string()),
        included_traits: None,
        excluded_traits: None,
    };
    let (text, params) = f.to_cypher_query("M <FILTER> R");
    assert_eq!(text, "M WHERE toLower(item.name) CONTAINS toLower($search_value) R");
    assert_eq!(params, vec![("search_value".to_string(), "Sword".to_string())]);
    assert!(!text.contains("Sword"));
}

#[test]
fn two_included_tags_bind_two_distinct_params() {
    let f = ItemQueryFilter {
        search_value: None,
        included_traits: Some(vec!["A".to_string(), "B".to_string()]),
        excluded_traits: None,
    };
    let (text, params) = f.to_cypher_query("M <FILTER> R");
    assert_eq!(
        text,
        "M WHERE (item)-[:HAS_TRAIT]->(:Trait{name: $it0}) AND \
         (item)-[:HAS_TRAIT]->(:Trait{name: $it1}) R"
    );
    assert_eq!(
        params,
        vec![
            ("it0".to_string(), "A".to_string()),
            ("it1".to_string(), "B".to_string()),
            ("included_traits".to_string(), "A,B".to_string()),
        ]
    );
    assert_ne!(params[0].0, params[1].0);
}

#[test]
fn excluded_tags_bind_negated_conditions() {
    let f = ItemQueryFilter {
        search_value: None,
        included_traits: None,
        excluded_traits: Some(vec!["Cursed".to_string()]),
    };
    let (text, params) = f.to_cypher_query("M <FILTER> R");
    assert_eq!(text, "M WHERE NOT (item)-[:HAS_TRAIT]->(:Trait{name: $et0}) R");
    assert_eq!(params, vec![("et0".to_string(), "Cursed".to_string())]);
}

#[test]
fn mixed_filter_joins_conditions_with_and() {
    let f = ItemQueryFilter {
        search_value: Some("po".to_string()),
        included_traits: Some(vec!["Consumable".to_string()]),
        excluded_traits: Some(vec!["Cursed".to_string()]),
    };
    let (text, params) = f.to_cypher_query("M <FILTER> R");
    assert_eq!(
        text,
        "M WHERE toLower(item.name) CONTAINS toLower($search_value) AND \
         (item)-[:HAS_TRAIT]->(:Trait{name: $it0}) AND \
         NOT (item)-[:HAS_TRAIT]->(:Trait{name: $et0}) R"
    );
    assert_eq!(params.len(), 4);
}

#[test]
fn client_text_never_reaches_query_text() {
    let hostile = "') DETACH DELETE n //".to_string();
    let f = ItemQueryFilter {
        search_value: Some(hostile.clone()),
        included_traits: Some(vec![hostile.clone()]),
        excluded_traits: Some(vec![hostile.clone()]),
    };
    let (text, params) = f.to_cypher_query("M <FILTER> R");
    assert!(!text.contains("DETACH"));
    // the search term, one included binding, the joined included list,
    // and one excluded binding all carry the hostile text as data
    assert_eq!(params.iter().filter(|(_, v)| v == &hostile).count(), 4);
}

#[test]
fn compiling_twice_is_deterministic() {
    let f = InventoryItemQueryFilter {
        search_value: Some("axe".to_string()),
        included_traits: Some(vec!["A".to_string(), "B".to_string()]),
        excluded_traits: Some(vec!["C".to_string()]),
    };
    let first = f.to_cypher_query("M <FILTER> R");
    let second = f.to_cypher_query("M <FILTER> R");
    assert_eq!(first.0, second.0);
    assert_eq!(first.1, second.1);
}

#[test]
fn inventory_item_filter_compiles_like_item_filter() {
    let f = InventoryItemQueryFilter {
        search_value: Some("po".to_string()),
        included_traits: None,
        excluded_traits: None,
    };
    let (text, params) = f.to_cypher_query("M <FILTER> R");
    assert_eq!(text, "M WHERE toLower(item.name) CONTAINS toLower($search_value) R");
    assert_eq!(params, vec![("search_value".to_string(), "po".to_string())]);
}
