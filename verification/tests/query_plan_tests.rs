use inventory_core::errors::CoreError;
use inventory_core::filter::{InventoryItemQueryFilter, ItemQueryFilter};
use inventory_core::query_plan::{
    build_inventory_items_count, build_inventory_items_listing, build_item_count,
    build_item_listing, direction,
};

fn item_filter(search: Option<&str>) -> ItemQueryFilter {
    ItemQueryFilter {
        search_value: search.map(|s| s.to_string()),
        included_traits: None,
        excluded_traits: None,
    }
}

#[test]
fn direction_only_ever_yields_the_two_keywords() {
    assert_eq!(direction("ASC"), "ASC");
    assert_eq!(direction("DESC"), "DESC");
    assert_eq!(direction("asc"), "DESC");
    assert_eq!(direction("; DROP"), "DESC");
}

#[test]
fn listing_plan_resolves_every_marker() {
    let plan = build_item_listing(&item_filter(Some("sword")), "value", "ASC", 2, 10).unwrap();
    assert!(!plan.text.contains("<FILTER>"));
    assert!(!plan.text.contains("<ORDER_FIELD>"));
    assert!(!plan.text.contains("<ORDER_DIR>"));
    assert!(plan.text.contains("ORDER BY numeric_value ASC, uuid DESC"));
    assert!(plan.text.contains("WHERE toLower(item.name) CONTAINS toLower($search_value)"));
    assert!(plan.text.contains("SKIP $skip LIMIT $limit"));
    assert_eq!(plan.skip, 20);
    assert_eq!(plan.limit, 10);
    assert_eq!(plan.params, vec![("search_value".to_string(), "sword".to_string())]);
}

#[test]
fn listing_plan_keeps_a_stable_tie_break() {
    let plan = build_item_listing(&item_filter(None), "bogus", "DESC", 0, 5).unwrap();
    assert!(plan.text.contains("ORDER BY name DESC, uuid DESC"));
}

#[test]
fn listing_plan_rejects_zero_page_size() {
    assert!(matches!(
        build_item_listing(&item_filter(None), "name", "ASC", 0, 0),
        Err(CoreError::InvalidArgument)
    ));
}

#[test]
fn count_query_mirrors_the_filter() {
    let (text, params) = build_item_count(&item_filter(None));
    assert_eq!(text, "MATCH (item:Item)  RETURN count(item) as total");
    assert!(params.is_empty());
    let (text2, params2) = build_item_count(&item_filter(Some("x")));
    assert_eq!(
        text2,
        "MATCH (item:Item) WHERE toLower(item.name) CONTAINS toLower($search_value) \
         RETURN count(item) as total"
    );
    assert_eq!(params2, vec![("search_value".to_string(), "x".to_string())]);
}

#[test]
fn inventory_listing_sorts_by_quantity_when_asked() {
    let f = InventoryItemQueryFilter {
        search_value: None,
        included_traits: None,
        excluded_traits: None,
    };
    let plan = build_inventory_items_listing(&f, "quantity", "ASC", 1, 20).unwrap();
    assert!(plan.text.contains("ORDER BY quantity ASC, uuid DESC"));
    assert!(plan.text.contains("MATCH (inv:Inventory{uuid: $uuid})"));
    assert_eq!(plan.skip, 20);
    let (count_text, _) = build_inventory_items_count(&f);
    assert_eq!(
        count_text,
        "MATCH (inv:Inventory{uuid: $uuid}) MATCH (inv)-[c:CONTAINS]->(item:Item)  \
         RETURN count(item) as total"
    );
}
