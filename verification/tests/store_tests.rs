use inventory_core::filter::ItemQueryFilter;
use inventory_core::inventories::InventoryCurrencyChangeInput;
use inventory_core::ledger::InventoryItemQuantityAdjustmentParams;
use inventory_core::query_plan::build_item_listing;
use inventory_core::store::{
    adjustment_query, count_to_query, currency_update_query, current_quantity_query,
    inventory_plan_to_query, plan_to_query,
};

#[test]
fn current_quantity_query_binds_both_identifiers() {
    let q = current_quantity_query("inv-1", "item-1");
    assert!(q.has_param_key("inventory_uuid"));
    assert!(q.has_param_key("item_uuid"));
    assert!(!q.has_param_key("quantity_change"));
}

#[test]
fn adjustment_query_binds_the_signed_change() {
    let req = InventoryItemQuantityAdjustmentParams {
        item_id: "item-1".to_string(),
        quantity_change: -5,
    };
    let q = adjustment_query("inv-1", &req);
    assert!(q.has_param_key("inventory_uuid"));
    assert!(q.has_param_key("item_uuid"));
    assert!(q.has_param_key("quantity_change"));
}

#[test]
fn currency_update_query_binds_all_denominations() {
    let change = InventoryCurrencyChangeInput { cp: 1, sp: 2, gp: 3, pp: 4 };
    let q = currency_update_query("inv-1", &change);
    assert!(q.has_param_key("inventory_uuid"));
    assert!(q.has_param_key("pp"));
    assert!(q.has_param_key("gp"));
    assert!(q.has_param_key("sp"));
    assert!(q.has_param_key("cp"));
}

#[test]
fn listing_plan_becomes_a_fully_bound_query() {
    let f = ItemQueryFilter {
        search_value: Some("sword".to_string()),
        included_traits: Some(vec!["Magic".to_string()]),
        excluded_traits: None,
    };
    let plan = build_item_listing(&f, "name", "ASC", 0, 10).unwrap();
    let q = plan_to_query(&plan);
    assert!(q.has_param_key("search_value"));
    assert!(q.has_param_key("it0"));
    assert!(q.has_param_key("included_traits"));
    assert!(q.has_param_key("skip"));
    assert!(q.has_param_key("limit"));
    assert!(!q.has_param_key("uuid"));
    let q2 = inventory_plan_to_query(&plan, "inv-1");
    assert!(q2.has_param_key("uuid"));
}

#[test]
fn count_query_binds_the_inventory_when_given() {
    let params = vec![("search_value".to_string(), "x".to_string())];
    let q = count_to_query("T", &params, &Some("inv-1".to_string()));
    assert!(q.has_param_key("uuid"));
    assert!(q.has_param_key("search_value"));
    let q2 = count_to_query("T", &params, &None);
    assert!(!q2.has_param_key("uuid"));
}
