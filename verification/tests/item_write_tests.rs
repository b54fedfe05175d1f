use inventory_core::item_write::{
    build_item_create_query, build_item_update_query, build_item_update_text,
    ItemCreationFields, ItemUpdateFields,
};
use inventory_core::store::{
    inventories_query, inventory_by_owner_name_query, inventory_by_uuid_query,
    item_by_uuid_query, traits_query,
};

fn no_fields() -> ItemUpdateFields {
    ItemUpdateFields {
        name: None,
        level: None,
        activation_cost: None,
        has_bulk: false,
        description: None,
        usage_requirements: None,
        value: None,
        effect: None,
    }
}

#[test]
fn update_text_assigns_only_present_fields() {
    let fields = ItemUpdateFields {
        name: Some("Lamp".to_string()),
        level: Some(2),
        value: Some(120),
        ..no_fields()
    };
    let text = build_item_update_text(&fields);
    assert!(text.contains("SET item.name = $name, item.level = $level, item.value = $value\n"));
    assert!(!text.contains("$description"));
    assert!(!text.contains("$bulk"));
    assert!(!text.contains("<SET_CLAUSE>"));
    assert!(!text.contains("Lamp"));
}

#[test]
fn update_text_reserves_a_slot_for_the_bulk_weight() {
    let fields = ItemUpdateFields { has_bulk: true, ..no_fields() };
    let text = build_item_update_text(&fields);
    assert!(text.contains("SET item.bulk = $bulk\n"));
}

#[test]
fn update_query_binds_present_fields_only() {
    let fields = ItemUpdateFields {
        name: Some("Lamp".to_string()),
        level: Some(2),
        value: Some(120),
        ..no_fields()
    };
    let q = build_item_update_query("item-1", &fields);
    assert!(q.has_param_key("item_uuid"));
    assert!(q.has_param_key("name"));
    assert!(q.has_param_key("level"));
    assert!(q.has_param_key("value"));
    assert!(!q.has_param_key("description"));
    assert!(!q.has_param_key("effect"));
}

#[test]
fn create_query_binds_every_property_with_defaults() {
    let fields = ItemCreationFields {
        name: None,
        level: None,
        activation_cost: None,
        description: None,
        usage_requirements: None,
        value: None,
        effect: None,
    };
    let q = build_item_create_query(fields);
    for key in ["name", "level", "activation_cost", "description", "usage_requirements", "value", "effect"] {
        assert!(q.has_param_key(key), "missing {key}");
    }
    assert!(!q.has_param_key("bulk"));
}

#[test]
fn lookup_queries_bind_their_identifiers() {
    assert!(item_by_uuid_query("i").has_param_key("uuid"));
    assert!(inventory_by_uuid_query("i").has_param_key("uuid"));
    assert!(inventory_by_owner_name_query("bob").has_param_key("name"));
    assert!(!traits_query().has_param_key("uuid"));
    assert!(!inventories_query().has_param_key("uuid"));
}
