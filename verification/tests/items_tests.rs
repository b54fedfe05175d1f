use inventory_core::items::{
    decode_item_row, decode_item_value, is_consumable, parse_u64, ItemRowData, Trait,
};

#[test]
fn parse_u64_accepts_plain_digit_strings() {
    assert_eq!(parse_u64("0"), Some(0));
    assert_eq!(parse_u64("123"), Some(123));
    assert_eq!(parse_u64("18446744073709551615"), Some(u64::MAX));
}

#[test]
fn parse_u64_rejects_everything_else() {
    assert_eq!(parse_u64(""), None);
    assert_eq!(parse_u64("12a"), None);
    assert_eq!(parse_u64("-3"), None);
    assert_eq!(parse_u64(" 3"), None);
    assert_eq!(parse_u64("18446744073709551616"), None);
}

#[test]
fn item_value_decodes_with_zero_as_default() {
    assert_eq!(decode_item_value(&None), 0);
    assert_eq!(decode_item_value(&Some("77".to_string())), 77);
    assert_eq!(decode_item_value(&Some("weird".to_string())), 0);
}

#[test]
fn consumable_needs_the_exact_trait() {
    assert!(is_consumable(&Some(vec!["Consumable".to_string()])));
    assert!(is_consumable(&Some(vec!["Magic".to_string(), "Consumable".to_string()])));
    assert!(!is_consumable(&Some(vec!["consumable".to_string()])));
    assert!(!is_consumable(&Some(vec![])));
    assert!(!is_consumable(&None));
}

#[test]
fn row_decoder_fills_the_documented_defaults() {
    let raw = ItemRowData {
        uuid: "u-1".to_string(),
        name: "Lantern".to_string(),
        level: None,
        value: None,
        traits: None,
        description: None,
        effect: None,
        activation_cost: None,
        usage_requirements: None,
    };
    let rec = decode_item_row(raw);
    assert_eq!(rec.uuid, "u-1");
    assert_eq!(rec.name, "Lantern");
    assert_eq!(rec.level, 0);
    assert_eq!(rec.value, 0);
    assert!(rec.traits.is_empty());
    assert_eq!(rec.description, "No description");
    assert_eq!(rec.effect, "No effect");
    assert_eq!(rec.activation_cost, "n/a");
    assert_eq!(rec.usage_requirements, "Not usable");
}

#[test]
fn row_decoder_keeps_present_fields() {
    let raw = ItemRowData {
        uuid: "u-2".to_string(),
        name: "Potion".to_string(),
        level: Some(3),
        value: Some("250".to_string()),
        traits: Some(vec!["Consumable".to_string()]),
        description: Some("Heals".to_string()),
        effect: Some("Healing".to_string()),
        activation_cost: Some("1 action".to_string()),
        usage_requirements: Some("Drink".to_string()),
    };
    let rec = decode_item_row(raw);
    assert_eq!(rec.level, 3);
    assert_eq!(rec.value, 250);
    assert_eq!(rec.traits, vec!["Consumable".to_string()]);
    assert_eq!(rec.description, "Heals");
    assert_eq!(rec.effect, "Healing");
    assert_eq!(rec.activation_cost, "1 action");
    assert_eq!(rec.usage_requirements, "Drink");
}

#[test]
fn trait_carries_name_and_optional_description() {
    let t = Trait { name: "Magic".to_string(), description: None };
    assert_eq!(t.name, "Magic");
    assert!(t.description.is_none());
}
