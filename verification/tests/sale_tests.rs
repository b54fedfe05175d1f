use inventory_core::coins::calculate_coin_distribution;
use inventory_core::errors::CoreError;
use inventory_core::ledger::{Holdings, InventoryItemQuantityAdjustmentParams};
use inventory_core::sale::sell_items;

fn req(item_id: &str, quantity_change: i32) -> InventoryItemQuantityAdjustmentParams {
    InventoryItemQuantityAdjustmentParams { item_id: item_id.to_string(), quantity_change }
}

#[test]
fn coin_distribution_breaks_largest_first() {
    assert_eq!(calculate_coin_distribution(1500), (1, 5, 0, 0));
    assert_eq!(calculate_coin_distribution(0), (0, 0, 0, 0));
    assert_eq!(calculate_coin_distribution(9), (0, 0, 0, 9));
    assert_eq!(calculate_coin_distribution(1234567), (1234, 5, 6, 7));
}

#[test]
fn selling_three_at_a_thousand_yields_one_platinum_five_gold() {
    let mut h = Holdings::new();
    h.set_quantity("x", 3);
    let purse = sell_items(&mut h, &vec![req("x", -3)], &vec![1000]).unwrap();
    assert_eq!((purse.pp, purse.gp, purse.sp, purse.cp), (1, 5, 0, 0));
    assert_eq!(h.quantity_of("x"), 0);
}

#[test]
fn sale_proceeds_round_down() {
    let mut h = Holdings::new();
    h.set_quantity("x", 1);
    let purse = sell_items(&mut h, &vec![req("x", -1)], &vec![5]).unwrap();
    // half of five, rounded down, is two copper
    assert_eq!((purse.pp, purse.gp, purse.sp, purse.cp), (0, 0, 0, 2));
}

#[test]
fn non_negative_delta_fails_a_sell_batch() {
    let mut h = Holdings::new();
    h.set_quantity("x", 3);
    assert_eq!(
        sell_items(&mut h, &vec![req("x", 1)], &vec![1000]),
        Err(CoreError::PreconditionFailed)
    );
    assert_eq!(h.quantity_of("x"), 3);
}

#[test]
fn insufficient_stock_fails_a_sell_batch() {
    let mut h = Holdings::new();
    h.set_quantity("x", 2);
    assert_eq!(
        sell_items(&mut h, &vec![req("x", -3)], &vec![1000]),
        Err(CoreError::PreconditionFailed)
    );
    assert_eq!(h.quantity_of("x"), 2);
}

#[test]
fn mismatched_value_list_is_an_illegal_argument() {
    let mut h = Holdings::new();
    h.set_quantity("x", 3);
    assert_eq!(sell_items(&mut h, &vec![req("x", -1)], &vec![]), Err(CoreError::InvalidArgument));
    assert_eq!(h.quantity_of("x"), 3);
}

#[test]
fn failed_sale_rolls_back_every_item() {
    let mut h = Holdings::new();
    h.set_quantity("x", 5);
    h.set_quantity("y", 3);
    assert_eq!(
        sell_items(&mut h, &vec![req("x", -2), req("y", -10)], &vec![100, 100]),
        Err(CoreError::PreconditionFailed)
    );
    assert_eq!(h.quantity_of("x"), 5);
    assert_eq!(h.quantity_of("y"), 3);
}

#[test]
fn sale_sums_values_across_the_batch() {
    let mut h = Holdings::new();
    h.set_quantity("x", 2);
    h.set_quantity("y", 1);
    // gross 2 * 30 + 1 * 41 = 101, proceeds 50
    let purse = sell_items(&mut h, &vec![req("x", -2), req("y", -1)], &vec![30, 41]).unwrap();
    assert_eq!((purse.pp, purse.gp, purse.sp, purse.cp), (0, 0, 5, 0));
    assert_eq!(h.quantity_of("x"), 0);
    assert_eq!(h.quantity_of("y"), 0);
}

#[test]
fn overflowing_gross_value_is_an_illegal_argument() {
    let mut h = Holdings::new();
    h.set_quantity("x", 3);
    assert_eq!(
        sell_items(&mut h, &vec![req("x", -3)], &vec![u64::MAX]),
        Err(CoreError::InvalidArgument)
    );
    assert_eq!(h.quantity_of("x"), 3);
}
