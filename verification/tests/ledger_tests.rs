use inventory_core::errors::CoreError;
use inventory_core::ledger::{Holdings, InventoryItemQuantityAdjustmentParams};

fn req(item_id: &str, quantity_change: i32) -> InventoryItemQuantityAdjustmentParams {
    InventoryItemQuantityAdjustmentParams { item_id: item_id.to_string(), quantity_change }
}

#[test]
fn absent_holding_reads_as_zero() {
    let h = Holdings::new();
    assert_eq!(h.quantity_of("x"), 0);
}

#[test]
fn set_quantity_creates_and_overwrites() {
    let mut h = Holdings::new();
    h.set_quantity("x", 5);
    assert_eq!(h.quantity_of("x"), 5);
    h.set_quantity("x", 2);
    assert_eq!(h.quantity_of("x"), 2);
    h.set_quantity("x", 0);
    assert_eq!(h.quantity_of("x"), 0);
}

#[test]
fn positive_batch_creates_holdings() {
    let mut h = Holdings::new();
    assert_eq!(h.apply_batch(&vec![req("x", 5), req("y", 3)]), Ok(()));
    assert_eq!(h.quantity_of("x"), 5);
    assert_eq!(h.quantity_of("y"), 3);
}

#[test]
fn draining_delta_deletes_the_holding() {
    let mut h = Holdings::new();
    h.set_quantity("x", 5);
    assert_eq!(h.apply_batch(&vec![req("x", -5)]), Ok(()));
    assert_eq!(h.quantity_of("x"), 0);
}

#[test]
fn overdraw_fails_and_leaves_quantity_unchanged() {
    let mut h = Holdings::new();
    h.set_quantity("x", 5);
    assert_eq!(h.apply_batch(&vec![req("x", -6)]), Err(CoreError::PreconditionFailed));
    assert_eq!(h.quantity_of("x"), 5);
}

#[test]
fn failed_batch_rolls_back_every_item() {
    let mut h = Holdings::new();
    h.set_quantity("x", 5);
    h.set_quantity("y", 3);
    assert_eq!(
        h.apply_batch(&vec![req("x", -2), req("y", -10)]),
        Err(CoreError::PreconditionFailed)
    );
    assert_eq!(h.quantity_of("x"), 5);
    assert_eq!(h.quantity_of("y"), 3);
}

#[test]
fn mixed_batch_applies_as_a_unit() {
    let mut h = Holdings::new();
    h.set_quantity("x", 5);
    assert_eq!(h.apply_batch(&vec![req("x", -2), req("y", 7)]), Ok(()));
    assert_eq!(h.quantity_of("x"), 3);
    assert_eq!(h.quantity_of("y"), 7);
}

#[test]
fn repeated_item_overdraw_is_caught_at_application() {
    let mut h = Holdings::new();
    h.set_quantity("x", 5);
    // each request alone is covered by the initial quantity, but the
    // batch as a whole would go negative
    assert_eq!(
        h.apply_batch(&vec![req("x", -3), req("x", -3)]),
        Err(CoreError::PreconditionFailed)
    );
    assert_eq!(h.quantity_of("x"), 5);
}

#[test]
fn quantity_beyond_range_is_an_illegal_argument() {
    let mut h = Holdings::new();
    h.set_quantity("x", u32::MAX);
    assert_eq!(h.apply_batch(&vec![req("x", 1)]), Err(CoreError::InvalidArgument));
    assert_eq!(h.quantity_of("x"), u32::MAX);
}
