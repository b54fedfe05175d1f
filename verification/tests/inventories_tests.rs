use inventory_core::errors::CoreError;
use inventory_core::inventories::{Inventory, InventoryCurrencyChangeInput};

fn inv() -> Inventory {
    Inventory {
        uuid: "inv-1".to_string(),
        name: "Backpack".to_string(),
        capacity: 30,
        cp: 10,
        sp: 20,
        gp: 30,
        pp: 40,
    }
}

#[test]
fn currency_change_applies_to_every_denomination() {
    let mut i = inv();
    let r = i.apply_currency_change(&InventoryCurrencyChangeInput { cp: 5, sp: -20, gp: 1, pp: 0 });
    assert_eq!(r, Ok(()));
    assert_eq!((i.cp, i.sp, i.gp, i.pp), (15, 0, 31, 40));
}

#[test]
fn currency_change_below_zero_is_rejected_whole() {
    let mut i = inv();
    let r = i.apply_currency_change(&InventoryCurrencyChangeInput { cp: 5, sp: 0, gp: -31, pp: 0 });
    assert_eq!(r, Err(CoreError::InvalidArgument));
    assert_eq!((i.cp, i.sp, i.gp, i.pp), (10, 20, 30, 40));
}

#[test]
fn currency_change_beyond_range_is_rejected_whole() {
    let mut i = inv();
    i.cp = u32::MAX;
    let r = i.apply_currency_change(&InventoryCurrencyChangeInput { cp: 1, sp: 0, gp: 0, pp: 0 });
    assert_eq!(r, Err(CoreError::InvalidArgument));
    assert_eq!(i.cp, u32::MAX);
}
