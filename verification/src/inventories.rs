use vstd::prelude::*;
use crate::errors::CoreError;

verus! {

/// An inventory: its identity, display name, capacity, and the coin
/// balance it carries in the four denominations.
#[derive(Clone, Debug)]
pub struct Inventory {
    pub uuid: String,
    pub name: String,
    pub capacity: u16,
    pub cp: u32,
    pub sp: u32,
    pub gp: u32,
    pub pp: u32,
}

/// A signed change to an inventory's coin balance, one delta per
/// denomination.
#[derive(Clone, Copy, Debug, PartialEq, Eq, Structural)]
pub struct InventoryCurrencyChangeInput {
    pub cp: i32,
    pub sp: i32,
    pub gp: i32,
    pub pp: i32,
}

impl Inventory {
    /// Applies a signed currency change to the four coin balances as one
    /// unit.  A change that would drive any denomination below zero or
    /// beyond its range is rejected whole: on an error nothing changes.
    pub fn apply_currency_change(&mut self, change: &InventoryCurrencyChangeInput) -> (r: Result<
        (),
        CoreError,
    >)
        ensures
            r is Ok <==> {
                &&& 0 <= old(self).cp + change.cp <= u32::MAX
                &&& 0 <= old(self).sp + change.sp <= u32::MAX
                &&& 0 <= old(self).gp + change.gp <= u32::MAX
                &&& 0 <= old(self).pp + change.pp <= u32::MAX
            },
            r matches Ok(()) ==> {
                &&& final(self).cp == old(self).cp + change.cp
                &&& final(self).sp == old(self).sp + change.sp
                &&& final(self).gp == old(self).gp + change.gp
                &&& final(self).pp == old(self).pp + change.pp
                &&& final(self).uuid == old(self).uuid
                &&& final(self).name == old(self).name
                &&& final(self).capacity == old(self).capacity
            },
            r matches Err(e) ==> e == CoreError::InvalidArgument && *final(self) == *old(self),
    {
        let new_cp = (self.cp as i64) + (change.cp as i64);
        let new_sp = (self.sp as i64) + (change.sp as i64);
        let new_gp = (self.gp as i64) + (change.gp as i64);
        let new_pp = (self.pp as i64) + (change.pp as i64);
        let max = u32::MAX as i64;
        if new_cp < 0 || new_cp > max || new_sp < 0 || new_sp > max || new_gp < 0 || new_gp > max
            || new_pp < 0 || new_pp > max {
            return Err(CoreError::InvalidArgument);
        }
        self.cp = new_cp as u32;
        self.sp = new_sp as u32;
        self.gp = new_gp as u32;
        self.pp = new_pp as u32;
        Ok(())
    }
}

} // verus!
