use vstd::prelude::*;
use crate::coins::{calculate_coin_distribution, purse_from_distribution, CoinPurse};
use crate::errors::CoreError;
use crate::ledger::{
    spec_apply_batch, spec_precheck, AdjustmentView, Holdings, InventoryItemQuantityAdjustmentParams,
};

verus! {

/// Every request in a sell batch must strictly decrease stock: selling
/// never adds items.
pub open spec fn spec_all_sales(batch: Seq<AdjustmentView>) -> bool {
    forall|i: int| 0 <= i < batch.len() ==> #[trigger] batch[i].quantity_change < 0
}

/// The gross value of the batch: each item's unit value times the number
/// of units sold, summed over the batch.
pub open spec fn spec_total_value(batch: Seq<AdjustmentView>, values: Seq<u64>) -> int
    recommends
        batch.len() == values.len(),
    decreases batch.len(),
{
    if batch.len() == 0 {
        0
    } else {
        spec_total_value(batch.drop_last(), values.drop_last()) + values.last() * (
        -batch.last().quantity_change)
    }
}

/// The sale-price policy: the seller receives half the gross value,
/// rounded down.
pub open spec fn spec_proceeds(batch: Seq<AdjustmentView>, values: Seq<u64>) -> int {
    spec_total_value(batch, values) / 2
}

/// A partial sum never exceeds the whole when every term is non-negative.
proof fn lemma_total_value_monotonic(batch: Seq<AdjustmentView>, values: Seq<u64>, j: int)
    requires
        batch.len() == values.len(),
        spec_all_sales(batch),
        0 <= j <= batch.len(),
    ensures
        spec_total_value(batch, values) >= spec_total_value(batch.take(j), values.take(j)),
    decreases batch.len() - j,
{
    if j == batch.len() {
        assert(batch.take(j) =~= batch);
        assert(values.take(j) =~= values);
    } else {
        assert(batch.take(j + 1).drop_last() =~= batch.take(j));
        assert(values.take(j + 1).drop_last() =~= values.take(j));
        assert(batch.take(j + 1).last() == batch[j]);
        assert(values.take(j + 1).last() == values[j]);
        assert(values[j] * (-batch[j].quantity_change) >= 0) by (nonlinear_arith)
            requires
                values[j] >= 0,
                batch[j].quantity_change < 0,
        ;
        lemma_total_value_monotonic(batch, values, j + 1);
    }
}

/// Sells a batch of items out of an inventory: validates that every
/// request decreases stock and is covered by what is on hand, applies
/// the whole batch all-or-nothing, totals the gross value of the sold
/// units, halves it, and breaks the proceeds into coin denominations.
/// The purse is returned to the caller; crediting it to the inventory is
/// left to the caller.  On any failure the holdings are unchanged.
pub fn sell_items(
    holdings: &mut Holdings,
    batch: &Vec<InventoryItemQuantityAdjustmentParams>,
    unit_values: &Vec<u64>,
) -> (r: Result<CoinPurse, CoreError>)
    requires
        old(holdings).wf(),
    ensures
        final(holdings).wf(),
        r is Ok <==> {
            &&& batch@.len() == unit_values@.len()
            &&& spec_all_sales(batch.deep_view())
            &&& spec_precheck(old(holdings)@, batch.deep_view())
            &&& spec_apply_batch(old(holdings)@, batch.deep_view()) is Ok
            &&& spec_total_value(batch.deep_view(), unit_values@) <= u64::MAX
        },
        r matches Ok(p) ==> {
            &&& spec_apply_batch(old(holdings)@, batch.deep_view()) == Ok::<
                Map<Seq<char>, u32>,
                CoreError,
            >(final(holdings)@)
            &&& p.pp == spec_proceeds(batch.deep_view(), unit_values@) / 1000
            &&& p.gp == (spec_proceeds(batch.deep_view(), unit_values@) % 1000) / 100
            &&& p.sp == (spec_proceeds(batch.deep_view(), unit_values@) % 100) / 10
            &&& p.cp == spec_proceeds(batch.deep_view(), unit_values@) % 10
        },
        r matches Err(e) ==> {
            &&& final(holdings)@ == old(holdings)@
            &&& if batch@.len() != unit_values@.len() {
                e == CoreError::InvalidArgument
            } else if !spec_all_sales(batch.deep_view()) {
                e == CoreError::PreconditionFailed
            } else if spec_total_value(batch.deep_view(), unit_values@) > u64::MAX {
                e == CoreError::InvalidArgument
            } else if !spec_precheck(old(holdings)@, batch.deep_view()) {
                e == CoreError::PreconditionFailed
            } else {
                spec_apply_batch(old(holdings)@, batch.deep_view()) == Err::<
                    Map<Seq<char>, u32>,
                    CoreError,
                >(e)
            }
        },
{
    let ghost bv = batch.deep_view();
    if batch.len() != unit_values.len() {
        return Err(CoreError::InvalidArgument);
    }

    // Selling only removes stock: a non-negative delta fails the whole
    // batch before anything is read or written.
    let mut k: usize = 0;
    while k < batch.len()
        invariant
            k <= batch@.len(),
            bv == batch.deep_view(),
            bv.len() == batch@.len(),
            batch@.len() == unit_values@.len(),
            holdings == old(holdings),
            old(holdings).wf(),
            forall|i: int| 0 <= i < k ==> #[trigger] bv[i].quantity_change < 0,
        decreases batch@.len() - k,
    {
        if batch[k].quantity_change >= 0 {
            proof {
                assert(bv[k as int] == batch@[k as int]@);
                assert(bv[k as int].quantity_change >= 0);
                assert(!spec_all_sales(bv));
            }
            return Err(CoreError::PreconditionFailed);
        }
        k = k + 1;
    }
    proof {
        assert(spec_all_sales(bv));
    }

    // Total the gross value of the sold units, guarding every step
    // against overflow of the smallest-coin-unit range.
    let mut total: u64 = 0;
    let mut k: usize = 0;
    proof {
        assert(bv.take(0) =~= Seq::<AdjustmentView>::empty());
        assert(unit_values@.take(0) =~= Seq::<u64>::empty());
    }
    while k < batch.len()
        invariant
            k <= batch@.len(),
            bv == batch.deep_view(),
            bv.len() == batch@.len(),
            batch@.len() == unit_values@.len(),
            holdings == old(holdings),
            old(holdings).wf(),
            spec_all_sales(bv),
            total == spec_total_value(bv.take(k as int), unit_values@.take(k as int)),
        decreases batch@.len() - k,
    {
        let value = unit_values[k];
        let qc = batch[k].quantity_change;
        proof {
            assert(bv[k as int] == batch@[k as int]@);
            assert(bv[k as int].quantity_change < 0);
            assert(qc < 0);
        }
        let q_abs: u64 = (-(qc as i64)) as u64;
        proof {
            assert(bv.take(k as int + 1).drop_last() =~= bv.take(k as int));
            assert(unit_values@.take(k as int + 1).drop_last() =~= unit_values@.take(k as int));
            assert(bv.take(k as int + 1).last() == bv[k as int]);
            assert(unit_values@.take(k as int + 1).last() == unit_values@[k as int]);
        }
        if value != 0 && q_abs > u64::MAX / value {
            proof {
                assert(value * q_abs > u64::MAX) by (nonlinear_arith)
                    requires
                        value > 0,
                        q_abs > u64::MAX as int / value as int,
                ;
                lemma_total_value_monotonic(bv, unit_values@, k as int + 1);
            }
            return Err(CoreError::InvalidArgument);
        }
        let prod: u64 = if value == 0 {
            0
        } else {
            proof {
                assert(value * q_abs <= u64::MAX) by (nonlinear_arith)
                    requires
                        value > 0,
                        q_abs <= u64::MAX as int / value as int,
                ;
            }
            value * q_abs
        };
        if prod > u64::MAX - total {
            proof {
                lemma_total_value_monotonic(bv, unit_values@, k as int + 1);
            }
            return Err(CoreError::InvalidArgument);
        }
        total = total + prod;
        k = k + 1;
    }
    proof {
        assert(bv.take(batch@.len() as int) =~= bv);
        assert(unit_values@.take(batch@.len() as int) =~= unit_values@);
    }

    // The stock mutation is the shared all-or-nothing batch application.
    let applied = holdings.apply_batch(batch);
    match applied {
        Err(e) => {
            return Err(e);
        },
        Ok(()) => {},
    }

    let proceeds = total / 2;
    let d = calculate_coin_distribution(proceeds);
    Ok(purse_from_distribution(d))
}

} // verus!
