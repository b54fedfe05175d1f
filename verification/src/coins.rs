use vstd::prelude::*;

verus! {

/// A non-negative amount in each of the four coin denominations.
/// The fixed exchange rates are 1 pp = 10 gp = 100 sp = 1000 cp.
#[derive(Clone, Copy, Debug, PartialEq, Eq, Structural)]
pub struct CoinPurse {
    pub pp: u64,
    pub gp: u64,
    pub sp: u64,
    pub cp: u64,
}

impl CoinPurse {
    /// The value of the purse in the smallest coin unit.
    pub open spec fn total_cp(self) -> int {
        self.pp * 1000 + self.gp * 100 + self.sp * 10 + self.cp
    }
}

/// Breaks a value given in the smallest coin unit into the four
/// denominations by successive integer division, largest first.
///
/// The result loses nothing: the four counts always add back up to the
/// input value, and every denomination below the largest stays under ten.
pub fn calculate_coin_distribution(value: u64) -> (r: (u64, u64, u64, u64))
    ensures
        r.0 == value / 1000,
        r.1 == (value % 1000) / 100,
        r.2 == (value % 100) / 10,
        r.3 == value % 10,
        r.0 * 1000 + r.1 * 100 + r.2 * 10 + r.3 == value,
        r.1 < 10 && r.2 < 10 && r.3 < 10,
{
    let mut remaining = value;
    let pp = remaining / 1000;
    remaining = remaining % 1000;
    let gp = remaining / 100;
    remaining = remaining % 100;
    let sp = remaining / 10;
    let cp = remaining % 10;
    proof {
        lemma_coin_distribution(value as int);
    }
    (pp, gp, sp, cp)
}

/// Packs a denomination breakdown into a purse.
pub fn purse_from_distribution(d: (u64, u64, u64, u64)) -> (p: CoinPurse)
    ensures
        p.pp == d.0 && p.gp == d.1 && p.sp == d.2 && p.cp == d.3,
{
    CoinPurse { pp: d.0, gp: d.1, sp: d.2, cp: d.3 }
}

/// The denomination breakdown reconstructs its input exactly: taking
/// `v / 1000` platinum, then hundreds, tens and units of the remainder,
/// adds back up to `v`, and each remainder digit is below ten.
pub proof fn lemma_coin_distribution(v: int)
    requires
        v >= 0,
    ensures
        (v / 1000) * 1000 + ((v % 1000) / 100) * 100 + ((v % 100) / 10) * 10 + v % 10 == v,
        (v % 1000) / 100 < 10,
        (v % 100) / 10 < 10,
        v % 10 < 10,
{
    assert((v / 1000) * 1000 + ((v % 1000) / 100) * 100 + ((v % 100) / 10) * 10 + v % 10 == v)
        by (nonlinear_arith)
        requires
            v >= 0,
    ;
    assert((v % 1000) / 100 < 10 && (v % 100) / 10 < 10 && v % 10 < 10) by (nonlinear_arith)
        requires
            v >= 0,
    ;
}

} // verus!
