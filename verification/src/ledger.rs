use vstd::prelude::*;
use vstd::string::*;
use crate::errors::CoreError;
use crate::text::str_eq;

verus! {

/// One quantity-change request: the item to adjust and the signed change
/// to apply to its held quantity.
#[derive(Clone, Debug)]
pub struct InventoryItemQuantityAdjustmentParams {
    pub item_id: String,
    pub quantity_change: i32,
}

/// The mathematical image of an adjustment request.
pub struct AdjustmentView {
    pub item_id: Seq<char>,
    pub quantity_change: int,
}

impl View for InventoryItemQuantityAdjustmentParams {
    type V = AdjustmentView;

    open spec fn view(&self) -> AdjustmentView {
        AdjustmentView { item_id: self.item_id@, quantity_change: self.quantity_change as int }
    }
}

impl DeepView for InventoryItemQuantityAdjustmentParams {
    type V = AdjustmentView;

    open spec fn deep_view(&self) -> AdjustmentView {
        self.view()
    }
}

/// One holding: how many units of one item an inventory contains.
#[derive(Debug)]
pub struct Holding {
    pub item_id: String,
    pub quantity: u32,
}

/// The map an association list of holdings denotes, later entries
/// overriding earlier ones.
pub open spec fn pairs_to_map(s: Seq<Holding>) -> Map<Seq<char>, u32>
    decreases s.len(),
{
    if s.len() == 0 {
        Map::empty()
    } else {
        pairs_to_map(s.drop_last()).insert(s.last().item_id@, s.last().quantity)
    }
}

/// The ids of an association list of holdings are pairwise distinct.
pub open spec fn distinct_ids(s: Seq<Holding>) -> bool {
    forall|i: int, j: int|
        0 <= i < j < s.len() ==> s[i].item_id@ != s[j].item_id@
}

/// The quantity a holdings map records for an item: zero when no holding
/// exists, which is never an error.
pub open spec fn spec_quantity(m: Map<Seq<char>, u32>, id: Seq<char>) -> int {
    if m.contains_key(id) {
        m[id] as int
    } else {
        0
    }
}

proof fn lemma_pairs_to_map_contains(s: Seq<Holding>)
    ensures
        forall|id: Seq<char>| #[trigger]
            pairs_to_map(s).contains_key(id) <==> exists|i: int|
                0 <= i < s.len() && s[i].item_id@ == id,
    decreases s.len(),
{
    if s.len() > 0 {
        lemma_pairs_to_map_contains(s.drop_last());
        assert forall|id: Seq<char>| #[trigger] pairs_to_map(s).contains_key(id) implies (exists|i: int| 0 <= i < s.len() && s[i].item_id@ == id) by {
            if id == s.last().item_id@ {
                assert(s[s.len() - 1].item_id@ == id);
            } else {
                assert(pairs_to_map(s.drop_last()).contains_key(id));
                let i = choose|i: int| 0 <= i < s.drop_last().len() && s.drop_last()[i].item_id@
                    == id;
                assert(s[i].item_id@ == id);
            }
        }
        assert forall|id: Seq<char>| (exists|i: int| 0 <= i < s.len() && s[i].item_id@ == id)
            implies #[trigger] pairs_to_map(s).contains_key(id) by {
            let i = choose|i: int| 0 <= i < s.len() && s[i].item_id@ == id;
            if i == s.len() - 1 {
                assert(pairs_to_map(s) == pairs_to_map(s.drop_last()).insert(
                    s.last().item_id@,
                    s.last().quantity,
                ));
            } else {
                assert(s.drop_last()[i].item_id@ == id);
                assert(pairs_to_map(s.drop_last()).contains_key(id));
            }
        }
    }
}

proof fn lemma_pairs_to_map_lookup(s: Seq<Holding>)
    requires
        distinct_ids(s),
    ensures
        forall|i: int|
            0 <= i < s.len() ==> {
                &&& pairs_to_map(s).contains_key(#[trigger] s[i].item_id@)
                &&& pairs_to_map(s)[s[i].item_id@] == s[i].quantity
            },
    decreases s.len(),
{
    if s.len() > 0 {
        assert(distinct_ids(s.drop_last()));
        lemma_pairs_to_map_lookup(s.drop_last());
        assert forall|i: int| 0 <= i < s.len() implies {
            &&& pairs_to_map(s).contains_key(#[trigger] s[i].item_id@)
            &&& pairs_to_map(s)[s[i].item_id@] == s[i].quantity
        } by {
            if i < s.len() - 1 {
                assert(s.drop_last()[i] == s[i]);
                assert(s[i].item_id@ != s.last().item_id@);
            }
        }
    }
}

/// The holdings of one inventory: for each contained item, a positive
/// quantity.  A holding never persists at quantity zero; reaching zero
/// deletes it.
#[derive(Debug)]
pub struct Holdings {
    holdings: Vec<Holding>,
}

impl View for Holdings {
    type V = Map<Seq<char>, u32>;

    closed spec fn view(&self) -> Map<Seq<char>, u32> {
        pairs_to_map(self.holdings@)
    }
}

impl Holdings {
    /// The internal association list carries pairwise distinct ids and
    /// only positive quantities.
    pub closed spec fn wf(&self) -> bool {
        &&& distinct_ids(self.holdings@)
        &&& forall|i: int| 0 <= i < self.holdings@.len() ==> #[trigger] self.holdings@[i].quantity
            > 0
    }

    /// No key of the holdings map carries quantity zero.
    pub proof fn lemma_no_zero_quantity(&self)
        requires
            self.wf(),
        ensures
            forall|id: Seq<char>| #[trigger] self@.contains_key(id) ==> self@[id] > 0,
    {
        lemma_pairs_to_map_contains(self.holdings@);
        lemma_pairs_to_map_lookup(self.holdings@);
        assert forall|id: Seq<char>| #[trigger] self@.contains_key(id) implies self@[id] > 0 by {
            let i = choose|i: int|
                0 <= i < self.holdings@.len() && self.holdings@[i].item_id@ == id;
            assert(self.holdings@[i].quantity > 0);
        }
    }

    /// An empty inventory: no holdings at all.
    pub fn new() -> (r: Holdings)
        ensures
            r.wf(),
            r@ == Map::<Seq<char>, u32>::empty(),
    {
        Holdings { holdings: Vec::new() }
    }

    /// The index of the holding for an item, if one exists.
    fn index_of(&self, item_id: &str) -> (r: Option<usize>)
        ensures
            match r {
                Some(i) => i < self.holdings@.len() && self.holdings@[i as int].item_id@
                    == item_id@,
                None => forall|j: int|
                    0 <= j < self.holdings@.len() ==> self.holdings@[j].item_id@ != item_id@,
            },
    {
        let mut i: usize = 0;
        while i < self.holdings.len()
            invariant
                i <= self.holdings@.len(),
                forall|j: int| 0 <= j < i ==> self.holdings@[j].item_id@ != item_id@,
            decreases self.holdings@.len() - i,
        {
            if str_eq(self.holdings[i].item_id.as_str(), item_id) {
                return Some(i);
            }
            i = i + 1;
        }
        None
    }

    /// The current quantity of an item: zero when no holding exists.
    pub fn quantity_of(&self, item_id: &str) -> (q: u32)
        requires
            self.wf(),
        ensures
            q as int == spec_quantity(self@, item_id@),
    {
        match self.index_of(item_id) {
            Some(i) => {
                proof {
                    lemma_pairs_to_map_lookup(self.holdings@);
                }
                self.holdings[i].quantity
            },
            None => {
                proof {
                    lemma_pairs_to_map_contains(self.holdings@);
                }
                0
            },
        }
    }

    /// Sets the quantity of an item: a positive quantity creates or
    /// overwrites the holding, and zero deletes it, so that no holding
    /// persists at quantity zero.
    pub fn set_quantity(&mut self, item_id: &str, q: u32)
        requires
            old(self).wf(),
        ensures
            final(self).wf(),
            q == 0 ==> final(self)@ == old(self)@.remove(item_id@),
            q != 0 ==> final(self)@ == old(self)@.insert(item_id@, q),
    {
        proof {
            lemma_pairs_to_map_contains(self.holdings@);
            lemma_pairs_to_map_lookup(self.holdings@);
        }
        match self.index_of(item_id) {
            Some(i) => {
                let ghost pre = self.holdings@;
                let removed = self.holdings.remove(i);
                proof {
                    lemma_pairs_to_map_remove(pre, i as int);
                    assert(distinct_ids(pre.remove(i as int))) by {
                        pre.remove_ensures(i as int);
                    }
                }
                if q > 0 {
                    let ghost mid = self.holdings@;
                    self.holdings.push(Holding { item_id: removed.item_id, quantity: q });
                    proof {
                        pre.remove_ensures(i as int);
                        lemma_pairs_to_map_contains(mid);
                        assert(self.holdings@.drop_last() =~= mid);
                        assert(self@ =~= old(self)@.insert(item_id@, q));
                        assert forall|a: int, b: int|
                            0 <= a < b < self.holdings@.len() implies self.holdings@[a].item_id@
                            != self.holdings@[b].item_id@ by {
                            if b == self.holdings@.len() - 1 {
                                assert(mid[a].item_id@ != item_id@);
                            }
                        }
                    }
                } else {
                    proof {
                        pre.remove_ensures(i as int);
                        assert(self@ =~= old(self)@.remove(item_id@));
                    }
                }
            },
            None => {
                if q > 0 {
                    let ghost pre = self.holdings@;
                    self.holdings.push(Holding { item_id: item_id.to_owned(), quantity: q });
                    proof {
                        assert(self.holdings@.drop_last() =~= pre);
                        assert(self@ =~= old(self)@.insert(item_id@, q));
                        assert forall|a: int, b: int|
                            0 <= a < b < self.holdings@.len() implies self.holdings@[a].item_id@
                            != self.holdings@[b].item_id@ by {
                            if b == self.holdings@.len() - 1 {
                                assert(pre[a].item_id@ != item_id@);
                            }
                        }
                    }
                } else {
                    proof {
                        assert(!old(self)@.contains_key(item_id@));
                        assert(self@ =~= old(self)@.remove(item_id@));
                    }
                }
            },
        }
    }

    /// A copy of the holdings that denotes the same map.
    fn duplicate(&self) -> (r: Holdings)
        ensures
            r@ == self@,
            self.wf() ==> r.wf(),
    {
        let mut v: Vec<Holding> = Vec::new();
        let mut i: usize = 0;
        while i < self.holdings.len()
            invariant
                i <= self.holdings@.len(),
                v@ == self.holdings@.take(i as int),
            decreases self.holdings@.len() - i,
        {
            let h = Holding {
                item_id: self.holdings[i].item_id.clone(),
                quantity: self.holdings[i].quantity,
            };
            proof {
                assert(h == self.holdings@[i as int]);
                assert(self.holdings@.take(i as int + 1) =~= self.holdings@.take(i as int).push(
                    self.holdings@[i as int],
                ));
            }
            v.push(h);
            i = i + 1;
        }
        proof {
            assert(self.holdings@.take(self.holdings@.len() as int) =~= self.holdings@);
        }
        Holdings { holdings: v }
    }
}

/// Every decrement in the batch is covered by the quantity currently on
/// hand: the batch-wide precondition checked before anything mutates.
pub open spec fn spec_precheck(m: Map<Seq<char>, u32>, batch: Seq<AdjustmentView>) -> bool {
    forall|i: int|
        0 <= i < batch.len() && batch[i].quantity_change < 0 ==> spec_quantity(
            m,
            #[trigger] batch[i].item_id,
        ) >= -batch[i].quantity_change
}

/// One request applied to a holdings map.  A result below zero is a
/// failed precondition; one above the representable quantity is an
/// illegal argument; exactly zero deletes the holding.
pub open spec fn spec_apply_one(m: Map<Seq<char>, u32>, req: AdjustmentView) -> Result<
    Map<Seq<char>, u32>,
    CoreError,
> {
    let newq = spec_quantity(m, req.item_id) + req.quantity_change;
    if newq < 0 {
        Err(CoreError::PreconditionFailed)
    } else if newq > u32::MAX {
        Err(CoreError::InvalidArgument)
    } else if newq == 0 {
        Ok(m.remove(req.item_id))
    } else {
        Ok(m.insert(req.item_id, newq as u32))
    }
}

/// A whole batch applied left to right; the first failing request
/// decides the error.
pub open spec fn spec_apply_batch(m: Map<Seq<char>, u32>, batch: Seq<AdjustmentView>) -> Result<
    Map<Seq<char>, u32>,
    CoreError,
>
    decreases batch.len(),
{
    if batch.len() == 0 {
        Ok(m)
    } else {
        match spec_apply_batch(m, batch.drop_last()) {
            Ok(m2) => spec_apply_one(m2, batch.last()),
            Err(e) => Err(e),
        }
    }
}

/// Once a prefix of the batch fails, the whole batch fails with the same
/// error.
proof fn lemma_apply_batch_err_persists(
    m: Map<Seq<char>, u32>,
    batch: Seq<AdjustmentView>,
    j: int,
)
    requires
        0 <= j <= batch.len(),
        spec_apply_batch(m, batch.take(j)) is Err,
    ensures
        spec_apply_batch(m, batch) == spec_apply_batch(m, batch.take(j)),
    decreases batch.len() - j,
{
    if j == batch.len() {
        assert(batch.take(j) =~= batch);
    } else {
        assert(batch.take(j + 1).drop_last() =~= batch.take(j));
        assert(spec_apply_batch(m, batch.take(j + 1)) == spec_apply_batch(m, batch.take(j)));
        lemma_apply_batch_err_persists(m, batch, j + 1);
    }
}

impl Holdings {
    /// Applies a batch of quantity adjustments with all-or-nothing
    /// semantics.  Every decrement is first checked against the current
    /// quantities; then the requests are applied in order, creating,
    /// updating or deleting holdings.  On any failure nothing changes and
    /// the error says why: a decrement without cover fails the
    /// precondition, a quantity beyond the representable range is an
    /// illegal argument.
    pub fn apply_batch(&mut self, batch: &Vec<InventoryItemQuantityAdjustmentParams>) -> (r:
        Result<(), CoreError>)
        requires
            old(self).wf(),
        ensures
            final(self).wf(),
            r is Ok <==> (spec_precheck(old(self)@, batch.deep_view()) && spec_apply_batch(
                old(self)@,
                batch.deep_view(),
            ) is Ok),
            r is Ok ==> spec_apply_batch(old(self)@, batch.deep_view()) == Ok::<
                Map<Seq<char>, u32>,
                CoreError,
            >(final(self)@),
            r matches Err(e) ==> {
                &&& final(self)@ == old(self)@
                &&& if !spec_precheck(old(self)@, batch.deep_view()) {
                    e == CoreError::PreconditionFailed
                } else {
                    spec_apply_batch(old(self)@, batch.deep_view()) == Err::<
                        Map<Seq<char>, u32>,
                        CoreError,
                    >(e)
                }
            },
    {
        let ghost bv = batch.deep_view();
        proof {
            assert(bv.len() == batch@.len());
        }

        // Phase one: every decrement must be covered by what is on hand.
        let mut k: usize = 0;
        while k < batch.len()
            invariant
                k <= batch@.len(),
                bv == batch.deep_view(),
                bv.len() == batch@.len(),
                self == old(self),
                old(self).wf(),
                forall|i: int|
                    0 <= i < k && bv[i].quantity_change < 0 ==> spec_quantity(
                        self@,
                        #[trigger] bv[i].item_id,
                    ) >= -bv[i].quantity_change,
            decreases batch@.len() - k,
        {
            let req = &batch[k];
            if req.quantity_change < 0 {
                let cur = self.quantity_of(req.item_id.as_str());
                if (cur as i64) + (req.quantity_change as i64) < 0 {
                    proof {
                        assert(self@ == old(self)@);
                        assert(bv[k as int] == batch@[k as int]@);
                        assert(bv[k as int].quantity_change < 0);
                        assert(spec_quantity(old(self)@, bv[k as int].item_id) < -bv[
                            k as int
                        ].quantity_change);
                        assert(!spec_precheck(old(self)@, bv));
                    }
                    return Err(CoreError::PreconditionFailed);
                }
            }
            k = k + 1;
        }
        proof {
            assert(spec_precheck(old(self)@, bv));
        }

        // Phase two: apply the requests in order on a private copy, so
        // that a mid-batch failure leaves the holdings untouched.
        let mut work = self.duplicate();
        let mut k: usize = 0;
        proof {
            assert(bv.take(0) =~= Seq::<AdjustmentView>::empty());
        }
        while k < batch.len()
            invariant
                k <= batch@.len(),
                bv == batch.deep_view(),
                bv.len() == batch@.len(),
                self == old(self),
                old(self).wf(),
                spec_precheck(old(self)@, bv),
                work.wf(),
                spec_apply_batch(old(self)@, bv.take(k as int)) == Ok::<
                    Map<Seq<char>, u32>,
                    CoreError,
                >(work@),
            decreases batch@.len() - k,
        {
            let req = &batch[k];
            let cur = work.quantity_of(req.item_id.as_str());
            let newq: i64 = (cur as i64) + (req.quantity_change as i64);
            proof {
                assert(bv[k as int] == batch@[k as int]@);
                assert(bv.take(k as int + 1).drop_last() =~= bv.take(k as int));
                assert(bv.take(k as int + 1).last() == bv[k as int]);
            }
            if newq < 0 {
                proof {
                    assert(spec_apply_batch(old(self)@, bv.take(k as int + 1)) == Err::<
                        Map<Seq<char>, u32>,
                        CoreError,
                    >(CoreError::PreconditionFailed));
                    lemma_apply_batch_err_persists(old(self)@, bv, k as int + 1);
                }
                return Err(CoreError::PreconditionFailed);
            }
            if newq > u32::MAX as i64 {
                proof {
                    assert(spec_apply_batch(old(self)@, bv.take(k as int + 1)) == Err::<
                        Map<Seq<char>, u32>,
                        CoreError,
                    >(CoreError::InvalidArgument));
                    lemma_apply_batch_err_persists(old(self)@, bv, k as int + 1);
                }
                return Err(CoreError::InvalidArgument);
            }
            work.set_quantity(req.item_id.as_str(), newq as u32);
            k = k + 1;
        }
        proof {
            assert(bv.take(batch@.len() as int) =~= bv);
        }
        *self = work;
        Ok(())
    }
}

proof fn lemma_pairs_to_map_remove(s: Seq<Holding>, i: int)
    requires
        distinct_ids(s),
        0 <= i < s.len(),
    ensures
        pairs_to_map(s.remove(i)) == pairs_to_map(s).remove(s[i].item_id@),
    decreases s.len(),
{
    lemma_pairs_to_map_contains(s.drop_last());
    if i == s.len() - 1 {
        assert(s.remove(i) =~= s.drop_last());
        assert(!pairs_to_map(s.drop_last()).contains_key(s[i].item_id@));
        assert(pairs_to_map(s).remove(s[i].item_id@) =~= pairs_to_map(s.drop_last()));
    } else {
        assert(distinct_ids(s.drop_last()));
        lemma_pairs_to_map_remove(s.drop_last(), i);
        assert(s.remove(i).drop_last() =~= s.drop_last().remove(i));
        assert(s.remove(i).last() == s.last());
        // the removed id differs from the last id, so removal and the
        // final insert commute
        assert(s[i].item_id@ != s.last().item_id@);
        assert(pairs_to_map(s.remove(i)) == pairs_to_map(s.drop_last().remove(i)).insert(
            s.last().item_id@,
            s.last().quantity,
        ));
        assert(pairs_to_map(s.drop_last()).remove(s[i].item_id@).insert(
            s.last().item_id@,
            s.last().quantity,
        ) =~= pairs_to_map(s.drop_last()).insert(s.last().item_id@, s.last().quantity).remove(
            s[i].item_id@,
        ));
    }
}

} // verus!
