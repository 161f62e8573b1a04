//! The HTLCs held for one invoice: lookup, insertion, removal, wake signals,
//! and the aggregates that the hold loop decides on.

use vstd::prelude::*;

use crate::model::{HoldHtlc, HoldInvoice, HtlcEntry, HtlcIdentifier};

verus! {

/// Sum of the amounts of the HTLCs.
pub open spec fn spec_total_msat(htlcs: Seq<HtlcEntry>) -> nat
    decreases htlcs.len(),
{
    if htlcs.len() == 0 {
        0
    } else {
        spec_total_msat(htlcs.drop_last()) + htlcs.last().htlc.amount_msat as nat
    }
}

/// Smallest expiry height among the HTLCs; `None` where there is none.
pub open spec fn spec_min_cltv(htlcs: Seq<HtlcEntry>) -> Option<u32>
    decreases htlcs.len(),
{
    if htlcs.len() == 0 {
        None
    } else {
        match spec_min_cltv(htlcs.drop_last()) {
            Some(m) => Some(if htlcs.last().htlc.cltv_expiry < m { htlcs.last().htlc.cltv_expiry } else { m }),
            None => Some(htlcs.last().htlc.cltv_expiry),
        }
    }
}

/// No identity occurs twice.
pub open spec fn spec_ids_distinct(htlcs: Seq<HtlcEntry>) -> bool {
    forall|i: int, j: int| 0 <= i < j < htlcs.len() ==> (#[trigger] htlcs[i]).id != (#[trigger] htlcs[j]).id
}

/// Is an HTLC with this identity among them?
pub open spec fn spec_has_htlc(htlcs: Seq<HtlcEntry>, id: HtlcIdentifier) -> bool {
    exists|i: int| 0 <= i < htlcs.len() && (#[trigger] htlcs[i]).id == id
}

/// Position of the HTLC with this identity.
pub open spec fn spec_htlc_index(htlcs: Seq<HtlcEntry>, id: HtlcIdentifier) -> int {
    choose|i: int| 0 <= i < htlcs.len() && (#[trigger] htlcs[i]).id == id
}

/// The HTLCs after one with identity `id` arrived: it replaces the one that
/// had the identity, or comes last.
pub open spec fn spec_insert_htlc(
    htlcs: Seq<HtlcEntry>,
    id: HtlcIdentifier,
    htlc: HoldHtlc,
) -> Seq<HtlcEntry> {
    if spec_has_htlc(htlcs, id) {
        htlcs.update(spec_htlc_index(htlcs, id), HtlcEntry { id, htlc })
    } else {
        htlcs.push(HtlcEntry { id, htlc })
    }
}

/// The HTLCs without the one with identity `id`.
pub open spec fn spec_remove_htlc(htlcs: Seq<HtlcEntry>, id: HtlcIdentifier) -> Seq<HtlcEntry> {
    if spec_has_htlc(htlcs, id) {
        htlcs.remove(spec_htlc_index(htlcs, id))
    } else {
        htlcs
    }
}

/// One HTLC with its wake signal set to `wake`.
pub open spec fn spec_with_wake(entry: HtlcEntry, wake: bool) -> HtlcEntry {
    HtlcEntry {
        id: entry.id,
        htlc: HoldHtlc { amount_msat: entry.htlc.amount_msat, cltv_expiry: entry.htlc.cltv_expiry, wake },
    }
}

/// The HTLCs with every wake signal set.
pub open spec fn spec_wake_all(htlcs: Seq<HtlcEntry>) -> Seq<HtlcEntry> {
    Seq::new(htlcs.len(), |i: int| spec_with_wake(htlcs[i], true))
}

/// The HTLCs with the wake signal of the one with identity `id` set to `wake`.
pub open spec fn spec_set_wake(
    htlcs: Seq<HtlcEntry>,
    id: HtlcIdentifier,
    wake: bool,
) -> Seq<HtlcEntry> {
    if spec_has_htlc(htlcs, id) {
        htlcs.update(spec_htlc_index(htlcs, id), spec_with_wake(htlcs[spec_htlc_index(htlcs, id)], wake))
    } else {
        htlcs
    }
}

/// With distinct identities, the position of an identity is the one place where it stands.
pub proof fn lemma_htlc_index_unique(htlcs: Seq<HtlcEntry>, i: int)
    requires
        spec_ids_distinct(htlcs),
        0 <= i < htlcs.len(),
    ensures
        spec_has_htlc(htlcs, htlcs[i].id),
        spec_htlc_index(htlcs, htlcs[i].id) == i,
{
    let id = htlcs[i].id;
    let j = spec_htlc_index(htlcs, id);
    assert(0 <= j < htlcs.len() && htlcs[j].id == id);
    if j < i {
        assert(htlcs[j].id != htlcs[i].id);
    } else if i < j {
        assert(htlcs[i].id != htlcs[j].id);
    }
}

/// The sum of the amounts is at most the count times the largest amount.
pub proof fn lemma_total_msat_bound(htlcs: Seq<HtlcEntry>)
    ensures
        spec_total_msat(htlcs) <= htlcs.len() * 0xffff_ffff_ffff_ffff,
    decreases htlcs.len(),
{
    if htlcs.len() > 0 {
        lemma_total_msat_bound(htlcs.drop_last());
        assert(htlcs.drop_last().len() * 0xffff_ffff_ffff_ffff + 0xffff_ffff_ffff_ffff
            == htlcs.len() * 0xffff_ffff_ffff_ffff) by (nonlinear_arith)
            requires htlcs.drop_last().len() + 1 == htlcs.len();
    }
}

impl HoldInvoice {
    /// The invariant of the HTLCs of an invoice: no identity twice.
    pub open spec fn wf(self) -> bool {
        spec_ids_distinct(self.htlc_data@)
    }

    /// Tests the invariant.
    pub fn check(&self) -> (ok: bool)
        ensures
            ok == self.wf(),
    {
        let mut j: usize = 0;
        while j < self.htlc_data.len()
            invariant
                j <= self.htlc_data@.len(),
                forall|a: int, b: int|
                    0 <= a < b < j ==> (#[trigger] self.htlc_data@[a]).id != (
                    #[trigger] self.htlc_data@[b]).id,
            decreases self.htlc_data@.len() - j,
        {
            let mut i: usize = 0;
            while i < j
                invariant
                    i <= j < self.htlc_data@.len(),
                    forall|a: int| 0 <= a < i ==> (#[trigger] self.htlc_data@[a]).id
                        != self.htlc_data@[j as int].id,
                decreases j - i,
            {
                let left = self.htlc_data[i].id;
                let right = self.htlc_data[j].id;
                if left.scid == right.scid && left.htlc_id == right.htlc_id {
                    return false;
                }
                i = i + 1;
            }
            j = j + 1;
        }
        true
    }

    /// Position of the HTLC with identity `id`, if it is held.
    pub fn find_htlc(&self, id: &HtlcIdentifier) -> (found: Option<usize>)
        ensures
            found is Some <==> spec_has_htlc(self.htlc_data@, *id),
            found matches Some(i) ==> i < self.htlc_data@.len() && self.htlc_data@[i as int].id == *id,
            self.wf() && found is Some ==> found->0 == spec_htlc_index(self.htlc_data@, *id),
    {
        let mut i: usize = 0;
        while i < self.htlc_data.len()
            invariant
                i <= self.htlc_data@.len(),
                forall|j: int| 0 <= j < i ==> (#[trigger] self.htlc_data@[j]).id != *id,
            decreases self.htlc_data@.len() - i,
        {
            let entry = self.htlc_data[i];
            if entry.id.scid == id.scid && entry.id.htlc_id == id.htlc_id {
                proof {
                    if self.wf() {
                        lemma_htlc_index_unique(self.htlc_data@, i as int);
                    }
                }
                return Some(i);
            }
            i = i + 1;
        }
        None
    }

    /// Sum of the amounts of the HTLCs held.
    pub fn total_msat(&self) -> (total: u128)
        ensures
            total == spec_total_msat(self.htlc_data@),
    {
        let mut total: u128 = 0;
        let mut i: usize = 0;
        assert(self.htlc_data@.take(0) =~= Seq::<HtlcEntry>::empty());
        while i < self.htlc_data.len()
            invariant
                i <= self.htlc_data@.len(),
                total == spec_total_msat(self.htlc_data@.take(i as int)),
            decreases self.htlc_data@.len() - i,
        {
            proof {
                lemma_total_msat_bound(self.htlc_data@.take(i as int));
                assert(i * 0xffff_ffff_ffff_ffff + 0xffff_ffff_ffff_ffff
                    <= 0xffff_ffff_ffff_ffff * 0xffff_ffff_ffff_ffff + 0xffff_ffff_ffff_ffff) by (nonlinear_arith)
                    requires 0 <= i <= 0xffff_ffff_ffff_ffff;
                assert(self.htlc_data@.take(i as int + 1).drop_last() =~= self.htlc_data@.take(i as int));
            }
            total = total + self.htlc_data[i].htlc.amount_msat as u128;
            i = i + 1;
        }
        assert(self.htlc_data@.take(i as int) =~= self.htlc_data@);
        total
    }

    /// Smallest expiry height among the HTLCs held.
    pub fn min_cltv(&self) -> (lowest: Option<u32>)
        ensures
            lowest == spec_min_cltv(self.htlc_data@),
    {
        let mut lowest: Option<u32> = None;
        let mut i: usize = 0;
        assert(self.htlc_data@.take(0) =~= Seq::<HtlcEntry>::empty());
        while i < self.htlc_data.len()
            invariant
                i <= self.htlc_data@.len(),
                lowest == spec_min_cltv(self.htlc_data@.take(i as int)),
            decreases self.htlc_data@.len() - i,
        {
            proof {
                assert(self.htlc_data@.take(i as int + 1).drop_last() =~= self.htlc_data@.take(i as int));
            }
            let cltv = self.htlc_data[i].htlc.cltv_expiry;
            lowest = match lowest {
                Some(m) => Some(if cltv < m { cltv } else { m }),
                None => Some(cltv),
            };
            i = i + 1;
        }
        assert(self.htlc_data@.take(i as int) =~= self.htlc_data@);
        lowest
    }

    /// Takes in an HTLC: it replaces the one held under the same identity, or is added.
    pub fn insert_htlc(&mut self, id: HtlcIdentifier, htlc: HoldHtlc)
        requires
            old(self).wf(),
        ensures
            final(self).wf(),
            final(self)@.htlc_data == spec_insert_htlc(old(self)@.htlc_data, id, htlc),
            final(self)@.htlc_data.len() > 0,
            spec_has_htlc(final(self)@.htlc_data, id),
            final(self)@.hold_state == old(self)@.hold_state,
            final(self)@.generation == old(self)@.generation,
            final(self)@.invoice == old(self)@.invoice,
            final(self)@.preimage == old(self)@.preimage,
    {
        let ghost before = self.htlc_data@;
        match self.find_htlc(&id) {
            Some(i) => {
                self.htlc_data.set(i, HtlcEntry { id, htlc });
                assert(self.htlc_data@[i as int].id == id);
            },
            None => {
                self.htlc_data.push(HtlcEntry { id, htlc });
                assert(self.htlc_data@[before.len() as int].id == id);
            },
        }
    }

    /// Drops the HTLC with identity `id`, if it is held.
    pub fn remove_htlc(&mut self, id: &HtlcIdentifier)
        requires
            old(self).wf(),
        ensures
            final(self).wf(),
            final(self)@.htlc_data == spec_remove_htlc(old(self)@.htlc_data, *id),
            !spec_has_htlc(final(self)@.htlc_data, *id),
            final(self)@.hold_state == old(self)@.hold_state,
            final(self)@.generation == old(self)@.generation,
            final(self)@.invoice == old(self)@.invoice,
            final(self)@.preimage == old(self)@.preimage,
    {
        let ghost before = self.htlc_data@;
        match self.find_htlc(id) {
            Some(i) => {
                self.htlc_data.remove(i);
                assert forall|j: int| 0 <= j < self.htlc_data@.len() implies (#[trigger] self.htlc_data@[j]).id != *id by {
                    if j < i {
                        assert(before[j].id != before[i as int].id);
                    } else {
                        assert(before[i as int].id != before[j + 1].id);
                    }
                }
            },
            None => {},
        }
    }

    /// Sets the wake signal of every HTLC held.
    pub fn wake_all(&mut self)
        ensures
            final(self)@.htlc_data == spec_wake_all(old(self)@.htlc_data),
            old(self).wf() ==> final(self).wf(),
            final(self)@.hold_state == old(self)@.hold_state,
            final(self)@.generation == old(self)@.generation,
            final(self)@.invoice == old(self)@.invoice,
            final(self)@.preimage == old(self)@.preimage,
    {
        let ghost before = self.htlc_data@;
        let mut i: usize = 0;
        while i < self.htlc_data.len()
            invariant
                i <= self.htlc_data@.len(),
                self.htlc_data@.len() == before.len(),
                forall|j: int| 0 <= j < i ==> self.htlc_data@[j] == spec_with_wake(before[j], true),
                forall|j: int| i <= j < before.len() ==> self.htlc_data@[j] == before[j],
                self.hold_state == old(self).hold_state,
                self.generation == old(self).generation,
                self.invoice == old(self).invoice,
                self.preimage == old(self).preimage,
            decreases self.htlc_data@.len() - i,
        {
            self.htlc_data[i].htlc.wake = true;
            i = i + 1;
        }
        assert(self.htlc_data@ =~= spec_wake_all(before));
    }

    /// Sets the wake signal of the HTLC with identity `id`, if it is held.
    pub fn set_wake(&mut self, id: &HtlcIdentifier, wake: bool)
        requires
            old(self).wf(),
        ensures
            final(self).wf(),
            final(self)@.htlc_data == spec_set_wake(old(self)@.htlc_data, *id, wake),
            final(self)@.hold_state == old(self)@.hold_state,
            final(self)@.generation == old(self)@.generation,
            final(self)@.invoice == old(self)@.invoice,
            final(self)@.preimage == old(self)@.preimage,
    {
        match self.find_htlc(id) {
            Some(i) => {
                self.htlc_data[i].htlc.wake = wake;
                assert(self.htlc_data@ =~= spec_set_wake(old(self)@.htlc_data, *id, wake));
            },
            None => {},
        }
    }
}

} // verus!
