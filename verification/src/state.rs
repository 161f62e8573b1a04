//! The hold registry: the invoices that HTLCs are held for, by payment hash,
//! together with the block height and the time of start.

use vstd::prelude::*;
use vstd::string::StringExecFns;

use crate::model::{HoldInvoice, HoldInvoiceView, HtlcIdentifier};
use crate::registry::{spec_remove_htlc, spec_wake_all};

verus! {

/// An invoice of the registry under its payment hash.
#[derive(Clone, Debug)]
pub struct HoldEntry {
    pub payment_hash: String,
    pub holdinvoice: HoldInvoice,
}

/// The state of the engine: the last block height heard of, the registry of
/// invoices with held HTLCs, and the second at which the process started.
#[derive(Clone, Debug)]
pub struct PluginState {
    pub blockheight: u32,
    pub holdinvoices: Vec<HoldEntry>,
    pub startup_time: u64,
}

/// Does an entry stand under this payment hash?
pub open spec fn spec_has_key(entries: Seq<HoldEntry>, hash: Seq<char>) -> bool {
    exists|i: int| 0 <= i < entries.len() && (#[trigger] entries[i]).payment_hash@ == hash
}

/// Position of the entry under this payment hash.
pub open spec fn spec_key_index(entries: Seq<HoldEntry>, hash: Seq<char>) -> int {
    choose|i: int| 0 <= i < entries.len() && (#[trigger] entries[i]).payment_hash@ == hash
}

/// No payment hash occurs twice.
pub open spec fn spec_keys_distinct(entries: Seq<HoldEntry>) -> bool {
    forall|i: int, j: int|
        0 <= i < j < entries.len() ==> (#[trigger] entries[i]).payment_hash@ != (
        #[trigger] entries[j]).payment_hash@
}

/// The registry as a map from payment hash to invoice.
pub open spec fn spec_registry(entries: Seq<HoldEntry>) -> Map<Seq<char>, HoldInvoiceView> {
    Map::new(
        |hash: Seq<char>| spec_has_key(entries, hash),
        |hash: Seq<char>| entries[spec_key_index(entries, hash)].holdinvoice@,
    )
}

/// The invoice with every wake signal of its HTLCs set.
pub open spec fn spec_woken(invoice: HoldInvoiceView) -> HoldInvoiceView {
    HoldInvoiceView {
        hold_state: invoice.hold_state,
        generation: invoice.generation,
        htlc_data: spec_wake_all(invoice.htlc_data),
        invoice: invoice.invoice,
        preimage: invoice.preimage,
    }
}

/// The registry after the HTLC `id` of the invoice under `hash` was dropped:
/// the invoice leaves with its last HTLC.
pub open spec fn spec_cleanup(
    registry: Map<Seq<char>, HoldInvoiceView>,
    hash: Seq<char>,
    id: HtlcIdentifier,
) -> Map<Seq<char>, HoldInvoiceView> {
    if registry.contains_key(hash) {
        let rest = spec_remove_htlc(registry[hash].htlc_data, id);
        if rest.len() == 0 {
            registry.remove(hash)
        } else {
            registry.insert(
                hash,
                HoldInvoiceView {
                    hold_state: registry[hash].hold_state,
                    generation: registry[hash].generation,
                    htlc_data: rest,
                    invoice: registry[hash].invoice,
                    preimage: registry[hash].preimage,
                },
            )
        }
    } else {
        registry
    }
}

/// With distinct payment hashes, the position of a hash is the one place where it stands.
pub proof fn lemma_key_index_unique(entries: Seq<HoldEntry>, i: int)
    requires
        spec_keys_distinct(entries),
        0 <= i < entries.len(),
    ensures
        spec_has_key(entries, entries[i].payment_hash@),
        spec_key_index(entries, entries[i].payment_hash@) == i,
        spec_registry(entries).contains_key(entries[i].payment_hash@),
        spec_registry(entries)[entries[i].payment_hash@] == entries[i].holdinvoice@,
{
    let hash = entries[i].payment_hash@;
    let j = spec_key_index(entries, hash);
    assert(0 <= j < entries.len() && entries[j].payment_hash@ == hash);
    if j < i {
        assert(entries[j].payment_hash@ != entries[i].payment_hash@);
    } else if i < j {
        assert(entries[i].payment_hash@ != entries[j].payment_hash@);
    }
}

/// Changing the invoice at one position changes the registry at its hash alone.
pub proof fn lemma_registry_update(a: Seq<HoldEntry>, b: Seq<HoldEntry>, i: int)
    requires
        spec_keys_distinct(a),
        a.len() == b.len(),
        0 <= i < a.len(),
        forall|j: int| 0 <= j < a.len() ==> (#[trigger] b[j]).payment_hash@ == a[j].payment_hash@,
        forall|j: int| 0 <= j < a.len() && j != i ==> (#[trigger] b[j]).holdinvoice@ == a[j].holdinvoice@,
    ensures
        spec_keys_distinct(b),
        spec_registry(b) == spec_registry(a).insert(a[i].payment_hash@, b[i].holdinvoice@),
{
    assert forall|j: int, k: int| 0 <= j < k < b.len() implies (#[trigger] b[j]).payment_hash@ != (
    #[trigger] b[k]).payment_hash@ by {
        assert(a[j].payment_hash@ != a[k].payment_hash@);
    }
    let target = spec_registry(a).insert(a[i].payment_hash@, b[i].holdinvoice@);
    assert forall|hash: Seq<char>| spec_registry(b).contains_key(hash) <==> target.contains_key(hash) by {
        if spec_has_key(b, hash) {
            let j = spec_key_index(b, hash);
            assert(a[j].payment_hash@ == hash);
        }
        if spec_has_key(a, hash) {
            let j = spec_key_index(a, hash);
            assert(b[j].payment_hash@ == hash);
        }
        if hash == a[i].payment_hash@ {
            assert(b[i].payment_hash@ == hash);
        }
    }
    assert forall|hash: Seq<char>| spec_registry(b).contains_key(hash) implies spec_registry(b)[hash] == target[hash] by {
        let j = spec_key_index(b, hash);
        lemma_key_index_unique(b, j);
        lemma_key_index_unique(a, j);
        if j == i {
        } else {
            assert(a[j].payment_hash@ != a[i].payment_hash@);
        }
    }
    assert(spec_registry(b) =~= target);
}

/// A new entry under a hash that was not there adds that hash alone.
pub proof fn lemma_registry_push(a: Seq<HoldEntry>, e: HoldEntry)
    requires
        spec_keys_distinct(a),
        !spec_has_key(a, e.payment_hash@),
    ensures
        spec_keys_distinct(a.push(e)),
        spec_registry(a.push(e)) == spec_registry(a).insert(e.payment_hash@, e.holdinvoice@),
{
    let b = a.push(e);
    assert forall|j: int, k: int| 0 <= j < k < b.len() implies (#[trigger] b[j]).payment_hash@ != (
    #[trigger] b[k]).payment_hash@ by {
        if k < a.len() {
            assert(a[j].payment_hash@ != a[k].payment_hash@);
        } else {
            assert(a[j].payment_hash@ != e.payment_hash@);
        }
    }
    let target = spec_registry(a).insert(e.payment_hash@, e.holdinvoice@);
    assert forall|hash: Seq<char>| spec_registry(b).contains_key(hash) <==> target.contains_key(hash) by {
        if spec_has_key(b, hash) {
            let j = spec_key_index(b, hash);
            if j < a.len() {
                assert(a[j].payment_hash@ == hash);
            }
        }
        if spec_has_key(a, hash) {
            let j = spec_key_index(a, hash);
            assert(b[j].payment_hash@ == hash);
        }
        if hash == e.payment_hash@ {
            assert(b[a.len() as int].payment_hash@ == hash);
        }
    }
    assert forall|hash: Seq<char>| spec_registry(b).contains_key(hash) implies spec_registry(b)[hash] == target[hash] by {
        let j = spec_key_index(b, hash);
        lemma_key_index_unique(b, j);
        if j < a.len() {
            lemma_key_index_unique(a, j);
        }
    }
    assert(spec_registry(b) =~= target);
}

/// Taking the entry at one position out takes its hash alone out.
pub proof fn lemma_registry_remove(a: Seq<HoldEntry>, i: int)
    requires
        spec_keys_distinct(a),
        0 <= i < a.len(),
    ensures
        spec_keys_distinct(a.remove(i)),
        spec_registry(a.remove(i)) == spec_registry(a).remove(a[i].payment_hash@),
{
    let b = a.remove(i);
    assert forall|j: int, k: int| 0 <= j < k < b.len() implies (#[trigger] b[j]).payment_hash@ != (
    #[trigger] b[k]).payment_hash@ by {
        let ja = if j < i { j } else { j + 1 };
        let ka = if k < i { k } else { k + 1 };
        assert(a[ja].payment_hash@ != a[ka].payment_hash@);
    }
    let target = spec_registry(a).remove(a[i].payment_hash@);
    assert forall|hash: Seq<char>| spec_registry(b).contains_key(hash) <==> target.contains_key(hash) by {
        if spec_has_key(b, hash) {
            let j = spec_key_index(b, hash);
            let ja = if j < i { j } else { j + 1 };
            assert(a[ja].payment_hash@ == hash);
            if ja < i {
                assert(a[ja].payment_hash@ != a[i].payment_hash@);
            } else {
                assert(a[i].payment_hash@ != a[ja].payment_hash@);
            }
        }
        if spec_has_key(a, hash) && hash != a[i].payment_hash@ {
            let j = spec_key_index(a, hash);
            let jb = if j < i { j } else { j - 1 };
            assert(b[jb].payment_hash@ == hash);
        }
    }
    assert forall|hash: Seq<char>| spec_registry(b).contains_key(hash) implies spec_registry(b)[hash] == target[hash] by {
        let j = spec_key_index(b, hash);
        lemma_key_index_unique(b, j);
        let ja = if j < i { j } else { j + 1 };
        lemma_key_index_unique(a, ja);
    }
    assert(spec_registry(b) =~= target);
}

impl View for PluginState {
    type V = Map<Seq<char>, HoldInvoiceView>;

    open spec fn view(&self) -> Map<Seq<char>, HoldInvoiceView> {
        spec_registry(self.holdinvoices@)
    }
}

impl PluginState {
    /// The invariant of the registry: no payment hash twice, and every invoice
    /// in it holds at least one HTLC, none of them twice.
    pub open spec fn wf(self) -> bool {
        &&& spec_keys_distinct(self.holdinvoices@)
        &&& forall|i: int|
            0 <= i < self.holdinvoices@.len() ==> (#[trigger] self.holdinvoices@[i]).holdinvoice.wf()
                && self.holdinvoices@[i].holdinvoice@.htlc_data.len() > 0
    }

    /// An engine that started at second `startup_time`, with an empty registry.
    pub fn new(startup_time: u64) -> (state: PluginState)
        ensures
            state.wf(),
            state@ == Map::<Seq<char>, HoldInvoiceView>::empty(),
            state.blockheight == 0,
            state.startup_time == startup_time,
    {
        let state = PluginState { blockheight: 0, holdinvoices: Vec::new(), startup_time };
        assert(state@ =~= Map::<Seq<char>, HoldInvoiceView>::empty());
        state
    }

    /// Tests the invariant.
    pub fn check(&self) -> (ok: bool)
        ensures
            ok == self.wf(),
    {
        let mut j: usize = 0;
        while j < self.holdinvoices.len()
            invariant
                j <= self.holdinvoices@.len(),
                forall|a: int, b: int|
                    0 <= a < b < j ==> (#[trigger] self.holdinvoices@[a]).payment_hash@ != (
                    #[trigger] self.holdinvoices@[b]).payment_hash@,
                forall|a: int|
                    0 <= a < j ==> (#[trigger] self.holdinvoices@[a]).holdinvoice.wf()
                        && self.holdinvoices@[a].holdinvoice@.htlc_data.len() > 0,
            decreases self.holdinvoices@.len() - j,
        {
            if !self.holdinvoices[j].holdinvoice.check()
                || self.holdinvoices[j].holdinvoice.htlc_data.len() == 0 {
                return false;
            }
            let mut i: usize = 0;
            while i < j
                invariant
                    i <= j < self.holdinvoices@.len(),
                    forall|a: int| 0 <= a < i ==> (#[trigger] self.holdinvoices@[a]).payment_hash@
                        != self.holdinvoices@[j as int].payment_hash@,
                decreases j - i,
            {
                if self.holdinvoices[i].payment_hash == self.holdinvoices[j].payment_hash {
                    return false;
                }
                i = i + 1;
            }
            j = j + 1;
        }
        true
    }

    /// Position of the invoice under `payment_hash`, if HTLCs are held for it.
    pub fn find(&self, payment_hash: &str) -> (found: Option<usize>)
        ensures
            found is Some <==> self@.contains_key(payment_hash@),
            found matches Some(i) ==> i < self.holdinvoices@.len()
                && self.holdinvoices@[i as int].payment_hash@ == payment_hash@,
            self.wf() && found is Some ==> self@[payment_hash@]
                == self.holdinvoices@[found->0 as int].holdinvoice@,
    {
        let key = String::from_str(payment_hash);
        let mut i: usize = 0;
        while i < self.holdinvoices.len()
            invariant
                i <= self.holdinvoices@.len(),
                key@ == payment_hash@,
                forall|j: int| 0 <= j < i ==> (#[trigger] self.holdinvoices@[j]).payment_hash@ != payment_hash@,
            decreases self.holdinvoices@.len() - i,
        {
            if self.holdinvoices[i].payment_hash == key {
                proof {
                    if self.wf() {
                        lemma_key_index_unique(self.holdinvoices@, i as int);
                    }
                }
                return Some(i);
            }
            i = i + 1;
        }
        None
    }

    /// The invoice under `payment_hash`, if HTLCs are held for it.
    pub fn get(&self, payment_hash: &str) -> (found: Option<&HoldInvoice>)
        requires
            self.wf(),
        ensures
            found is Some <==> self@.contains_key(payment_hash@),
            found matches Some(invoice) ==> invoice@ == self@[payment_hash@] && invoice.wf()
                && invoice@.htlc_data.len() > 0,
    {
        match self.find(payment_hash) {
            Some(i) => Some(&self.holdinvoices[i].holdinvoice),
            None => None,
        }
    }

    /// Number of invoices that HTLCs are held for.
    pub fn len(&self) -> (n: usize)
        ensures
            n == self.holdinvoices@.len(),
    {
        self.holdinvoices.len()
    }

    /// Sets the wake signal of every HTLC held for the invoice under
    /// `payment_hash`; says whether the registry knows that invoice.
    pub fn wake_all(&mut self, payment_hash: &str) -> (known: bool)
        requires
            old(self).wf(),
        ensures
            final(self).wf(),
            known == old(self)@.contains_key(payment_hash@),
            known ==> final(self)@ == old(self)@.insert(
                payment_hash@,
                spec_woken(old(self)@[payment_hash@]),
            ),
            !known ==> final(self)@ == old(self)@,
            final(self).blockheight == old(self).blockheight,
            final(self).startup_time == old(self).startup_time,
    {
        match self.find(payment_hash) {
            Some(i) => {
                self.holdinvoices[i].holdinvoice.wake_all();
                proof {
                    lemma_registry_update(old(self).holdinvoices@, self.holdinvoices@, i as int);
                    assert(self.holdinvoices@[i as int].holdinvoice@ == spec_woken(
                        old(self)@[payment_hash@],
                    ));
                }
                true
            },
            None => false,
        }
    }

    /// Sets the wake signal of every HTLC of every invoice.
    pub fn wake_everything(&mut self)
        requires
            old(self).wf(),
        ensures
            final(self).wf(),
            final(self)@ == old(self)@.map_values(|invoice: HoldInvoiceView| spec_woken(invoice)),
            final(self).blockheight == old(self).blockheight,
            final(self).startup_time == old(self).startup_time,
    {
        let ghost before = self.holdinvoices@;
        let mut i: usize = 0;
        while i < self.holdinvoices.len()
            invariant
                i <= self.holdinvoices@.len(),
                self.holdinvoices@.len() == before.len(),
                self.blockheight == old(self).blockheight,
                self.startup_time == old(self).startup_time,
                forall|j: int| 0 <= j < before.len() ==> (#[trigger] self.holdinvoices@[j]).payment_hash@ == before[j].payment_hash@,
                forall|j: int| 0 <= j < i ==> (#[trigger] self.holdinvoices@[j]).holdinvoice@ == spec_woken(before[j].holdinvoice@),
                forall|j: int| 0 <= j < i ==> (#[trigger] self.holdinvoices@[j]).holdinvoice.wf(),
                forall|j: int| i <= j < before.len() ==> (#[trigger] self.holdinvoices@[j]) == before[j],
                forall|j: int| 0 <= j < before.len() ==> (#[trigger] before[j]).holdinvoice.wf(),
            decreases self.holdinvoices@.len() - i,
        {
            self.holdinvoices[i].holdinvoice.wake_all();
            i = i + 1;
        }
        proof {
            let after = self.holdinvoices@;
            assert forall|j: int, k: int| 0 <= j < k < after.len() implies (#[trigger] after[j]).payment_hash@ != (
            #[trigger] after[k]).payment_hash@ by {
                assert(before[j].payment_hash@ != before[k].payment_hash@);
            }
            let target = old(self)@.map_values(|invoice: HoldInvoiceView| spec_woken(invoice));
            assert forall|hash: Seq<char>| self@.contains_key(hash) <==> target.contains_key(hash) by {
                if spec_has_key(after, hash) {
                    let j = spec_key_index(after, hash);
                    assert(before[j].payment_hash@ == hash);
                }
                if spec_has_key(before, hash) {
                    let j = spec_key_index(before, hash);
                    assert(after[j].payment_hash@ == hash);
                }
            }
            assert forall|hash: Seq<char>| self@.contains_key(hash) implies self@[hash] == target[hash] by {
                let j = spec_key_index(after, hash);
                lemma_key_index_unique(after, j);
                lemma_key_index_unique(before, j);
            }
            assert(self@ =~= target);
            assert forall|j: int| 0 <= j < after.len() implies (#[trigger] after[j]).holdinvoice.wf()
                && after[j].holdinvoice@.htlc_data.len() > 0 by {
                assert(before[j].holdinvoice@.htlc_data.len() > 0);
            }
        }
    }
}

/// Drops the HTLC `global_htlc_ident` of the invoice under `pay_hash`; an
/// invoice that holds no HTLC any more leaves the registry.
pub fn cleanup_pluginstate_holdinvoices(
    hold_invoices: &mut PluginState,
    pay_hash: &str,
    global_htlc_ident: &HtlcIdentifier,
)
    requires
        old(hold_invoices).wf(),
    ensures
        final(hold_invoices).wf(),
        final(hold_invoices)@ == spec_cleanup(old(hold_invoices)@, pay_hash@, *global_htlc_ident),
        final(hold_invoices).blockheight == old(hold_invoices).blockheight,
        final(hold_invoices).startup_time == old(hold_invoices).startup_time,
{
    match hold_invoices.find(pay_hash) {
        Some(i) => {
            hold_invoices.holdinvoices[i].holdinvoice.remove_htlc(global_htlc_ident);
            let ghost mid = hold_invoices.holdinvoices@;
            proof {
                lemma_registry_update(old(hold_invoices).holdinvoices@, mid, i as int);
            }
            if hold_invoices.holdinvoices[i].holdinvoice.htlc_data.len() == 0 {
                hold_invoices.holdinvoices.remove(i);
                proof {
                    lemma_registry_remove(mid, i as int);
                    assert(hold_invoices@ =~= old(hold_invoices)@.remove(pay_hash@));
                }
            }
        },
        None => {},
    }
}

} // verus!
