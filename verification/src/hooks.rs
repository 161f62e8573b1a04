//! The HTLC hook: the failure message for a rejected HTLC, the registration
//! of an arriving HTLC, and the hold loop that keeps it until the invoice is
//! settled or canceled.

use vstd::prelude::*;
use vstd::string::StringExecFns;

use crate::args::ArgValue;
use crate::errors::{spec_outcome, ErrorKind, HoldError, HoldErrorView};
use crate::invoice::{
    hold_terms, parse_bolt11, spec_bolt11, spec_invalid_bolt11_error, spec_no_amount_error,
};
use crate::model::{
    clone_text, spec_text, HoldHtlc, HoldInvoice, HoldInvoiceRecord, HoldInvoiceResponse,
    HoldInvoiceView, Holdstate, HtlcEntry, HtlcIdentifier, InvoiceTerms,
};
use crate::registry::{
    spec_has_htlc, spec_htlc_index, spec_insert_htlc, spec_min_cltv, spec_set_wake,
    spec_total_msat,
};
use crate::state::{
    cleanup_pluginstate_holdinvoices, lemma_key_index_unique, lemma_registry_push,
    lemma_registry_update, spec_cleanup, spec_woken, HoldEntry, PluginState,
};
use crate::text::{
    hex_upper, hex_value, lemma_hex_upper_reads_back, lemma_hex_value_bound, lemma_pow16_values,
    spec_hex_upper, spec_hex_value,
};

verus! {

/// Failure code of `incorrect_or_unknown_payment_details`.
pub const WIRE_INCORRECT_OR_UNKNOWN_PAYMENT_DETAILS: &'static str = "400F";

/// The failure message for an HTLC of `amount_msat` rejected at height
/// `blockheight`: the failure code, the amount in sixteen and the height in
/// eight upper-case hexadecimal digits, big-endian.
pub open spec fn spec_failure_message(blockheight: u32, amount_msat: u64) -> Seq<char> {
    "400F"@ + spec_hex_upper(amount_msat as nat, 16) + spec_hex_upper(blockheight as nat, 8)
}

/// What a failure message says: the amount and the height, where the text is
/// the failure code followed by twenty-four hexadecimal digits.
pub open spec fn spec_parse_failure_message(message: Seq<char>) -> Option<(u64, u32)> {
    if message.len() == 28 && message.subrange(0, 4) == "400F"@ {
        match (
            spec_hex_value(message.subrange(4, 20)),
            spec_hex_value(message.subrange(20, 28)),
        ) {
            (Some(amount), Some(height)) => Some((amount as u64, height as u32)),
            _ => None,
        }
    } else {
        None
    }
}

/// Builds the failure message of a rejected HTLC.
pub fn get_failure_message(blockheight: u32, amount_msat: u64) -> (message: String)
    ensures
        message@ == spec_failure_message(blockheight, amount_msat),
{
    proof {
        reveal_strlit("400F");
    }
    let mut message = String::from_str(WIRE_INCORRECT_OR_UNKNOWN_PAYMENT_DETAILS);
    let hex_amount_msat = hex_upper(amount_msat, 16);
    let hex_blockheight = hex_upper(blockheight as u64, 8);
    message.append(hex_amount_msat.as_str());
    message.append(hex_blockheight.as_str());
    message
}

/// Reads the amount and the height back from a failure message.
pub fn parse_failure_message(message: &str) -> (parsed: Option<(u64, u32)>)
    ensures
        parsed == spec_parse_failure_message(message@),
{
    proof {
        reveal_strlit("400F");
    }
    if message.unicode_len() != 28 {
        return None;
    }
    if message.get_char(0) != '4' || message.get_char(1) != '0' || message.get_char(2) != '0'
        || message.get_char(3) != 'F' {
        assert(message@.subrange(0, 4) != "400F"@) by {
            if message@.subrange(0, 4) == "400F"@ {
                assert(message@.subrange(0, 4)[0] == '4');
                assert(message@.subrange(0, 4)[1] == '0');
                assert(message@.subrange(0, 4)[2] == '0');
                assert(message@.subrange(0, 4)[3] == 'F');
            }
        }
        return None;
    }
    assert(message@.subrange(0, 4) =~= "400F"@);
    let amount = hex_value(message, 4, 20);
    let height = hex_value(message, 20, 28);
    match (amount, height) {
        (Some(a), Some(h)) => {
            proof {
                lemma_hex_value_bound(message@.subrange(20, 28));
                lemma_pow16_values();
            }
            Some((a, h as u32))
        },
        _ => None,
    }
}

/// A failure message reads back as the amount and the height it was built from.
pub proof fn lemma_failure_message_round_trip(blockheight: u32, amount_msat: u64)
    ensures
        spec_parse_failure_message(spec_failure_message(blockheight, amount_msat)) == Some(
            (amount_msat, blockheight),
        ),
{
    reveal_strlit("400F");
    lemma_pow16_values();
    lemma_hex_upper_reads_back(amount_msat as nat, 16);
    lemma_hex_upper_reads_back(blockheight as nat, 8);
    let message = spec_failure_message(blockheight, amount_msat);
    assert(message.subrange(0, 4) =~= "400F"@);
    assert(message.subrange(4, 20) =~= spec_hex_upper(amount_msat as nat, 16));
    assert(message.subrange(20, 28) =~= spec_hex_upper(blockheight as nat, 8));
}

/// An HTLC as the host presents it to the hook.
#[derive(Clone, Debug)]
pub struct Htlc {
    /// The short channel id as one number.
    pub short_channel_id: u64,
    pub id: u64,
    pub amount_msat: u64,
    pub cltv_expiry: u32,
    pub cltv_expiry_relative: u64,
    pub payment_hash: String,
}

/// The event of the `htlc_accepted` hook.
#[derive(Clone, Debug)]
pub struct HtlcHook {
    pub htlc: Htlc,
    /// Present where the HTLC is to be forwarded: such an HTLC is never held.
    pub forward_to: Option<String>,
}

/// What the host is told to do with an HTLC.
#[derive(Clone, Debug)]
pub enum HtlcVerdict {
    /// The host goes on handling the HTLC.
    Continue,
    /// The HTLC is settled with this preimage.
    Resolve { payment_key: String },
    /// The HTLC is failed with this wire message.
    Fail { failure_message: String },
}

/// A record of the datastore with the generation it was read at.
#[derive(Clone, Debug)]
pub struct StoredInvoice {
    pub record: HoldInvoiceResponse,
    pub generation: u64,
}

/// What is known of the datastore's record for an arriving HTLC.
#[derive(Clone, Debug)]
pub enum RecordLookup {
    /// The datastore was not asked yet.
    NotQueried,
    /// The datastore has no record under the payment hash.
    Missing,
    /// The datastore has this record.
    Found(StoredInvoice),
}

/// How the hook goes on after an HTLC arrived.
#[derive(Clone, Debug)]
pub enum HandlerStep {
    /// The HTLC is answered at once.
    Verdict(HtlcVerdict),
    /// The registry does not know the payment hash: the datastore is to be
    /// asked, and the hook called again with the answer.
    NeedRecord,
    /// The HTLC is registered: its hold loop starts.
    Hold(HtlcIdentifier),
    /// The stored invoice cannot be used.
    Error(HoldError),
}

/// The identity of an HTLC of the hook.
pub open spec fn spec_ident(htlc: Htlc) -> HtlcIdentifier {
    HtlcIdentifier { scid: htlc.short_channel_id, htlc_id: htlc.id }
}

/// An HTLC of the hook as it enters the registry: its wake signal is set.
pub open spec fn spec_held(htlc: Htlc) -> HoldHtlc {
    HoldHtlc { amount_msat: htlc.amount_msat, cltv_expiry: htlc.cltv_expiry, wake: true }
}

/// An invoice with other HTLCs.
pub open spec fn spec_with_htlcs(
    invoice: HoldInvoiceView,
    htlcs: Seq<HtlcEntry>,
) -> HoldInvoiceView {
    HoldInvoiceView {
        hold_state: invoice.hold_state,
        generation: invoice.generation,
        htlc_data: htlcs,
        invoice: invoice.invoice,
        preimage: invoice.preimage,
    }
}

/// The mirror of a stored invoice before any HTLC is registered for it.
pub open spec fn spec_mirror(
    state: Holdstate,
    generation: u64,
    preimage: Option<Seq<char>>,
    terms: InvoiceTerms,
) -> HoldInvoiceView {
    HoldInvoiceView {
        hold_state: state,
        generation,
        htlc_data: Seq::<HtlcEntry>::empty(),
        invoice: terms,
        preimage,
    }
}

/// The registry after an HTLC arrived for the invoice `base` under `hash`:
/// the HTLC is registered, and dropped again at once where the invoice is canceled.
pub open spec fn spec_enter(
    registry: Map<Seq<char>, HoldInvoiceView>,
    hash: Seq<char>,
    base: HoldInvoiceView,
    htlc: Htlc,
) -> Map<Seq<char>, HoldInvoiceView> {
    let joined = registry.insert(
        hash,
        spec_with_htlcs(base, spec_insert_htlc(base.htlc_data, spec_ident(htlc), spec_held(htlc))),
    );
    if base.hold_state == Holdstate::Canceled {
        spec_cleanup(joined, hash, spec_ident(htlc))
    } else {
        joined
    }
}

/// Is this the answer to an HTLC that entered for an invoice in state
/// `hold_state`: held, or failed at once where the invoice is canceled?
pub open spec fn spec_entered(
    step: HandlerStep,
    hold_state: Holdstate,
    htlc: Htlc,
    blockheight: u32,
) -> bool {
    if hold_state == Holdstate::Canceled {
        step matches HandlerStep::Verdict(HtlcVerdict::Fail { failure_message })
            && failure_message@ == spec_failure_message(blockheight, htlc.amount_msat)
    } else {
        step matches HandlerStep::Hold(ident) && ident == spec_ident(htlc)
    }
}

/// Registers an HTLC for an invoice that the registry holds at position
/// `at`, and answers it.
fn htlc_join(state: &mut PluginState, at: usize, htlc: &Htlc) -> (step: HandlerStep)
    requires
        old(state).wf(),
        at < old(state).holdinvoices@.len(),
        old(state).holdinvoices@[at as int].payment_hash@ == htlc.payment_hash@,
    ensures
        final(state).wf(),
        final(state).blockheight == old(state).blockheight,
        final(state).startup_time == old(state).startup_time,
        final(state)@ == spec_enter(
            old(state)@,
            htlc.payment_hash@,
            old(state)@[htlc.payment_hash@],
            *htlc,
        ),
        spec_entered(step, old(state)@[htlc.payment_hash@].hold_state, *htlc, old(state).blockheight),
{
    let ident = HtlcIdentifier { scid: htlc.short_channel_id, htlc_id: htlc.id };
    let held = HoldHtlc { amount_msat: htlc.amount_msat, cltv_expiry: htlc.cltv_expiry, wake: true };
    proof {
        lemma_key_index_unique(old(state).holdinvoices@, at as int);
    }
    let hold_state = state.holdinvoices[at].holdinvoice.hold_state;
    state.holdinvoices[at].holdinvoice.insert_htlc(ident, held);
    proof {
        lemma_registry_update(old(state).holdinvoices@, state.holdinvoices@, at as int);
    }
    match hold_state {
        Holdstate::Canceled => {
            cleanup_pluginstate_holdinvoices(state, htlc.payment_hash.as_str(), &ident);
            HandlerStep::Verdict(
                HtlcVerdict::Fail {
                    failure_message: get_failure_message(state.blockheight, htlc.amount_msat),
                },
            )
        },
        _ => HandlerStep::Hold(ident),
    }
}

/// Registers an HTLC for an invoice that the registry does not hold yet,
/// from the invoice's stored state and its terms, and answers it.
pub fn htlc_register(
    state: &mut PluginState,
    htlc: &Htlc,
    hold_state: Holdstate,
    generation: u64,
    preimage: Option<String>,
    terms: InvoiceTerms,
) -> (step: HandlerStep)
    requires
        old(state).wf(),
        !old(state)@.contains_key(htlc.payment_hash@),
    ensures
        final(state).wf(),
        final(state).blockheight == old(state).blockheight,
        final(state).startup_time == old(state).startup_time,
        final(state)@ == spec_enter(
            old(state)@,
            htlc.payment_hash@,
            spec_mirror(hold_state, generation, spec_text(preimage), terms),
            *htlc,
        ),
        spec_entered(step, hold_state, *htlc, old(state).blockheight),
{
    let ident = HtlcIdentifier { scid: htlc.short_channel_id, htlc_id: htlc.id };
    let held = HoldHtlc { amount_msat: htlc.amount_msat, cltv_expiry: htlc.cltv_expiry, wake: true };
    let mut htlc_data: Vec<HtlcEntry> = Vec::new();
    htlc_data.push(HtlcEntry { id: ident, htlc: held });
    let holdinvoice = HoldInvoice { hold_state, generation, htlc_data, invoice: terms, preimage };
    let entry = HoldEntry { payment_hash: htlc.payment_hash.clone(), holdinvoice };
    proof {
        let base = spec_mirror(hold_state, generation, spec_text(preimage), terms);
        assert(!spec_has_htlc(base.htlc_data, ident));
        assert(entry.holdinvoice@.htlc_data =~= spec_insert_htlc(base.htlc_data, ident, held));
        lemma_registry_push(old(state).holdinvoices@, entry);
    }
    state.holdinvoices.push(entry);
    match hold_state {
        Holdstate::Canceled => {
            cleanup_pluginstate_holdinvoices(state, htlc.payment_hash.as_str(), &ident);
            HandlerStep::Verdict(
                HtlcVerdict::Fail {
                    failure_message: get_failure_message(state.blockheight, htlc.amount_msat),
                },
            )
        },
        _ => HandlerStep::Hold(ident),
    }
}

/// Is this a step that answers the HTLC at once and leaves it to the host?
pub open spec fn spec_is_continue(step: HandlerStep) -> bool {
    step matches HandlerStep::Verdict(HtlcVerdict::Continue)
}

/// What the hook gives for an arriving HTLC.
///
/// An HTLC that is to be forwarded is left to the host. One for an invoice
/// of the registry enters under it. For any other the datastore decides:
/// before it was asked, the hook asks for the record; without a record the
/// HTLC is left to the host; a record whose invoice text is no valid
/// invoice, or names no amount, is an error; otherwise the invoice enters
/// the registry as the record has it, with this HTLC.
pub open spec fn spec_htlc_handler(
    before: PluginState,
    after: PluginState,
    step: HandlerStep,
    hook: HtlcHook,
    lookup: RecordLookup,
) -> bool {
    let hash = hook.htlc.payment_hash@;
    if hook.forward_to is Some {
        spec_is_continue(step) && after@ == before@
    } else if before@.contains_key(hash) {
        &&& after@ == spec_enter(before@, hash, before@[hash], hook.htlc)
        &&& spec_entered(step, before@[hash].hold_state, hook.htlc, before.blockheight)
    } else {
        match lookup {
            RecordLookup::NotQueried => step is NeedRecord && after@ == before@,
            RecordLookup::Missing => spec_is_continue(step) && after@ == before@,
            RecordLookup::Found(stored) => match spec_bolt11(stored.record.bolt11@) {
                None => step matches HandlerStep::Error(e) && e@ == spec_invalid_bolt11_error(
                    stored.record.bolt11@,
                ) && after@ == before@,
                Some((None, _, _)) => step matches HandlerStep::Error(e) && e@
                    == spec_no_amount_error() && after@ == before@,
                Some((Some(amount_msat), expires_at, _)) => {
                    &&& after@ == spec_enter(
                        before@,
                        hash,
                        spec_mirror(
                            stored.record.state,
                            stored.generation,
                            spec_text(stored.record.preimage),
                            InvoiceTerms { amount_msat, expires_at },
                        ),
                        hook.htlc,
                    )
                    &&& spec_entered(step, stored.record.state, hook.htlc, before.blockheight)
                },
            },
        }
    }
}

/// The hook for an arriving HTLC.
///
/// An HTLC that is to be forwarded is left to the host. One for an invoice
/// of the registry is registered with its wake signal set. For any other the
/// datastore decides: without a record the HTLC is left to the host; with a
/// record the invoice enters the registry with this HTLC. An HTLC that
/// arrives for a canceled invoice is dropped again and failed at once; any
/// other registered HTLC is held.
pub fn htlc_handler(state: &mut PluginState, hook: &HtlcHook, lookup: &RecordLookup) -> (step: HandlerStep)
    requires
        old(state).wf(),
    ensures
        final(state).wf(),
        final(state).blockheight == old(state).blockheight,
        final(state).startup_time == old(state).startup_time,
        spec_htlc_handler(*old(state), *final(state), step, *hook, *lookup),
{
    if hook.forward_to.is_some() {
        return HandlerStep::Verdict(HtlcVerdict::Continue);
    }
    match state.find(hook.htlc.payment_hash.as_str()) {
        Some(at) => htlc_join(state, at, &hook.htlc),
        None => match lookup {
            RecordLookup::NotQueried => HandlerStep::NeedRecord,
            RecordLookup::Missing => HandlerStep::Verdict(HtlcVerdict::Continue),
            RecordLookup::Found(stored) => {
                match parse_bolt11(stored.record.bolt11.as_str()) {
                    Err(e) => HandlerStep::Error(e),
                    Ok(decoded) => match hold_terms(&decoded) {
                        Err(e) => HandlerStep::Error(e),
                        Ok(terms) => htlc_register(
                            state,
                            &hook.htlc,
                            stored.record.state,
                            stored.generation,
                            clone_text(&stored.record.preimage),
                            terms,
                        ),
                    },
                }
            },
        },
    }
}

/// Seconds that the hold loop waits before it wakes again.
pub const HOLD_POLL_SECONDS: u64 = 2;

/// The policy of the hold loop.
#[derive(Clone, Copy, Debug)]
pub struct HoldConfig {
    /// Cushion in blocks: an HTLC that expires within it is acted on.
    pub cancel_before_htlc_blocks: u32,
    /// Cushion in seconds before the invoice's own expiry; `None` switches
    /// the invoice-time policy off.
    pub cancel_before_invoice_seconds: Option<u64>,
    /// Seconds after the start during which an open invoice is not canceled
    /// for having expired.
    pub startup_lock_seconds: u64,
}

/// A generation-checked write that the hold loop asks for.
#[derive(Clone, Copy, Debug, PartialEq, Eq, Structural)]
pub struct PendingWrite {
    pub new_state: Holdstate,
    /// The generation that the record must still have.
    pub generation: u64,
    /// Was the write decided by an expiry, before the state was acted on?
    pub on_expiry: bool,
}

/// The record as a write of the hold loop leaves it at second `now`: in the
/// new state, and with the time of payment where that state is settled.
pub open spec fn spec_written_record(
    record: HoldInvoiceRecord,
    write: PendingWrite,
    now: u64,
) -> HoldInvoiceRecord {
    HoldInvoiceRecord {
        bolt11: record.bolt11,
        payment_hash: record.payment_hash,
        payment_secret: record.payment_secret,
        expires_at: record.expires_at,
        preimage: record.preimage,
        description: record.description,
        description_hash: record.description_hash,
        state: write.new_state,
        htlc_expiry: record.htlc_expiry,
        paid_at: if write.new_state == Holdstate::Settled {
            Some(now)
        } else {
            record.paid_at
        },
    }
}

/// Makes the record that a write of the hold loop carries, from the record
/// as the datastore holds it. The write is to be made only against the
/// generation that the write names.
pub fn written_record(
    record: HoldInvoiceResponse,
    write: &PendingWrite,
    now: u64,
) -> (written: HoldInvoiceResponse)
    ensures
        written@ == spec_written_record(record@, *write, now),
{
    let mut written = record;
    written.state = write.new_state;
    match write.new_state {
        Holdstate::Settled => {
            written.paid_at = Some(now);
        },
        _ => {},
    }
    written
}

/// What the hold loop of an HTLC has the caller do next.
#[derive(Clone, Debug)]
pub enum LoopAction {
    /// Nothing to do now: wait [`HOLD_POLL_SECONDS`], then wake the loop again.
    Idle,
    /// Read the invoice's record from the datastore and hand it in.
    Fetch,
    /// Write the state with a generation check and hand the outcome in.
    Write(PendingWrite),
    /// The invoice became accepted: announce it, then wait as for `Idle`.
    Accepted { payment_hash: String, htlc_expiry: u32 },
    /// The HTLC is answered: the loop ends.
    Verdict(HtlcVerdict),
    /// An invariant is broken: the error is surfaced, the HTLC is failed
    /// with the message, and the loop ends.
    Fatal { error: HoldError, failure_message: String },
}

/// What happened since the hold loop last returned.
#[derive(Clone, Debug)]
pub enum LoopEvent {
    /// An iteration starts.
    Wake,
    /// The datastore answered the read: the record, or `None` where the read failed.
    Fetched(Option<StoredInvoice>),
    /// The write was tried: `done` says whether the datastore took it.
    Written { write: PendingWrite, done: bool },
}

/// What the hold loop does about the state of the invoice.
#[derive(Clone, Copy, Debug, PartialEq, Eq, Structural)]
pub enum HoldMove {
    /// Open and expired, the startup grace over: cancel it.
    CancelExpired,
    /// Open and fully funded: accept it.
    Accept,
    /// Open and not yet funded: wait.
    AwaitFunds,
    /// Accepted but no longer funded: back to open.
    Reopen,
    /// Accepted and funded: wait.
    KeepAccepted,
    /// Settled: hand the preimage out.
    Resolve,
    /// Settled without a preimage: an invariant is broken.
    MissingPreimage,
    /// Canceled: fail the HTLC.
    Reject,
}

/// Is second `now` within the startup grace?
pub open spec fn spec_in_grace(startup_time: u64, lock: u64, now: u64) -> bool {
    now <= startup_time + lock
}

/// Soft expiry of an HTLC: its expiry height is within the cushion of the block height.
pub open spec fn spec_htlc_soft_expired(cltv_expiry: u32, blockheight: u32, cushion: u32) -> bool {
    cltv_expiry <= blockheight + cushion
}

/// Hard expiry of an HTLC: its expiry height is reached.
pub open spec fn spec_htlc_hard_expired(cltv_expiry: u32, blockheight: u32) -> bool {
    cltv_expiry <= blockheight
}

/// With the invoice-time policy on: is the invoice's expiry within the cushion of `now`?
pub open spec fn spec_invoice_soft_expired(cfg: HoldConfig, terms: InvoiceTerms, now: u64) -> bool {
    cfg.cancel_before_invoice_seconds matches Some(cushion) && (terms.expires_at matches Some(at)
        && at <= now + cushion)
}

/// With the invoice-time policy on: is the invoice's expiry reached?
pub open spec fn spec_invoice_hard_expired(cfg: HoldConfig, terms: InvoiceTerms, now: u64) -> bool {
    cfg.cancel_before_invoice_seconds is Some && (terms.expires_at matches Some(at) && at <= now)
}

/// An open invoice within the startup grace is not acted on for its own expiry.
pub open spec fn spec_shielded(
    invoice: HoldInvoiceView,
    cfg: HoldConfig,
    startup_time: u64,
    now: u64,
) -> bool {
    invoice.hold_state == Holdstate::Open && spec_in_grace(startup_time, cfg.startup_lock_seconds, now)
}

/// Soft expiry, of the HTLC or of the invoice.
pub open spec fn spec_soft_expired(
    invoice: HoldInvoiceView,
    cfg: HoldConfig,
    cltv_expiry: u32,
    blockheight: u32,
    startup_time: u64,
    now: u64,
) -> bool {
    spec_htlc_soft_expired(cltv_expiry, blockheight, cfg.cancel_before_htlc_blocks) || (
    spec_invoice_soft_expired(cfg, invoice.invoice, now) && !spec_shielded(
        invoice,
        cfg,
        startup_time,
        now,
    ))
}

/// Hard expiry, of the HTLC or of the invoice.
pub open spec fn spec_hard_expired(
    invoice: HoldInvoiceView,
    cfg: HoldConfig,
    cltv_expiry: u32,
    blockheight: u32,
    startup_time: u64,
    now: u64,
) -> bool {
    spec_htlc_hard_expired(cltv_expiry, blockheight) || (spec_invoice_hard_expired(
        cfg,
        invoice.invoice,
        now,
    ) && !spec_shielded(invoice, cfg, startup_time, now))
}

/// The state that an expiry moves the invoice to: settled where the expiry
/// is soft only, the invoice accepted and the preimage known; else canceled
/// on a hard expiry, or on a soft one of an open or accepted invoice.
pub open spec fn spec_expiry_target(
    hold_state: Holdstate,
    preimage_known: bool,
    soft_expired: bool,
    hard_expired: bool,
) -> Option<Holdstate> {
    if soft_expired && !hard_expired && hold_state == Holdstate::Accepted && preimage_known {
        Some(Holdstate::Settled)
    } else if (soft_expired && (hold_state == Holdstate::Open || hold_state
        == Holdstate::Accepted)) || hard_expired {
        Some(Holdstate::Canceled)
    } else {
        None
    }
}

/// The expiry target of an HTLC with expiry height `cltv_expiry` for an invoice.
pub open spec fn spec_expiry_move(
    invoice: HoldInvoiceView,
    cfg: HoldConfig,
    cltv_expiry: u32,
    blockheight: u32,
    startup_time: u64,
    now: u64,
) -> Option<Holdstate> {
    spec_expiry_target(
        invoice.hold_state,
        invoice.preimage is Some,
        spec_soft_expired(invoice, cfg, cltv_expiry, blockheight, startup_time, now),
        spec_hard_expired(invoice, cfg, cltv_expiry, blockheight, startup_time, now),
    )
}

/// What the hold loop does about the state of the invoice.
pub open spec fn spec_move(
    invoice: HoldInvoiceView,
    cfg: HoldConfig,
    startup_time: u64,
    now: u64,
) -> HoldMove {
    match invoice.hold_state {
        Holdstate::Open => if invoice.invoice.spec_is_expired(now) && !spec_in_grace(
            startup_time,
            cfg.startup_lock_seconds,
            now,
        ) {
            HoldMove::CancelExpired
        } else if spec_total_msat(invoice.htlc_data) >= invoice.invoice.amount_msat {
            HoldMove::Accept
        } else {
            HoldMove::AwaitFunds
        },
        Holdstate::Accepted => if invoice.invoice.amount_msat > spec_total_msat(invoice.htlc_data) {
            HoldMove::Reopen
        } else {
            HoldMove::KeepAccepted
        },
        Holdstate::Settled => if invoice.preimage is Some {
            HoldMove::Resolve
        } else {
            HoldMove::MissingPreimage
        },
        Holdstate::Canceled => HoldMove::Reject,
    }
}

/// The state that a move asks the datastore to write, if it asks for a write.
pub open spec fn spec_move_target(mv: HoldMove) -> Option<Holdstate> {
    match mv {
        HoldMove::CancelExpired => Some(Holdstate::Canceled),
        HoldMove::Accept => Some(Holdstate::Accepted),
        HoldMove::Reopen => Some(Holdstate::Open),
        _ => None,
    }
}

/// The registry after a move for the HTLC `id` of the invoice under `hash`:
/// a write leaves it as it is, waiting clears the HTLC's wake signal, and a
/// verdict drops the HTLC.
pub open spec fn spec_after_move(
    registry: Map<Seq<char>, HoldInvoiceView>,
    hash: Seq<char>,
    id: HtlcIdentifier,
    mv: HoldMove,
) -> Map<Seq<char>, HoldInvoiceView> {
    match mv {
        HoldMove::CancelExpired | HoldMove::Accept | HoldMove::Reopen => registry,
        HoldMove::AwaitFunds | HoldMove::KeepAccepted => registry.insert(
            hash,
            spec_with_htlcs(registry[hash], spec_set_wake(registry[hash].htlc_data, id, false)),
        ),
        HoldMove::Resolve | HoldMove::MissingPreimage | HoldMove::Reject => spec_cleanup(
            registry,
            hash,
            id,
        ),
    }
}

/// Is this the action of a move, for an HTLC at height `blockheight`?
pub open spec fn spec_move_action(
    action: LoopAction,
    mv: HoldMove,
    invoice: HoldInvoiceView,
    htlc: Htlc,
    blockheight: u32,
) -> bool {
    match mv {
        HoldMove::CancelExpired | HoldMove::Accept | HoldMove::Reopen => action matches LoopAction::Write(
            w,
        ) && Some(w.new_state) == spec_move_target(mv) && w.generation == invoice.generation
            && !w.on_expiry,
        HoldMove::AwaitFunds | HoldMove::KeepAccepted => action is Idle,
        HoldMove::Resolve => action matches LoopAction::Verdict(HtlcVerdict::Resolve { payment_key })
            && Some(payment_key@) == invoice.preimage,
        HoldMove::MissingPreimage => spec_is_unsettleable(action, htlc, blockheight),
        HoldMove::Reject => action matches LoopAction::Verdict(
            HtlcVerdict::Fail { failure_message },
        ) && failure_message@ == spec_failure_message(blockheight, htlc.amount_msat),
    }
}

/// Is the action the end of the loop on a broken invariant: a fatal error
/// with this message, and the failure message for the HTLC?
pub open spec fn spec_is_fatal(
    action: LoopAction,
    message: Seq<char>,
    htlc: Htlc,
    blockheight: u32,
) -> bool {
    action matches LoopAction::Fatal { error, failure_message } && error@ == (HoldErrorView {
        kind: ErrorKind::Fatal,
        message,
    }) && failure_message@ == spec_failure_message(blockheight, htlc.amount_msat)
}

/// The end of the loop for an HTLC that the registry does not hold.
pub open spec fn spec_is_dropped(action: LoopAction, htlc: Htlc, blockheight: u32) -> bool {
    spec_is_fatal(
        action,
        "Invoice dropped from internal state unexpectedly: "@ + htlc.payment_hash@,
        htlc,
        blockheight,
    )
}

/// The end of the loop for an HTLC of a settled invoice without a preimage.
pub open spec fn spec_is_unsettleable(action: LoopAction, htlc: Htlc, blockheight: u32) -> bool {
    spec_is_fatal(
        action,
        "Internal error: settled without preimage: "@ + htlc.payment_hash@,
        htlc,
        blockheight,
    )
}

/// Does the registry hold the HTLC under its invoice?
pub open spec fn spec_holds(registry: Map<Seq<char>, HoldInvoiceView>, htlc: Htlc) -> bool {
    registry.contains_key(htlc.payment_hash@) && spec_has_htlc(
        registry[htlc.payment_hash@].htlc_data,
        spec_ident(htlc),
    )
}

/// Is the HTLC due for another look: its wake signal set, or the invoice
/// near its own expiry under the invoice-time policy?
pub open spec fn spec_due(
    invoice: HoldInvoiceView,
    id: HtlcIdentifier,
    cfg: HoldConfig,
    now: u64,
) -> bool {
    invoice.htlc_data[spec_htlc_index(invoice.htlc_data, id)].htlc.wake
        || spec_invoice_soft_expired(cfg, invoice.invoice, now)
}

/// The invoice as the datastore's record refreshes it.
pub open spec fn spec_refreshed(
    invoice: HoldInvoiceView,
    stored: StoredInvoice,
) -> HoldInvoiceView {
    HoldInvoiceView {
        hold_state: stored.record.state,
        generation: stored.generation,
        htlc_data: invoice.htlc_data,
        invoice: invoice.invoice,
        preimage: spec_text(stored.record.preimage),
    }
}

/// The invoice in another state.
pub open spec fn spec_in_state(invoice: HoldInvoiceView, hold_state: Holdstate) -> HoldInvoiceView {
    HoldInvoiceView {
        hold_state,
        generation: invoice.generation,
        htlc_data: invoice.htlc_data,
        invoice: invoice.invoice,
        preimage: invoice.preimage,
    }
}

/// The outcome of acting on the invoice `invoice`, which stands in the
/// registry `registry` under the HTLC's payment hash.
pub open spec fn spec_acted(
    registry: Map<Seq<char>, HoldInvoiceView>,
    after: Map<Seq<char>, HoldInvoiceView>,
    action: LoopAction,
    htlc: Htlc,
    cfg: HoldConfig,
    blockheight: u32,
    startup_time: u64,
    now: u64,
) -> bool {
    let invoice = registry[htlc.payment_hash@];
    let mv = spec_move(invoice, cfg, startup_time, now);
    &&& after == spec_after_move(registry, htlc.payment_hash@, spec_ident(htlc), mv)
    &&& spec_move_action(action, mv, invoice, htlc, blockheight)
}

/// What waking the loop gives: the end where the HTLC is not held, a read
/// of the record where the HTLC is due, else a wait. The registry stays as it is.
pub open spec fn spec_woken_loop(
    before: PluginState,
    after: PluginState,
    action: LoopAction,
    htlc: Htlc,
    cfg: HoldConfig,
    now: u64,
) -> bool {
    &&& after@ == before@
    &&& if !spec_holds(before@, htlc) {
        spec_is_dropped(action, htlc, before.blockheight)
    } else if spec_due(before@[htlc.payment_hash@], spec_ident(htlc), cfg, now) {
        action is Fetch
    } else {
        action is Idle
    }
}

/// What a read of the record gives: a wait where the read failed; else the
/// mirror takes the record's state, generation and preimage, and either an
/// expiry asks for a write or the state is acted on.
pub open spec fn spec_fetched_loop(
    before: PluginState,
    after: PluginState,
    action: LoopAction,
    htlc: Htlc,
    cfg: HoldConfig,
    now: u64,
    fetched: Option<StoredInvoice>,
) -> bool {
    if !spec_holds(before@, htlc) {
        after@ == before@ && spec_is_dropped(action, htlc, before.blockheight)
    } else {
        match fetched {
            None => after@ == before@ && action is Idle,
            Some(stored) => {
                let invoice = spec_refreshed(before@[htlc.payment_hash@], stored);
                let refreshed = before@.insert(htlc.payment_hash@, invoice);
                match spec_expiry_move(
                    invoice,
                    cfg,
                    htlc.cltv_expiry,
                    before.blockheight,
                    before.startup_time,
                    now,
                ) {
                    Some(target) => after@ == refreshed && action == LoopAction::Write(
                        PendingWrite {
                            new_state: target,
                            generation: stored.generation,
                            on_expiry: true,
                        },
                    ),
                    None => spec_acted(
                        refreshed,
                        after@,
                        action,
                        htlc,
                        cfg,
                        before.blockheight,
                        before.startup_time,
                        now,
                    ),
                }
            },
        }
    }
}

/// What the outcome of a write gives: a wait where it failed. After a write
/// on expiry the mirror takes the new state, which is acted on. After the
/// write that accepted the invoice the HTLC's wake signal is cleared and the
/// acceptance announced with the smallest expiry height among the HTLCs
/// held; after any other write the loop waits.
pub open spec fn spec_written_loop(
    before: PluginState,
    after: PluginState,
    action: LoopAction,
    htlc: Htlc,
    cfg: HoldConfig,
    now: u64,
    write: PendingWrite,
    done: bool,
) -> bool {
    if !spec_holds(before@, htlc) {
        after@ == before@ && spec_is_dropped(action, htlc, before.blockheight)
    } else if !done {
        after@ == before@ && action is Idle
    } else if write.on_expiry {
        spec_acted(
            before@.insert(
                htlc.payment_hash@,
                spec_in_state(before@[htlc.payment_hash@], write.new_state),
            ),
            after@,
            action,
            htlc,
            cfg,
            before.blockheight,
            before.startup_time,
            now,
        )
    } else if write.new_state == Holdstate::Accepted {
        let invoice = before@[htlc.payment_hash@];
        &&& after@ == before@.insert(
            htlc.payment_hash@,
            spec_with_htlcs(invoice, spec_set_wake(invoice.htlc_data, spec_ident(htlc), false)),
        )
        &&& action matches LoopAction::Accepted { payment_hash, htlc_expiry }
        &&& payment_hash@ == htlc.payment_hash@
        &&& Some(htlc_expiry) == spec_min_cltv(invoice.htlc_data)
    } else {
        after@ == before@ && action is Idle
    }
}

/// If there is an HTLC, there is a smallest expiry height.
pub proof fn lemma_min_cltv_some(htlcs: Seq<HtlcEntry>)
    requires
        htlcs.len() > 0,
    ensures
        spec_min_cltv(htlcs) is Some,
{
}

fn dropped(state: &PluginState, htlc: &Htlc) -> (action: LoopAction)
    ensures
        spec_is_dropped(action, *htlc, state.blockheight),
{
    let mut message = String::from_str("Invoice dropped from internal state unexpectedly: ");
    message.append(htlc.payment_hash.as_str());
    LoopAction::Fatal {
        error: HoldError { kind: ErrorKind::Fatal, message },
        failure_message: get_failure_message(state.blockheight, htlc.amount_msat),
    }
}

/// Where the registry holds the HTLC: the positions of its invoice and of the HTLC in it.
fn locate(state: &PluginState, htlc: &Htlc) -> (at: Option<(usize, usize)>)
    requires
        state.wf(),
    ensures
        at is Some <==> spec_holds(state@, *htlc),
        at matches Some((i, j)) ==> {
            &&& i < state.holdinvoices@.len()
            &&& state.holdinvoices@[i as int].payment_hash@ == htlc.payment_hash@
            &&& state.holdinvoices@[i as int].holdinvoice@ == state@[htlc.payment_hash@]
            &&& j < state.holdinvoices@[i as int].holdinvoice.htlc_data@.len()
            &&& j == spec_htlc_index(state@[htlc.payment_hash@].htlc_data, spec_ident(*htlc))
            &&& state.holdinvoices@[i as int].holdinvoice.htlc_data@[j as int].id == spec_ident(*htlc)
        },
{
    let ident = HtlcIdentifier { scid: htlc.short_channel_id, htlc_id: htlc.id };
    match state.find(htlc.payment_hash.as_str()) {
        Some(i) => match state.holdinvoices[i].holdinvoice.find_htlc(&ident) {
            Some(j) => Some((i, j)),
            None => None,
        },
        None => None,
    }
}

/// The state that an expiry moves the invoice to, for an HTLC with expiry
/// height `cltv_expiry`.
pub fn expiry_move(
    invoice: &HoldInvoice,
    cfg: &HoldConfig,
    cltv_expiry: u32,
    blockheight: u32,
    startup_time: u64,
    now: u64,
) -> (target: Option<Holdstate>)
    ensures
        target == spec_expiry_move(invoice@, *cfg, cltv_expiry, blockheight, startup_time, now),
{
    let in_grace = now as u128 <= startup_time as u128 + cfg.startup_lock_seconds as u128;
    let shielded = matches!(invoice.hold_state, Holdstate::Open) && in_grace;
    let (invoice_soft, invoice_hard) = match (cfg.cancel_before_invoice_seconds, invoice.invoice.expires_at) {
        (Some(cushion), Some(at)) => (at as u128 <= now as u128 + cushion as u128, at <= now),
        _ => (false, false),
    };
    let soft_expired = cltv_expiry as u64 <= blockheight as u64 + cfg.cancel_before_htlc_blocks as u64
        || (invoice_soft && !shielded);
    let hard_expired = cltv_expiry <= blockheight || (invoice_hard && !shielded);
    let open_or_accepted = matches!(invoice.hold_state, Holdstate::Open | Holdstate::Accepted);
    if soft_expired && !hard_expired && matches!(invoice.hold_state, Holdstate::Accepted)
        && invoice.preimage.is_some() {
        Some(Holdstate::Settled)
    } else if (soft_expired && open_or_accepted) || hard_expired {
        Some(Holdstate::Canceled)
    } else {
        None
    }
}

/// What the hold loop does about the state of the invoice.
pub fn decide_move(invoice: &HoldInvoice, cfg: &HoldConfig, startup_time: u64, now: u64) -> (mv: HoldMove)
    ensures
        mv == spec_move(invoice@, *cfg, startup_time, now),
{
    match invoice.hold_state {
        Holdstate::Open => {
            let in_grace = now as u128 <= startup_time as u128 + cfg.startup_lock_seconds as u128;
            if invoice.invoice.is_expired(now) && !in_grace {
                HoldMove::CancelExpired
            } else if invoice.total_msat() >= invoice.invoice.amount_msat as u128 {
                HoldMove::Accept
            } else {
                HoldMove::AwaitFunds
            }
        },
        Holdstate::Accepted => {
            if invoice.invoice.amount_msat as u128 > invoice.total_msat() {
                HoldMove::Reopen
            } else {
                HoldMove::KeepAccepted
            }
        },
        Holdstate::Settled => {
            if invoice.preimage.is_some() {
                HoldMove::Resolve
            } else {
                HoldMove::MissingPreimage
            }
        },
        Holdstate::Canceled => HoldMove::Reject,
    }
}

/// Acts on the state of the invoice at position `at` for one of its HTLCs.
fn act(state: &mut PluginState, at: usize, htlc: &Htlc, cfg: &HoldConfig, now: u64) -> (action: LoopAction)
    requires
        old(state).wf(),
        at < old(state).holdinvoices@.len(),
        old(state).holdinvoices@[at as int].payment_hash@ == htlc.payment_hash@,
    ensures
        final(state).wf(),
        final(state).blockheight == old(state).blockheight,
        final(state).startup_time == old(state).startup_time,
        spec_acted(
            old(state)@,
            final(state)@,
            action,
            *htlc,
            *cfg,
            old(state).blockheight,
            old(state).startup_time,
            now,
        ),
{
    proof {
        lemma_key_index_unique(old(state).holdinvoices@, at as int);
    }
    let ident = HtlcIdentifier { scid: htlc.short_channel_id, htlc_id: htlc.id };
    let mv = decide_move(&state.holdinvoices[at].holdinvoice, cfg, state.startup_time, now);
    let generation = state.holdinvoices[at].holdinvoice.generation;
    match mv {
        HoldMove::CancelExpired => LoopAction::Write(
            PendingWrite { new_state: Holdstate::Canceled, generation, on_expiry: false },
        ),
        HoldMove::Accept => LoopAction::Write(
            PendingWrite { new_state: Holdstate::Accepted, generation, on_expiry: false },
        ),
        HoldMove::Reopen => LoopAction::Write(
            PendingWrite { new_state: Holdstate::Open, generation, on_expiry: false },
        ),
        HoldMove::AwaitFunds | HoldMove::KeepAccepted => {
            state.holdinvoices[at].holdinvoice.set_wake(&ident, false);
            proof {
                lemma_registry_update(old(state).holdinvoices@, state.holdinvoices@, at as int);
            }
            LoopAction::Idle
        },
        HoldMove::Resolve | HoldMove::MissingPreimage => {
            let preimage = clone_text(&state.holdinvoices[at].holdinvoice.preimage);
            cleanup_pluginstate_holdinvoices(state, htlc.payment_hash.as_str(), &ident);
            match preimage {
                Some(payment_key) => LoopAction::Verdict(HtlcVerdict::Resolve { payment_key }),
                None => {
                    let mut message = String::from_str("Internal error: settled without preimage: ");
                    message.append(htlc.payment_hash.as_str());
                    LoopAction::Fatal {
                        error: HoldError { kind: ErrorKind::Fatal, message },
                        failure_message: get_failure_message(state.blockheight, htlc.amount_msat),
                    }
                },
            }
        },
        HoldMove::Reject => {
            cleanup_pluginstate_holdinvoices(state, htlc.payment_hash.as_str(), &ident);
            LoopAction::Verdict(
                HtlcVerdict::Fail {
                    failure_message: get_failure_message(state.blockheight, htlc.amount_msat),
                },
            )
        },
    }
}

/// An iteration of the hold loop starts: is there anything to look at?
pub fn hold_wake(state: &PluginState, htlc: &Htlc, cfg: &HoldConfig, now: u64) -> (action: LoopAction)
    requires
        state.wf(),
    ensures
        spec_woken_loop(*state, *state, action, *htlc, *cfg, now),
{
    match locate(state, htlc) {
        None => dropped(state, htlc),
        Some((i, j)) => {
            let invoice = &state.holdinvoices[i].holdinvoice;
            let near_expiry = match (cfg.cancel_before_invoice_seconds, invoice.invoice.expires_at) {
                (Some(cushion), Some(at)) => at as u128 <= now as u128 + cushion as u128,
                _ => false,
            };
            if invoice.htlc_data[j].htlc.wake || near_expiry {
                LoopAction::Fetch
            } else {
                LoopAction::Idle
            }
        },
    }
}

/// The datastore answered the read of the record.
pub fn hold_fetched(
    state: &mut PluginState,
    htlc: &Htlc,
    cfg: &HoldConfig,
    now: u64,
    fetched: &Option<StoredInvoice>,
) -> (action: LoopAction)
    requires
        old(state).wf(),
    ensures
        final(state).wf(),
        final(state).blockheight == old(state).blockheight,
        final(state).startup_time == old(state).startup_time,
        spec_fetched_loop(*old(state), *final(state), action, *htlc, *cfg, now, *fetched),
{
    match locate(state, htlc) {
        None => dropped(state, htlc),
        Some((i, j)) => match fetched {
            None => LoopAction::Idle,
            Some(stored) => {
                state.holdinvoices[i].holdinvoice.hold_state = stored.record.state;
                state.holdinvoices[i].holdinvoice.generation = stored.generation;
                state.holdinvoices[i].holdinvoice.preimage = clone_text(&stored.record.preimage);
                proof {
                    lemma_registry_update(old(state).holdinvoices@, state.holdinvoices@, i as int);
                    assert(state.holdinvoices@[i as int].holdinvoice@ == spec_refreshed(
                        old(state)@[htlc.payment_hash@],
                        *stored,
                    ));
                }
                match expiry_move(
                    &state.holdinvoices[i].holdinvoice,
                    cfg,
                    htlc.cltv_expiry,
                    state.blockheight,
                    state.startup_time,
                    now,
                ) {
                    Some(target) => LoopAction::Write(
                        PendingWrite {
                            new_state: target,
                            generation: stored.generation,
                            on_expiry: true,
                        },
                    ),
                    None => act(state, i, htlc, cfg, now),
                }
            },
        },
    }
}

/// The write that the loop asked for was tried.
pub fn hold_written(
    state: &mut PluginState,
    htlc: &Htlc,
    cfg: &HoldConfig,
    now: u64,
    write: &PendingWrite,
    done: bool,
) -> (action: LoopAction)
    requires
        old(state).wf(),
    ensures
        final(state).wf(),
        final(state).blockheight == old(state).blockheight,
        final(state).startup_time == old(state).startup_time,
        spec_written_loop(*old(state), *final(state), action, *htlc, *cfg, now, *write, done),
{
    match locate(state, htlc) {
        None => dropped(state, htlc),
        Some((i, j)) => {
            if !done {
                LoopAction::Idle
            } else if write.on_expiry {
                state.holdinvoices[i].holdinvoice.hold_state = write.new_state;
                proof {
                    lemma_registry_update(old(state).holdinvoices@, state.holdinvoices@, i as int);
                    assert(state.holdinvoices@[i as int].holdinvoice@ == spec_in_state(
                        old(state)@[htlc.payment_hash@],
                        write.new_state,
                    ));
                }
                act(state, i, htlc, cfg, now)
            } else {
                match write.new_state {
                    Holdstate::Accepted => {
                        let ident = HtlcIdentifier { scid: htlc.short_channel_id, htlc_id: htlc.id };
                        let lowest = state.holdinvoices[i].holdinvoice.min_cltv();
                        state.holdinvoices[i].holdinvoice.set_wake(&ident, false);
                        proof {
                            lemma_registry_update(
                                old(state).holdinvoices@,
                                state.holdinvoices@,
                                i as int,
                            );
                            lemma_min_cltv_some(old(state)@[htlc.payment_hash@].htlc_data);
                        }
                        match lowest {
                            Some(htlc_expiry) => LoopAction::Accepted {
                                payment_hash: htlc.payment_hash.clone(),
                                htlc_expiry,
                            },
                            None => LoopAction::Idle,
                        }
                    },
                    _ => LoopAction::Idle,
                }
            }
        },
    }
}

/// What an event of the hold loop gives.
pub open spec fn spec_loop_htlc_hold(
    before: PluginState,
    after: PluginState,
    action: LoopAction,
    htlc: Htlc,
    cfg: HoldConfig,
    now: u64,
    event: LoopEvent,
) -> bool {
    match event {
        LoopEvent::Wake => spec_woken_loop(before, after, action, htlc, cfg, now),
        LoopEvent::Fetched(fetched) => spec_fetched_loop(before, after, action, htlc, cfg, now, fetched),
        LoopEvent::Written { write, done } => spec_written_loop(
            before,
            after,
            action,
            htlc,
            cfg,
            now,
            write,
            done,
        ),
    }
}

/// One step of the hold loop of an HTLC, at second `now`.
///
/// The caller starts with `Wake` and then does what each action asks: it
/// waits and wakes the loop again, reads the record and hands it in, or
/// writes the state and hands the outcome in, until a verdict or a fatal
/// error ends the loop.
pub fn loop_htlc_hold(
    state: &mut PluginState,
    htlc: &Htlc,
    cfg: &HoldConfig,
    now: u64,
    event: &LoopEvent,
) -> (action: LoopAction)
    requires
        old(state).wf(),
    ensures
        final(state).wf(),
        final(state).blockheight == old(state).blockheight,
        final(state).startup_time == old(state).startup_time,
        spec_loop_htlc_hold(*old(state), *final(state), action, *htlc, *cfg, now, *event),
{
    match event {
        LoopEvent::Wake => hold_wake(state, htlc, cfg, now),
        LoopEvent::Fetched(fetched) => hold_fetched(state, htlc, cfg, now, fetched),
        LoopEvent::Written { write, done } => hold_written(state, htlc, cfg, now, write, *done),
    }
}

/// An error about a block notification.
pub open spec fn spec_block_error(message: Seq<char>) -> HoldErrorView {
    HoldErrorView { kind: ErrorKind::InputError, message }
}

/// The height in the block of a notification: a whole number, of which the
/// low 32 bits count.
pub open spec fn spec_height_of(block: ArgValue) -> Result<u32, HoldErrorView> {
    match block.spec_member("height"@) {
        Some(ArgValue::Number { unsigned: Some(h), .. }) => Ok((h % 0x1_0000_0000) as u32),
        _ => Err(spec_block_error("could not find height for block"@)),
    }
}

/// The height that a block notification announces: the notification holds
/// the block under `block` or, failing that, under `block_added`.
pub open spec fn spec_block_height(notification: ArgValue) -> Result<u32, HoldErrorView> {
    match notification.spec_member("block"@) {
        Some(block) => spec_height_of(block),
        None => match notification.spec_member("block_added"@) {
            Some(block) => spec_height_of(block),
            None => Err(spec_block_error("could not read block notification"@)),
        },
    }
}

/// Reads the height from a block notification, in either of its two forms.
pub fn block_height(notification: &ArgValue) -> (height: Result<u32, HoldError>)
    ensures
        spec_outcome(height) == spec_block_height(*notification),
{
    let block = match notification.get("block") {
        Some(b) => b,
        None => match notification.get("block_added") {
            Some(b) => b,
            None => {
                return Err(
                    HoldError {
                        kind: ErrorKind::InputError,
                        message: String::from_str("could not read block notification"),
                    },
                );
            },
        },
    };
    match block.get("height") {
        Some(ArgValue::Number { unsigned: Some(h), .. }) => Ok((*h % 0x1_0000_0000) as u32),
        _ => Err(
            HoldError {
                kind: ErrorKind::InputError,
                message: String::from_str("could not find height for block"),
            },
        ),
    }
}

/// A block was added: the height is taken over and every held HTLC is woken.
pub fn block_added(state: &mut PluginState, height: u32)
    requires
        old(state).wf(),
    ensures
        final(state).wf(),
        final(state).blockheight == height,
        final(state).startup_time == old(state).startup_time,
        final(state)@ == old(state)@.map_values(
            |invoice: HoldInvoiceView| spec_woken(invoice),
        ),
{
    state.blockheight = height;
    state.wake_everything();
}

} // verus!
