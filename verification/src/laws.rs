//! What holds of the engine as a whole: laws about the hold loop, the
//! commands and autoclean, each proved from the contracts of the functions.

use vstd::prelude::*;

use crate::codec::{
    spec_hex_decode, spec_hex_encode, spec_lower_hex_digit, spec_payment_hash_of,
    spec_preimage_matches,
};
use crate::errors::{spec_wrong_hold_state_error, ErrorKind, HoldErrorView};
use crate::hold::{
    spec_cancel, spec_drain_step, spec_lookup_entry, spec_mismatch_error, spec_pending,
    spec_settle, DrainStep, PeerChannel, DRAIN_TIMEOUT_SECONDS,
};
use crate::hooks::{
    spec_entered, spec_expiry_move, spec_expiry_target, spec_failure_message, spec_fetched_loop,
    spec_hard_expired, spec_holds, spec_htlc_handler, spec_htlc_hard_expired,
    spec_htlc_soft_expired, spec_in_grace, spec_in_state, spec_invoice_hard_expired,
    spec_invoice_soft_expired, spec_loop_htlc_hold, spec_move, spec_move_target,
    spec_soft_expired, spec_written_loop, HandlerStep, HoldConfig, HoldMove, Htlc, HtlcHook,
    HtlcVerdict, LoopAction, LoopEvent, PendingWrite, RecordLookup, StoredInvoice,
};
use crate::model::{spec_text, HoldInvoiceRecord, HoldInvoiceView, Holdstate};
use crate::registry::{spec_min_cltv, spec_total_msat};
use crate::rpc::lemma_hex_round_trip;
use crate::state::PluginState;
use crate::tasks::{spec_clean_kind, AutocleanConfig, CleanKind};
use crate::text::{spec_ascii_lower, spec_eq_ignore_ascii_case, spec_hex_digit_value};
use crate::util::{spec_pair_check, spec_payment_pair};

verus! {

/// Is the preimage of the invoice, where one is known, the preimage of `payment_hash`?
pub open spec fn spec_mirror_sound(invoice: HoldInvoiceView, payment_hash: Seq<char>) -> bool {
    invoice.preimage matches Some(p) ==> spec_preimage_matches(payment_hash, p)
}

/// Is the preimage of the record, where one is known, the preimage of `payment_hash`?
pub open spec fn spec_record_sound(record: HoldInvoiceRecord, payment_hash: Seq<char>) -> bool {
    record.preimage matches Some(p) ==> spec_preimage_matches(payment_hash, p)
}

/// Is what an event of the hold loop brings sound for `payment_hash`?
pub open spec fn spec_event_sound(event: LoopEvent, payment_hash: Seq<char>) -> bool {
    event matches LoopEvent::Fetched(Some(stored)) ==> spec_record_sound(
        stored.record@,
        payment_hash,
    )
}

/// An invoice enters the registry only with a record that the datastore
/// holds, and then with the state and the generation of that record.
pub proof fn lemma_registry_grows_only_from_records(
    before: PluginState,
    after: PluginState,
    step: HandlerStep,
    hook: HtlcHook,
    lookup: RecordLookup,
)
    requires
        spec_htlc_handler(before, after, step, hook, lookup),
    ensures
        forall|hash: Seq<char>|
            after@.contains_key(hash) && !before@.contains_key(hash) ==> hash
                == hook.htlc.payment_hash@ && (lookup matches RecordLookup::Found(stored)
                && after@[hash].hold_state == stored.record.state && after@[hash].generation
                == stored.generation),
{
}

/// A write that the hold loop asks for is a move that the transition table
/// allows from the state that the mirror holds, which is the state last
/// read, unless that state is terminal and the expiry hard.
pub proof fn lemma_loop_writes_follow_the_table(
    before: PluginState,
    after: PluginState,
    action: LoopAction,
    htlc: Htlc,
    cfg: HoldConfig,
    now: u64,
    event: LoopEvent,
)
    requires
        spec_loop_htlc_hold(before, after, action, htlc, cfg, now, event),
        spec_holds(before@, htlc),
        action is Write,
        after@.contains_key(htlc.payment_hash@) ==> !(
        after@[htlc.payment_hash@].hold_state.is_terminal() && spec_hard_expired(
            after@[htlc.payment_hash@],
            cfg,
            htlc.cltv_expiry,
            before.blockheight,
            before.startup_time,
            now,
        )),
    ensures
        after@.contains_key(htlc.payment_hash@),
        after@[htlc.payment_hash@].hold_state.spec_is_valid_new_state(action->Write_0.new_state),
        action->Write_0.generation == after@[htlc.payment_hash@].generation,
{
}

/// The generation of the mirror follows the datastore: a read sets it to
/// the generation read, and nothing else changes it. So while the
/// generations that the datastore hands out do not decrease, neither does
/// the mirror's.
pub proof fn lemma_generation_follows_datastore(
    before: PluginState,
    after: PluginState,
    action: LoopAction,
    htlc: Htlc,
    cfg: HoldConfig,
    now: u64,
    event: LoopEvent,
)
    requires
        before.wf(),
        spec_loop_htlc_hold(before, after, action, htlc, cfg, now, event),
        spec_holds(before@, htlc),
        after@.contains_key(htlc.payment_hash@),
    ensures
        after@[htlc.payment_hash@].generation == (match event {
            LoopEvent::Fetched(Some(stored)) => stored.generation,
            _ => before@[htlc.payment_hash@].generation,
        }),
        (event matches LoopEvent::Fetched(Some(stored)) ==> stored.generation
            >= before@[htlc.payment_hash@].generation) ==> after@[htlc.payment_hash@].generation
            >= before@[htlc.payment_hash@].generation,
{
}

/// A read refreshes the mirror: while the invoice stays in the registry it
/// has the generation, the state and the preimage of the record read. A
/// failed read changes nothing and gives a wait.
pub proof fn lemma_read_refreshes_the_mirror(
    before: PluginState,
    after: PluginState,
    action: LoopAction,
    htlc: Htlc,
    cfg: HoldConfig,
    now: u64,
    fetched: Option<StoredInvoice>,
)
    requires
        before.wf(),
        spec_holds(before@, htlc),
        spec_fetched_loop(before, after, action, htlc, cfg, now, fetched),
    ensures
        fetched is None ==> after@ == before@ && action is Idle,
        fetched matches Some(stored) ==> (after@.contains_key(htlc.payment_hash@) ==> {
            &&& after@[htlc.payment_hash@].generation == stored.generation
            &&& after@[htlc.payment_hash@].hold_state == stored.record.state
            &&& after@[htlc.payment_hash@].preimage == spec_text(stored.record.preimage)
        }),
{
}

/// A write that failed changes nothing and answers no HTLC; the loop waits
/// and looks again.
pub proof fn lemma_failed_write_changes_nothing(
    before: PluginState,
    after: PluginState,
    action: LoopAction,
    htlc: Htlc,
    cfg: HoldConfig,
    now: u64,
    write: PendingWrite,
)
    requires
        spec_written_loop(before, after, action, htlc, cfg, now, write, false),
    ensures
        after@ == before@,
        !(action is Verdict),
        !(action is Write),
        !(action is Accepted),
        spec_holds(before@, htlc) ==> action is Idle,
{
}

/// The acceptance of an invoice is announced only once the write of the
/// accepted state is done, under the HTLC's payment hash and with the
/// smallest expiry height among the HTLCs held for the invoice.
pub proof fn lemma_acceptance_is_announced_after_the_write(
    before: PluginState,
    after: PluginState,
    action: LoopAction,
    htlc: Htlc,
    cfg: HoldConfig,
    now: u64,
    event: LoopEvent,
)
    requires
        spec_loop_htlc_hold(before, after, action, htlc, cfg, now, event),
        action is Accepted,
    ensures
        event matches LoopEvent::Written { write, done } && done && write.new_state
            == Holdstate::Accepted && !write.on_expiry,
        action->Accepted_payment_hash@ == htlc.payment_hash@,
        spec_holds(before@, htlc),
        Some(action->Accepted_htlc_expiry) == spec_min_cltv(
            before@[htlc.payment_hash@].htlc_data,
        ),
{
}

/// Whenever the hold loop fails an HTLC, the failure message carries the
/// amount of that HTLC and the block height that the engine holds.
pub proof fn lemma_failure_carries_the_amount_of_the_htlc(
    before: PluginState,
    after: PluginState,
    action: LoopAction,
    htlc: Htlc,
    cfg: HoldConfig,
    now: u64,
    event: LoopEvent,
)
    requires
        spec_loop_htlc_hold(before, after, action, htlc, cfg, now, event),
    ensures
        action matches LoopAction::Verdict(HtlcVerdict::Fail { failure_message })
            ==> failure_message@ == spec_failure_message(before.blockheight, htlc.amount_msat),
        action matches LoopAction::Fatal { failure_message, .. } ==> failure_message@
            == spec_failure_message(before.blockheight, htlc.amount_msat),
{
}

/// An accepted invoice with a known preimage is settled at the closed
/// bound of the soft expiry, and the settled state hands the preimage out;
/// one block earlier nothing is written. Both hold while the invoice's own
/// expiry does not act under the invoice-time policy.
pub proof fn lemma_soft_expiry_settles(
    invoice: HoldInvoiceView,
    cfg: HoldConfig,
    cltv_expiry: u32,
    blockheight: u32,
    startup_time: u64,
    now: u64,
)
    requires
        invoice.hold_state == Holdstate::Accepted,
        invoice.preimage is Some,
        cfg.cancel_before_htlc_blocks >= 1,
    ensures
        cltv_expiry == blockheight + cfg.cancel_before_htlc_blocks && !spec_invoice_hard_expired(
            cfg,
            invoice.invoice,
            now,
        ) ==> spec_expiry_move(invoice, cfg, cltv_expiry, blockheight, startup_time, now) == Some(
            Holdstate::Settled,
        ),
        cltv_expiry == blockheight + cfg.cancel_before_htlc_blocks + 1
            && !spec_invoice_soft_expired(cfg, invoice.invoice, now) ==> spec_expiry_move(
            invoice,
            cfg,
            cltv_expiry,
            blockheight,
            startup_time,
            now,
        ) is None,
        spec_move(spec_in_state(invoice, Holdstate::Settled), cfg, startup_time, now)
            == HoldMove::Resolve,
{
}

/// Within the startup grace a funded open invoice is accepted, not
/// canceled, though its text has expired.
pub proof fn lemma_grace_accepts_a_funded_invoice(
    invoice: HoldInvoiceView,
    cfg: HoldConfig,
    startup_time: u64,
    now: u64,
)
    requires
        invoice.hold_state == Holdstate::Open,
        spec_in_grace(startup_time, cfg.startup_lock_seconds, now),
        spec_total_msat(invoice.htlc_data) >= invoice.invoice.amount_msat,
    ensures
        spec_move(invoice, cfg, startup_time, now) == HoldMove::Accept,
        spec_move_target(spec_move(invoice, cfg, startup_time, now)) == Some(Holdstate::Accepted),
{
}

/// A settle of an accepted record whose preimage is the preimage of its
/// payment hash succeeds, with or without the same preimage given.
pub proof fn lemma_settle_of_an_accepted_record(
    stored: StoredInvoice,
    payment_hash: Seq<char>,
    now: u64,
)
    requires
        stored.record.state == Holdstate::Accepted,
        stored.record@.preimage is Some,
        spec_preimage_matches(stored.record@.payment_hash, stored.record@.preimage->0),
    ensures
        spec_settle(Some(stored), payment_hash, None, now) is Ok,
        spec_settle(Some(stored), payment_hash, stored.record@.preimage, now) is Ok,
        spec_settle(Some(stored), payment_hash, None, now)->Ok_0.state == Holdstate::Settled,
        spec_settle(Some(stored), payment_hash, None, now)->Ok_0.paid_at == Some(now),
{
}

/// A preimage that the hold loop hands out is the preimage of the HTLC's
/// payment hash, provided that the preimages in the mirror and in the
/// record read are.
pub proof fn lemma_resolve_hands_out_the_preimage(
    before: PluginState,
    after: PluginState,
    action: LoopAction,
    htlc: Htlc,
    cfg: HoldConfig,
    now: u64,
    event: LoopEvent,
)
    requires
        spec_loop_htlc_hold(before, after, action, htlc, cfg, now, event),
        before@.contains_key(htlc.payment_hash@) ==> spec_mirror_sound(
            before@[htlc.payment_hash@],
            htlc.payment_hash@,
        ),
        spec_event_sound(event, htlc.payment_hash@),
    ensures
        action matches LoopAction::Verdict(HtlcVerdict::Resolve { payment_key })
            ==> spec_preimage_matches(htlc.payment_hash@, payment_key@),
{
}

/// A hexadecimal text, decoded and encoded again, is the same text up to
/// the case of its digits.
pub proof fn lemma_hex_normalizes(text: Seq<char>)
    requires
        spec_hex_decode(text) is Some,
    ensures
        spec_eq_ignore_ascii_case(spec_hex_encode(spec_hex_decode(text)->0), text),
        spec_hex_encode(spec_hex_decode(text)->0).len() == text.len(),
    decreases text.len(),
{
    if text.len() >= 2 {
        let head = text.subrange(0, text.len() - 2);
        let high = text[text.len() - 2];
        let low = text[text.len() - 1];
        lemma_hex_normalizes(head);
        let bytes = spec_hex_decode(head)->0;
        let h = spec_hex_digit_value(high)->0;
        let l = spec_hex_digit_value(low)->0;
        let byte = (h * 16 + l) as u8;
        assert(spec_hex_decode(text) == Some(bytes.push(byte)));
        assert(bytes.push(byte).drop_last() =~= bytes);
        assert(byte as int / 16 == h && byte as int % 16 == l);
        assert(spec_ascii_lower(spec_lower_hex_digit(h as int)) == spec_ascii_lower(high));
        assert(spec_ascii_lower(spec_lower_hex_digit(l as int)) == spec_ascii_lower(low));
        let again = spec_hex_encode(bytes.push(byte));
        assert(again == spec_hex_encode(bytes).push(spec_lower_hex_digit(h as int)).push(
            spec_lower_hex_digit(l as int),
        ));
        assert forall|i: int| 0 <= i < again.len() implies spec_ascii_lower(#[trigger] again[i])
            == spec_ascii_lower(text[i]) by {
            if i < head.len() {
                assert(again[i] == spec_hex_encode(bytes)[i]);
                assert(text[i] == head[i]);
            }
        }
    } else {
        assert(text.len() == 0);
        assert(spec_hex_encode(Seq::<u8>::empty()) =~= Seq::<char>::empty());
    }
}

/// The payment hash and the preimage of a new invoice belong together:
/// where the arguments agree and a preimage comes out, it is the preimage of
/// the payment hash that comes out.
pub proof fn lemma_payment_pair_is_sound(
    payment_hash: Option<Seq<char>>,
    preimage: Option<Seq<char>>,
    fresh: Seq<u8>,
)
    requires
        spec_pair_check(payment_hash, preimage) is Ok,
    ensures
        spec_payment_pair(payment_hash, preimage, fresh) matches Ok((hash, Some(pre)))
            ==> spec_preimage_matches(hash, pre),
{
    match (payment_hash, preimage) {
        (Some(hash), Some(pre)) => {
            if spec_hex_decode(hash) is Some {
                lemma_hex_normalizes(hash);
                let hashed = spec_payment_hash_of(pre)->0;
                let normal = spec_hex_encode(spec_hex_decode(hash)->0);
                assert(spec_eq_ignore_ascii_case(hash, hashed));
                assert forall|i: int| 0 <= i < normal.len() implies spec_ascii_lower(
                    #[trigger] normal[i],
                ) == spec_ascii_lower(hashed[i]) by {
                    assert(spec_ascii_lower(normal[i]) == spec_ascii_lower(hash[i]));
                }
            }
        },
        (None, Some(pre)) => {},
        (None, None) => {
            lemma_hex_round_trip(fresh);
        },
        _ => {},
    }
}

/// A settle writes a record only with a preimage of the record's payment hash.
pub proof fn lemma_settle_writes_the_preimage(
    stored: Option<StoredInvoice>,
    payment_hash: Seq<char>,
    supplied: Option<Seq<char>>,
    now: u64,
)
    ensures
        spec_settle(stored, payment_hash, supplied, now) matches Ok(record) ==> {
            &&& record.state == Holdstate::Settled
            &&& record.paid_at == Some(now)
            &&& record.preimage is Some
            &&& spec_preimage_matches(record.payment_hash, record.preimage->0)
        },
{
}

/// A write that the hold loop asks for when it acts on a state is a move
/// that the transition table allows.
pub proof fn lemma_moves_follow_the_table(
    invoice: HoldInvoiceView,
    cfg: HoldConfig,
    startup_time: u64,
    now: u64,
)
    ensures
        spec_move_target(spec_move(invoice, cfg, startup_time, now)) matches Some(target)
            ==> invoice.hold_state.spec_is_valid_new_state(target),
{
}

/// A write that the hold loop asks for on an expiry is a move that the
/// transition table allows, unless the expiry is hard and the state
/// terminal: then the loop asks for the canceled state all the same.
pub proof fn lemma_expiry_follows_the_table(
    hold_state: Holdstate,
    preimage_known: bool,
    soft_expired: bool,
    hard_expired: bool,
)
    requires
        !(hard_expired && hold_state.is_terminal()),
    ensures
        spec_expiry_target(hold_state, preimage_known, soft_expired, hard_expired) matches Some(
            target,
        ) ==> hold_state.spec_is_valid_new_state(target),
{
}

/// A settle, a cancel and the cancel of a lookup write only moves that the
/// transition table allows.
pub proof fn lemma_commands_follow_the_table(
    stored: StoredInvoice,
    payment_hash: Seq<char>,
    supplied: Option<Seq<char>>,
    now: u64,
    registry: Map<Seq<char>, HoldInvoiceView>,
    open_expired: bool,
)
    ensures
        spec_settle(Some(stored), payment_hash, supplied, now) matches Ok(record)
            ==> stored.record.state.spec_is_valid_new_state(record.state),
        spec_cancel(Some(stored), payment_hash) matches Ok(record)
            ==> stored.record.state.spec_is_valid_new_state(record.state),
        spec_lookup_entry(registry, stored.record@, open_expired) matches Ok((record, cancel))
            ==> (cancel ==> stored.record.state.spec_is_valid_new_state(record.state)) && (!cancel
            ==> record.state == stored.record.state),
{
}

/// A settled record stays settled: a settle and a cancel of it fail with
/// the wrong state, a lookup reports it as it is and writes nothing, and
/// the hold loop asks for no write of it unless the HTLC's expiry is hard.
pub proof fn lemma_settled_stays(
    stored: StoredInvoice,
    payment_hash: Seq<char>,
    supplied: Option<Seq<char>>,
    now: u64,
    registry: Map<Seq<char>, HoldInvoiceView>,
    open_expired: bool,
    invoice: HoldInvoiceView,
    cfg: HoldConfig,
    startup_time: u64,
    soft_expired: bool,
    preimage_known: bool,
)
    requires
        stored.record.state == Holdstate::Settled,
        invoice.hold_state == Holdstate::Settled,
    ensures
        spec_settle(Some(stored), payment_hash, supplied, now) == Err::<
            HoldInvoiceRecord,
            HoldErrorView,
        >(spec_wrong_hold_state_error(Holdstate::Settled)),
        spec_cancel(Some(stored), payment_hash) == Err::<HoldInvoiceRecord, HoldErrorView>(
            spec_wrong_hold_state_error(Holdstate::Settled),
        ),
        spec_lookup_entry(registry, stored.record@, open_expired) == Ok::<
            (HoldInvoiceRecord, bool),
            HoldErrorView,
        >((stored.record@, false)),
        spec_move_target(spec_move(invoice, cfg, startup_time, now)) is None,
        spec_expiry_target(Holdstate::Settled, preimage_known, soft_expired, false) is None,
{
}

/// An HTLC that arrives for a canceled invoice is failed at once; and one
/// whose hold loop reads a canceled record is failed in that iteration: at
/// once, or, where its expiry is hard, once the write that the loop asks
/// for is done.
pub proof fn lemma_canceled_fails(
    before: PluginState,
    after: PluginState,
    action: LoopAction,
    htlc: Htlc,
    cfg: HoldConfig,
    now: u64,
    stored: StoredInvoice,
    step: HandlerStep,
)
    requires
        stored.record.state == Holdstate::Canceled,
        spec_holds(before@, htlc),
        spec_fetched_loop(before, after, action, htlc, cfg, now, Some(stored)),
        spec_entered(step, Holdstate::Canceled, htlc, before.blockheight),
    ensures
        step matches HandlerStep::Verdict(HtlcVerdict::Fail { .. }),
        action matches LoopAction::Verdict(HtlcVerdict::Fail { .. }) || action == LoopAction::Write(
            PendingWrite {
                new_state: Holdstate::Canceled,
                generation: stored.generation,
                on_expiry: true,
            },
        ),
        (action matches LoopAction::Write(write)) ==> (forall|
            later: PluginState,
            last: LoopAction,
            then: u64,
        |
            spec_holds(after@, htlc) && #[trigger] spec_written_loop(
                after,
                later,
                last,
                htlc,
                cfg,
                then,
                action->Write_0,
                true,
            ) ==> last matches LoopAction::Verdict(HtlcVerdict::Fail { .. })),
{
}

/// While an HTLC of the invoice is in flight on a live channel, the barrier
/// waits before the timeout has elapsed and gives up once it has.
pub proof fn lemma_barrier_gives_up_at_the_timeout(
    channels: Seq<PeerChannel>,
    payment_hash: Seq<char>,
    elapsed: u64,
)
    requires
        spec_pending(channels, payment_hash),
    ensures
        elapsed >= DRAIN_TIMEOUT_SECONDS ==> spec_drain_step(channels, payment_hash, elapsed)
            == DrainStep::TimedOut,
        elapsed < DRAIN_TIMEOUT_SECONDS ==> spec_drain_step(channels, payment_hash, elapsed)
            == DrainStep::Wait,
        DRAIN_TIMEOUT_SECONDS == 30,
{
}

/// Autoclean removes an open or an accepted record only after the
/// invoice's expiry plus the age for expired invoices has passed; an
/// accepted one it never removes.
pub proof fn lemma_autoclean_spares_live_invoices(
    state: Holdstate,
    paid_at: Option<u64>,
    expires_at: Option<u64>,
    settings: AutocleanConfig,
    now: u64,
)
    requires
        state == Holdstate::Open || state == Holdstate::Accepted,
        spec_clean_kind(state, paid_at, expires_at, settings, now) != CleanKind::Keep,
    ensures
        state == Holdstate::Open,
        expires_at is Some,
        expires_at->0 + settings.expiredinvoices_age < now,
{
}

/// A settle of a settled record fails with the wrong state, and a settle
/// with a preimage that is not the preimage of the record's payment hash is
/// an input error.
pub proof fn lemma_settle_again(
    stored: StoredInvoice,
    payment_hash: Seq<char>,
    preimage: Seq<char>,
    now: u64,
)
    ensures
        stored.record.state == Holdstate::Settled ==> spec_settle(
            Some(stored),
            payment_hash,
            Some(preimage),
            now,
        ) == Err::<HoldInvoiceRecord, HoldErrorView>(
            spec_wrong_hold_state_error(Holdstate::Settled),
        ),
        stored.record.state == Holdstate::Accepted && !spec_preimage_matches(
            stored.record@.payment_hash,
            preimage,
        ) ==> spec_settle(Some(stored), payment_hash, Some(preimage), now) == Err::<
            HoldInvoiceRecord,
            HoldErrorView,
        >(spec_mismatch_error(stored.record@.payment_hash, preimage)) && spec_mismatch_error(
            stored.record@.payment_hash,
            preimage,
        ).kind == ErrorKind::InputError,
{
}

/// A cancel of a canceled record fails with the wrong state.
pub proof fn lemma_cancel_again(stored: StoredInvoice, payment_hash: Seq<char>)
    requires
        stored.record.state == Holdstate::Canceled,
    ensures
        spec_cancel(Some(stored), payment_hash) == Err::<HoldInvoiceRecord, HoldErrorView>(
            spec_wrong_hold_state_error(Holdstate::Canceled),
        ),
        spec_wrong_hold_state_error(Holdstate::Canceled).kind == ErrorKind::WrongState,
{
}

/// An HTLC whose expiry height is the block height plus the cushion is
/// soft-expired: the bound is closed.
pub proof fn lemma_soft_expiry_is_closed(
    invoice: HoldInvoiceView,
    cfg: HoldConfig,
    cltv_expiry: u32,
    blockheight: u32,
    startup_time: u64,
    now: u64,
)
    requires
        cltv_expiry == blockheight + cfg.cancel_before_htlc_blocks,
    ensures
        spec_htlc_soft_expired(cltv_expiry, blockheight, cfg.cancel_before_htlc_blocks),
        spec_soft_expired(invoice, cfg, cltv_expiry, blockheight, startup_time, now),
        (invoice.hold_state == Holdstate::Open || invoice.hold_state == Holdstate::Accepted)
            ==> spec_expiry_move(invoice, cfg, cltv_expiry, blockheight, startup_time, now)
            is Some,
{
}

/// An HTLC whose expiry height is the block height is hard-expired, and the
/// hold loop asks for the canceled state.
pub proof fn lemma_hard_expiry_is_closed(
    invoice: HoldInvoiceView,
    cfg: HoldConfig,
    cltv_expiry: u32,
    blockheight: u32,
    startup_time: u64,
    now: u64,
)
    requires
        cltv_expiry == blockheight,
    ensures
        spec_htlc_hard_expired(cltv_expiry, blockheight),
        spec_hard_expired(invoice, cfg, cltv_expiry, blockheight, startup_time, now),
        spec_expiry_move(invoice, cfg, cltv_expiry, blockheight, startup_time, now) == Some(
            Holdstate::Canceled,
        ),
{
}

/// An open invoice whose HTLCs sum to exactly its amount is accepted,
/// unless it has expired and the startup grace is over.
pub proof fn lemma_exact_amount_accepts(
    invoice: HoldInvoiceView,
    cfg: HoldConfig,
    startup_time: u64,
    now: u64,
)
    requires
        invoice.hold_state == Holdstate::Open,
        spec_total_msat(invoice.htlc_data) == invoice.invoice.amount_msat,
        !(invoice.invoice.spec_is_expired(now) && !spec_in_grace(
            startup_time,
            cfg.startup_lock_seconds,
            now,
        )),
    ensures
        spec_move(invoice, cfg, startup_time, now) == HoldMove::Accept,
        spec_move_target(spec_move(invoice, cfg, startup_time, now)) == Some(Holdstate::Accepted),
{
}

/// Within the startup grace the hold loop does not cancel an open invoice
/// for having expired: an HTLC that is not itself near its expiry height
/// brings no write of the canceled state.
pub proof fn lemma_startup_grace_shields(
    invoice: HoldInvoiceView,
    cfg: HoldConfig,
    cltv_expiry: u32,
    blockheight: u32,
    startup_time: u64,
    now: u64,
)
    requires
        invoice.hold_state == Holdstate::Open,
        spec_in_grace(startup_time, cfg.startup_lock_seconds, now),
        !spec_htlc_soft_expired(cltv_expiry, blockheight, cfg.cancel_before_htlc_blocks),
    ensures
        spec_expiry_move(invoice, cfg, cltv_expiry, blockheight, startup_time, now) is None,
        spec_move(invoice, cfg, startup_time, now) != HoldMove::CancelExpired,
        spec_move_target(spec_move(invoice, cfg, startup_time, now)) != Some(Holdstate::Canceled),
{
}

} // verus!
