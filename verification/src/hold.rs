//! The commands of the operator: settle, cancel and lookup of a hold
//! invoice, and the barrier that waits until the host has cleared its HTLCs.

use vstd::prelude::*;
use vstd::string::StringExecFns;

use crate::args::{
    first_unknown, spec_byte_len, spec_first_unknown, spec_names, ArgField, ArgValue,
};
use crate::codec::{
    encode_hex, payment_hash_of, preimage_matches, spec_hex_encode, spec_payment_hash_of,
    spec_preimage_matches,
};
use crate::errors::{
    invalid_argument_error, invalid_hash_error, invalid_input_error, missing_parameter_error,
    payment_hash_missing_error, spec_input_error, spec_invalid_argument_error,
    spec_invalid_hash_error, spec_invalid_input_error, spec_missing_parameter_error,
    spec_outcome, spec_payment_hash_missing_error, spec_text_outcome,
    spec_too_many_params_error, spec_wrong_hold_state_error, too_many_params_error,
    wrong_hold_state_error, ErrorKind, HoldError, HoldErrorView,
};
use crate::hooks::StoredInvoice;
use crate::invoice::{parse_bolt11, spec_bolt11, spec_invalid_bolt11_error};
use crate::model::{
    spec_text, HoldInvoiceRecord, HoldInvoiceResponse, HoldInvoiceView, Holdstate, HtlcIdentifier,
};
use crate::registry::spec_min_cltv;
use crate::state::{spec_woken, PluginState};
use crate::text::{eq_ignore_ascii_case, spec_eq_ignore_ascii_case};
use crate::util::{
    parse_payment_hash, parse_preimage, spec_parse_hash_param, spec_preimage_not_hex_error,
};

verus! {

/// Seconds after which the barrier gives up.
pub const DRAIN_TIMEOUT_SECONDS: u64 = 30;

/// Seconds between two looks of the barrier at the host's channels.
pub const DRAIN_POLL_SECONDS: u64 = 2;

/// State of a channel, as far as the barrier tells channels apart.
#[derive(Clone, Copy, Debug, PartialEq, Eq, Structural)]
pub enum ChannelState {
    Normal,
    AwaitingSplice,
    /// Any other state: the channel is passed over.
    Other,
}

/// An HTLC that a channel reports as in flight.
#[derive(Clone, Debug)]
pub struct ChannelHtlc {
    pub id: u64,
    pub payment_hash: String,
}

/// A peer channel as the host lists it.
#[derive(Clone, Debug)]
pub struct PeerChannel {
    pub state: ChannelState,
    /// The short channel id as one number, once the channel has one.
    pub short_channel_id: Option<u64>,
    pub peer_connected: bool,
    pub private: Option<bool>,
    pub htlcs: Option<Vec<ChannelHtlc>>,
}

/// Is the channel one whose HTLCs count for the barrier?
pub open spec fn spec_is_live(channel: PeerChannel) -> bool {
    channel.state == ChannelState::Normal || channel.state == ChannelState::AwaitingSplice
}

/// Does the list hold an HTLC with the payment hash, up to the case of its digits?
pub open spec fn spec_has_hash(htlcs: Seq<ChannelHtlc>, payment_hash: Seq<char>) -> bool {
    exists|j: int|
        0 <= j < htlcs.len() && spec_eq_ignore_ascii_case(
            (#[trigger] htlcs[j]).payment_hash@,
            payment_hash,
        )
}

/// Does a channel in a live state still report an HTLC with the payment hash?
pub open spec fn spec_pending(channels: Seq<PeerChannel>, payment_hash: Seq<char>) -> bool {
    exists|i: int|
        0 <= i < channels.len() && spec_is_live(#[trigger] channels[i]) && (
        channels[i].htlcs matches Some(htlcs) && spec_has_hash(htlcs@, payment_hash))
}

/// The identities of the HTLCs of a list that have the payment hash, on the
/// channel `scid`, in order.
pub open spec fn spec_matching_htlcs(
    htlcs: Seq<ChannelHtlc>,
    scid: u64,
    payment_hash: Seq<char>,
) -> Seq<HtlcIdentifier>
    decreases htlcs.len(),
{
    if htlcs.len() == 0 {
        Seq::<HtlcIdentifier>::empty()
    } else {
        let before = spec_matching_htlcs(htlcs.drop_last(), scid, payment_hash);
        if spec_eq_ignore_ascii_case(htlcs.last().payment_hash@, payment_hash) {
            before.push(HtlcIdentifier { scid, htlc_id: htlcs.last().id })
        } else {
            before
        }
    }
}

/// The identities of the HTLCs with the payment hash that the live
/// channels report, in the order of the channels; a channel without a short
/// channel id gives none.
pub open spec fn spec_live_htlcs(
    channels: Seq<PeerChannel>,
    payment_hash: Seq<char>,
) -> Seq<HtlcIdentifier>
    decreases channels.len(),
{
    if channels.len() == 0 {
        Seq::<HtlcIdentifier>::empty()
    } else {
        let before = spec_live_htlcs(channels.drop_last(), payment_hash);
        match (channels.last().short_channel_id, channels.last().htlcs) {
            (Some(scid), Some(htlcs)) => if spec_is_live(channels.last()) {
                before + spec_matching_htlcs(htlcs@, scid, payment_hash)
            } else {
                before
            },
            _ => before,
        }
    }
}

/// Lists the HTLCs with the payment hash that are in flight on live channels.
pub fn enumerate_live_htlcs_for(channels: &Vec<PeerChannel>, payment_hash: &str) -> (live: Vec<HtlcIdentifier>)
    ensures
        live@ == spec_live_htlcs(channels@, payment_hash@),
{
    let mut live: Vec<HtlcIdentifier> = Vec::new();
    let mut i: usize = 0;
    assert(channels@.take(0) =~= Seq::<PeerChannel>::empty());
    while i < channels.len()
        invariant
            i <= channels@.len(),
            live@ == spec_live_htlcs(channels@.take(i as int), payment_hash@),
        decreases channels@.len() - i,
    {
        proof {
            assert(channels@.take(i as int + 1).drop_last() =~= channels@.take(i as int));
            assert(channels@.take(i as int + 1).last() == channels@[i as int]);
        }
        let is_live = match channels[i].state {
            ChannelState::Normal | ChannelState::AwaitingSplice => true,
            ChannelState::Other => false,
        };
        match (channels[i].short_channel_id, &channels[i].htlcs) {
            (Some(scid), Some(htlcs)) => {
                if is_live {
                    let ghost before = live@;
                    let mut j: usize = 0;
                    assert(htlcs@.take(0) =~= Seq::<ChannelHtlc>::empty());
                    assert(before + Seq::<HtlcIdentifier>::empty() =~= before);
                    while j < htlcs.len()
                        invariant
                            j <= htlcs@.len(),
                            live@ == before + spec_matching_htlcs(
                                htlcs@.take(j as int),
                                scid,
                                payment_hash@,
                            ),
                        decreases htlcs@.len() - j,
                    {
                        proof {
                            assert(htlcs@.take(j as int + 1).drop_last() =~= htlcs@.take(j as int));
                            assert(htlcs@.take(j as int + 1).last() == htlcs@[j as int]);
                        }
                        let ghost so_far = spec_matching_htlcs(
                            htlcs@.take(j as int),
                            scid,
                            payment_hash@,
                        );
                        if eq_ignore_ascii_case(htlcs[j].payment_hash.as_str(), payment_hash) {
                            let found = HtlcIdentifier { scid, htlc_id: htlcs[j].id };
                            live.push(found);
                            assert(live@ =~= before + so_far.push(found));
                        }
                        j = j + 1;
                    }
                    assert(htlcs@.take(j as int) =~= htlcs@);
                }
            },
            _ => {},
        }
        i = i + 1;
    }
    assert(channels@.take(i as int) =~= channels@);
    live
}

/// How the barrier goes on.
#[derive(Clone, Copy, Debug, PartialEq, Eq, Structural)]
pub enum DrainStep {
    /// No HTLC of the invoice is left: the command has succeeded.
    Drained,
    /// HTLCs are left: look again after the poll interval.
    Wait,
    /// HTLCs are left and the time is up: the command fails.
    TimedOut,
}

/// The step of the barrier: drained where nothing is pending, timed out
/// once the timeout has elapsed, else a wait.
pub open spec fn spec_drain_step(
    channels: Seq<PeerChannel>,
    payment_hash: Seq<char>,
    elapsed: u64,
) -> DrainStep {
    if !spec_pending(channels, payment_hash) {
        DrainStep::Drained
    } else if elapsed >= DRAIN_TIMEOUT_SECONDS {
        DrainStep::TimedOut
    } else {
        DrainStep::Wait
    }
}

fn has_hash(htlcs: &Vec<ChannelHtlc>, payment_hash: &str) -> (found: bool)
    ensures
        found == spec_has_hash(htlcs@, payment_hash@),
{
    let mut j: usize = 0;
    while j < htlcs.len()
        invariant
            j <= htlcs@.len(),
            forall|k: int| 0 <= k < j ==> !spec_eq_ignore_ascii_case(
                (#[trigger] htlcs@[k]).payment_hash@,
                payment_hash@,
            ),
        decreases htlcs@.len() - j,
    {
        if eq_ignore_ascii_case(htlcs[j].payment_hash.as_str(), payment_hash) {
            return true;
        }
        j = j + 1;
    }
    false
}

/// Is an HTLC with the payment hash still in flight on a live channel?
pub fn htlcs_pending(channels: &Vec<PeerChannel>, payment_hash: &str) -> (pending: bool)
    ensures
        pending == spec_pending(channels@, payment_hash@),
{
    let mut i: usize = 0;
    while i < channels.len()
        invariant
            i <= channels@.len(),
            forall|k: int| 0 <= k < i ==> !(spec_is_live(#[trigger] channels@[k]) && (
            channels@[k].htlcs matches Some(htlcs) && spec_has_hash(htlcs@, payment_hash@))),
        decreases channels@.len() - i,
    {
        let live = match channels[i].state {
            ChannelState::Normal | ChannelState::AwaitingSplice => true,
            ChannelState::Other => false,
        };
        if live {
            match &channels[i].htlcs {
                Some(htlcs) => {
                    if has_hash(htlcs, payment_hash) {
                        return true;
                    }
                },
                None => {},
            }
        }
        i = i + 1;
    }
    false
}

/// One look of the barrier: the channels as the host lists them now, and
/// the whole seconds since the barrier began.
pub fn drain_step(
    channels: &Vec<PeerChannel>,
    payment_hash: &str,
    elapsed: u64,
) -> (step: DrainStep)
    ensures
        step == spec_drain_step(channels@, payment_hash@, elapsed),
{
    if !htlcs_pending(channels, payment_hash) {
        DrainStep::Drained
    } else if elapsed >= DRAIN_TIMEOUT_SECONDS {
        DrainStep::TimedOut
    } else {
        DrainStep::Wait
    }
}

/// The error of a barrier that timed out after a settle.
pub open spec fn spec_settle_timeout_error() -> HoldErrorView {
    HoldErrorView {
        kind: ErrorKind::DrainTimeout,
        message: "holdinvoicelookup: Timed out before settlement could be confirmed"@,
    }
}

/// The error of a barrier that timed out after a cancel.
pub open spec fn spec_cancel_timeout_error() -> HoldErrorView {
    HoldErrorView {
        kind: ErrorKind::DrainTimeout,
        message: "holdinvoicelookup: Timed out before cancellation of all related htlcs was finished"@,
    }
}

/// The error of a barrier that timed out, after a settle or after a cancel.
pub fn drain_timeout_error(state: Holdstate) -> (e: HoldError)
    ensures
        e@ == if state == Holdstate::Settled {
            spec_settle_timeout_error()
        } else {
            spec_cancel_timeout_error()
        },
{
    match state {
        Holdstate::Settled => HoldError {
            kind: ErrorKind::DrainTimeout,
            message: String::from_str(
                "holdinvoicelookup: Timed out before settlement could be confirmed",
            ),
        },
        _ => HoldError {
            kind: ErrorKind::DrainTimeout,
            message: String::from_str(
                "holdinvoicelookup: Timed out before cancellation of all related htlcs was finished",
            ),
        },
    }
}

/// What a settle is asked for: the payment hash, and the preimage where the
/// caller gave one.
#[derive(Clone, Debug)]
pub struct SettleRequest {
    pub payment_hash: String,
    pub preimage: Option<String>,
}

/// The error of a settle that names neither a payment hash nor a preimage.
pub open spec fn spec_settle_neither_error() -> HoldErrorView {
    spec_invalid_input_error(
        "neither payment_hash nor preimage were valid, make sure to use `-k` on the CLI"@,
    )
}

/// The error of a settle that names both.
pub open spec fn spec_settle_both_error() -> HoldErrorView {
    spec_invalid_input_error("only provide one of payment_hash or preimage"@)
}

/// What the arguments of a settle ask for: exactly one of a payment hash
/// and a preimage; from a preimage alone the payment hash is derived.
pub open spec fn spec_settle_request(
    args: ArgValue,
) -> Result<(Seq<char>, Option<Seq<char>>), HoldErrorView> {
    match (
        spec_parse_hash_param(args, "payment_hash"@),
        spec_parse_hash_param(args, "preimage"@),
    ) {
        (Err(_), Err(_)) => Err(spec_settle_neither_error()),
        (Ok(_), Ok(_)) => Err(spec_settle_both_error()),
        (Ok(hash), Err(_)) => Ok((hash, None)),
        (Err(_), Ok(preimage)) => match spec_payment_hash_of(preimage) {
            Some(hash) => Ok((hash, Some(preimage))),
            None => Err(spec_preimage_not_hex_error(preimage)),
        },
    }
}

/// Reads the arguments of a settle.
pub fn settle_request(args: &ArgValue) -> (request: Result<SettleRequest, HoldError>)
    ensures
        match request {
            Ok(r) => spec_settle_request(*args) == Ok::<
                (Seq<char>, Option<Seq<char>>),
                HoldErrorView,
            >((r.payment_hash@, spec_text(r.preimage))),
            Err(e) => spec_settle_request(*args) == Err::<
                (Seq<char>, Option<Seq<char>>),
                HoldErrorView,
            >(e@),
        },
{
    let payment_hash_str = parse_payment_hash(args);
    let preimage_str = parse_preimage(args);
    match (payment_hash_str, preimage_str) {
        (Err(_), Err(_)) => Err(
            invalid_input_error(
                "neither payment_hash nor preimage were valid, make sure to use `-k` on the CLI",
            ),
        ),
        (Ok(_), Ok(_)) => Err(invalid_input_error("only provide one of payment_hash or preimage")),
        (Ok(payment_hash), Err(_)) => Ok(SettleRequest { payment_hash, preimage: None }),
        (Err(_), Ok(preimage)) => match payment_hash_of(preimage.as_str()) {
            Ok(payment_hash) => Ok(SettleRequest { payment_hash, preimage: Some(preimage) }),
            Err(e) => Err(e),
        },
    }
}

/// The error of a settle for which no preimage is known.
pub open spec fn spec_missing_preimage_error() -> HoldErrorView {
    spec_invalid_input_error("Must provide missing preimage instead of payment_hash!"@)
}

/// The error of a preimage that does not hash to the payment hash.
pub open spec fn spec_mismatch_error(
    payment_hash: Seq<char>,
    preimage: Seq<char>,
) -> HoldErrorView {
    spec_input_error(
        "payment_hash: `"@ + payment_hash + "` does not match preimage: `"@ + preimage + "`"@,
    )
}

/// The record in another state.
pub open spec fn spec_record_in_state(
    record: HoldInvoiceRecord,
    state: Holdstate,
) -> HoldInvoiceRecord {
    HoldInvoiceRecord {
        bolt11: record.bolt11,
        payment_hash: record.payment_hash,
        payment_secret: record.payment_secret,
        expires_at: record.expires_at,
        preimage: record.preimage,
        description: record.description,
        description_hash: record.description_hash,
        state,
        htlc_expiry: record.htlc_expiry,
        paid_at: record.paid_at,
    }
}

/// The record as a settle at second `now` leaves it.
pub open spec fn spec_settled_record(
    record: HoldInvoiceRecord,
    preimage: Seq<char>,
    now: u64,
) -> HoldInvoiceRecord {
    HoldInvoiceRecord {
        bolt11: record.bolt11,
        payment_hash: record.payment_hash,
        payment_secret: record.payment_secret,
        expires_at: record.expires_at,
        preimage: Some(preimage),
        description: record.description,
        description_hash: record.description_hash,
        state: Holdstate::Settled,
        htlc_expiry: record.htlc_expiry,
        paid_at: Some(now),
    }
}

/// What a settle decides for the record found under the payment hash.
///
/// Without a record the payment hash is missing. A record that may not
/// become settled is in the wrong state. The preimage is the one given,
/// else the record's: without any the settle fails, and so it does where the
/// preimage does not hash to the record's payment hash. Otherwise the
/// record is written settled, with the preimage and the time of payment.
pub open spec fn spec_settle(
    stored: Option<StoredInvoice>,
    payment_hash: Seq<char>,
    supplied: Option<Seq<char>>,
    now: u64,
) -> Result<HoldInvoiceRecord, HoldErrorView> {
    match stored {
        None => Err(spec_payment_hash_missing_error(payment_hash)),
        Some(found) => {
            let record = found.record@;
            if !record.state.spec_is_valid_new_state(Holdstate::Settled) {
                Err(spec_wrong_hold_state_error(record.state))
            } else {
                let preimage = if supplied is Some {
                    supplied
                } else {
                    record.preimage
                };
                match preimage {
                    None => Err(spec_missing_preimage_error()),
                    Some(p) => if spec_preimage_matches(record.payment_hash, p) {
                        Ok(spec_settled_record(record, p, now))
                    } else {
                        Err(spec_mismatch_error(record.payment_hash, p))
                    },
                }
            }
        },
    }
}

/// Decides a settle: the record to write, without a generation check, or the error.
pub fn hold_invoice_settle(
    stored: Option<StoredInvoice>,
    request: &SettleRequest,
    now: u64,
) -> (written: Result<HoldInvoiceResponse, HoldError>)
    ensures
        match written {
            Ok(record) => spec_settle(stored, request.payment_hash@, spec_text(request.preimage), now)
                == Ok::<HoldInvoiceRecord, HoldErrorView>(record@),
            Err(e) => spec_settle(stored, request.payment_hash@, spec_text(request.preimage), now)
                == Err::<HoldInvoiceRecord, HoldErrorView>(e@),
        },
{
    match stored {
        None => Err(payment_hash_missing_error(request.payment_hash.as_str())),
        Some(found) => {
            let mut holdinvoice = found.record;
            if !holdinvoice.state.is_valid_new_state(&Holdstate::Settled) {
                return Err(wrong_hold_state_error(holdinvoice.state));
            }
            match &request.preimage {
                Some(pi) => {
                    holdinvoice.preimage = Some(pi.clone());
                },
                None => {},
            }
            let matching = match &holdinvoice.preimage {
                None => {
                    return Err(
                        invalid_input_error("Must provide missing preimage instead of payment_hash!"),
                    );
                },
                Some(p) => preimage_matches(holdinvoice.payment_hash.as_str(), p.as_str()),
            };
            if !matching {
                let mut message = String::from_str("payment_hash: `");
                message.append(holdinvoice.payment_hash.as_str());
                message.append("` does not match preimage: `");
                match &holdinvoice.preimage {
                    Some(p) => {
                        message.append(p.as_str());
                    },
                    None => {},
                }
                message.append("`");
                return Err(HoldError::input(message));
            }
            holdinvoice.paid_at = Some(now);
            holdinvoice.state = Holdstate::Settled;
            Ok(holdinvoice)
        },
    }
}

/// The payment hash given by position: a text of 64 bytes.
pub open spec fn spec_positional_hash(item: ArgValue) -> Result<Seq<char>, HoldErrorView> {
    match item {
        ArgValue::Text { text, .. } => if spec_byte_len(text@) != 64 {
            Err(spec_invalid_hash_error("payment_hash"@, text@))
        } else {
            Ok(text@)
        },
        other => Err(spec_invalid_hash_error("payment_hash"@, other.spec_json())),
    }
}

/// The payment hash that a cancel names: the one item of a list, or the
/// member `payment_hash` of an object.
pub open spec fn spec_cancel_request(args: ArgValue) -> Result<Seq<char>, HoldErrorView> {
    match args {
        ArgValue::Array { items, .. } => if items@.len() == 0 {
            Err(spec_missing_parameter_error("payment_hash"@))
        } else if items@.len() == 1 {
            spec_positional_hash(items@[0])
        } else {
            Err(spec_too_many_params_error(items@.len(), 1))
        },
        _ => spec_parse_hash_param(args, "payment_hash"@),
    }
}

fn positional_hash(item: &ArgValue) -> (parsed: Result<String, HoldError>)
    ensures
        spec_text_outcome(parsed) == spec_positional_hash(*item),
{
    match item {
        ArgValue::Text { text, .. } => {
            if text.as_str().len() != 64 {
                Err(invalid_hash_error("payment_hash", text.as_str()))
            } else {
                Ok(text.clone())
            }
        },
        other => {
            let shown = other.json();
            Err(invalid_hash_error("payment_hash", shown.as_str()))
        },
    }
}

/// Reads the arguments of a cancel.
pub fn cancel_request(args: &ArgValue) -> (parsed: Result<String, HoldError>)
    ensures
        spec_text_outcome(parsed) == spec_cancel_request(*args),
{
    match args {
        ArgValue::Array { items, .. } => {
            if items.len() == 0 {
                Err(missing_parameter_error("payment_hash"))
            } else if items.len() == 1 {
                positional_hash(&items[0])
            } else {
                Err(too_many_params_error(items.len(), 1))
            }
        },
        _ => parse_payment_hash(args),
    }
}

/// What a cancel decides for the record found under the payment hash:
/// without a record the payment hash is missing; a record that may not
/// become canceled is in the wrong state; otherwise it is written canceled.
pub open spec fn spec_cancel(
    stored: Option<StoredInvoice>,
    payment_hash: Seq<char>,
) -> Result<HoldInvoiceRecord, HoldErrorView> {
    match stored {
        None => Err(spec_payment_hash_missing_error(payment_hash)),
        Some(found) => if found.record.state.spec_is_valid_new_state(Holdstate::Canceled) {
            Ok(spec_record_in_state(found.record@, Holdstate::Canceled))
        } else {
            Err(spec_wrong_hold_state_error(found.record.state))
        },
    }
}

/// Decides a cancel: the record to write, without a generation check, or the error.
pub fn hold_invoice_cancel(stored: Option<StoredInvoice>, pay_hash: &str) -> (written: Result<HoldInvoiceResponse, HoldError>)
    ensures
        match written {
            Ok(record) => spec_cancel(stored, pay_hash@) == Ok::<HoldInvoiceRecord, HoldErrorView>(
                record@,
            ),
            Err(e) => spec_cancel(stored, pay_hash@) == Err::<HoldInvoiceRecord, HoldErrorView>(e@),
        },
{
    match stored {
        None => Err(payment_hash_missing_error(pay_hash)),
        Some(found) => {
            let mut holdinvoice = found.record;
            if holdinvoice.state.is_valid_new_state(&Holdstate::Canceled) {
                holdinvoice.state = Holdstate::Canceled;
                Ok(holdinvoice)
            } else {
                Err(wrong_hold_state_error(holdinvoice.state))
            }
        },
    }
}

/// The error of a settle whose invoice the registry does not hold.
pub open spec fn spec_dropped_error(payment_hash: Seq<char>) -> HoldErrorView {
    HoldErrorView {
        kind: ErrorKind::Fatal,
        message: "Invoice dropped from internal state unexpectedly: "@ + payment_hash,
    }
}

/// After the record was written settled or canceled: every HTLC held for
/// the invoice is woken. A settle of an invoice that the registry does not
/// hold is an error; a cancel of one is none.
pub fn wake_after_write(
    state: &mut PluginState,
    payment_hash: &str,
    new_state: Holdstate,
) -> (woken: Result<(), HoldError>)
    requires
        old(state).wf(),
    ensures
        final(state).wf(),
        final(state).blockheight == old(state).blockheight,
        final(state).startup_time == old(state).startup_time,
        final(state)@ == (if old(state)@.contains_key(payment_hash@) {
            old(state)@.insert(payment_hash@, spec_woken(old(state)@[payment_hash@]))
        } else {
            old(state)@
        }),
        woken is Err <==> !old(state)@.contains_key(payment_hash@) && new_state
            == Holdstate::Settled,
        woken matches Err(e) ==> e@ == spec_dropped_error(payment_hash@),
{
    let known = state.wake_all(payment_hash);
    if !known && matches!(new_state, Holdstate::Settled) {
        let mut message = String::from_str("Invoice dropped from internal state unexpectedly: ");
        message.append(payment_hash);
        Err(HoldError { kind: ErrorKind::Fatal, message })
    } else {
        Ok(())
    }
}

/// The payment hash that a lookup names, if it names one: the one item of a
/// list, or the member `payment_hash` of an object, which may hold no other
/// member. An empty list and an empty object name none.
pub open spec fn spec_lookup_request(args: ArgValue) -> Result<Option<Seq<char>>, HoldErrorView> {
    match args {
        ArgValue::Array { items, .. } => if items@.len() == 0 {
            Ok(None)
        } else if items@.len() == 1 {
            match spec_positional_hash(items@[0]) {
                Ok(hash) => Ok(Some(hash)),
                Err(e) => Err(e),
            }
        } else {
            Err(spec_too_many_params_error(items@.len(), 1))
        },
        ArgValue::Object { fields, .. } => if fields@.len() == 0 {
            Ok(None)
        } else {
            match spec_parse_hash_param(args, "payment_hash"@) {
                Ok(hash) => Ok(Some(hash)),
                Err(e) => Err(e),
            }
        },
        _ => Err(spec_invalid_input_error(args.spec_json())),
    }
}

/// Reads the arguments of a lookup.
pub fn lookup_request(args: &ArgValue) -> (parsed: Result<Option<String>, HoldError>)
    ensures
        match parsed {
            Ok(hash) => spec_lookup_request(*args) == Ok::<Option<Seq<char>>, HoldErrorView>(
                spec_text(hash),
            ),
            Err(e) => spec_lookup_request(*args) == Err::<Option<Seq<char>>, HoldErrorView>(e@),
        },
{
    match args {
        ArgValue::Array { items, .. } => {
            if items.len() == 0 {
                Ok(None)
            } else if items.len() == 1 {
                match positional_hash(&items[0]) {
                    Ok(hash) => Ok(Some(hash)),
                    Err(e) => Err(e),
                }
            } else {
                Err(too_many_params_error(items.len(), 1))
            }
        },
        ArgValue::Object { fields, .. } => {
            if fields.len() == 0 {
                Ok(None)
            } else {
                match parse_payment_hash(args) {
                    Ok(hash) => Ok(Some(hash)),
                    Err(e) => Err(e),
                }
            }
        },
        _ => {
            let shown = args.json();
            Err(invalid_input_error(shown.as_str()))
        },
    }
}

/// A record as a lookup reports it, and whether the lookup has it written canceled.
#[derive(Clone, Debug)]
pub struct LookupEntry {
    pub record: HoldInvoiceResponse,
    /// The record is to be written canceled, without a generation check.
    pub cancel: bool,
}

/// The record with the expiry height of its HTLCs.
pub open spec fn spec_record_with_expiry(
    record: HoldInvoiceRecord,
    htlc_expiry: Option<u32>,
) -> HoldInvoiceRecord {
    HoldInvoiceRecord {
        bolt11: record.bolt11,
        payment_hash: record.payment_hash,
        payment_secret: record.payment_secret,
        expires_at: record.expires_at,
        preimage: record.preimage,
        description: record.description,
        description_hash: record.description_hash,
        state: record.state,
        htlc_expiry,
        paid_at: record.paid_at,
    }
}

/// What a lookup reports of a record, `open_expired` saying whether the
/// invoice of an open record has expired: such a record is reported and
/// written canceled. An accepted record is reported with the smallest expiry
/// height among the HTLCs that the registry holds for it, and is an error
/// where the registry holds none. Any other record is reported as it is.
pub open spec fn spec_lookup_entry(
    registry: Map<Seq<char>, HoldInvoiceView>,
    record: HoldInvoiceRecord,
    open_expired: bool,
) -> Result<(HoldInvoiceRecord, bool), HoldErrorView> {
    match record.state {
        Holdstate::Open => if open_expired {
            Ok((spec_record_in_state(record, Holdstate::Canceled), true))
        } else {
            Ok((record, false))
        },
        Holdstate::Accepted => if registry.contains_key(record.payment_hash) {
            Ok(
                (
                    spec_record_with_expiry(
                        record,
                        spec_min_cltv(registry[record.payment_hash].htlc_data),
                    ),
                    false,
                ),
            )
        } else {
            Err(spec_payment_hash_missing_error(record.payment_hash))
        },
        _ => Ok((record, false)),
    }
}

/// Reports one record of a lookup, given whether an open invoice has expired.
pub fn lookup_entry(state: &PluginState, record: HoldInvoiceResponse, open_expired: bool) -> (entry: Result<LookupEntry, HoldError>)
    requires
        state.wf(),
    ensures
        match entry {
            Ok(found) => spec_lookup_entry(state@, record@, open_expired) == Ok::<
                (HoldInvoiceRecord, bool),
                HoldErrorView,
            >((found.record@, found.cancel)),
            Err(e) => spec_lookup_entry(state@, record@, open_expired) == Err::<
                (HoldInvoiceRecord, bool),
                HoldErrorView,
            >(e@),
        },
{
    let mut holdinvoice = record;
    match holdinvoice.state {
        Holdstate::Open => {
            if open_expired {
                holdinvoice.state = Holdstate::Canceled;
                Ok(LookupEntry { record: holdinvoice, cancel: true })
            } else {
                Ok(LookupEntry { record: holdinvoice, cancel: false })
            }
        },
        Holdstate::Accepted => match state.get(holdinvoice.payment_hash.as_str()) {
            Some(held) => {
                let next_expiry = held.min_cltv();
                holdinvoice.htlc_expiry = next_expiry;
                Ok(LookupEntry { record: holdinvoice, cancel: false })
            },
            None => Err(payment_hash_missing_error(holdinvoice.payment_hash.as_str())),
        },
        _ => Ok(LookupEntry { record: holdinvoice, cancel: false }),
    }
}

/// Whether the invoice of a record has expired at second `now`, for an open
/// record; `None` where the record's invoice text is no valid invoice.
pub open spec fn spec_open_expired(record: HoldInvoiceRecord, now: u64) -> Option<bool> {
    if record.state == Holdstate::Open {
        match spec_bolt11(record.bolt11) {
            Some((_, expires_at, _)) => Some(expires_at matches Some(at) && at < now),
            None => None,
        }
    } else {
        Some(false)
    }
}

/// Reports one record of a lookup at second `now`.
///
/// The invoice text of an open record is read: an invalid one is an error,
/// an expired one has the record reported and written canceled.
pub fn hold_invoice_lookup(state: &PluginState, record: HoldInvoiceResponse, now: u64) -> (entry: Result<LookupEntry, HoldError>)
    requires
        state.wf(),
    ensures
        match spec_open_expired(record@, now) {
            None => entry matches Err(e) && e@ == spec_invalid_bolt11_error(record.bolt11@),
            Some(open_expired) => match entry {
                Ok(found) => spec_lookup_entry(state@, record@, open_expired) == Ok::<
                    (HoldInvoiceRecord, bool),
                    HoldErrorView,
                >((found.record@, found.cancel)),
                Err(e) => spec_lookup_entry(state@, record@, open_expired) == Err::<
                    (HoldInvoiceRecord, bool),
                    HoldErrorView,
                >(e@),
            },
        },
{
    let open_expired = match record.state {
        Holdstate::Open => match parse_bolt11(record.bolt11.as_str()) {
            Ok(terms) => match terms.expires_at {
                Some(at) => at < now,
                None => false,
            },
            Err(e) => {
                return Err(e);
            },
        },
        _ => false,
    };
    lookup_entry(state, record, open_expired)
}

/// The names of the arguments of a new invoice, in the order in which a
/// list gives them.
pub open spec fn spec_invoice_keys() -> Seq<Seq<char>> {
    seq![
        "amount_msat"@,
        "description"@,
        "expiry"@,
        "payment_hash"@,
        "preimage"@,
        "cltv"@,
        "deschashonly"@,
        "exposeprivatechannels"@,
    ]
}

fn invoice_keys() -> (keys: Vec<&'static str>)
    ensures
        spec_names(keys@) == spec_invoice_keys(),
{
    let mut keys: Vec<&'static str> = Vec::new();
    keys.push("amount_msat");
    keys.push("description");
    keys.push("expiry");
    keys.push("payment_hash");
    keys.push("preimage");
    keys.push("cltv");
    keys.push("deschashonly");
    keys.push("exposeprivatechannels");
    assert(spec_names(keys@) =~= spec_invoice_keys());
    keys
}

/// Are these the items of a list under the names of the arguments, in order?
pub open spec fn spec_named(fields: Seq<ArgField>, items: Seq<ArgValue>) -> bool {
    &&& fields.len() == items.len()
    &&& forall|i: int|
        0 <= i < fields.len() ==> (#[trigger] fields[i]).key@ == spec_invoice_keys()[i]
            && fields[i].value == items[i]
}

/// Are these the arguments of a new invoice by name? A list of at most
/// eight items gives them in order; an object gives them by name and holds
/// no other name; anything else is invalid input.
pub open spec fn spec_normalized(args: ArgValue, outcome: Result<ArgValue, HoldErrorView>) -> bool {
    match args {
        ArgValue::Array { items, .. } => if items@.len() > 8 {
            outcome == Err::<ArgValue, HoldErrorView>(spec_too_many_params_error(items@.len(), 8))
        } else {
            outcome matches Ok(ArgValue::Object { fields, json }) && spec_named(fields@, items@)
                && json@ == args.spec_json()
        },
        ArgValue::Object { fields, .. } => match spec_first_unknown(fields@, spec_invoice_keys()) {
            Some(key) => outcome == Err::<ArgValue, HoldErrorView>(spec_invalid_argument_error(key)),
            None => outcome == Ok::<ArgValue, HoldErrorView>(args),
        },
        _ => outcome == Err::<ArgValue, HoldErrorView>(spec_invalid_input_error(args.spec_json())),
    }
}

/// Brings the arguments of a new invoice into the form of an object by name.
pub fn normalize_invoice_args(args: ArgValue) -> (normal: Result<ArgValue, HoldError>)
    ensures
        spec_normalized(args, spec_outcome(normal)),
{
    let valid_arg_keys = invoice_keys();
    match args {
        ArgValue::Array { items, json } => {
            if items.len() > valid_arg_keys.len() {
                return Err(too_many_params_error(items.len(), valid_arg_keys.len()));
            }
            let ghost all = items@;
            let n = items.len();
            let mut rest = items;
            let mut fields: Vec<ArgField> = Vec::new();
            let mut idx: usize = 0;
            while idx < n
                invariant
                    idx <= n <= 8,
                    n == all.len(),
                    valid_arg_keys@.len() == 8,
                    spec_names(valid_arg_keys@) == spec_invoice_keys(),
                    rest@ == all.skip(idx as int),
                    fields@.len() == idx,
                    forall|i: int|
                        0 <= i < idx ==> (#[trigger] fields@[i]).key@ == spec_invoice_keys()[i]
                            && fields@[i].value == all[i],
                decreases n - idx,
            {
                let value = rest.remove(0);
                assert(spec_names(valid_arg_keys@)[idx as int] == valid_arg_keys@[idx as int]@);
                fields.push(ArgField { key: String::from_str(valid_arg_keys[idx]), value });
                assert(rest@ =~= all.skip(idx as int + 1));
                idx = idx + 1;
            }
            Ok(ArgValue::Object { fields, json })
        },
        ArgValue::Object { fields, json } => match first_unknown(&fields, &valid_arg_keys) {
            Some(i) => Err(invalid_argument_error(fields[i].key.as_str())),
            None => Ok(ArgValue::Object { fields, json }),
        },
        other => {
            let shown = other.json();
            Err(invalid_input_error(shown.as_str()))
        },
    }
}

/// What the host decoded of the signed invoice.
#[derive(Clone, Debug)]
pub struct DecodedInvoice {
    pub valid: bool,
    /// Is the decoded text a BOLT-11 invoice?
    pub is_bolt11: bool,
    pub payment_hash: Option<Vec<u8>>,
    pub payment_secret: Option<Vec<u8>>,
    pub created_at: Option<u64>,
    pub expiry: Option<u64>,
    pub description: Option<String>,
    pub description_hash: Option<Vec<u8>>,
}

/// An error about what the host decoded.
pub open spec fn spec_decode_error(message: Seq<char>) -> HoldErrorView {
    HoldErrorView { kind: ErrorKind::Fatal, message }
}

/// The record of a new invoice: open, with the payment hash and the payment
/// secret of the decoded invoice in hexadecimal, expiring at the decoded
/// time of creation plus the decoded lifetime. It holds the description:
/// the one given, which is given where the invoice itself carries no more
/// than its hash, else the decoded one.
pub open spec fn spec_new_record(
    invoice: Seq<char>,
    preimage: Option<Seq<char>>,
    description: Option<Seq<char>>,
    decoded: DecodedInvoice,
) -> Result<HoldInvoiceRecord, HoldErrorView> {
    if !decoded.valid {
        Err(spec_decode_error("invalid invoice"@))
    } else if !decoded.is_bolt11 {
        Err(spec_decode_error("not a bolt11 invoice"@))
    } else {
        match (decoded.payment_hash, decoded.payment_secret, decoded.created_at, decoded.expiry) {
            (None, _, _, _) => Err(spec_decode_error("payment_hash not found in decoded invoice"@)),
            (Some(_), None, _, _) => Err(
                spec_decode_error("payment_secret not found in decoded invoice"@),
            ),
            (Some(_), Some(_), None, _) => Err(
                spec_decode_error("created_at not found in decoded invoice"@),
            ),
            (Some(_), Some(_), Some(_), None) => Err(
                spec_decode_error("expiry not found in decoded invoice"@),
            ),
            (Some(hash), Some(secret), Some(created_at), Some(expiry)) => if created_at + expiry
                > u64::MAX {
                Err(spec_decode_error("expiry out of range in decoded invoice"@))
            } else if description is None && decoded.description is None {
                Err(spec_decode_error("description not found in decoded invoice"@))
            } else {
                Ok(
                    HoldInvoiceRecord {
                        bolt11: invoice,
                        payment_hash: spec_hex_encode(hash@),
                        payment_secret: spec_hex_encode(secret@),
                        expires_at: (created_at + expiry) as u64,
                        preimage,
                        description: if description is Some {
                            description
                        } else {
                            spec_text(decoded.description)
                        },
                        description_hash: None,
                        state: Holdstate::Open,
                        htlc_expiry: None,
                        paid_at: None,
                    },
                )
            },
        }
    }
}

fn decode_error(message: &str) -> (e: HoldError)
    ensures
        e@ == spec_decode_error(message@),
{
    HoldError { kind: ErrorKind::Fatal, message: String::from_str(message) }
}

/// Assembles the record of a new invoice from the signed invoice text, the
/// preimage if there is one, the description where the invoice carries its
/// hash only, and what the host decoded of the invoice. The record is to be
/// created in the datastore under its payment hash.
pub fn hold_invoice(
    invoice: String,
    preimage: Option<String>,
    description: Option<String>,
    decoded: &DecodedInvoice,
) -> (record: Result<HoldInvoiceResponse, HoldError>)
    ensures
        match record {
            Ok(r) => spec_new_record(invoice@, spec_text(preimage), spec_text(description), *decoded)
                == Ok::<HoldInvoiceRecord, HoldErrorView>(r@),
            Err(e) => spec_new_record(
                invoice@,
                spec_text(preimage),
                spec_text(description),
                *decoded,
            ) == Err::<HoldInvoiceRecord, HoldErrorView>(e@),
        },
{
    if !decoded.valid {
        return Err(decode_error("invalid invoice"));
    }
    if !decoded.is_bolt11 {
        return Err(decode_error("not a bolt11 invoice"));
    }
    let payment_hash = match &decoded.payment_hash {
        Some(hash) => encode_hex(hash),
        None => {
            return Err(decode_error("payment_hash not found in decoded invoice"));
        },
    };
    let payment_secret = match &decoded.payment_secret {
        Some(ps) => encode_hex(ps),
        None => {
            return Err(decode_error("payment_secret not found in decoded invoice"));
        },
    };
    let created_at = match decoded.created_at {
        Some(at) => at,
        None => {
            return Err(decode_error("created_at not found in decoded invoice"));
        },
    };
    let expiry = match decoded.expiry {
        Some(secs) => secs,
        None => {
            return Err(decode_error("expiry not found in decoded invoice"));
        },
    };
    if expiry > u64::MAX - created_at {
        return Err(decode_error("expiry out of range in decoded invoice"));
    }
    let description = match description {
        Some(text) => Some(text),
        None => match &decoded.description {
            Some(text) => Some(text.clone()),
            None => {
                return Err(decode_error("description not found in decoded invoice"));
            },
        },
    };
    Ok(
        HoldInvoiceResponse {
            bolt11: invoice,
            payment_hash,
            payment_secret,
            expires_at: created_at + expiry,
            preimage,
            description,
            description_hash: None,
            state: Holdstate::Open,
            htlc_expiry: None,
            paid_at: None,
        },
    )
}

/// What the command answers with after the record was created. The
/// preimage is shown only where the caller supplied it. An invoice that
/// carries the hash of its description only is shown with that hash, as
/// decoded, in place of the description.
pub open spec fn spec_answer(
    record: HoldInvoiceRecord,
    preimage_supplied: bool,
    deschashonly: bool,
    decoded: DecodedInvoice,
) -> Result<HoldInvoiceRecord, HoldErrorView> {
    let preimage = if preimage_supplied {
        record.preimage
    } else {
        None
    };
    if deschashonly {
        match decoded.description_hash {
            Some(hash) => Ok(
                HoldInvoiceRecord {
                    bolt11: record.bolt11,
                    payment_hash: record.payment_hash,
                    payment_secret: record.payment_secret,
                    expires_at: record.expires_at,
                    preimage,
                    description: None,
                    description_hash: Some(spec_hex_encode(hash@)),
                    state: record.state,
                    htlc_expiry: record.htlc_expiry,
                    paid_at: record.paid_at,
                },
            ),
            None => Err(spec_decode_error("description_hash not found in decoded invoice"@)),
        }
    } else {
        Ok(
            HoldInvoiceRecord {
                bolt11: record.bolt11,
                payment_hash: record.payment_hash,
                payment_secret: record.payment_secret,
                expires_at: record.expires_at,
                preimage,
                description: record.description,
                description_hash: record.description_hash,
                state: record.state,
                htlc_expiry: record.htlc_expiry,
                paid_at: record.paid_at,
            },
        )
    }
}

/// The answer of the command that created the record.
pub fn hold_invoice_answer(
    record: HoldInvoiceResponse,
    preimage_supplied: bool,
    deschashonly: bool,
    decoded: &DecodedInvoice,
) -> (answer: Result<HoldInvoiceResponse, HoldError>)
    ensures
        match answer {
            Ok(r) => spec_answer(record@, preimage_supplied, deschashonly, *decoded) == Ok::<
                HoldInvoiceRecord,
                HoldErrorView,
            >(r@),
            Err(e) => spec_answer(record@, preimage_supplied, deschashonly, *decoded) == Err::<
                HoldInvoiceRecord,
                HoldErrorView,
            >(e@),
        },
{
    let mut response = record;
    if !preimage_supplied {
        response.preimage = None;
    }
    if deschashonly {
        match &decoded.description_hash {
            Some(hash) => {
                response.description = None;
                response.description_hash = Some(encode_hex(hash));
                Ok(response)
            },
            None => Err(decode_error("description_hash not found in decoded invoice")),
        }
    } else {
        Ok(response)
    }
}

} // verus!
