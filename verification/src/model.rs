//! The data model: invoice states, HTLC entries and the persisted record.

use vstd::prelude::*;
use vstd::string::StringExecFns;

use crate::errors::{ErrorKind, HoldError};
use crate::text::{eq_ignore_ascii_case, spec_eq_ignore_ascii_case};

verus! {

/// Name under which every record of this plugin is kept in the host datastore.
pub const HOLD_INVOICE_PLUGIN_NAME: &'static str = "holdinvoice_v2";

/// Last part of the key under which the state alone is kept.
pub const HOLD_INVOICE_DATASTORE_STATE: &'static str = "state";

/// Seconds after process start during which an expired invoice is not yet cancelled.
pub const HOLD_STARTUP_LOCK: u64 = 10;

/// Final CLTV delta of an invoice when the caller names none.
pub const DEFAULT_CLTV_DELTA: u64 = 144;

/// Lifetime of an invoice in seconds when the caller names none.
pub const DEFAULT_EXPIRY: u64 = 604_800;

/// State of a hold invoice. `Settled` and `Canceled` are terminal.
#[derive(Clone, Copy, Debug, PartialEq, Eq, Structural)]
pub enum Holdstate {
    Open,
    Settled,
    Canceled,
    Accepted,
}

impl Holdstate {
    /// The transition table: may an invoice in state `self` move to `newstate`?
    pub open spec fn spec_is_valid_new_state(self, newstate: Holdstate) -> bool {
        match self {
            Holdstate::Open => newstate == Holdstate::Accepted || newstate == Holdstate::Canceled,
            Holdstate::Accepted => newstate != Holdstate::Accepted,
            Holdstate::Settled => false,
            Holdstate::Canceled => false,
        }
    }

    /// A terminal state is never left.
    pub open spec fn is_terminal(self) -> bool {
        self == Holdstate::Settled || self == Holdstate::Canceled
    }

    /// Numeric code of the state on the operator interface.
    pub open spec fn spec_as_i32(self) -> i32 {
        match self {
            Holdstate::Open => 0i32,
            Holdstate::Settled => 1i32,
            Holdstate::Canceled => 2i32,
            Holdstate::Accepted => 3i32,
        }
    }

    /// Numeric code of the state on the operator interface.
    pub fn as_i32(&self) -> (code: i32)
        ensures
            code == self.spec_as_i32(),
    {
        match self {
            Holdstate::Open => 0,
            Holdstate::Settled => 1,
            Holdstate::Canceled => 2,
            Holdstate::Accepted => 3,
        }
    }

    /// The upper-case name of the state, as it is persisted and printed.
    pub open spec fn spec_label(self) -> Seq<char> {
        match self {
            Holdstate::Open => "OPEN"@,
            Holdstate::Settled => "SETTLED"@,
            Holdstate::Canceled => "CANCELED"@,
            Holdstate::Accepted => "ACCEPTED"@,
        }
    }

    /// The state that a name denotes, whatever the case of its letters.
    pub open spec fn spec_from_label(text: Seq<char>) -> Option<Holdstate> {
        if spec_eq_ignore_ascii_case(text, "open"@) {
            Some(Holdstate::Open)
        } else if spec_eq_ignore_ascii_case(text, "settled"@) {
            Some(Holdstate::Settled)
        } else if spec_eq_ignore_ascii_case(text, "canceled"@) {
            Some(Holdstate::Canceled)
        } else if spec_eq_ignore_ascii_case(text, "accepted"@) {
            Some(Holdstate::Accepted)
        } else {
            None
        }
    }

    /// The name of the state in upper case.
    pub fn to_string(&self) -> (label: String)
        ensures
            label@ == self.spec_label(),
    {
        match self {
            Holdstate::Open => String::from_str("OPEN"),
            Holdstate::Settled => String::from_str("SETTLED"),
            Holdstate::Canceled => String::from_str("CANCELED"),
            Holdstate::Accepted => String::from_str("ACCEPTED"),
        }
    }

    /// Reads a state from its name, in any case; any other text is an error
    /// that quotes it.
    pub fn from_str(s: &str) -> (parsed: Result<Holdstate, HoldError>)
        ensures
            parsed is Ok <==> Holdstate::spec_from_label(s@) is Some,
            parsed matches Ok(state) ==> Some(state) == Holdstate::spec_from_label(s@),
            parsed matches Err(e) ==> e.kind == ErrorKind::InputError && e.message@
                == "could not parse Holdstate from "@ + s@,
    {
        if eq_ignore_ascii_case(s, "open") {
            Ok(Holdstate::Open)
        } else if eq_ignore_ascii_case(s, "settled") {
            Ok(Holdstate::Settled)
        } else if eq_ignore_ascii_case(s, "canceled") {
            Ok(Holdstate::Canceled)
        } else if eq_ignore_ascii_case(s, "accepted") {
            Ok(Holdstate::Accepted)
        } else {
            let mut message = String::from_str("could not parse Holdstate from ");
            message.append(s);
            Err(HoldError { kind: ErrorKind::InputError, message })
        }
    }

    /// May an invoice in this state move to `newstate`?
    pub fn is_valid_new_state(&self, newstate: &Holdstate) -> (valid: bool)
        ensures
            valid == self.spec_is_valid_new_state(*newstate),
    {
        match self {
            Holdstate::Open => !matches!(newstate, Holdstate::Open | Holdstate::Settled),
            Holdstate::Settled => false,
            Holdstate::Canceled => false,
            Holdstate::Accepted => !matches!(newstate, Holdstate::Accepted),
        }
    }
}

/// Identity of an HTLC on the node: the channel and the HTLC's number in it.
#[derive(Clone, Copy, Debug, PartialEq, Eq, Hash, Structural)]
pub struct HtlcIdentifier {
    /// The short channel id as one number: block, transaction and output packed.
    pub scid: u64,
    pub htlc_id: u64,
}

/// An HTLC that is being held.
#[derive(Clone, Copy, Debug, PartialEq, Eq, Structural)]
pub struct HoldHtlc {
    pub amount_msat: u64,
    /// Absolute block height at which the HTLC expires on chain.
    pub cltv_expiry: u32,
    /// The wake signal: `true` asks the HTLC's hold loop to look at it again.
    pub wake: bool,
}

/// One held HTLC under its identity.
#[derive(Clone, Copy, Debug, PartialEq, Eq, Structural)]
pub struct HtlcEntry {
    pub id: HtlcIdentifier,
    pub htlc: HoldHtlc,
}

/// What the engine reads of a parsed BOLT-11 invoice.
#[derive(Clone, Copy, Debug)]
pub struct InvoiceTerms {
    /// The amount asked for.
    pub amount_msat: u64,
    /// Second since the epoch at which the invoice expires; `None` where it never does.
    pub expires_at: Option<u64>,
}

impl InvoiceTerms {
    /// Has the invoice expired at second `now`?
    pub open spec fn spec_is_expired(self, now: u64) -> bool {
        self.expires_at matches Some(at) && at < now
    }

    /// Has the invoice expired at second `now`?
    pub fn is_expired(&self, now: u64) -> (expired: bool)
        ensures
            expired == self.spec_is_expired(now),
    {
        match self.expires_at {
            Some(at) => at < now,
            None => false,
        }
    }
}

/// The in-memory mirror of a hold invoice: its persisted state and generation
/// as last read, the invoice's terms, the preimage if known, and the HTLCs
/// held for it.
#[derive(Clone, Debug)]
pub struct HoldInvoice {
    pub hold_state: Holdstate,
    pub generation: u64,
    pub htlc_data: Vec<HtlcEntry>,
    pub invoice: InvoiceTerms,
    pub preimage: Option<String>,
}

/// The mathematical value of a [`HoldInvoice`].
pub struct HoldInvoiceView {
    pub hold_state: Holdstate,
    pub generation: u64,
    pub htlc_data: Seq<HtlcEntry>,
    pub invoice: InvoiceTerms,
    pub preimage: Option<Seq<char>>,
}

/// The view of an optional text.
pub open spec fn spec_text(text: Option<String>) -> Option<Seq<char>> {
    match text {
        Some(t) => Some(t@),
        None => None,
    }
}

/// A copy of an optional text.
pub fn clone_text(text: &Option<String>) -> (copy: Option<String>)
    ensures
        spec_text(copy) == spec_text(*text),
{
    match text {
        Some(t) => Some(t.clone()),
        None => None,
    }
}

impl View for HoldInvoice {
    type V = HoldInvoiceView;

    open spec fn view(&self) -> HoldInvoiceView {
        HoldInvoiceView {
            hold_state: self.hold_state,
            generation: self.generation,
            htlc_data: self.htlc_data@,
            invoice: self.invoice,
            preimage: spec_text(self.preimage),
        }
    }
}

/// The persisted record of a hold invoice, which is also what the commands answer with.
#[derive(Clone, Debug)]
pub struct HoldInvoiceResponse {
    pub bolt11: String,
    pub payment_hash: String,
    pub payment_secret: String,
    pub expires_at: u64,
    pub preimage: Option<String>,
    pub description: Option<String>,
    pub description_hash: Option<String>,
    pub state: Holdstate,
    /// Smallest expiry height among the HTLCs held; set while the state is `Accepted`.
    pub htlc_expiry: Option<u32>,
    /// Second at which the invoice was settled.
    pub paid_at: Option<u64>,
}

/// The mathematical value of a [`HoldInvoiceResponse`].
pub struct HoldInvoiceRecord {
    pub bolt11: Seq<char>,
    pub payment_hash: Seq<char>,
    pub payment_secret: Seq<char>,
    pub expires_at: u64,
    pub preimage: Option<Seq<char>>,
    pub description: Option<Seq<char>>,
    pub description_hash: Option<Seq<char>>,
    pub state: Holdstate,
    pub htlc_expiry: Option<u32>,
    pub paid_at: Option<u64>,
}

impl View for HoldInvoiceResponse {
    type V = HoldInvoiceRecord;

    open spec fn view(&self) -> HoldInvoiceRecord {
        HoldInvoiceRecord {
            bolt11: self.bolt11@,
            payment_hash: self.payment_hash@,
            payment_secret: self.payment_secret@,
            expires_at: self.expires_at,
            preimage: spec_text(self.preimage),
            description: spec_text(self.description),
            description_hash: spec_text(self.description_hash),
            state: self.state,
            htlc_expiry: self.htlc_expiry,
            paid_at: self.paid_at,
        }
    }
}

/// Answer of a lookup: the records found.
#[derive(Clone, Debug)]
pub struct HoldLookupResponse {
    pub holdinvoices: Vec<HoldInvoiceResponse>,
}

/// Answer of a settle or a cancel: the state that the invoice now has.
#[derive(Clone, Copy, Debug)]
pub struct HoldStateResponse {
    pub state: Holdstate,
}

/// A request for a new hold invoice, as the operator interface hands it on.
#[derive(Clone, Debug)]
pub struct HoldInvoiceRequest {
    pub amount_msat: u64,
    pub description: String,
    pub expiry: Option<u64>,
    /// Short channel ids, each as one number.
    pub exposeprivatechannels: Option<Vec<u64>>,
    pub preimage: Option<String>,
    pub payment_hash: Option<String>,
    pub cltv: Option<u32>,
    pub deschashonly: Option<bool>,
}

/// Is the list absent or empty?
pub fn is_none_or_empty<T>(f: &Option<Vec<T>>) -> (empty: bool)
    ensures
        empty == (f matches Some(v) ==> v@.len() == 0),
{
    match f {
        Some(value) => value.len() == 0,
        None => true,
    }
}

} // verus!
