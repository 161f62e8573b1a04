//! Reading a BOLT-11 invoice: the terms that the engine decides on.

use vstd::prelude::*;
use vstd::string::StringExecFns;

use crate::errors::{
    internal_error, spec_input_error, spec_internal_error, HoldError, HoldErrorView,
};
use crate::model::InvoiceTerms;

verus! {

/// What is read of a BOLT-11 invoice text.
#[derive(Clone, Debug)]
pub struct Bolt11Terms {
    /// The amount, where the invoice names one.
    pub amount_msat: Option<u64>,
    /// Second since the epoch at which the invoice expires; `None` where the
    /// sum of its timestamp and its lifetime is out of range.
    pub expires_at: Option<u64>,
    /// The payment hash in lower-case hexadecimal.
    pub payment_hash: String,
}

/// What a text holds as a BOLT-11 invoice: its amount, the second of its
/// expiry and its payment hash; `None` where the text is no valid invoice.
pub uninterp spec fn spec_bolt11(text: Seq<char>) -> Option<(Option<u64>, Option<u64>, Seq<char>)>;

/// `lightning_invoice::Bolt11Invoice::from_str`, with the invoice's
/// `amount_milli_satoshis`, `expires_at` in whole seconds and `payment_hash`
/// as text: all of them depend on the invoice text alone.
#[verifier::external_body]
fn decode_bolt11(text: &str) -> (terms: Option<Bolt11Terms>)
    ensures
        terms is Some <==> spec_bolt11(text@) is Some,
        terms matches Some(t) ==> spec_bolt11(text@) == Some(
            (t.amount_msat, t.expires_at, t.payment_hash@),
        ),
{
    match <lightning_invoice::Bolt11Invoice as core::str::FromStr>::from_str(text) {
        Ok(invoice) => Some(
            Bolt11Terms {
                amount_msat: invoice.amount_milli_satoshis(),
                expires_at: invoice.expires_at().map(|at| at.as_secs()),
                payment_hash: invoice.payment_hash().to_string(),
            },
        ),
        Err(_) => None,
    }
}

/// The error of a text that is no valid BOLT-11 invoice.
pub open spec fn spec_invalid_bolt11_error(text: Seq<char>) -> HoldErrorView {
    spec_input_error("invalid bolt11 invoice: `"@ + text + "`"@)
}

/// The error of an invoice that names no amount.
pub open spec fn spec_no_amount_error() -> HoldErrorView {
    spec_internal_error("invoice without amount"@)
}

/// Reads a BOLT-11 invoice; an error where the text is no valid invoice.
pub fn parse_bolt11(text: &str) -> (parsed: Result<Bolt11Terms, HoldError>)
    ensures
        parsed is Ok <==> spec_bolt11(text@) is Some,
        parsed matches Ok(t) ==> spec_bolt11(text@) == Some(
            (t.amount_msat, t.expires_at, t.payment_hash@),
        ),
        parsed matches Err(e) ==> e@ == spec_invalid_bolt11_error(text@),
{
    match decode_bolt11(text) {
        Some(terms) => Ok(terms),
        None => {
            let mut message = String::from_str("invalid bolt11 invoice: `");
            message.append(text);
            message.append("`");
            Err(HoldError::input(message))
        },
    }
}

/// The terms that HTLCs are held against: a hold invoice always names its amount.
pub open spec fn spec_hold_terms(
    amount_msat: Option<u64>,
    expires_at: Option<u64>,
) -> Option<InvoiceTerms> {
    match amount_msat {
        Some(amount) => Some(InvoiceTerms { amount_msat: amount, expires_at }),
        None => None,
    }
}

/// The terms that HTLCs are held against, from a parsed invoice; an error
/// where the invoice names no amount.
pub fn hold_terms(terms: &Bolt11Terms) -> (held: Result<InvoiceTerms, HoldError>)
    ensures
        held is Ok <==> terms.amount_msat is Some,
        held matches Ok(t) ==> Some(t) == spec_hold_terms(terms.amount_msat, terms.expires_at),
        held matches Err(e) ==> e@ == spec_no_amount_error(),
{
    match terms.amount_msat {
        Some(amount) => Ok(InvoiceTerms { amount_msat: amount, expires_at: terms.expires_at }),
        None => Err(internal_error("invoice without amount")),
    }
}

} // verus!
