//! Reading the arguments of the commands: the payment hash and the preimage
//! of a settle or a cancel, and the plan of a new invoice.

use vstd::prelude::*;
use vstd::string::StringExecFns;

use crate::args::{
    first_unknown, get_field, spec_byte_len, spec_first_unknown, spec_get, spec_names, text_eq,
    ArgValue,
};
use crate::codec::{
    decode_hex, encode_hex, payment_hash_of, payment_hash_of_bytes, spec_hex_decode,
    spec_hex_encode, spec_payment_hash_of, spec_sha256,
};
use crate::errors::{
    internal_error, invalid_amount_error, invalid_argument_error, invalid_hash_error,
    invalid_input_error, invalid_integer_error, invalid_scid_error, missing_parameter_error,
    spec_input_error, spec_internal_error, spec_invalid_amount_error,
    spec_invalid_argument_error, spec_invalid_hash_error, spec_invalid_input_error,
    spec_invalid_integer_error, spec_invalid_scid_error, spec_missing_parameter_error,
    spec_outcome, spec_text_outcome, HoldError, HoldErrorView,
};
use crate::hold::{spec_is_live, ChannelState, PeerChannel};
use crate::hooks::HoldConfig;
use crate::model::{clone_text, spec_text, DEFAULT_CLTV_DELTA, DEFAULT_EXPIRY};
use crate::text::{
    decimal, eq_ignore_ascii_case, parse_u64, spec_decimal, spec_eq_ignore_ascii_case,
    spec_parse_u64,
};

verus! {

/// The hash-like argument `name` of a command whose only argument it is: a
/// text of 64 bytes under that key, in an object with no other key.
pub open spec fn spec_parse_hash_param(
    args: ArgValue,
    name: Seq<char>,
) -> Result<Seq<char>, HoldErrorView> {
    match args {
        ArgValue::Object { fields, .. } => match spec_first_unknown(fields@, seq![name]) {
            Some(key) => Err(spec_invalid_argument_error(key)),
            None => match spec_get(fields@, name) {
                Some(ArgValue::Text { text, .. }) => if spec_byte_len(text@) != 64 {
                    Err(spec_invalid_hash_error(name, text@))
                } else {
                    Ok(text@)
                },
                Some(other) => Err(spec_invalid_hash_error(name, other.spec_json())),
                None => Err(spec_missing_parameter_error(name)),
            },
        },
        _ => Err(spec_invalid_input_error(args.spec_json())),
    }
}

fn parse_hash_param(args: &ArgValue, name: &'static str) -> (parsed: Result<String, HoldError>)
    ensures
        spec_text_outcome(parsed) == spec_parse_hash_param(*args, name@),
{
    match args {
        ArgValue::Object { fields, .. } => {
            let mut valid_arg_keys: Vec<&'static str> = Vec::new();
            valid_arg_keys.push(name);
            assert(spec_names(valid_arg_keys@) =~= seq![name@]);
            match first_unknown(fields, &valid_arg_keys) {
                Some(i) => Err(invalid_argument_error(fields[i].key.as_str())),
                None => match get_field(fields, name) {
                    Some(ArgValue::Text { text, .. }) => {
                        if text.as_str().len() != 64 {
                            Err(invalid_hash_error(name, text.as_str()))
                        } else {
                            Ok(text.clone())
                        }
                    },
                    Some(other) => {
                        let shown = other.json();
                        Err(invalid_hash_error(name, shown.as_str()))
                    },
                    None => Err(missing_parameter_error(name)),
                },
            }
        },
        _ => {
            let shown = args.json();
            Err(invalid_input_error(shown.as_str()))
        },
    }
}

/// Reads the payment hash of a command that takes nothing else.
///
/// The arguments are an object with the one key `payment_hash`, whose value
/// is a text of 64 bytes. Any other key is an invalid argument, the first
/// one in the object's order being named; a value that is no text of that
/// length is an invalid hash; an object without the key lacks the
/// parameter; anything but an object is invalid input.
pub fn parse_payment_hash(args: &ArgValue) -> (parsed: Result<String, HoldError>)
    ensures
        spec_text_outcome(parsed) == spec_parse_hash_param(*args, "payment_hash"@),
{
    parse_hash_param(args, "payment_hash")
}

/// Reads the preimage of a command that takes nothing else; as
/// [`parse_payment_hash`], under the key `preimage`.
pub fn parse_preimage(args: &ArgValue) -> (parsed: Result<String, HoldError>)
    ensures
        spec_text_outcome(parsed) == spec_parse_hash_param(*args, "preimage"@),
{
    parse_hash_param(args, "preimage")
}

/// What a text holds as a short channel id: block, transaction and output
/// packed into one number; `None` where the text is no short channel id.
pub uninterp spec fn spec_scid(text: Seq<char>) -> Option<u64>;

/// `cln_rpc::primitives::ShortChannelId::from_str`, with the id as one
/// number (`to_u64`): it depends on the text alone.
#[verifier::external_body]
fn scid_from_str(text: &str) -> (scid: Option<u64>)
    ensures
        scid == spec_scid(text@),
{
    match <cln_rpc::primitives::ShortChannelId as core::str::FromStr>::from_str(text) {
        Ok(id) => Some(id.to_u64()),
        Err(_) => None,
    }
}

/// Reads a short channel id, such as `700000x1x0`.
pub fn parse_scid(text: &str) -> (parsed: Result<u64, HoldError>)
    ensures
        spec_outcome(parsed) == (match spec_scid(text@) {
            Some(scid) => Ok(scid),
            None => Err(spec_invalid_scid_error(text@)),
        }),
{
    match scid_from_str(text) {
        Some(scid) => Ok(scid),
        None => Err(invalid_scid_error(text)),
    }
}

/// What the validated arguments of a new invoice ask for.
#[derive(Clone, Debug)]
pub struct InvoicePlan {
    pub amount_msat: u64,
    pub description: String,
    /// Lifetime of the invoice in seconds.
    pub expiry: u64,
    pub preimage: Option<String>,
    pub payment_hash: Option<String>,
    /// Final CLTV delta of the invoice.
    pub cltv: u64,
    pub deschashonly: bool,
    /// The private channels to expose, each as one number.
    pub exposeprivatechannels: Option<Vec<u64>>,
}

/// The mathematical value of an [`InvoicePlan`].
pub struct InvoicePlanView {
    pub amount_msat: u64,
    pub description: Seq<char>,
    pub expiry: u64,
    pub preimage: Option<Seq<char>>,
    pub payment_hash: Option<Seq<char>>,
    pub cltv: u64,
    pub deschashonly: bool,
    pub exposeprivatechannels: Option<Seq<u64>>,
}

impl View for InvoicePlan {
    type V = InvoicePlanView;

    open spec fn view(&self) -> InvoicePlanView {
        InvoicePlanView {
            amount_msat: self.amount_msat,
            description: self.description@,
            expiry: self.expiry,
            preimage: spec_text(self.preimage),
            payment_hash: spec_text(self.payment_hash),
            cltv: self.cltv,
            deschashonly: self.deschashonly,
            exposeprivatechannels: match self.exposeprivatechannels {
                Some(ids) => Some(ids@),
                None => None,
            },
        }
    }
}

/// The amount: a positive whole number under `amount_msat`.
pub open spec fn spec_amount_arg(args: ArgValue) -> Result<u64, HoldErrorView> {
    match args.spec_member("amount_msat"@) {
        Some(ArgValue::Number { unsigned: Some(amount), .. }) => if amount == 0 {
            Err(spec_invalid_amount_error())
        } else {
            Ok(amount)
        },
        Some(other) => Err(spec_invalid_integer_error("amount_msat|msatoshi"@, other.spec_json())),
        None => Err(spec_missing_parameter_error("amount_msat|msatoshi"@)),
    }
}

/// The description: a text, or a number taken as its text.
pub open spec fn spec_description_arg(args: ArgValue) -> Result<Seq<char>, HoldErrorView> {
    match args.spec_member("description"@) {
        Some(ArgValue::Number { json, .. }) => Ok(json@),
        Some(ArgValue::Text { text, .. }) => Ok(text@),
        Some(other) => Err(spec_invalid_input_error(other.spec_json())),
        None => Err(spec_missing_parameter_error("description"@)),
    }
}

/// The error of a value that must exceed a cushion of the policy.
pub open spec fn spec_too_small_error(
    name: Seq<char>,
    cushion: u64,
    requested: u64,
) -> HoldErrorView {
    spec_input_error(
        name + ": needs to be greater than `"@ + spec_decimal(cushion as nat) + "` requested: `"@
            + spec_decimal(requested as nat) + "`"@,
    )
}

/// The lifetime: a whole number, as a number or as text; the default where
/// it is absent or null. With the invoice-time policy on it must exceed the
/// policy's cushion.
pub open spec fn spec_expiry_arg(args: ArgValue, cfg: HoldConfig) -> Result<u64, HoldErrorView> {
    let value: Result<u64, HoldErrorView> = match args.spec_member("expiry"@) {
        Some(ArgValue::Number { unsigned: Some(v), .. }) => Ok(v),
        Some(ArgValue::Number { unsigned: None, json }) => Err(
            spec_invalid_integer_error("expiry"@, json@),
        ),
        Some(ArgValue::Text { text, .. }) => match spec_parse_u64(text@) {
            Some(v) => Ok(v),
            None => Err(spec_invalid_integer_error("expiry"@, text@)),
        },
        Some(ArgValue::Null) => Ok(DEFAULT_EXPIRY),
        Some(other) => Err(spec_invalid_input_error(other.spec_json())),
        None => Ok(DEFAULT_EXPIRY),
    };
    match (value, cfg.cancel_before_invoice_seconds) {
        (Ok(v), Some(cushion)) => if v <= cushion {
            Err(spec_too_small_error("expiry"@, cushion, v))
        } else {
            Ok(v)
        },
        _ => value,
    }
}

/// The final CLTV delta: a whole number, as a number or as text; the
/// default where it is absent or null. It must exceed the cushion in blocks.
pub open spec fn spec_cltv_arg(args: ArgValue, cfg: HoldConfig) -> Result<u64, HoldErrorView> {
    let value: Result<u64, HoldErrorView> = match args.spec_member("cltv"@) {
        Some(ArgValue::Number { unsigned: Some(v), .. }) => Ok(v),
        Some(ArgValue::Text { text, .. }) => match spec_parse_u64(text@) {
            Some(v) => Ok(v),
            None => Err(spec_invalid_integer_error("cltv"@, text@)),
        },
        Some(ArgValue::Null) => Ok(DEFAULT_CLTV_DELTA),
        Some(other) => Err(spec_invalid_integer_error("cltv"@, other.spec_json())),
        None => Ok(DEFAULT_CLTV_DELTA),
    };
    match value {
        Ok(v) => if v <= cfg.cancel_before_htlc_blocks {
            Err(spec_too_small_error("cltv"@, cfg.cancel_before_htlc_blocks as u64, v))
        } else {
            Ok(v)
        },
        _ => value,
    }
}

/// An optional hash-like argument: a text of 64 bytes; absent or null is none.
pub open spec fn spec_hash_arg(
    args: ArgValue,
    name: Seq<char>,
) -> Result<Option<Seq<char>>, HoldErrorView> {
    match args.spec_member(name) {
        Some(ArgValue::Null) => Ok(None),
        Some(ArgValue::Text { text, json }) => if spec_byte_len(text@) != 64 {
            Err(spec_invalid_hash_error(name, json@))
        } else {
            Ok(Some(text@))
        },
        Some(other) => Err(spec_invalid_hash_error(name, other.spec_json())),
        None => Ok(None),
    }
}

/// The error of a preimage that is no hexadecimal text.
pub open spec fn spec_preimage_not_hex_error(preimage: Seq<char>) -> HoldErrorView {
    spec_input_error("preimage: should be hexadecimal: invalid token `"@ + preimage + "`"@)
}

/// Where both are given, the preimage must hash to the payment hash.
pub open spec fn spec_pair_check(
    payment_hash: Option<Seq<char>>,
    preimage: Option<Seq<char>>,
) -> Result<(), HoldErrorView> {
    match (payment_hash, preimage) {
        (Some(hash), Some(pre)) => match spec_payment_hash_of(pre) {
            None => Err(spec_preimage_not_hex_error(pre)),
            Some(hashed) => if spec_eq_ignore_ascii_case(hash, hashed) {
                Ok(())
            } else {
                Err(
                    spec_input_error(
                        "payment_hash: `"@ + hash + "` does not match preimage: `"@ + pre + "`"@,
                    ),
                )
            },
        },
        _ => Ok(()),
    }
}

/// The error of a `deschashonly` that is no truth value.
pub open spec fn spec_deschashonly_error(token: Seq<char>) -> HoldErrorView {
    spec_input_error("deschashonly: should be `true` or `false`: invalid token `"@ + token + "`"@)
}

/// Whether the invoice carries the hash of its description only: a truth
/// value, as such or as the text `true` or `false`; no where absent or null.
pub open spec fn spec_deschashonly_arg(args: ArgValue) -> Result<bool, HoldErrorView> {
    match args.spec_member("deschashonly"@) {
        Some(ArgValue::Null) => Ok(false),
        Some(ArgValue::Bool(b)) => Ok(b),
        Some(ArgValue::Text { text, .. }) => if text@ == "true"@ {
            Ok(true)
        } else if text@ == "false"@ {
            Ok(false)
        } else {
            Err(spec_deschashonly_error(text@))
        },
        Some(other) => Err(spec_deschashonly_error(other.spec_json())),
        None => Ok(false),
    }
}

/// The short channel ids of a list of texts; the first item that is no
/// text, or no short channel id, is the error.
pub open spec fn spec_scids(items: Seq<ArgValue>) -> Result<Seq<u64>, HoldErrorView>
    decreases items.len(),
{
    if items.len() == 0 {
        Ok(Seq::<u64>::empty())
    } else {
        match items[0] {
            ArgValue::Text { text, .. } => match spec_scid(text@) {
                Some(id) => match spec_scids(items.drop_first()) {
                    Ok(rest) => Ok(seq![id] + rest),
                    Err(e) => Err(e),
                },
                None => Err(spec_invalid_scid_error(text@)),
            },
            other => Err(spec_invalid_input_error(other.spec_json())),
        }
    }
}

/// The ids read so far before what the rest gives.
pub open spec fn spec_scids_after(
    done: Seq<u64>,
    rest: Result<Seq<u64>, HoldErrorView>,
) -> Result<Seq<u64>, HoldErrorView> {
    match rest {
        Ok(ids) => Ok(done + ids),
        Err(e) => Err(e),
    }
}

/// The private channels to expose: a list of short channel ids; absent or null is none.
pub open spec fn spec_channels_arg(args: ArgValue) -> Result<Option<Seq<u64>>, HoldErrorView> {
    match args.spec_member("exposeprivatechannels"@) {
        Some(ArgValue::Null) => Ok(None),
        Some(ArgValue::Array { items, .. }) => match spec_scids(items@) {
            Ok(ids) => Ok(Some(ids)),
            Err(e) => Err(e),
        },
        Some(other) => Err(
            spec_input_error(
                "exposeprivatechannels: should be an array: invalid token `"@ + other.spec_json()
                    + "`"@,
            ),
        ),
        None => Ok(None),
    }
}

fn amount_arg(args: &ArgValue) -> (r: Result<u64, HoldError>)
    ensures
        spec_outcome(r) == spec_amount_arg(*args),
{
    match args.get("amount_msat") {
        Some(ArgValue::Number { unsigned: Some(amount), .. }) => {
            if *amount == 0 {
                Err(invalid_amount_error())
            } else {
                Ok(*amount)
            }
        },
        Some(other) => {
            let shown = other.json();
            Err(invalid_integer_error("amount_msat|msatoshi", shown.as_str()))
        },
        None => Err(missing_parameter_error("amount_msat|msatoshi")),
    }
}

fn description_arg(args: &ArgValue) -> (r: Result<String, HoldError>)
    ensures
        spec_text_outcome(r) == spec_description_arg(*args),
{
    match args.get("description") {
        Some(ArgValue::Number { json, .. }) => Ok(json.clone()),
        Some(ArgValue::Text { text, .. }) => Ok(text.clone()),
        Some(other) => {
            let shown = other.json();
            Err(invalid_input_error(shown.as_str()))
        },
        None => Err(missing_parameter_error("description")),
    }
}

fn too_small_error(name: &str, cushion: u64, requested: u64) -> (e: HoldError)
    ensures
        e@ == spec_too_small_error(name@, cushion, requested),
{
    let mut message = String::from_str(name);
    message.append(": needs to be greater than `");
    let floor = decimal(cushion);
    message.append(floor.as_str());
    message.append("` requested: `");
    let asked = decimal(requested);
    message.append(asked.as_str());
    message.append("`");
    HoldError::input(message)
}

fn expiry_arg(args: &ArgValue, cfg: &HoldConfig) -> (r: Result<u64, HoldError>)
    ensures
        spec_outcome(r) == spec_expiry_arg(*args, *cfg),
{
    let value: u64 = match args.get("expiry") {
        Some(ArgValue::Number { unsigned: Some(v), .. }) => *v,
        Some(ArgValue::Number { unsigned: None, json }) => {
            return Err(invalid_integer_error("expiry", json.as_str()));
        },
        Some(ArgValue::Text { text, .. }) => match parse_u64(text.as_str()) {
            Some(v) => v,
            None => {
                return Err(invalid_integer_error("expiry", text.as_str()));
            },
        },
        Some(ArgValue::Null) => DEFAULT_EXPIRY,
        Some(other) => {
            let shown = other.json();
            return Err(invalid_input_error(shown.as_str()));
        },
        None => DEFAULT_EXPIRY,
    };
    match cfg.cancel_before_invoice_seconds {
        Some(cushion) => {
            if value <= cushion {
                Err(too_small_error("expiry", cushion, value))
            } else {
                Ok(value)
            }
        },
        None => Ok(value),
    }
}

fn cltv_arg(args: &ArgValue, cfg: &HoldConfig) -> (r: Result<u64, HoldError>)
    ensures
        spec_outcome(r) == spec_cltv_arg(*args, *cfg),
{
    let value: u64 = match args.get("cltv") {
        Some(ArgValue::Number { unsigned: Some(v), .. }) => *v,
        Some(ArgValue::Text { text, .. }) => match parse_u64(text.as_str()) {
            Some(v) => v,
            None => {
                return Err(invalid_integer_error("cltv", text.as_str()));
            },
        },
        Some(ArgValue::Null) => DEFAULT_CLTV_DELTA,
        Some(other) => {
            let shown = other.json();
            return Err(invalid_integer_error("cltv", shown.as_str()));
        },
        None => DEFAULT_CLTV_DELTA,
    };
    if value <= cfg.cancel_before_htlc_blocks as u64 {
        Err(too_small_error("cltv", cfg.cancel_before_htlc_blocks as u64, value))
    } else {
        Ok(value)
    }
}

fn hash_arg(args: &ArgValue, name: &'static str) -> (r: Result<Option<String>, HoldError>)
    ensures
        match r {
            Ok(hash) => spec_hash_arg(*args, name@) == Ok::<Option<Seq<char>>, HoldErrorView>(
                spec_text(hash),
            ),
            Err(e) => spec_hash_arg(*args, name@) == Err::<Option<Seq<char>>, HoldErrorView>(e@),
        },
{
    match args.get(name) {
        Some(ArgValue::Null) => Ok(None),
        Some(ArgValue::Text { text, json }) => {
            if text.as_str().len() != 64 {
                Err(invalid_hash_error(name, json.as_str()))
            } else {
                Ok(Some(text.clone()))
            }
        },
        Some(other) => {
            let shown = other.json();
            Err(invalid_hash_error(name, shown.as_str()))
        },
        None => Ok(None),
    }
}

fn pair_check(
    payment_hash: &Option<String>,
    preimage: &Option<String>,
) -> (r: Result<(), HoldError>)
    ensures
        spec_outcome(r) == spec_pair_check(spec_text(*payment_hash), spec_text(*preimage)),
{
    match (payment_hash, preimage) {
        (Some(hash), Some(pre)) => match payment_hash_of(pre.as_str()) {
            Err(e) => Err(e),
            Ok(hashed) => {
                if eq_ignore_ascii_case(hash.as_str(), hashed.as_str()) {
                    Ok(())
                } else {
                    let mut message = String::from_str("payment_hash: `");
                    message.append(hash.as_str());
                    message.append("` does not match preimage: `");
                    message.append(pre.as_str());
                    message.append("`");
                    Err(HoldError::input(message))
                }
            },
        },
        _ => Ok(()),
    }
}

fn deschashonly_error(token: &str) -> (e: HoldError)
    ensures
        e@ == spec_deschashonly_error(token@),
{
    let mut message = String::from_str("deschashonly: should be `true` or `false`: invalid token `");
    message.append(token);
    message.append("`");
    HoldError::input(message)
}

fn deschashonly_arg(args: &ArgValue) -> (r: Result<bool, HoldError>)
    ensures
        spec_outcome(r) == spec_deschashonly_arg(*args),
{
    match args.get("deschashonly") {
        Some(ArgValue::Null) => Ok(false),
        Some(ArgValue::Bool(b)) => Ok(*b),
        Some(ArgValue::Text { text, .. }) => {
            if text_eq(text.as_str(), "true") {
                Ok(true)
            } else if text_eq(text.as_str(), "false") {
                Ok(false)
            } else {
                Err(deschashonly_error(text.as_str()))
            }
        },
        Some(other) => {
            let shown = other.json();
            Err(deschashonly_error(shown.as_str()))
        },
        None => Ok(false),
    }
}

fn scids(items: &Vec<ArgValue>) -> (r: Result<Vec<u64>, HoldError>)
    ensures
        match r {
            Ok(ids) => spec_scids(items@) == Ok::<Seq<u64>, HoldErrorView>(ids@),
            Err(e) => spec_scids(items@) == Err::<Seq<u64>, HoldErrorView>(e@),
        },
{
    let mut ids: Vec<u64> = Vec::new();
    let mut i: usize = 0;
    proof {
        assert(items@.skip(0) =~= items@);
        assert(spec_scids_after(ids@, spec_scids(items@)) == spec_scids(items@)) by {
            match spec_scids(items@) {
                Ok(all) => assert(ids@ + all =~= all),
                Err(_) => {},
            }
        }
    }
    while i < items.len()
        invariant
            i <= items@.len(),
            spec_scids(items@) == spec_scids_after(ids@, spec_scids(items@.skip(i as int))),
        decreases items@.len() - i,
    {
        let ghost rest = items@.skip(i as int);
        proof {
            assert(rest.drop_first() =~= items@.skip(i as int + 1));
            assert(rest[0] == items@[i as int]);
        }
        match &items[i] {
            ArgValue::Text { text, .. } => match scid_from_str(text.as_str()) {
                Some(id) => {
                    let ghost before = ids@;
                    ids.push(id);
                    proof {
                        match spec_scids(rest.drop_first()) {
                            Ok(tail) => assert(before + (seq![id] + tail) =~= ids@ + tail),
                            Err(_) => {},
                        }
                    }
                },
                None => {
                    return Err(invalid_scid_error(text.as_str()));
                },
            },
            other => {
                let shown = other.json();
                return Err(invalid_input_error(shown.as_str()));
            },
        }
        i = i + 1;
    }
    proof {
        assert(items@.skip(i as int) =~= Seq::<ArgValue>::empty());
        assert(ids@ + Seq::<u64>::empty() =~= ids@);
    }
    Ok(ids)
}

fn channels_arg(args: &ArgValue) -> (r: Result<Option<Vec<u64>>, HoldError>)
    ensures
        match r {
            Ok(Some(ids)) => spec_channels_arg(*args) == Ok::<Option<Seq<u64>>, HoldErrorView>(
                Some(ids@),
            ),
            Ok(None) => spec_channels_arg(*args) == Ok::<Option<Seq<u64>>, HoldErrorView>(None),
            Err(e) => spec_channels_arg(*args) == Err::<Option<Seq<u64>>, HoldErrorView>(e@),
        },
{
    match args.get("exposeprivatechannels") {
        Some(ArgValue::Null) => Ok(None),
        Some(ArgValue::Array { items, .. }) => match scids(items) {
            Ok(ids) => Ok(Some(ids)),
            Err(e) => Err(e),
        },
        Some(other) => {
            let mut message = String::from_str(
                "exposeprivatechannels: should be an array: invalid token `",
            );
            let shown = other.json();
            message.append(shown.as_str());
            message.append("`");
            Err(HoldError::input(message))
        },
        None => Ok(None),
    }
}

/// The plan that the arguments of a new invoice give, or the first error
/// among them, in this order: amount, description, lifetime, preimage,
/// payment hash, their agreement, CLTV delta, `deschashonly`, private channels.
pub open spec fn spec_invoice_plan(
    args: ArgValue,
    cfg: HoldConfig,
) -> Result<InvoicePlanView, HoldErrorView> {
    match spec_amount_arg(args) {
        Err(e) => Err(e),
        Ok(amount_msat) => match spec_description_arg(args) {
            Err(e) => Err(e),
            Ok(description) => match spec_expiry_arg(args, cfg) {
                Err(e) => Err(e),
                Ok(expiry) => match spec_hash_arg(args, "preimage"@) {
                    Err(e) => Err(e),
                    Ok(preimage) => match spec_hash_arg(args, "payment_hash"@) {
                        Err(e) => Err(e),
                        Ok(payment_hash) => match spec_pair_check(payment_hash, preimage) {
                            Err(e) => Err(e),
                            Ok(_) => match spec_cltv_arg(args, cfg) {
                                Err(e) => Err(e),
                                Ok(cltv) => match spec_deschashonly_arg(args) {
                                    Err(e) => Err(e),
                                    Ok(deschashonly) => match spec_channels_arg(args) {
                                        Err(e) => Err(e),
                                        Ok(exposeprivatechannels) => Ok(
                                            InvoicePlanView {
                                                amount_msat,
                                                description,
                                                expiry,
                                                preimage,
                                                payment_hash,
                                                cltv,
                                                deschashonly,
                                                exposeprivatechannels,
                                            },
                                        ),
                                    },
                                },
                            },
                        },
                    },
                },
            },
        },
    }
}

/// Validates the arguments of a new invoice, given as an object by name.
///
/// The amount is required and positive, the description required. The
/// lifetime and the CLTV delta default where absent, and must exceed the
/// cushions of the policy. A preimage and a payment hash are texts of 64
/// bytes; given both, the preimage must hash to the payment hash.
pub fn build_invoice_request(
    args: &ArgValue,
    cfg: &HoldConfig,
) -> (plan: Result<InvoicePlan, HoldError>)
    ensures
        match plan {
            Ok(p) => spec_invoice_plan(*args, *cfg) == Ok::<InvoicePlanView, HoldErrorView>(p@),
            Err(e) => spec_invoice_plan(*args, *cfg) == Err::<InvoicePlanView, HoldErrorView>(e@),
        },
{
    let amount_msat = match amount_arg(args) {
        Ok(v) => v,
        Err(e) => { return Err(e); },
    };
    let description = match description_arg(args) {
        Ok(v) => v,
        Err(e) => { return Err(e); },
    };
    let expiry = match expiry_arg(args, cfg) {
        Ok(v) => v,
        Err(e) => { return Err(e); },
    };
    let preimage = match hash_arg(args, "preimage") {
        Ok(v) => v,
        Err(e) => { return Err(e); },
    };
    let payment_hash = match hash_arg(args, "payment_hash") {
        Ok(v) => v,
        Err(e) => { return Err(e); },
    };
    match pair_check(&payment_hash, &preimage) {
        Ok(_) => {},
        Err(e) => { return Err(e); },
    }
    let cltv = match cltv_arg(args, cfg) {
        Ok(v) => v,
        Err(e) => { return Err(e); },
    };
    let deschashonly = match deschashonly_arg(args) {
        Ok(v) => v,
        Err(e) => { return Err(e); },
    };
    let exposeprivatechannels = match channels_arg(args) {
        Ok(v) => v,
        Err(e) => { return Err(e); },
    };
    Ok(
        InvoicePlan {
            amount_msat,
            description,
            expiry,
            preimage,
            payment_hash,
            cltv,
            deschashonly,
            exposeprivatechannels,
        },
    )
}

/// Is the channel public, in a live state and its peer connected?
pub open spec fn spec_public_online(channel: PeerChannel) -> bool {
    channel.private == Some(false) && spec_is_live(channel) && channel.peer_connected
}

/// Is one of the channels public and online?
pub open spec fn spec_any_public_online(channels: Seq<PeerChannel>) -> bool {
    exists|i: int| 0 <= i < channels.len() && spec_public_online(#[trigger] channels[i])
}

/// The short channel ids of the private channels that have one, in order.
pub open spec fn spec_private_scids(channels: Seq<PeerChannel>) -> Seq<u64>
    decreases channels.len(),
{
    if channels.len() == 0 {
        Seq::<u64>::empty()
    } else {
        let before = spec_private_scids(channels.drop_last());
        match (channels.last().private, channels.last().short_channel_id) {
            (Some(true), Some(scid)) => before.push(scid),
            _ => before,
        }
    }
}

/// The private channels to expose where the caller named none: all of
/// them, unless a public channel is online.
pub open spec fn spec_select_private_channels(channels: Seq<PeerChannel>) -> Option<Seq<u64>> {
    if spec_any_public_online(channels) {
        None
    } else {
        Some(spec_private_scids(channels))
    }
}

/// Chooses the private channels to expose in a new invoice for which the
/// caller named none, from the host's list of peer channels.
pub fn select_private_channels(channels: &Vec<PeerChannel>) -> (chosen: Option<Vec<u64>>)
    ensures
        match chosen {
            Some(ids) => spec_select_private_channels(channels@) == Some(ids@),
            None => spec_select_private_channels(channels@) is None,
        },
{
    let mut private_channels: Vec<u64> = Vec::new();
    let mut i: usize = 0;
    assert(channels@.take(0) =~= Seq::<PeerChannel>::empty());
    while i < channels.len()
        invariant
            i <= channels@.len(),
            private_channels@ == spec_private_scids(channels@.take(i as int)),
            forall|k: int| 0 <= k < i ==> !spec_public_online(#[trigger] channels@[k]),
        decreases channels@.len() - i,
    {
        proof {
            assert(channels@.take(i as int + 1).drop_last() =~= channels@.take(i as int));
            assert(channels@.take(i as int + 1).last() == channels@[i as int]);
        }
        let channel = &channels[i];
        let live = match channel.state {
            ChannelState::Normal | ChannelState::AwaitingSplice => true,
            ChannelState::Other => false,
        };
        match channel.private {
            Some(private) => {
                if !private && live && channel.peer_connected {
                    return None;
                } else if private {
                    match channel.short_channel_id {
                        Some(scid) => {
                            private_channels.push(scid);
                        },
                        None => {},
                    }
                }
            },
            None => {},
        }
        i = i + 1;
    }
    assert(channels@.take(i as int) =~= channels@);
    Some(private_channels)
}

/// The payment hash and the preimage of a new invoice.
#[derive(Clone, Debug)]
pub struct PaymentPair {
    /// The payment hash in lower-case hexadecimal.
    pub payment_hash: String,
    /// The preimage in hexadecimal, where it is known.
    pub preimage: Option<String>,
}

/// The error of a payment hash that is no hexadecimal text of 32 bytes.
pub open spec fn spec_hash_not_hex_error(payment_hash: Seq<char>) -> HoldErrorView {
    spec_input_error("payment_hash: should be hexadecimal: invalid token `"@ + payment_hash + "`"@)
}

/// The error of fresh bytes that are not the 32 bytes of a preimage.
pub open spec fn spec_fresh_length_error() -> HoldErrorView {
    spec_internal_error("fresh preimage should be 32 bytes"@)
}

/// The payment hash and the preimage of a new invoice: the payment hash as
/// given, in lower case, with the preimage if one was given; else the hash
/// of the given preimage; else the hash of the fresh bytes, which become
/// the preimage. Fresh bytes that are not 32 in number are an error.
pub open spec fn spec_payment_pair(
    payment_hash: Option<Seq<char>>,
    preimage: Option<Seq<char>>,
    fresh: Seq<u8>,
) -> Result<(Seq<char>, Option<Seq<char>>), HoldErrorView> {
    if fresh.len() != 32 {
        Err(spec_fresh_length_error())
    } else {
        spec_payment_pair_of(payment_hash, preimage, fresh)
    }
}

/// The payment hash and the preimage of a new invoice, given 32 fresh bytes.
pub open spec fn spec_payment_pair_of(
    payment_hash: Option<Seq<char>>,
    preimage: Option<Seq<char>>,
    fresh: Seq<u8>,
) -> Result<(Seq<char>, Option<Seq<char>>), HoldErrorView> {
    match (payment_hash, preimage) {
        (Some(hash), _) => match spec_hex_decode(hash) {
            Some(bytes) => if bytes.len() == 32 {
                Ok((spec_hex_encode(bytes), preimage))
            } else {
                Err(spec_hash_not_hex_error(hash))
            },
            None => Err(spec_hash_not_hex_error(hash)),
        },
        (None, Some(pre)) => match spec_payment_hash_of(pre) {
            Some(hash) => Ok((hash, Some(pre))),
            None => Err(spec_preimage_not_hex_error(pre)),
        },
        (None, None) => Ok(
            (spec_hex_encode(spec_sha256(fresh)), Some(spec_hex_encode(fresh))),
        ),
    }
}

fn hash_not_hex_error(payment_hash: &str) -> (e: HoldError)
    ensures
        e@ == spec_hash_not_hex_error(payment_hash@),
{
    let mut message = String::from_str("payment_hash: should be hexadecimal: invalid token `");
    message.append(payment_hash);
    message.append("`");
    HoldError::input(message)
}

/// Settles the payment hash and the preimage of a new invoice; `fresh`
/// holds the 32 random bytes of a preimage, used where the plan has neither.
pub fn derive_payment_pair(
    plan: &InvoicePlan,
    fresh: &Vec<u8>,
) -> (pair: Result<PaymentPair, HoldError>)
    ensures
        match pair {
            Ok(p) => spec_payment_pair(plan@.payment_hash, plan@.preimage, fresh@) == Ok::<
                (Seq<char>, Option<Seq<char>>),
                HoldErrorView,
            >((p.payment_hash@, spec_text(p.preimage))),
            Err(e) => spec_payment_pair(plan@.payment_hash, plan@.preimage, fresh@) == Err::<
                (Seq<char>, Option<Seq<char>>),
                HoldErrorView,
            >(e@),
        },
{
    if fresh.len() != 32 {
        return Err(internal_error("fresh preimage should be 32 bytes"));
    }
    match &plan.payment_hash {
        Some(hash) => match decode_hex(hash.as_str()) {
            Some(bytes) => {
                if bytes.len() == 32 {
                    Ok(
                        PaymentPair {
                            payment_hash: encode_hex(&bytes),
                            preimage: clone_text(&plan.preimage),
                        },
                    )
                } else {
                    Err(hash_not_hex_error(hash.as_str()))
                }
            },
            None => Err(hash_not_hex_error(hash.as_str())),
        },
        None => match &plan.preimage {
            Some(pre) => match payment_hash_of(pre.as_str()) {
                Ok(payment_hash) => Ok(PaymentPair { payment_hash, preimage: Some(pre.clone()) }),
                Err(e) => Err(e),
            },
            None => Ok(
                PaymentPair {
                    payment_hash: payment_hash_of_bytes(fresh),
                    preimage: Some(encode_hex(fresh)),
                },
            ),
        },
    }
}

} // verus!
