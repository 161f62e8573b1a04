//! The errors that the engine reports, each with the exact text of its message.

use vstd::prelude::*;
use vstd::string::StringExecFns;

use crate::model::Holdstate;
use crate::text::{decimal, signed_decimal, spec_decimal, spec_signed_decimal};

verus! {

/// Class of an error; it decides whether the error is surfaced or retried.
#[derive(Clone, Copy, Debug, PartialEq, Eq, Structural)]
pub enum ErrorKind {
    /// A bad argument: never retried.
    InputError,
    /// No record under the payment hash.
    NotFound,
    /// The transition table forbids the move.
    WrongState,
    /// A generation-checked write lost against a concurrent writer.
    GenerationMismatch,
    /// A call to the host failed.
    Transport,
    /// HTLCs were still pending when the barrier gave up.
    DrainTimeout,
    /// An internal invariant was broken.
    Fatal,
}

/// An error: its class and its message.
#[derive(Clone, Debug)]
pub struct HoldError {
    pub kind: ErrorKind,
    pub message: String,
}

/// The mathematical value of a [`HoldError`].
pub struct HoldErrorView {
    pub kind: ErrorKind,
    pub message: Seq<char>,
}

impl View for HoldError {
    type V = HoldErrorView;

    open spec fn view(&self) -> HoldErrorView {
        HoldErrorView { kind: self.kind, message: self.message@ }
    }
}

/// An input error with the given message.
pub open spec fn spec_input_error(message: Seq<char>) -> HoldErrorView {
    HoldErrorView { kind: ErrorKind::InputError, message }
}

/// The error of a required argument that is absent.
pub open spec fn spec_missing_parameter_error(param: Seq<char>) -> HoldErrorView {
    spec_input_error("missing required parameter: "@ + param)
}

/// The error of an argument under a name that the command does not know.
pub open spec fn spec_invalid_argument_error(arg: Seq<char>) -> HoldErrorView {
    spec_input_error("Invalid argument: `"@ + arg + "`"@)
}

/// The error of arguments of the wrong shape; it quotes them.
pub open spec fn spec_invalid_input_error(input: Seq<char>) -> HoldErrorView {
    spec_input_error("Invalid input: `"@ + input + "`"@)
}

/// The error of a text that is no short channel id.
pub open spec fn spec_invalid_scid_error(input: Seq<char>) -> HoldErrorView {
    spec_input_error("Invalid short_channel_id: `"@ + input + "`"@)
}

/// The error of a value that is no text of 64 bytes where a hash is expected.
pub open spec fn spec_invalid_hash_error(name: Seq<char>, token: Seq<char>) -> HoldErrorView {
    spec_input_error(name + ": should be a 32 byte hex value: invalid token `"@ + token + "`"@)
}

/// The error of a payment hash that the datastore has no record of.
pub open spec fn spec_payment_hash_missing_error(pay_hash: Seq<char>) -> HoldErrorView {
    HoldErrorView {
        kind: ErrorKind::NotFound,
        message: "payment_hash `"@ + pay_hash + "` not found"@,
    }
}

/// The error of a value that is no unsigned 64-bit integer.
pub open spec fn spec_invalid_integer_error(name: Seq<char>, integer: Seq<char>) -> HoldErrorView {
    spec_input_error(
        name + ": should be an unsigned 64 bit integer: invalid token `"@ + integer + "`"@,
    )
}

/// The error of an amount of zero.
pub open spec fn spec_invalid_amount_error() -> HoldErrorView {
    spec_input_error("amount_msat: should be positive msat"@)
}

/// The error of a list with more items than the command takes.
pub open spec fn spec_too_many_params_error(actual: nat, expected: nat) -> HoldErrorView {
    spec_input_error(
        "too many parameters: got "@ + spec_decimal(actual) + ", expected "@ + spec_decimal(
            expected,
        ),
    )
}

/// The error of a move that the transition table forbids; it names the state that the invoice is in.
pub open spec fn spec_wrong_hold_state_error(holdstate: Holdstate) -> HoldErrorView {
    HoldErrorView {
        kind: ErrorKind::WrongState,
        message: "Holdinvoice is in wrong state: `"@ + holdstate.spec_label() + "`"@,
    }
}

/// The error of an option with an invalid value.
pub open spec fn spec_config_value_error(name: Seq<char>, value: int) -> HoldErrorView {
    spec_input_error("`"@ + spec_signed_decimal(value) + "` is invalid for "@ + name)
}

/// The error of a failure inside the engine or of the host.
pub open spec fn spec_internal_error(msg: Seq<char>) -> HoldErrorView {
    HoldErrorView { kind: ErrorKind::Fatal, message: "Internal error: "@ + msg }
}

/// What a result is, with the error by its value.
pub open spec fn spec_outcome<T>(result: Result<T, HoldError>) -> Result<T, HoldErrorView> {
    match result {
        Ok(value) => Ok(value),
        Err(e) => Err(e@),
    }
}

/// What a result of text is, by its value.
pub open spec fn spec_text_outcome(
    result: Result<String, HoldError>,
) -> Result<Seq<char>, HoldErrorView> {
    match result {
        Ok(value) => Ok(value@),
        Err(e) => Err(e@),
    }
}

/// The code with which an error of this class is surfaced to the caller of
/// a command, where the class has one of its own.
pub open spec fn spec_error_code(kind: ErrorKind) -> Option<i32> {
    if kind == ErrorKind::InputError {
        Some(-32602i32)
    } else {
        None
    }
}

impl HoldError {
    /// The code with which the error is surfaced to the caller of a command:
    /// that of invalid parameters for an input error, none of its own otherwise.
    pub fn code(&self) -> (code: Option<i32>)
        ensures
            code == spec_error_code(self.kind),
    {
        match self.kind {
            ErrorKind::InputError => Some(-32602),
            _ => None,
        }
    }

    /// An input error with this message.
    pub fn input(message: String) -> (e: HoldError)
        ensures
            e@ == spec_input_error(message@),
    {
        HoldError { kind: ErrorKind::InputError, message }
    }

    /// The message, as the error prints.
    pub fn to_string(&self) -> (text: String)
        ensures
            text@ == self.message@,
    {
        self.message.clone()
    }
}

fn wrap(kind: ErrorKind, head: &str, body: &str, tail: &str) -> (e: HoldError)
    ensures
        e.kind == kind,
        e.message@ == head@ + body@ + tail@,
{
    let mut message = String::from_str(head);
    message.append(body);
    message.append(tail);
    HoldError { kind, message }
}

/// A required argument is absent.
pub fn missing_parameter_error(param: &str) -> (e: HoldError)
    ensures
        e@ == spec_missing_parameter_error(param@),
{
    let e = wrap(ErrorKind::InputError, "missing required parameter: ", param, "");
    proof {
        reveal_strlit("");
        assert(e.message@ =~= "missing required parameter: "@ + param@);
    }
    e
}

/// An argument stands under a name that the command does not know.
pub fn invalid_argument_error(arg: &str) -> (e: HoldError)
    ensures
        e@ == spec_invalid_argument_error(arg@),
{
    wrap(ErrorKind::InputError, "Invalid argument: `", arg, "`")
}

/// The arguments have the wrong shape.
pub fn invalid_input_error(input: &str) -> (e: HoldError)
    ensures
        e@ == spec_invalid_input_error(input@),
{
    wrap(ErrorKind::InputError, "Invalid input: `", input, "`")
}

/// A text is no short channel id.
pub fn invalid_scid_error(input: &str) -> (e: HoldError)
    ensures
        e@ == spec_invalid_scid_error(input@),
{
    wrap(ErrorKind::InputError, "Invalid short_channel_id: `", input, "`")
}

/// A value is no text of 64 bytes where a hash is expected.
pub fn invalid_hash_error(name: &str, token: &str) -> (e: HoldError)
    ensures
        e@ == spec_invalid_hash_error(name@, token@),
{
    let mut message = String::from_str(name);
    message.append(": should be a 32 byte hex value: invalid token `");
    message.append(token);
    message.append("`");
    HoldError { kind: ErrorKind::InputError, message }
}

/// The datastore has no record of the payment hash.
pub fn payment_hash_missing_error(pay_hash: &str) -> (e: HoldError)
    ensures
        e@ == spec_payment_hash_missing_error(pay_hash@),
{
    wrap(ErrorKind::NotFound, "payment_hash `", pay_hash, "` not found")
}

/// A value is no unsigned 64-bit integer.
pub fn invalid_integer_error(name: &str, integer: &str) -> (e: HoldError)
    ensures
        e@ == spec_invalid_integer_error(name@, integer@),
{
    let mut message = String::from_str(name);
    message.append(": should be an unsigned 64 bit integer: invalid token `");
    message.append(integer);
    message.append("`");
    HoldError { kind: ErrorKind::InputError, message }
}

/// The amount is zero.
pub fn invalid_amount_error() -> (e: HoldError)
    ensures
        e@ == spec_invalid_amount_error(),
{
    HoldError {
        kind: ErrorKind::InputError,
        message: String::from_str("amount_msat: should be positive msat"),
    }
}

/// A list has more items than the command takes.
pub fn too_many_params_error(actual: usize, expected: usize) -> (e: HoldError)
    ensures
        e@ == spec_too_many_params_error(actual as nat, expected as nat),
{
    let mut message = String::from_str("too many parameters: got ");
    let got = decimal(actual as u64);
    message.append(got.as_str());
    message.append(", expected ");
    let want = decimal(expected as u64);
    message.append(want.as_str());
    HoldError { kind: ErrorKind::InputError, message }
}

/// The transition table forbids the move from the state that the invoice is in.
pub fn wrong_hold_state_error(holdstate: Holdstate) -> (e: HoldError)
    ensures
        e@ == spec_wrong_hold_state_error(holdstate),
{
    let label = holdstate.to_string();
    wrap(ErrorKind::WrongState, "Holdinvoice is in wrong state: `", label.as_str(), "`")
}

/// An option has an invalid value.
pub fn config_value_error(name: &str, value: i64) -> (e: HoldError)
    ensures
        e@ == spec_config_value_error(name@, value as int),
{
    let mut message = String::from_str("`");
    let shown = signed_decimal(value);
    message.append(shown.as_str());
    message.append("` is invalid for ");
    message.append(name);
    HoldError { kind: ErrorKind::InputError, message }
}

/// Something failed inside the engine or in the host.
pub fn internal_error(msg: &str) -> (e: HoldError)
    ensures
        e@ == spec_internal_error(msg@),
{
    let e = wrap(ErrorKind::Fatal, "Internal error: ", msg, "");
    proof {
        reveal_strlit("");
        assert(e.message@ =~= "Internal error: "@ + msg@);
    }
    e
}

} // verus!
