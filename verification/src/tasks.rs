//! The autoclean task: which records of the datastore are removed, and when.

use vstd::prelude::*;
use vstd::string::StringExecFns;

use crate::args::ArgValue;
use crate::errors::{spec_outcome, ErrorKind, HoldError, HoldErrorView};
use crate::invoice::{parse_bolt11, spec_bolt11, spec_invalid_bolt11_error};
use crate::model::{HoldInvoiceRecord, HoldInvoiceResponse, Holdstate};

verus! {

/// The autoclean settings of the node, in seconds; an age of zero switches
/// the cleaning of that kind of invoice off.
#[derive(Clone, Copy, Debug, PartialEq, Eq, Structural)]
pub struct AutocleanConfig {
    pub cycle: u64,
    pub paidinvoices_age: u64,
    pub expiredinvoices_age: u64,
}

/// An error about the node's configuration as listed.
pub open spec fn spec_config_error(message: Seq<char>) -> HoldErrorView {
    HoldErrorView { kind: ErrorKind::Transport, message }
}

/// The whole number under `value_int` of a setting.
pub open spec fn spec_value_int(setting: ArgValue, name: Seq<char>) -> Result<u64, HoldErrorView> {
    match setting.spec_member("value_int"@) {
        None => Err(spec_config_error("no "@ + name + " value_int"@)),
        Some(ArgValue::Number { unsigned: Some(v), .. }) => Ok(v),
        Some(_) => Err(spec_config_error(name + " value_int is not a number"@)),
    }
}

/// An age setting: zero where the node lists none.
pub open spec fn spec_age(configs: ArgValue, name: Seq<char>) -> Result<u64, HoldErrorView> {
    match configs.spec_member(name) {
        None => Ok(0),
        Some(setting) => spec_value_int(setting, name),
    }
}

/// The autoclean settings in the node's list of settings: the cycle is
/// required, each age is zero where it is not listed.
pub open spec fn spec_autoclean_configs(
    listconfigs: ArgValue,
) -> Result<AutocleanConfig, HoldErrorView> {
    match listconfigs.spec_member("configs"@) {
        None => Err(spec_config_error("no configs"@)),
        Some(configs) => match configs.spec_member("autoclean-cycle"@) {
            None => Err(spec_config_error("no autoclean-cycle"@)),
            Some(setting) => match spec_value_int(setting, "autoclean-cycle"@) {
                Err(e) => Err(e),
                Ok(cycle) => match spec_age(configs, "autoclean-paidinvoices-age"@) {
                    Err(e) => Err(e),
                    Ok(paidinvoices_age) => match spec_age(
                        configs,
                        "autoclean-expiredinvoices-age"@,
                    ) {
                        Err(e) => Err(e),
                        Ok(expiredinvoices_age) => Ok(
                            AutocleanConfig { cycle, paidinvoices_age, expiredinvoices_age },
                        ),
                    },
                },
            },
        },
    }
}

fn config_error(head: &str, name: &str, tail: &str) -> (e: HoldError)
    ensures
        e@ == spec_config_error(head@ + name@ + tail@),
{
    let mut message = String::from_str(head);
    message.append(name);
    message.append(tail);
    HoldError { kind: ErrorKind::Transport, message }
}

fn value_int(setting: &ArgValue, name: &str) -> (r: Result<u64, HoldError>)
    ensures
        spec_outcome(r) == spec_value_int(*setting, name@),
{
    match setting.get("value_int") {
        None => {
            let e = config_error("no ", name, " value_int");
            Err(e)
        },
        Some(ArgValue::Number { unsigned: Some(v), .. }) => Ok(*v),
        Some(_) => {
            proof {
                reveal_strlit("");
            }
            let e = config_error("", name, " value_int is not a number");
            assert(e.message@ =~= name@ + " value_int is not a number"@);
            Err(e)
        },
    }
}

fn age(configs: &ArgValue, name: &str) -> (r: Result<u64, HoldError>)
    ensures
        spec_outcome(r) == spec_age(*configs, name@),
{
    match configs.get(name) {
        None => Ok(0),
        Some(setting) => value_int(setting, name),
    }
}

fn plain_config_error(message: &str) -> (e: HoldError)
    ensures
        e@ == spec_config_error(message@),
{
    HoldError { kind: ErrorKind::Transport, message: String::from_str(message) }
}

/// Reads the autoclean settings from the node's list of settings.
pub fn check_autoclean_configs(listconfigs: &ArgValue) -> (settings: Result<AutocleanConfig, HoldError>)
    ensures
        spec_outcome(settings) == spec_autoclean_configs(*listconfigs),
{
    let configs = match listconfigs.get("configs") {
        Some(c) => c,
        None => {
            return Err(plain_config_error("no configs"));
        },
    };
    let cycle = match configs.get("autoclean-cycle") {
        None => {
            return Err(plain_config_error("no autoclean-cycle"));
        },
        Some(setting) => match value_int(setting, "autoclean-cycle") {
            Ok(v) => v,
            Err(e) => {
                return Err(e);
            },
        },
    };
    let paidinvoices_age = match age(configs, "autoclean-paidinvoices-age") {
        Ok(v) => v,
        Err(e) => {
            return Err(e);
        },
    };
    let expiredinvoices_age = match age(configs, "autoclean-expiredinvoices-age") {
        Ok(v) => v,
        Err(e) => {
            return Err(e);
        },
    };
    Ok(AutocleanConfig { cycle, paidinvoices_age, expiredinvoices_age })
}

/// What autoclean does with a record.
#[derive(Clone, Copy, Debug, PartialEq, Eq, Structural)]
pub enum CleanKind {
    /// The record stays.
    Keep,
    /// The record of a paid invoice is removed.
    Paid,
    /// The record of an expired invoice is removed.
    Expired,
}

/// What autoclean does with a record at second `now`.
///
/// A settled record is removed where paid invoices are cleaned and more
/// than their age has passed since the payment. An open or a canceled
/// record is removed where expired invoices are cleaned and more than their
/// age has passed since the invoice expired. An accepted record always stays.
pub open spec fn spec_clean_kind(
    state: Holdstate,
    paid_at: Option<u64>,
    expires_at: Option<u64>,
    settings: AutocleanConfig,
    now: u64,
) -> CleanKind {
    match state {
        Holdstate::Settled => if settings.paidinvoices_age > 0 && (paid_at matches Some(at) && at
            + settings.paidinvoices_age < now) {
            CleanKind::Paid
        } else {
            CleanKind::Keep
        },
        Holdstate::Open | Holdstate::Canceled => if settings.expiredinvoices_age > 0 && (
        expires_at matches Some(at) && at + settings.expiredinvoices_age < now) {
            CleanKind::Expired
        } else {
            CleanKind::Keep
        },
        Holdstate::Accepted => CleanKind::Keep,
    }
}

/// Decides what autoclean does with a record, given the second at which
/// its invoice expires.
pub fn clean_kind(
    state: Holdstate,
    paid_at: Option<u64>,
    expires_at: Option<u64>,
    settings: &AutocleanConfig,
    now: u64,
) -> (kind: CleanKind)
    ensures
        kind == spec_clean_kind(state, paid_at, expires_at, *settings, now),
{
    match state {
        Holdstate::Settled => match paid_at {
            Some(at) => {
                if settings.paidinvoices_age > 0 && (at as u128) + (settings.paidinvoices_age as u128)
                    < now as u128 {
                    CleanKind::Paid
                } else {
                    CleanKind::Keep
                }
            },
            None => CleanKind::Keep,
        },
        Holdstate::Open | Holdstate::Canceled => match expires_at {
            Some(at) => {
                if settings.expiredinvoices_age > 0 && (at as u128) + (
                settings.expiredinvoices_age as u128) < now as u128 {
                    CleanKind::Expired
                } else {
                    CleanKind::Keep
                }
            },
            None => CleanKind::Keep,
        },
        Holdstate::Accepted => CleanKind::Keep,
    }
}

/// What one round of autoclean does.
#[derive(Clone, Debug)]
pub struct CleanPlan {
    /// The payment hashes of the records to remove, in the order of the records.
    pub delete: Vec<String>,
    pub count_paid: u64,
    pub count_expired: u64,
    /// The error that ended the round early: a record whose invoice text is
    /// no valid invoice.
    pub failed: Option<HoldError>,
}

/// The mathematical value of a [`CleanPlan`].
pub struct CleanPlanView {
    pub delete: Seq<Seq<char>>,
    pub count_paid: nat,
    pub count_expired: nat,
    pub failed: Option<HoldErrorView>,
}

impl View for CleanPlan {
    type V = CleanPlanView;

    open spec fn view(&self) -> CleanPlanView {
        CleanPlanView {
            delete: Seq::new(self.delete@.len(), |i: int| self.delete@[i]@),
            count_paid: self.count_paid as nat,
            count_expired: self.count_expired as nat,
            failed: match self.failed {
                Some(e) => Some(e@),
                None => None,
            },
        }
    }
}

/// The plan after one more record.
pub open spec fn spec_plan_step(
    plan: CleanPlanView,
    record: HoldInvoiceRecord,
    settings: AutocleanConfig,
    now: u64,
) -> CleanPlanView {
    if plan.failed is Some {
        plan
    } else {
        match spec_bolt11(record.bolt11) {
            None => CleanPlanView {
                delete: plan.delete,
                count_paid: plan.count_paid,
                count_expired: plan.count_expired,
                failed: Some(spec_invalid_bolt11_error(record.bolt11)),
            },
            Some((_, expires_at, payment_hash)) => match spec_clean_kind(
                record.state,
                record.paid_at,
                expires_at,
                settings,
                now,
            ) {
                CleanKind::Keep => plan,
                CleanKind::Paid => CleanPlanView {
                    delete: plan.delete.push(payment_hash),
                    count_paid: plan.count_paid + 1,
                    count_expired: plan.count_expired,
                    failed: None,
                },
                CleanKind::Expired => CleanPlanView {
                    delete: plan.delete.push(payment_hash),
                    count_paid: plan.count_paid,
                    count_expired: plan.count_expired + 1,
                    failed: None,
                },
            },
        }
    }
}

/// The plan of a round over the records, in order: each record's invoice
/// text is read, and the round ends at the first that is no valid invoice.
pub open spec fn spec_clean_plan(
    records: Seq<HoldInvoiceResponse>,
    settings: AutocleanConfig,
    now: u64,
) -> CleanPlanView
    decreases records.len(),
{
    if records.len() == 0 {
        CleanPlanView { delete: Seq::empty(), count_paid: 0, count_expired: 0, failed: None }
    } else {
        spec_plan_step(
            spec_clean_plan(records.drop_last(), settings, now),
            records.last()@,
            settings,
            now,
        )
    }
}

/// Is the cleaning switched on for any kind of invoice?
pub fn autoclean_enabled(settings: &AutocleanConfig) -> (enabled: bool)
    ensures
        enabled == (settings.paidinvoices_age > 0 || settings.expiredinvoices_age > 0),
{
    settings.paidinvoices_age > 0 || settings.expiredinvoices_age > 0
}

/// Seconds to sleep after a round that took `elapsed` seconds: the rest of the cycle.
pub fn autoclean_sleep(settings: &AutocleanConfig, elapsed: u64) -> (rest: u64)
    ensures
        rest == if elapsed >= settings.cycle { 0 } else { settings.cycle - elapsed },
{
    if elapsed >= settings.cycle {
        0
    } else {
        settings.cycle - elapsed
    }
}

/// Plans one round of autoclean over the records of the datastore at second `now`.
pub fn autoclean_holdinvoice_db(
    records: &Vec<HoldInvoiceResponse>,
    settings: &AutocleanConfig,
    now: u64,
) -> (plan: CleanPlan)
    ensures
        plan@ == spec_clean_plan(records@, *settings, now),
        plan.count_paid + plan.count_expired == plan.delete@.len(),
{
    let mut plan = CleanPlan { delete: Vec::new(), count_paid: 0, count_expired: 0, failed: None };
    let mut i: usize = 0;
    proof {
        assert(records@.take(0) =~= Seq::<HoldInvoiceResponse>::empty());
        assert(plan@.delete =~= Seq::<Seq<char>>::empty());
    }
    while i < records.len()
        invariant
            i <= records@.len(),
            plan@ == spec_clean_plan(records@.take(i as int), *settings, now),
            plan.count_paid + plan.count_expired == plan.delete@.len(),
            plan.delete@.len() <= i,
        decreases records@.len() - i,
    {
        proof {
            assert(records@.take(i as int + 1).drop_last() =~= records@.take(i as int));
            assert(records@.take(i as int + 1).last() == records@[i as int]);
        }
        if plan.failed.is_none() {
            let ghost before = plan@;
            match parse_bolt11(records[i].bolt11.as_str()) {
                Err(e) => {
                    plan.failed = Some(e);
                    assert(plan@.delete =~= before.delete);
                },
                Ok(terms) => match clean_kind(
                    records[i].state,
                    records[i].paid_at,
                    terms.expires_at,
                    settings,
                    now,
                ) {
                    CleanKind::Keep => {},
                    CleanKind::Paid => {
                        plan.delete.push(terms.payment_hash);
                        plan.count_paid = plan.count_paid + 1;
                        assert(plan@.delete =~= before.delete.push(terms.payment_hash@));
                    },
                    CleanKind::Expired => {
                        plan.delete.push(terms.payment_hash);
                        plan.count_expired = plan.count_expired + 1;
                        assert(plan@.delete =~= before.delete.push(terms.payment_hash@));
                    },
                },
            }
        }
        i = i + 1;
    }
    assert(records@.take(i as int) =~= records@);
    plan
}

} // verus!
