//! The options of the plugin and their validation.

use vstd::prelude::*;

use crate::errors::{
    config_value_error, spec_config_value_error, spec_outcome, HoldError, HoldErrorView,
};
use crate::hooks::HoldConfig;

verus! {

/// Name of the option for the cushion in blocks before an HTLC expires.
pub const OPT_CANCEL_HOLD_BEFORE_HTLC_EXPIRY_BLOCKS: &'static str =
    "holdinvoice-cancel-before-htlc-expiry";

/// Name of the option for the cushion in seconds before an invoice expires.
pub const OPT_CANCEL_HOLD_BEFORE_INVOICE_EXPIRY_SECONDS: &'static str =
    "holdinvoice-cancel-before-invoice-expiry";

/// Name of the option for the port of the operator interface.
pub const OPT_GRPC_HOLD_PORT: &'static str = "grpc-hold-port";

/// Name of the option for the startup grace in seconds.
pub const OPT_HOLD_STARTUP_LOCK: &'static str = "hold-startup-lock";

/// The values of the options as the host hands them over.
#[derive(Clone, Copy, Debug)]
pub struct PluginOptions {
    pub cancel_hold_before_htlc_expiry_blocks: i64,
    /// `None` where the invoice-time policy is off.
    pub cancel_hold_before_invoice_expiry_seconds: Option<i64>,
    pub grpc_hold_port: Option<i64>,
    pub hold_startup_lock: i64,
}

/// The policy that valid options give, or the error that names the first
/// invalid one: the cushion in blocks is from 1 to `u32::MAX`; the cushion
/// in seconds, where the policy is on, is positive; the port fits 16 bits;
/// the startup grace is not negative.
pub open spec fn spec_verify_config_options(
    options: PluginOptions,
) -> Result<HoldConfig, HoldErrorView> {
    if !(1 <= options.cancel_hold_before_htlc_expiry_blocks <= u32::MAX) {
        Err(
            spec_config_value_error(
                "holdinvoice-cancel-before-htlc-expiry"@,
                options.cancel_hold_before_htlc_expiry_blocks as int,
            ),
        )
    } else if options.cancel_hold_before_invoice_expiry_seconds matches Some(secs) && secs <= 0 {
        Err(
            spec_config_value_error(
                "holdinvoice-cancel-before-invoice-expiry"@,
                options.cancel_hold_before_invoice_expiry_seconds->0 as int,
            ),
        )
    } else if options.grpc_hold_port matches Some(port) && !(0 <= port <= u16::MAX) {
        Err(spec_config_value_error("grpc-hold-port"@, options.grpc_hold_port->0 as int))
    } else if options.hold_startup_lock < 0 {
        Err(spec_config_value_error("hold-startup-lock"@, options.hold_startup_lock as int))
    } else {
        Ok(
            HoldConfig {
                cancel_before_htlc_blocks: options.cancel_hold_before_htlc_expiry_blocks as u32,
                cancel_before_invoice_seconds: match options.cancel_hold_before_invoice_expiry_seconds {
                    Some(secs) => Some(secs as u64),
                    None => None,
                },
                startup_lock_seconds: options.hold_startup_lock as u64,
            },
        )
    }
}

/// Validates the options and gives the policy of the hold loop.
pub fn verify_config_options(options: &PluginOptions) -> (verified: Result<HoldConfig, HoldError>)
    ensures
        spec_outcome(verified) == spec_verify_config_options(*options),
{
    let blocks = options.cancel_hold_before_htlc_expiry_blocks;
    if blocks < 1 || blocks > u32::MAX as i64 {
        return Err(config_value_error(OPT_CANCEL_HOLD_BEFORE_HTLC_EXPIRY_BLOCKS, blocks));
    }
    let cancel_before_invoice_seconds = match options.cancel_hold_before_invoice_expiry_seconds {
        Some(secs) => {
            if secs <= 0 {
                return Err(config_value_error(OPT_CANCEL_HOLD_BEFORE_INVOICE_EXPIRY_SECONDS, secs));
            }
            Some(secs as u64)
        },
        None => None,
    };
    match options.grpc_hold_port {
        Some(port) => {
            if port < 0 || port > u16::MAX as i64 {
                return Err(config_value_error(OPT_GRPC_HOLD_PORT, port));
            }
        },
        None => {},
    }
    let hold_startup_lock = options.hold_startup_lock;
    if hold_startup_lock < 0 {
        return Err(config_value_error(OPT_HOLD_STARTUP_LOCK, hold_startup_lock));
    }
    Ok(
        HoldConfig {
            cancel_before_htlc_blocks: blocks as u32,
            cancel_before_invoice_seconds,
            startup_lock_seconds: hold_startup_lock as u64,
        },
    )
}

} // verus!
