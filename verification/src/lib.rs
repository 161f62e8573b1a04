//! Hold-invoice engine: the invoice and HTLC state machine of a Lightning
//! hold-invoice plugin, with its contracts.

pub mod args;
pub mod codec;
pub mod config;
pub mod errors;
pub mod hold;
pub mod hooks;
pub mod invoice;
pub mod laws;
pub mod model;
pub mod registry;
pub mod rpc;
pub mod state;
pub mod tasks;
pub mod text;
pub mod tls;
pub mod util;
