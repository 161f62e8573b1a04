use std::time::Duration;

use bitcoin::hashes::sha256;
use bitcoin::secp256k1::{Secp256k1, SecretKey};
use holdinvoice::codec::payment_hash_of;
use holdinvoice::errors::ErrorKind;
use holdinvoice::invoice::{hold_terms, parse_bolt11, Bolt11Terms};
use lightning_invoice::{Currency, InvoiceBuilder, PaymentSecret};

fn reading_sha256(data: &[u8]) -> sha256::Hash {
    <sha256::Hash as bitcoin::hashes::Hash>::hash(data)
}

fn reading_invoice(preimage: [u8; 32], amount_msat: Option<u64>, created_at: u64, expiry: u64) -> String {
    let key = SecretKey::from_slice(&[0x42; 32]).unwrap();
    let builder = InvoiceBuilder::new(Currency::Regtest)
        .description("hold".to_owned())
        .payment_hash(reading_sha256(&preimage))
        .payment_secret(PaymentSecret([7; 32]))
        .duration_since_epoch(Duration::from_secs(created_at))
        .min_final_cltv_expiry_delta(144)
        .expiry_time(Duration::from_secs(expiry));
    let builder = match amount_msat {
        Some(amount) => builder.amount_milli_satoshis(amount),
        None => builder,
    };
    builder
        .build_signed(|hash| Secp256k1::new().sign_ecdsa_recoverable(hash, &key))
        .unwrap()
        .to_string()
}

#[test]
fn parsed_invoice_keeps_the_payment_hash() {
    let preimage = [3u8; 32];
    let text = reading_invoice(preimage, Some(1000), 1_700_000_000, 3600);
    let terms = parse_bolt11(&text).unwrap();
    assert_eq!(terms.payment_hash, payment_hash_of(&hex::encode(preimage)).unwrap());
    assert_eq!(terms.payment_hash, reading_sha256(&preimage).to_string());
}

#[test]
fn parsed_invoice_terms() {
    let text = reading_invoice([1; 32], Some(250_000), 1_700_000_000, 604_800);
    let terms = parse_bolt11(&text).unwrap();
    assert_eq!(terms.amount_msat, Some(250_000));
    assert_eq!(terms.expires_at, Some(1_700_604_800));
    let held = hold_terms(&terms).unwrap();
    assert_eq!(held.amount_msat, 250_000);
    assert_eq!(held.expires_at, Some(1_700_604_800));
}

#[test]
fn invoice_text_that_is_no_invoice() {
    let e = parse_bolt11("lnbc1notaninvoice").unwrap_err();
    assert_eq!(e.kind, ErrorKind::InputError);
    assert_eq!(e.message, "invalid bolt11 invoice: `lnbc1notaninvoice`");
    assert!(parse_bolt11("").is_err());
}

#[test]
fn invoice_with_a_changed_character_is_rejected() {
    let text = reading_invoice([1; 32], Some(1000), 1_700_000_000, 3600);
    let mut changed = text.clone();
    let last = changed.pop().unwrap();
    changed.push(if last == 'q' { 'p' } else { 'q' });
    assert!(parse_bolt11(&changed).is_err());
}

#[test]
fn invoice_without_amount_holds_no_htlc() {
    let text = reading_invoice([1; 32], None, 1_700_000_000, 3600);
    let terms = parse_bolt11(&text).unwrap();
    assert_eq!(terms.amount_msat, None);
    let e = hold_terms(&terms).unwrap_err();
    assert_eq!(e.kind, ErrorKind::Fatal);
    assert_eq!(e.message, "Internal error: invoice without amount");
}

#[test]
fn hold_terms_of_given_values() {
    let terms = Bolt11Terms { amount_msat: Some(5), expires_at: None, payment_hash: String::new() };
    let held = hold_terms(&terms).unwrap();
    assert_eq!(held.amount_msat, 5);
    assert_eq!(held.expires_at, None);
}
