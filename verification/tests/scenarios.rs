use std::time::Duration;

use bitcoin::hashes::sha256;
use bitcoin::secp256k1::{Secp256k1, SecretKey};
use holdinvoice::args::{ArgField, ArgValue};
use holdinvoice::errors::{ErrorKind, HoldError};
use holdinvoice::hold::{
    cancel_request, drain_step, drain_timeout_error, hold_invoice_cancel, hold_invoice_lookup,
    hold_invoice_settle, settle_request, wake_after_write, ChannelHtlc, ChannelState, DrainStep,
    PeerChannel,
};
use holdinvoice::hooks::{
    block_added, get_failure_message, htlc_handler, loop_htlc_hold, written_record, HandlerStep,
    HoldConfig, Htlc, HtlcHook, HtlcVerdict, LoopAction, LoopEvent, PendingWrite, RecordLookup,
    StoredInvoice,
};
use holdinvoice::model::{HoldInvoiceResponse, HoldStateResponse, Holdstate};
use holdinvoice::state::PluginState;
use lightning_invoice::{Currency, InvoiceBuilder, PaymentSecret};

const BHT: u32 = 800_000;
const START: u64 = 1_700_000_000;

fn scenario_config() -> HoldConfig {
    HoldConfig {
        cancel_before_htlc_blocks: 6,
        cancel_before_invoice_seconds: None,
        startup_lock_seconds: 10,
    }
}

fn scenario_args(value: &serde_json::Value) -> ArgValue {
    let json = value.to_string();
    match value {
        serde_json::Value::Null => ArgValue::Null,
        serde_json::Value::Bool(b) => ArgValue::Bool(*b),
        serde_json::Value::Number(n) => ArgValue::Number { unsigned: n.as_u64(), json },
        serde_json::Value::String(s) => ArgValue::Text { text: s.clone(), json },
        serde_json::Value::Array(items) => {
            ArgValue::Array { items: items.iter().map(scenario_args).collect(), json }
        }
        serde_json::Value::Object(map) => ArgValue::Object {
            fields: map
                .iter()
                .map(|(key, value)| ArgField { key: key.clone(), value: scenario_args(value) })
                .collect(),
            json,
        },
    }
}

fn scenario_json(text: &str) -> ArgValue {
    scenario_args(&serde_json::from_str::<serde_json::Value>(text).unwrap())
}

/// The datastore of the host, with its generations.
struct ScenarioStore {
    entries: Vec<(HoldInvoiceResponse, u64)>,
}

impl ScenarioStore {
    fn position(&self, hash: &str) -> Option<usize> {
        self.entries.iter().position(|(record, _)| record.payment_hash == hash)
    }

    fn create(&mut self, record: HoldInvoiceResponse) -> bool {
        if self.position(&record.payment_hash).is_some() {
            return false;
        }
        self.entries.push((record, 0));
        true
    }

    fn get(&self, hash: &str) -> Option<StoredInvoice> {
        self.position(hash).map(|at| StoredInvoice {
            record: self.entries[at].0.clone(),
            generation: self.entries[at].1,
        })
    }

    fn replace_cas(&mut self, hash: &str, write: &PendingWrite, now: u64) -> bool {
        match self.position(hash) {
            Some(at) if self.entries[at].1 == write.generation => {
                let record = self.entries[at].0.clone();
                self.entries[at].0 = written_record(record, write, now);
                self.entries[at].1 += 1;
                true
            }
            _ => false,
        }
    }

    fn replace_force(&mut self, record: HoldInvoiceResponse) -> bool {
        match self.position(&record.payment_hash) {
            Some(at) => {
                self.entries[at].0 = record;
                self.entries[at].1 += 1;
                true
            }
            None => false,
        }
    }

    fn state_of(&self, hash: &str) -> Holdstate {
        self.get(hash).unwrap().record.state
    }
}

fn scenario_hash(preimage: [u8; 32]) -> sha256::Hash {
    <sha256::Hash as bitcoin::hashes::Hash>::hash(&preimage)
}

fn scenario_record(preimage: [u8; 32], amount_msat: u64, created_at: u64, expiry: u64, state: Holdstate) -> HoldInvoiceResponse {
    let key = SecretKey::from_slice(&[0x42; 32]).unwrap();
    let bolt11 = InvoiceBuilder::new(Currency::Regtest)
        .description("hold".to_owned())
        .payment_hash(scenario_hash(preimage))
        .payment_secret(PaymentSecret([7; 32]))
        .duration_since_epoch(Duration::from_secs(created_at))
        .min_final_cltv_expiry_delta(144)
        .expiry_time(Duration::from_secs(expiry))
        .amount_milli_satoshis(amount_msat)
        .build_signed(|hash| Secp256k1::new().sign_ecdsa_recoverable(hash, &key))
        .unwrap()
        .to_string();
    HoldInvoiceResponse {
        bolt11,
        payment_hash: scenario_hash(preimage).to_string(),
        payment_secret: hex::encode([7u8; 32]),
        expires_at: created_at + expiry,
        preimage: Some(hex::encode(preimage)),
        description: None,
        description_hash: None,
        state,
        htlc_expiry: None,
        paid_at: None,
    }
}

fn scenario_htlc(hash: &str, id: u64, amount_msat: u64, cltv_expiry: u32) -> Htlc {
    Htlc {
        short_channel_id: (700_000 << 40) | (1 << 16),
        id,
        amount_msat,
        cltv_expiry,
        cltv_expiry_relative: (cltv_expiry - BHT) as u64,
        payment_hash: hash.to_owned(),
    }
}

/// The host delivers an HTLC to the hook; the datastore is asked where the
/// hook wants the record.
fn scenario_deliver(state: &mut PluginState, store: &ScenarioStore, htlc: &Htlc) -> HandlerStep {
    let hook = HtlcHook { htlc: htlc.clone(), forward_to: None };
    match htlc_handler(state, &hook, &RecordLookup::NotQueried) {
        HandlerStep::NeedRecord => {
            let lookup = match store.get(&htlc.payment_hash) {
                Some(stored) => RecordLookup::Found(stored),
                None => RecordLookup::Missing,
            };
            htlc_handler(state, &hook, &lookup)
        }
        step => step,
    }
}

/// One iteration of the hold loop of an HTLC: reads and writes are done as
/// the loop asks, until it waits, announces or ends.
fn scenario_iterate(state: &mut PluginState, store: &mut ScenarioStore, htlc: &Htlc, now: u64) -> LoopAction {
    let cfg = scenario_config();
    let mut action = loop_htlc_hold(state, htlc, &cfg, now, &LoopEvent::Wake);
    loop {
        action = match action {
            LoopAction::Fetch => {
                let fetched = store.get(&htlc.payment_hash);
                loop_htlc_hold(state, htlc, &cfg, now, &LoopEvent::Fetched(fetched))
            }
            LoopAction::Write(write) => {
                let done = store.replace_cas(&htlc.payment_hash, &write, now);
                loop_htlc_hold(state, htlc, &cfg, now, &LoopEvent::Written { write, done })
            }
            other => return other,
        };
    }
}

fn scenario_channels(live: &[(&str, u64)]) -> Vec<PeerChannel> {
    vec![PeerChannel {
        state: ChannelState::Normal,
        short_channel_id: Some((700_000 << 40) | (1 << 16)),
        peer_connected: true,
        private: Some(false),
        htlcs: Some(
            live.iter()
                .map(|(hash, id)| ChannelHtlc { id: *id, payment_hash: (*hash).to_owned() })
                .collect(),
        ),
    }]
}

/// The settle command up to the barrier.
fn scenario_settle(state: &mut PluginState, store: &mut ScenarioStore, args: &str, now: u64) -> Result<HoldStateResponse, HoldError> {
    let request = settle_request(&scenario_json(args))?;
    let record = hold_invoice_settle(store.get(&request.payment_hash), &request, now)?;
    assert!(store.replace_force(record));
    wake_after_write(state, &request.payment_hash, Holdstate::Settled)?;
    Ok(HoldStateResponse { state: Holdstate::Settled })
}

/// The cancel command up to the barrier.
fn scenario_cancel(state: &mut PluginState, store: &mut ScenarioStore, args: &str) -> Result<HoldStateResponse, HoldError> {
    let pay_hash = cancel_request(&scenario_json(args))?;
    let record = hold_invoice_cancel(store.get(&pay_hash), &pay_hash)?;
    assert!(store.replace_force(record));
    wake_after_write(state, &pay_hash, Holdstate::Canceled)?;
    Ok(HoldStateResponse { state: Holdstate::Canceled })
}

fn scenario_setup(state_of_record: Holdstate, preimage: [u8; 32], amount_msat: u64) -> (PluginState, ScenarioStore, String) {
    let mut state = PluginState::new(START);
    block_added(&mut state, BHT);
    let mut store = ScenarioStore { entries: Vec::new() };
    let record = scenario_record(preimage, amount_msat, START, 3600, state_of_record);
    let hash = record.payment_hash.clone();
    assert!(store.create(record));
    (state, store, hash)
}

#[test]
fn single_htlc_happy_path() {
    let preimage = [0x11; 32];
    let (mut state, mut store, hash) = scenario_setup(Holdstate::Open, preimage, 1000);
    let now = START + 100;
    let htlc = scenario_htlc(&hash, 0, 1000, BHT + 40);

    assert!(matches!(scenario_deliver(&mut state, &store, &htlc), HandlerStep::Hold(_)));
    match scenario_iterate(&mut state, &mut store, &htlc, now) {
        LoopAction::Accepted { payment_hash, htlc_expiry } => {
            assert_eq!(payment_hash, hash);
            assert_eq!(htlc_expiry, BHT + 40);
        }
        other => panic!("{:?}", other),
    }
    assert_eq!(store.state_of(&hash), Holdstate::Accepted);
    assert!(matches!(scenario_iterate(&mut state, &mut store, &htlc, now + 2), LoopAction::Idle));

    let args = format!("{{\"payment_hash\":\"{}\"}}", hash);
    let answer = scenario_settle(&mut state, &mut store, &args, now + 5).unwrap();
    assert_eq!(answer.state, Holdstate::Settled);
    assert_eq!(store.get(&hash).unwrap().record.paid_at, Some(now + 5));

    match scenario_iterate(&mut state, &mut store, &htlc, now + 6) {
        LoopAction::Verdict(HtlcVerdict::Resolve { payment_key }) => {
            assert_eq!(payment_key, hex::encode(preimage));
            assert_eq!(holdinvoice::codec::payment_hash_of(&payment_key).unwrap(), hash);
        }
        other => panic!("{:?}", other),
    }
    assert_eq!(state.len(), 0);
    assert_eq!(drain_step(&scenario_channels(&[]), &hash, 0), DrainStep::Drained);
    assert_eq!(store.state_of(&hash), Holdstate::Settled);
}

#[test]
fn multipath_aggregation() {
    let (mut state, mut store, hash) = scenario_setup(Holdstate::Open, [0x22; 32], 1000);
    let now = START + 100;
    let first = scenario_htlc(&hash, 0, 600, BHT + 40);
    let second = scenario_htlc(&hash, 1, 400, BHT + 60);

    assert!(matches!(scenario_deliver(&mut state, &store, &first), HandlerStep::Hold(_)));
    assert!(matches!(scenario_iterate(&mut state, &mut store, &first, now), LoopAction::Idle));
    assert_eq!(store.state_of(&hash), Holdstate::Open);

    assert!(matches!(scenario_deliver(&mut state, &store, &second), HandlerStep::Hold(_)));
    match scenario_iterate(&mut state, &mut store, &second, now + 1) {
        LoopAction::Accepted { htlc_expiry, .. } => assert_eq!(htlc_expiry, BHT + 40),
        other => panic!("{:?}", other),
    }
    assert_eq!(store.state_of(&hash), Holdstate::Accepted);

    let args = format!("[\"{}\"]", hash);
    assert_eq!(scenario_cancel(&mut state, &mut store, &args).unwrap().state, Holdstate::Canceled);

    for htlc in [&first, &second] {
        match scenario_iterate(&mut state, &mut store, htlc, now + 3) {
            LoopAction::Verdict(HtlcVerdict::Fail { failure_message }) => {
                assert_eq!(
                    failure_message,
                    format!("400F{:016X}{:08X}", htlc.amount_msat, BHT)
                );
                assert_eq!(failure_message, get_failure_message(BHT, htlc.amount_msat));
            }
            other => panic!("{:?}", other),
        }
    }
    assert_eq!(state.len(), 0);
}

#[test]
fn soft_expiry_settles_an_accepted_invoice() {
    let preimage = [0x33; 32];
    let (mut state, mut store, hash) = scenario_setup(Holdstate::Accepted, preimage, 1000);
    let now = START + 100;
    let htlc = scenario_htlc(&hash, 0, 1000, BHT + 40);
    assert!(matches!(scenario_deliver(&mut state, &store, &htlc), HandlerStep::Hold(_)));
    assert!(matches!(scenario_iterate(&mut state, &mut store, &htlc, now), LoopAction::Idle));

    block_added(&mut state, BHT + 33);
    assert!(matches!(scenario_iterate(&mut state, &mut store, &htlc, now + 1), LoopAction::Idle));
    assert_eq!(store.state_of(&hash), Holdstate::Accepted);

    block_added(&mut state, BHT + 34);
    match scenario_iterate(&mut state, &mut store, &htlc, now + 2) {
        LoopAction::Verdict(HtlcVerdict::Resolve { payment_key }) => {
            assert_eq!(payment_key, hex::encode(preimage))
        }
        other => panic!("{:?}", other),
    }
    assert_eq!(store.state_of(&hash), Holdstate::Settled);
    assert_eq!(store.get(&hash).unwrap().record.paid_at, Some(now + 2));
}

#[test]
fn hard_expiry_cancels() {
    let (mut state, mut store, hash) = scenario_setup(Holdstate::Accepted, [0x34; 32], 1000);
    let htlc = scenario_htlc(&hash, 0, 1000, BHT + 40);
    scenario_deliver(&mut state, &store, &htlc);
    block_added(&mut state, BHT + 40);
    match scenario_iterate(&mut state, &mut store, &htlc, START + 100) {
        LoopAction::Verdict(HtlcVerdict::Fail { failure_message }) => {
            assert_eq!(failure_message, get_failure_message(BHT + 40, 1000))
        }
        other => panic!("{:?}", other),
    }
    assert_eq!(store.state_of(&hash), Holdstate::Canceled);
}

#[test]
fn generation_conflict() {
    let (mut state, mut store, hash) = scenario_setup(Holdstate::Accepted, [0x44; 32], 1000);
    let cfg = scenario_config();
    let now = START + 100;
    let htlc = scenario_htlc(&hash, 0, 1000, BHT + 6);
    assert!(matches!(scenario_deliver(&mut state, &store, &htlc), HandlerStep::Hold(_)));

    assert!(matches!(loop_htlc_hold(&mut state, &htlc, &cfg, now, &LoopEvent::Wake), LoopAction::Fetch));
    let fetched = store.get(&hash);
    let write = match loop_htlc_hold(&mut state, &htlc, &cfg, now, &LoopEvent::Fetched(fetched)) {
        LoopAction::Write(write) => write,
        other => panic!("{:?}", other),
    };
    assert_eq!(write.new_state, Holdstate::Settled);
    assert!(write.on_expiry);

    let args = format!("{{\"payment_hash\":\"{}\"}}", hash);
    scenario_cancel(&mut state, &mut store, &args).unwrap();

    let done = store.replace_cas(&hash, &write, now);
    assert!(!done);
    assert!(matches!(
        loop_htlc_hold(&mut state, &htlc, &cfg, now, &LoopEvent::Written { write, done }),
        LoopAction::Idle
    ));
    assert!(matches!(
        scenario_iterate(&mut state, &mut store, &htlc, now + 2),
        LoopAction::Verdict(HtlcVerdict::Fail { .. })
    ));
    assert_eq!(store.state_of(&hash), Holdstate::Canceled);
}

#[test]
fn drain_timeout() {
    let (mut state, mut store, hash) = scenario_setup(Holdstate::Accepted, [0x55; 32], 1000);
    let htlc = scenario_htlc(&hash, 0, 1000, BHT + 40);
    scenario_deliver(&mut state, &store, &htlc);
    let args = format!("{{\"payment_hash\":\"{}\"}}", hash);
    scenario_cancel(&mut state, &mut store, &args).unwrap();

    let upper = hash.to_uppercase();
    let stuck = scenario_channels(&[(upper.as_str(), 0)]);
    let mut elapsed = 0;
    let outcome = loop {
        match drain_step(&stuck, &hash, elapsed) {
            DrainStep::Wait => elapsed += 2,
            other => break other,
        }
    };
    assert_eq!(outcome, DrainStep::TimedOut);
    assert_eq!(elapsed, 30);
    assert_eq!(drain_step(&stuck, &hash, 29), DrainStep::Wait);
    assert_eq!(drain_step(&stuck, &hash, 30), DrainStep::TimedOut);
    assert_eq!(drain_step(&stuck, &hash, 31), DrainStep::TimedOut);
    assert_eq!(store.state_of(&hash), Holdstate::Canceled);
    assert!(state.get(&hash).unwrap().htlc_data.iter().all(|entry| entry.htlc.wake));
    let e = drain_timeout_error(Holdstate::Canceled);
    assert_eq!(e.kind, ErrorKind::DrainTimeout);
    assert_eq!(
        e.message,
        "holdinvoicelookup: Timed out before cancellation of all related htlcs was finished"
    );

    let shown = hold_invoice_lookup(&state, store.get(&hash).unwrap().record, START + 200).unwrap();
    assert_eq!(shown.record.state, Holdstate::Canceled);
    assert!(!shown.cancel);
}

#[test]
fn restart_replay() {
    let preimage = [0x66; 32];
    let record = scenario_record(preimage, 1000, START - 10_000, 3600, Holdstate::Open);
    let hash = record.payment_hash.clone();
    let mut store = ScenarioStore { entries: Vec::new() };
    store.create(record);

    let mut state = PluginState::new(START);
    block_added(&mut state, BHT);
    let htlc = scenario_htlc(&hash, 0, 1000, BHT + 200);
    assert!(matches!(scenario_deliver(&mut state, &store, &htlc), HandlerStep::Hold(_)));
    assert!(matches!(
        scenario_iterate(&mut state, &mut store, &htlc, START + 10),
        LoopAction::Accepted { .. }
    ));
    assert_eq!(store.state_of(&hash), Holdstate::Accepted);

    let args = format!("{{\"preimage\":\"{}\"}}", hex::encode(preimage));
    scenario_settle(&mut state, &mut store, &args, START + 12).unwrap();
    assert!(matches!(
        scenario_iterate(&mut state, &mut store, &htlc, START + 13),
        LoopAction::Verdict(HtlcVerdict::Resolve { .. })
    ));
}

#[test]
fn startup_grace_then_cancel() {
    let record = scenario_record([0x67; 32], 1000, START - 10_000, 3600, Holdstate::Open);
    let hash = record.payment_hash.clone();
    let mut store = ScenarioStore { entries: Vec::new() };
    store.create(record);
    let mut state = PluginState::new(START);
    block_added(&mut state, BHT);
    let htlc = scenario_htlc(&hash, 0, 400, BHT + 200);
    scenario_deliver(&mut state, &store, &htlc);

    assert!(matches!(scenario_iterate(&mut state, &mut store, &htlc, START + 10), LoopAction::Idle));
    assert_eq!(store.state_of(&hash), Holdstate::Open);

    state.wake_everything();
    assert!(matches!(scenario_iterate(&mut state, &mut store, &htlc, START + 11), LoopAction::Idle));
    assert_eq!(store.state_of(&hash), Holdstate::Canceled);
    assert!(matches!(
        scenario_iterate(&mut state, &mut store, &htlc, START + 13),
        LoopAction::Verdict(HtlcVerdict::Fail { .. })
    ));
}

#[test]
fn htlc_after_cancel_is_failed_at_once() {
    let (mut state, mut store, hash) = scenario_setup(Holdstate::Open, [0x77; 32], 1000);
    let args = format!("{{\"payment_hash\":\"{}\"}}", hash);
    scenario_cancel(&mut state, &mut store, &args).unwrap();
    let htlc = scenario_htlc(&hash, 4, 1000, BHT + 40);
    match scenario_deliver(&mut state, &store, &htlc) {
        HandlerStep::Verdict(HtlcVerdict::Fail { failure_message }) => {
            assert_eq!(failure_message, get_failure_message(BHT, 1000))
        }
        other => panic!("{:?}", other),
    }
    assert_eq!(state.len(), 0);
    let again = scenario_cancel(&mut state, &mut store, &args).unwrap_err();
    assert_eq!(again.kind, ErrorKind::WrongState);
    assert_eq!(again.message, "Holdinvoice is in wrong state: `CANCELED`");
}

#[test]
fn settle_after_settle_is_the_wrong_state() {
    let preimage = [0x78; 32];
    let (mut state, mut store, hash) = scenario_setup(Holdstate::Accepted, preimage, 1000);
    let htlc = scenario_htlc(&hash, 0, 1000, BHT + 40);
    scenario_deliver(&mut state, &store, &htlc);
    let args = format!("{{\"preimage\":\"{}\"}}", hex::encode(preimage));
    scenario_settle(&mut state, &mut store, &args, START + 1).unwrap();
    let again = scenario_settle(&mut state, &mut store, &args, START + 2).unwrap_err();
    assert_eq!(again.kind, ErrorKind::WrongState);
    assert_eq!(store.get(&hash).unwrap().record.paid_at, Some(START + 1));
    let shown = hold_invoice_lookup(&state, store.get(&hash).unwrap().record, START + 3).unwrap();
    assert_eq!(shown.record.state, Holdstate::Settled);
}
