use holdinvoice::args::{ArgField, ArgValue};
use holdinvoice::errors::ErrorKind;
use holdinvoice::hold::{
    cancel_request, hold_invoice, hold_invoice_answer, hold_invoice_cancel, hold_invoice_settle,
    lookup_entry, lookup_request, normalize_invoice_args, settle_request, wake_after_write,
    ChannelState, DecodedInvoice, PeerChannel, SettleRequest,
};
use holdinvoice::hooks::{htlc_register, HoldConfig, Htlc, StoredInvoice};
use holdinvoice::model::{HoldInvoiceResponse, Holdstate, InvoiceTerms};
use holdinvoice::state::PluginState;
use holdinvoice::util::{
    build_invoice_request, derive_payment_pair, parse_payment_hash, parse_preimage, parse_scid,
    select_private_channels,
};

const HASH: &str = "66687aadf862bd776c8fc18b8e9f8e20089714856ee233b3902a591d0d5f2925";
const PREIMAGE: &str = "0000000000000000000000000000000000000000000000000000000000000000";

fn command_args(value: &serde_json::Value) -> ArgValue {
    let json = value.to_string();
    match value {
        serde_json::Value::Null => ArgValue::Null,
        serde_json::Value::Bool(b) => ArgValue::Bool(*b),
        serde_json::Value::Number(n) => ArgValue::Number { unsigned: n.as_u64(), json },
        serde_json::Value::String(s) => ArgValue::Text { text: s.clone(), json },
        serde_json::Value::Array(items) => {
            ArgValue::Array { items: items.iter().map(command_args).collect(), json }
        }
        serde_json::Value::Object(map) => ArgValue::Object {
            fields: map
                .iter()
                .map(|(key, value)| ArgField { key: key.clone(), value: command_args(value) })
                .collect(),
            json,
        },
    }
}

fn command_json(text: &str) -> ArgValue {
    command_args(&serde_json::from_str::<serde_json::Value>(text).unwrap())
}

fn command_config() -> HoldConfig {
    HoldConfig {
        cancel_before_htlc_blocks: 6,
        cancel_before_invoice_seconds: None,
        startup_lock_seconds: 10,
    }
}

fn command_record(state: Holdstate, preimage: Option<&str>) -> HoldInvoiceResponse {
    HoldInvoiceResponse {
        bolt11: "lnbcrt1".to_owned(),
        payment_hash: HASH.to_owned(),
        payment_secret: "07".repeat(32),
        expires_at: 1_700_003_600,
        preimage: preimage.map(|p| p.to_owned()),
        description: None,
        description_hash: None,
        state,
        htlc_expiry: None,
        paid_at: None,
    }
}

fn command_stored(state: Holdstate, preimage: Option<&str>) -> Option<StoredInvoice> {
    Some(StoredInvoice { record: command_record(state, preimage), generation: 4 })
}

#[test]
fn payment_hash_argument() {
    let args = command_json(&format!("{{\"payment_hash\":\"{}\"}}", HASH));
    assert_eq!(parse_payment_hash(&args).unwrap(), HASH);
}

#[test]
fn payment_hash_argument_errors() {
    let e = parse_payment_hash(&command_json("{\"payment_hash\":\"abc\"}")).unwrap_err();
    assert_eq!(e.kind, ErrorKind::InputError);
    assert_eq!(e.message, "payment_hash: should be a 32 byte hex value: invalid token `abc`");

    let e = parse_payment_hash(&command_json("{\"payment_hash\":12}")).unwrap_err();
    assert_eq!(e.message, "payment_hash: should be a 32 byte hex value: invalid token `12`");

    let e = parse_payment_hash(&command_json("{}")).unwrap_err();
    assert_eq!(e.message, "missing required parameter: payment_hash");

    let e = parse_payment_hash(&command_json("{\"payment_hash\":\"ab\",\"zz\":1,\"aa\":2}")).unwrap_err();
    assert_eq!(e.message, "Invalid argument: `aa`");

    let e = parse_payment_hash(&command_json("[1,2]")).unwrap_err();
    assert_eq!(e.message, "Invalid input: `[1,2]`");

    let e = parse_payment_hash(&command_json("\"abc\"")).unwrap_err();
    assert_eq!(e.message, "Invalid input: `\"abc\"`");

    let e = parse_payment_hash(&ArgValue::Null).unwrap_err();
    assert_eq!(e.message, "Invalid input: `null`");
}

#[test]
fn payment_hash_length_counts_bytes() {
    let text = "é".repeat(32);
    assert_eq!(text.len(), 64);
    let args = command_json(&format!("{{\"payment_hash\":\"{}\"}}", text));
    assert_eq!(parse_payment_hash(&args).unwrap(), text);
    let args = command_json(&format!("{{\"payment_hash\":\"{}\"}}", "é".repeat(64)));
    assert!(parse_payment_hash(&args).is_err());
}

#[test]
fn preimage_argument() {
    let args = command_json(&format!("{{\"preimage\":\"{}\"}}", PREIMAGE));
    assert_eq!(parse_preimage(&args).unwrap(), PREIMAGE);
    let e = parse_preimage(&command_json("{\"payment_hash\":\"x\"}")).unwrap_err();
    assert_eq!(e.message, "Invalid argument: `payment_hash`");
    let e = parse_preimage(&command_json("{\"preimage\":true}")).unwrap_err();
    assert_eq!(e.message, "preimage: should be a 32 byte hex value: invalid token `true`");
    let e = parse_preimage(&command_json("{}")).unwrap_err();
    assert_eq!(e.message, "missing required parameter: preimage");
}

#[test]
fn settle_names_a_hash_or_a_preimage() {
    let by_hash = settle_request(&command_json(&format!("{{\"payment_hash\":\"{}\"}}", HASH))).unwrap();
    assert_eq!(by_hash.payment_hash, HASH);
    assert_eq!(by_hash.preimage, None);

    let by_preimage = settle_request(&command_json(&format!("{{\"preimage\":\"{}\"}}", PREIMAGE))).unwrap();
    assert_eq!(by_preimage.payment_hash, HASH);
    assert_eq!(by_preimage.preimage.as_deref(), Some(PREIMAGE));
}

#[test]
fn settle_argument_errors() {
    let e = settle_request(&command_json("{}")).unwrap_err();
    assert_eq!(e.kind, ErrorKind::InputError);
    assert_eq!(
        e.message,
        "Invalid input: `neither payment_hash nor preimage were valid, make sure to use `-k` on the CLI`"
    );
    let both = format!("{{\"payment_hash\":\"{}\",\"preimage\":\"{}\"}}", HASH, PREIMAGE);
    let e = settle_request(&command_json(&both)).unwrap_err();
    assert_eq!(
        e.message,
        "Invalid input: `neither payment_hash nor preimage were valid, make sure to use `-k` on the CLI`"
    );
    let e = settle_request(&command_json(&format!("[\"{}\"]", HASH))).unwrap_err();
    assert_eq!(e.kind, ErrorKind::InputError);
    let not_hex = format!("{{\"preimage\":\"{}\"}}", "z".repeat(64));
    let e = settle_request(&command_json(&not_hex)).unwrap_err();
    assert_eq!(
        e.message,
        format!("preimage: should be hexadecimal: invalid token `{}`", "z".repeat(64))
    );
}

#[test]
fn settle_writes_the_record_settled() {
    let request = SettleRequest { payment_hash: HASH.to_owned(), preimage: None };
    let record = hold_invoice_settle(command_stored(Holdstate::Accepted, Some(PREIMAGE)), &request, 1234).unwrap();
    assert_eq!(record.state, Holdstate::Settled);
    assert_eq!(record.paid_at, Some(1234));
    assert_eq!(record.preimage.as_deref(), Some(PREIMAGE));
    assert_eq!(record.payment_hash, HASH);
    assert_eq!(record.bolt11, "lnbcrt1");
}

#[test]
fn settle_attaches_the_preimage_given() {
    let request = SettleRequest { payment_hash: HASH.to_owned(), preimage: Some(PREIMAGE.to_owned()) };
    let record = hold_invoice_settle(command_stored(Holdstate::Accepted, None), &request, 9).unwrap();
    assert_eq!(record.preimage.as_deref(), Some(PREIMAGE));
    assert_eq!(record.state, Holdstate::Settled);
}

#[test]
fn settle_errors() {
    let request = SettleRequest { payment_hash: HASH.to_owned(), preimage: None };
    let e = hold_invoice_settle(None, &request, 1).unwrap_err();
    assert_eq!(e.kind, ErrorKind::NotFound);
    assert_eq!(e.message, format!("payment_hash `{}` not found", HASH));

    for state in [Holdstate::Open, Holdstate::Settled, Holdstate::Canceled] {
        let e = hold_invoice_settle(command_stored(state, Some(PREIMAGE)), &request, 1).unwrap_err();
        assert_eq!(e.kind, ErrorKind::WrongState);
        assert_eq!(e.message, format!("Holdinvoice is in wrong state: `{}`", state.to_string()));
    }

    let e = hold_invoice_settle(command_stored(Holdstate::Accepted, None), &request, 1).unwrap_err();
    assert_eq!(e.kind, ErrorKind::InputError);
    assert_eq!(e.message, "Invalid input: `Must provide missing preimage instead of payment_hash!`");

    let other = "11".repeat(32);
    let foreign = SettleRequest { payment_hash: HASH.to_owned(), preimage: Some(other.clone()) };
    let e = hold_invoice_settle(command_stored(Holdstate::Accepted, Some(PREIMAGE)), &foreign, 1).unwrap_err();
    assert_eq!(e.kind, ErrorKind::InputError);
    assert_eq!(e.message, format!("payment_hash: `{}` does not match preimage: `{}`", HASH, other));
}

#[test]
fn cancel_arguments() {
    assert_eq!(cancel_request(&command_json(&format!("[\"{}\"]", HASH))).unwrap(), HASH);
    assert_eq!(cancel_request(&command_json(&format!("{{\"payment_hash\":\"{}\"}}", HASH))).unwrap(), HASH);
    let e = cancel_request(&command_json("[]")).unwrap_err();
    assert_eq!(e.message, "missing required parameter: payment_hash");
    let e = cancel_request(&command_json("[\"a\",\"b\"]")).unwrap_err();
    assert_eq!(e.message, "too many parameters: got 2, expected 1");
    let e = cancel_request(&command_json("[\"abc\"]")).unwrap_err();
    assert_eq!(e.message, "payment_hash: should be a 32 byte hex value: invalid token `abc`");
    let e = cancel_request(&command_json("[5]")).unwrap_err();
    assert_eq!(e.message, "payment_hash: should be a 32 byte hex value: invalid token `5`");
    let e = cancel_request(&command_json("7")).unwrap_err();
    assert_eq!(e.message, "Invalid input: `7`");
}

#[test]
fn cancel_writes_the_record_canceled() {
    for state in [Holdstate::Open, Holdstate::Accepted] {
        let record = hold_invoice_cancel(command_stored(state, None), HASH).unwrap();
        assert_eq!(record.state, Holdstate::Canceled);
        assert_eq!(record.payment_hash, HASH);
    }
}

#[test]
fn cancel_errors() {
    let e = hold_invoice_cancel(None, HASH).unwrap_err();
    assert_eq!(e.kind, ErrorKind::NotFound);
    assert_eq!(e.message, format!("payment_hash `{}` not found", HASH));
    for state in [Holdstate::Settled, Holdstate::Canceled] {
        let e = hold_invoice_cancel(command_stored(state, None), HASH).unwrap_err();
        assert_eq!(e.kind, ErrorKind::WrongState);
    }
}

#[test]
fn waking_after_a_write() {
    let mut state = PluginState::new(0);
    let e = wake_after_write(&mut state, HASH, Holdstate::Settled).unwrap_err();
    assert_eq!(e.kind, ErrorKind::Fatal);
    assert_eq!(e.message, format!("Invoice dropped from internal state unexpectedly: {}", HASH));
    assert!(wake_after_write(&mut state, HASH, Holdstate::Canceled).is_ok());

    let htlc = Htlc {
        short_channel_id: 1,
        id: 2,
        amount_msat: 3,
        cltv_expiry: 4,
        cltv_expiry_relative: 5,
        payment_hash: HASH.to_owned(),
    };
    let terms = InvoiceTerms { amount_msat: 3, expires_at: None };
    htlc_register(&mut state, &htlc, Holdstate::Accepted, 0, None, terms);
    state.holdinvoices[0].holdinvoice.htlc_data[0].htlc.wake = false;
    assert!(wake_after_write(&mut state, HASH, Holdstate::Settled).is_ok());
    assert!(state.get(HASH).unwrap().htlc_data[0].htlc.wake);
}

#[test]
fn lookup_arguments() {
    assert_eq!(lookup_request(&command_json("{}")).unwrap(), None);
    assert_eq!(lookup_request(&command_json("[]")).unwrap(), None);
    assert_eq!(
        lookup_request(&command_json("{\"other\":1}")).unwrap_err().message,
        "Invalid argument: `other`"
    );
    assert_eq!(
        lookup_request(&command_json(&format!("{{\"payment_hash\":\"{}\"}}", HASH))).unwrap().as_deref(),
        Some(HASH)
    );
    assert_eq!(lookup_request(&command_json(&format!("[\"{}\"]", HASH))).unwrap().as_deref(), Some(HASH));
    assert_eq!(lookup_request(&command_json("[1,2,3]")).unwrap_err().message, "too many parameters: got 3, expected 1");
    assert_eq!(lookup_request(&command_json("true")).unwrap_err().message, "Invalid input: `true`");
    assert_eq!(
        lookup_request(&command_json("{\"payment_hash\":\"ab\",\"x\":1}")).unwrap_err().message,
        "Invalid argument: `x`"
    );
}

#[test]
fn lookup_reports_by_state() {
    let mut state = PluginState::new(0);
    let open = lookup_entry(&state, command_record(Holdstate::Open, None), false).unwrap();
    assert_eq!(open.record.state, Holdstate::Open);
    assert!(!open.cancel);

    let expired = lookup_entry(&state, command_record(Holdstate::Open, None), true).unwrap();
    assert_eq!(expired.record.state, Holdstate::Canceled);
    assert!(expired.cancel);

    for record_state in [Holdstate::Settled, Holdstate::Canceled] {
        let shown = lookup_entry(&state, command_record(record_state, None), true).unwrap();
        assert_eq!(shown.record.state, record_state);
        assert!(!shown.cancel);
        assert_eq!(shown.record.htlc_expiry, None);
    }

    let e = lookup_entry(&state, command_record(Holdstate::Accepted, None), false).unwrap_err();
    assert_eq!(e.kind, ErrorKind::NotFound);

    let terms = InvoiceTerms { amount_msat: 10, expires_at: None };
    for (id, cltv) in [(0u64, 700u32), (1, 650), (2, 680)] {
        let htlc = Htlc {
            short_channel_id: 1,
            id,
            amount_msat: 5,
            cltv_expiry: cltv,
            cltv_expiry_relative: 0,
            payment_hash: HASH.to_owned(),
        };
        if id == 0 {
            htlc_register(&mut state, &htlc, Holdstate::Accepted, 0, None, terms);
        } else {
            let hook = holdinvoice::hooks::HtlcHook { htlc, forward_to: None };
            holdinvoice::hooks::htlc_handler(&mut state, &hook, &holdinvoice::hooks::RecordLookup::NotQueried);
        }
    }
    let accepted = lookup_entry(&state, command_record(Holdstate::Accepted, None), false).unwrap();
    assert_eq!(accepted.record.htlc_expiry, Some(650));
    assert_eq!(accepted.record.state, Holdstate::Accepted);
    assert!(!accepted.cancel);
}

#[test]
fn invoice_arguments_by_position() {
    let normal = normalize_invoice_args(command_json("[1000,\"coffee\",3600]")).unwrap();
    match &normal {
        ArgValue::Object { fields, .. } => {
            let keys: Vec<&str> = fields.iter().map(|f| f.key.as_str()).collect();
            assert_eq!(keys, vec!["amount_msat", "description", "expiry"]);
        }
        other => panic!("{:?}", other),
    }
    let plan = build_invoice_request(&normal, &command_config()).unwrap();
    assert_eq!(plan.amount_msat, 1000);
    assert_eq!(plan.description, "coffee");
    assert_eq!(plan.expiry, 3600);
    assert_eq!(plan.cltv, 144);
    assert!(!plan.deschashonly);
    assert_eq!(plan.preimage, None);
    assert_eq!(plan.payment_hash, None);
    assert_eq!(plan.exposeprivatechannels, None);
}

#[test]
fn invoice_arguments_all_eight_positions() {
    let text = format!(
        "[5,\"d\",100,\"{}\",\"{}\",20,true,[\"700000x1x0\",\"1x2x3\"]]",
        HASH, PREIMAGE
    );
    let normal = normalize_invoice_args(command_json(&text)).unwrap();
    let plan = build_invoice_request(&normal, &command_config()).unwrap();
    assert_eq!(plan.amount_msat, 5);
    assert_eq!(plan.expiry, 100);
    assert_eq!(plan.payment_hash.as_deref(), Some(HASH));
    assert_eq!(plan.preimage.as_deref(), Some(PREIMAGE));
    assert_eq!(plan.cltv, 20);
    assert!(plan.deschashonly);
    assert_eq!(
        plan.exposeprivatechannels,
        Some(vec![(700_000u64 << 40) | (1 << 16), (1u64 << 40) | (2 << 16) | 3])
    );
}

#[test]
fn invoice_arguments_shape_errors() {
    let e = normalize_invoice_args(command_json("[1,2,3,4,5,6,7,8,9]")).unwrap_err();
    assert_eq!(e.message, "too many parameters: got 9, expected 8");
    let e = normalize_invoice_args(command_json("{\"amount_msat\":1,\"label\":\"x\"}")).unwrap_err();
    assert_eq!(e.message, "Invalid argument: `label`");
    let e = normalize_invoice_args(command_json("\"x\"")).unwrap_err();
    assert_eq!(e.message, "Invalid input: `\"x\"`");
    assert!(normalize_invoice_args(command_json("{\"amount_msat\":1,\"cltv\":9}")).is_ok());
    assert!(normalize_invoice_args(command_json("[]")).is_ok());
}

fn command_plan_error(text: &str) -> String {
    build_invoice_request(&command_json(text), &command_config()).unwrap_err().message
}

#[test]
fn invoice_amount_and_description_errors() {
    assert_eq!(command_plan_error("{}"), "missing required parameter: amount_msat|msatoshi");
    assert_eq!(command_plan_error("{\"amount_msat\":0,\"description\":\"d\"}"), "amount_msat: should be positive msat");
    assert_eq!(
        command_plan_error("{\"amount_msat\":-4,\"description\":\"d\"}"),
        "amount_msat|msatoshi: should be an unsigned 64 bit integer: invalid token `-4`"
    );
    assert_eq!(
        command_plan_error("{\"amount_msat\":\"12\",\"description\":\"d\"}"),
        "amount_msat|msatoshi: should be an unsigned 64 bit integer: invalid token `\"12\"`"
    );
    assert_eq!(command_plan_error("{\"amount_msat\":1}"), "missing required parameter: description");
    assert_eq!(command_plan_error("{\"amount_msat\":1,\"description\":[1]}"), "Invalid input: `[1]`");
    let plan = build_invoice_request(&command_json("{\"amount_msat\":1,\"description\":42}"), &command_config()).unwrap();
    assert_eq!(plan.description, "42");
}

#[test]
fn invoice_expiry_and_cltv() {
    let cfg = command_config();
    let plan = build_invoice_request(
        &command_json("{\"amount_msat\":1,\"description\":\"d\",\"expiry\":\"+77\",\"cltv\":\"7\"}"),
        &cfg,
    )
    .unwrap();
    assert_eq!(plan.expiry, 77);
    assert_eq!(plan.cltv, 7);
    let plan = build_invoice_request(
        &command_json("{\"amount_msat\":1,\"description\":\"d\",\"expiry\":null,\"cltv\":null}"),
        &cfg,
    )
    .unwrap();
    assert_eq!(plan.expiry, 604_800);
    assert_eq!(plan.cltv, 144);

    assert_eq!(
        command_plan_error("{\"amount_msat\":1,\"description\":\"d\",\"expiry\":-1}"),
        "expiry: should be an unsigned 64 bit integer: invalid token `-1`"
    );
    assert_eq!(
        command_plan_error("{\"amount_msat\":1,\"description\":\"d\",\"expiry\":\"soon\"}"),
        "expiry: should be an unsigned 64 bit integer: invalid token `soon`"
    );
    assert_eq!(command_plan_error("{\"amount_msat\":1,\"description\":\"d\",\"expiry\":true}"), "Invalid input: `true`");
    assert_eq!(
        command_plan_error("{\"amount_msat\":1,\"description\":\"d\",\"cltv\":6}"),
        "cltv: needs to be greater than `6` requested: `6`"
    );
    assert_eq!(
        command_plan_error("{\"amount_msat\":1,\"description\":\"d\",\"cltv\":\"x\"}"),
        "cltv: should be an unsigned 64 bit integer: invalid token `x`"
    );
    assert_eq!(
        command_plan_error("{\"amount_msat\":1,\"description\":\"d\",\"cltv\":[7]}"),
        "cltv: should be an unsigned 64 bit integer: invalid token `[7]`"
    );
    assert_eq!(
        command_plan_error("{\"amount_msat\":1,\"description\":\"d\",\"cltv\":1.5}"),
        "cltv: should be an unsigned 64 bit integer: invalid token `1.5`"
    );
}

#[test]
fn invoice_expiry_against_the_invoice_time_policy() {
    let cfg = HoldConfig {
        cancel_before_htlc_blocks: 6,
        cancel_before_invoice_seconds: Some(1800),
        startup_lock_seconds: 10,
    };
    let e = build_invoice_request(
        &command_json("{\"amount_msat\":1,\"description\":\"d\",\"expiry\":1800}"),
        &cfg,
    )
    .unwrap_err();
    assert_eq!(e.message, "expiry: needs to be greater than `1800` requested: `1800`");
    let plan = build_invoice_request(
        &command_json("{\"amount_msat\":1,\"description\":\"d\",\"expiry\":1801}"),
        &cfg,
    )
    .unwrap();
    assert_eq!(plan.expiry, 1801);
}

#[test]
fn invoice_hash_and_preimage() {
    let ok = format!(
        "{{\"amount_msat\":1,\"description\":\"d\",\"payment_hash\":\"{}\",\"preimage\":\"{}\"}}",
        HASH.to_uppercase(),
        PREIMAGE
    );
    let plan = build_invoice_request(&command_json(&ok), &command_config()).unwrap();
    assert_eq!(plan.payment_hash, Some(HASH.to_uppercase()));

    let wrong = format!(
        "{{\"amount_msat\":1,\"description\":\"d\",\"payment_hash\":\"{}\",\"preimage\":\"{}\"}}",
        PREIMAGE, PREIMAGE
    );
    assert_eq!(
        command_plan_error(&wrong),
        format!("payment_hash: `{}` does not match preimage: `{}`", PREIMAGE, PREIMAGE)
    );
    assert_eq!(
        command_plan_error("{\"amount_msat\":1,\"description\":\"d\",\"preimage\":\"ab\"}"),
        "preimage: should be a 32 byte hex value: invalid token `\"ab\"`"
    );
    assert_eq!(
        command_plan_error("{\"amount_msat\":1,\"description\":\"d\",\"payment_hash\":7}"),
        "payment_hash: should be a 32 byte hex value: invalid token `7`"
    );
    let nulls = "{\"amount_msat\":1,\"description\":\"d\",\"payment_hash\":null,\"preimage\":null}";
    let plan = build_invoice_request(&command_json(nulls), &command_config()).unwrap();
    assert_eq!(plan.payment_hash, None);
    assert_eq!(plan.preimage, None);
}

#[test]
fn invoice_deschashonly_and_channels() {
    let cfg = command_config();
    for (token, expected) in [("true", true), ("false", false), ("\"true\"", true), ("\"false\"", false), ("null", false)] {
        let text = format!("{{\"amount_msat\":1,\"description\":\"d\",\"deschashonly\":{}}}", token);
        assert_eq!(build_invoice_request(&command_json(&text), &cfg).unwrap().deschashonly, expected);
    }
    assert_eq!(
        command_plan_error("{\"amount_msat\":1,\"description\":\"d\",\"deschashonly\":\"yes\"}"),
        "deschashonly: should be `true` or `false`: invalid token `yes`"
    );
    assert_eq!(
        command_plan_error("{\"amount_msat\":1,\"description\":\"d\",\"deschashonly\":1}"),
        "deschashonly: should be `true` or `false`: invalid token `1`"
    );
    assert_eq!(
        command_plan_error("{\"amount_msat\":1,\"description\":\"d\",\"exposeprivatechannels\":\"1x1x1\"}"),
        "exposeprivatechannels: should be an array: invalid token `\"1x1x1\"`"
    );
    assert_eq!(
        command_plan_error("{\"amount_msat\":1,\"description\":\"d\",\"exposeprivatechannels\":[\"1x1x1\",\"1x1\"]}"),
        "Invalid short_channel_id: `1x1`"
    );
    assert_eq!(
        command_plan_error("{\"amount_msat\":1,\"description\":\"d\",\"exposeprivatechannels\":[\"1x1x1\",5]}"),
        "Invalid input: `5`"
    );
    let plan = build_invoice_request(
        &command_json("{\"amount_msat\":1,\"description\":\"d\",\"exposeprivatechannels\":[]}"),
        &cfg,
    )
    .unwrap();
    assert_eq!(plan.exposeprivatechannels, Some(vec![]));
}

#[test]
fn first_invalid_argument_wins() {
    assert_eq!(
        command_plan_error("{\"amount_msat\":0,\"description\":[1],\"cltv\":1}"),
        "amount_msat: should be positive msat"
    );
    assert_eq!(
        command_plan_error("{\"amount_msat\":1,\"description\":\"d\",\"expiry\":\"x\",\"cltv\":1}"),
        "expiry: should be an unsigned 64 bit integer: invalid token `x`"
    );
}

#[test]
fn short_channel_ids() {
    assert_eq!(parse_scid("700000x1x0").unwrap(), (700_000u64 << 40) | (1 << 16));
    assert_eq!(parse_scid("1x2x3").unwrap(), (1u64 << 40) | (2 << 16) | 3);
    for text in ["", "1x2", "1x2x3x4", "axbxc", "1:2:3"] {
        let e = parse_scid(text).unwrap_err();
        assert_eq!(e.kind, ErrorKind::InputError);
        assert_eq!(e.message, format!("Invalid short_channel_id: `{}`", text));
    }
}

#[test]
fn payment_pair_of_a_plan() {
    let cfg = command_config();
    let base = "{\"amount_msat\":1,\"description\":\"d\"";
    let fresh = vec![0u8; 32];

    let plan = build_invoice_request(&command_json(&format!("{}}}", base)), &cfg).unwrap();
    let pair = derive_payment_pair(&plan, &fresh).unwrap();
    assert_eq!(pair.payment_hash, HASH);
    assert_eq!(pair.preimage.as_deref(), Some(PREIMAGE));

    let other = "11".repeat(32);
    let plan = build_invoice_request(&command_json(&format!("{},\"preimage\":\"{}\"}}", base, other)), &cfg).unwrap();
    let pair = derive_payment_pair(&plan, &fresh).unwrap();
    assert_eq!(pair.payment_hash, holdinvoice::codec::payment_hash_of(&other).unwrap());
    assert_eq!(pair.preimage.as_deref(), Some(other.as_str()));

    let upper = "AB".repeat(32);
    let plan = build_invoice_request(&command_json(&format!("{},\"payment_hash\":\"{}\"}}", base, upper)), &cfg).unwrap();
    let pair = derive_payment_pair(&plan, &fresh).unwrap();
    assert_eq!(pair.payment_hash, "ab".repeat(32));
    assert_eq!(pair.preimage, None);

    let bad = "zz".repeat(32);
    let plan = build_invoice_request(&command_json(&format!("{},\"payment_hash\":\"{}\"}}", base, bad)), &cfg).unwrap();
    let e = derive_payment_pair(&plan, &fresh).unwrap_err();
    assert_eq!(e.message, format!("payment_hash: should be hexadecimal: invalid token `{}`", bad));

    let plan = build_invoice_request(&command_json(&format!("{},\"preimage\":\"{}\"}}", base, bad)), &cfg).unwrap();
    let e = derive_payment_pair(&plan, &fresh).unwrap_err();
    assert_eq!(e.message, format!("preimage: should be hexadecimal: invalid token `{}`", bad));

    let plan = build_invoice_request(&command_json(&format!("{}}}", base)), &cfg).unwrap();
    for length in [0usize, 31, 33, 64] {
        let e = derive_payment_pair(&plan, &vec![0u8; length]).unwrap_err();
        assert_eq!(e.kind, ErrorKind::Fatal);
        assert_eq!(e.message, "Internal error: fresh preimage should be 32 bytes");
    }
}

fn command_decoded() -> DecodedInvoice {
    DecodedInvoice {
        valid: true,
        is_bolt11: true,
        payment_hash: Some(vec![0xab; 32]),
        payment_secret: Some(vec![0x07; 32]),
        created_at: Some(1_700_000_000),
        expiry: Some(3600),
        description: Some("coffee".to_owned()),
        description_hash: Some(vec![0xcd; 32]),
    }
}

#[test]
fn record_of_a_new_invoice() {
    let record = hold_invoice("lnbcrt1xyz".to_owned(), Some(PREIMAGE.to_owned()), None, &command_decoded()).unwrap();
    assert_eq!(record.bolt11, "lnbcrt1xyz");
    assert_eq!(record.payment_hash, "ab".repeat(32));
    assert_eq!(record.payment_secret, "07".repeat(32));
    assert_eq!(record.expires_at, 1_700_003_600);
    assert_eq!(record.preimage.as_deref(), Some(PREIMAGE));
    assert_eq!(record.description.as_deref(), Some("coffee"));
    assert_eq!(record.description_hash, None);
    assert_eq!(record.state, Holdstate::Open);
    assert_eq!(record.htlc_expiry, None);
    assert_eq!(record.paid_at, None);
}

#[test]
fn record_of_a_new_invoice_errors() {
    let cases: Vec<(fn(&mut DecodedInvoice), &str)> = vec![
        (|d| d.valid = false, "invalid invoice"),
        (|d| d.is_bolt11 = false, "not a bolt11 invoice"),
        (|d| d.payment_hash = None, "payment_hash not found in decoded invoice"),
        (|d| d.payment_secret = None, "payment_secret not found in decoded invoice"),
        (|d| d.created_at = None, "created_at not found in decoded invoice"),
        (|d| d.expiry = None, "expiry not found in decoded invoice"),
        (|d| d.expiry = Some(u64::MAX), "expiry out of range in decoded invoice"),
        (|d| d.description = None, "description not found in decoded invoice"),
    ];
    for (change, message) in cases {
        let mut decoded = command_decoded();
        change(&mut decoded);
        let e = hold_invoice("x".to_owned(), None, None, &decoded).unwrap_err();
        assert_eq!(e.kind, ErrorKind::Fatal);
        assert_eq!(e.message, message);
    }
}

#[test]
fn answer_of_a_new_invoice() {
    let decoded = command_decoded();
    let stored = hold_invoice("x".to_owned(), Some(PREIMAGE.to_owned()), None, &decoded).unwrap();
    let answer = hold_invoice_answer(stored.clone(), false, false, &decoded).unwrap();
    assert_eq!(answer.preimage, None);
    assert_eq!(answer.description.as_deref(), Some("coffee"));
    assert_eq!(answer.description_hash, None);
    assert_eq!(answer.payment_hash, stored.payment_hash);
    let answer = hold_invoice_answer(stored, true, false, &decoded).unwrap();
    assert_eq!(answer.preimage.as_deref(), Some(PREIMAGE));

    let mut hashed_only = command_decoded();
    hashed_only.description = None;
    let hashed = hold_invoice("x".to_owned(), None, Some("long text".to_owned()), &hashed_only).unwrap();
    assert_eq!(hashed.description.as_deref(), Some("long text"));
    assert_eq!(hashed.description_hash, None);
    let answer = hold_invoice_answer(hashed.clone(), true, true, &hashed_only).unwrap();
    assert_eq!(answer.description, None);
    assert_eq!(answer.description_hash, Some("cd".repeat(32)));

    let mut bare = command_decoded();
    bare.description_hash = None;
    assert_eq!(
        hold_invoice_answer(hashed, true, true, &bare).unwrap_err().message,
        "description_hash not found in decoded invoice"
    );
}

#[test]
fn private_channels_are_exposed_without_a_public_one() {
    let channel = |state, scid, connected, private| PeerChannel {
        state,
        short_channel_id: scid,
        peer_connected: connected,
        private,
        htlcs: None,
    };
    let private_only = vec![
        channel(ChannelState::Normal, Some(11), true, Some(true)),
        channel(ChannelState::Other, Some(12), false, Some(true)),
        channel(ChannelState::Normal, None, true, Some(true)),
        channel(ChannelState::Normal, Some(13), true, None),
        channel(ChannelState::Normal, Some(14), false, Some(false)),
        channel(ChannelState::Other, Some(15), true, Some(false)),
    ];
    assert_eq!(select_private_channels(&private_only), Some(vec![11, 12]));
    assert_eq!(select_private_channels(&Vec::new()), Some(vec![]));

    let mut with_public = private_only.clone();
    with_public.push(channel(ChannelState::AwaitingSplice, Some(16), true, Some(false)));
    with_public.push(channel(ChannelState::Normal, Some(17), true, Some(true)));
    assert_eq!(select_private_channels(&with_public), None);
}
