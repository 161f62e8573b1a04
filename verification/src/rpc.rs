//! The datastore binding: the requests that keep hold invoices in the
//! host's datastore, and the reading of what the datastore answers.

use vstd::prelude::*;
use vstd::string::StringExecFns;

use crate::codec::{
    decode_hex, encode_hex, spec_hex_decode, spec_hex_encode, spec_lower_hex_digit,
};
use crate::errors::{spec_outcome, ErrorKind, HoldError, HoldErrorView};
use crate::model::{
    spec_text, Holdstate, HOLD_INVOICE_DATASTORE_STATE, HOLD_INVOICE_PLUGIN_NAME,
};
use crate::text::{spec_ascii_lower, spec_eq_ignore_ascii_case, spec_hex_digit_value};

verus! {

/// How a write treats a key that exists or does not exist.
#[derive(Clone, Copy, Debug, PartialEq, Eq, Structural)]
pub enum DatastoreMode {
    /// The key must not exist yet.
    MustCreate,
    /// The key must exist.
    MustReplace,
}

/// A write to the datastore.
#[derive(Clone, Debug)]
pub struct DatastoreRequest {
    pub key: Vec<String>,
    pub mode: DatastoreMode,
    /// Where present, the write is done only if the key still has this generation.
    pub generation: Option<u64>,
    /// The value as plain text.
    pub string: Option<String>,
    /// The value as bytes in hexadecimal.
    pub hex: Option<String>,
}

/// A read of every entry whose key starts with `key`.
#[derive(Clone, Debug)]
pub struct ListdatastoreRequest {
    pub key: Vec<String>,
}

/// A removal of the entry under `key`.
#[derive(Clone, Debug)]
pub struct DeldatastoreRequest {
    pub key: Vec<String>,
    pub generation: Option<u64>,
}

/// An entry as the datastore lists it.
#[derive(Clone, Debug)]
pub struct DatastoreEntry {
    pub key: Vec<String>,
    pub generation: Option<u64>,
    pub hex: Option<String>,
    pub string: Option<String>,
}

/// A key by its parts.
pub open spec fn spec_key(key: Vec<String>) -> Seq<Seq<char>> {
    Seq::new(key@.len(), |i: int| key@[i]@)
}

/// The key of the record of the invoice under a payment hash.
pub open spec fn spec_record_key(pay_hash: Seq<char>) -> Seq<Seq<char>> {
    seq!["holdinvoice_v2"@, pay_hash]
}

/// The key of the state alone of the invoice under a payment hash.
pub open spec fn spec_state_key(pay_hash: Seq<char>) -> Seq<Seq<char>> {
    seq!["holdinvoice_v2"@, pay_hash, "state"@]
}

/// The key under which all entries of this plugin stand.
pub open spec fn spec_plugin_key() -> Seq<Seq<char>> {
    seq!["holdinvoice_v2"@]
}

fn record_key(pay_hash: String) -> (key: Vec<String>)
    ensures
        spec_key(key) == spec_record_key(pay_hash@),
{
    let mut key: Vec<String> = Vec::new();
    key.push(String::from_str(HOLD_INVOICE_PLUGIN_NAME));
    key.push(pay_hash);
    assert(spec_key(key) =~= spec_record_key(pay_hash@));
    key
}

fn state_key(pay_hash: String) -> (key: Vec<String>)
    ensures
        spec_key(key) == spec_state_key(pay_hash@),
{
    let mut key: Vec<String> = Vec::new();
    key.push(String::from_str(HOLD_INVOICE_PLUGIN_NAME));
    key.push(pay_hash);
    key.push(String::from_str(HOLD_INVOICE_DATASTORE_STATE));
    assert(spec_key(key) =~= spec_state_key(pay_hash@));
    key
}

/// Is this the write of a text under a state key?
pub open spec fn spec_state_write(
    request: DatastoreRequest,
    pay_hash: Seq<char>,
    string: Seq<char>,
    mode: DatastoreMode,
    generation: Option<u64>,
) -> bool {
    &&& spec_key(request.key) == spec_state_key(pay_hash)
    &&& request.mode == mode
    &&& request.generation == generation
    &&& spec_text(request.string) == Some(string)
    &&& request.hex is None
}

/// Is this the write of a record, given as bytes, under a record key?
pub open spec fn spec_record_write(
    request: DatastoreRequest,
    pay_hash: Seq<char>,
    record: Seq<u8>,
    mode: DatastoreMode,
    generation: Option<u64>,
) -> bool {
    &&& spec_key(request.key) == spec_record_key(pay_hash)
    &&& request.mode == mode
    &&& request.generation == generation
    &&& request.string is None
    &&& spec_text(request.hex) == Some(spec_hex_encode(record))
}

/// The first write of a state: it fails where the key exists.
pub fn datastore_new_state(pay_hash: String, string: String) -> (request: DatastoreRequest)
    ensures
        spec_state_write(request, pay_hash@, string@, DatastoreMode::MustCreate, None),
{
    DatastoreRequest {
        generation: None,
        hex: None,
        mode: DatastoreMode::MustCreate,
        string: Some(string),
        key: state_key(pay_hash),
    }
}

/// The write of a state that holds only against the generation given.
pub fn datastore_update_state(pay_hash: String, string: String, generation: u64) -> (request: DatastoreRequest)
    ensures
        spec_state_write(
            request,
            pay_hash@,
            string@,
            DatastoreMode::MustReplace,
            Some(generation),
        ),
{
    DatastoreRequest {
        generation: Some(generation),
        hex: None,
        mode: DatastoreMode::MustReplace,
        string: Some(string),
        key: state_key(pay_hash),
    }
}

/// The write of a state whatever the generation.
pub fn datastore_update_state_forced(pay_hash: String, string: String) -> (request: DatastoreRequest)
    ensures
        spec_state_write(request, pay_hash@, string@, DatastoreMode::MustReplace, None),
{
    DatastoreRequest {
        generation: None,
        hex: None,
        mode: DatastoreMode::MustReplace,
        string: Some(string),
        key: state_key(pay_hash),
    }
}

/// The read of every entry of this plugin.
pub fn listdatastore_all() -> (request: ListdatastoreRequest)
    ensures
        spec_key(request.key) == spec_plugin_key(),
{
    let mut key: Vec<String> = Vec::new();
    key.push(String::from_str(HOLD_INVOICE_PLUGIN_NAME));
    assert(spec_key(key) =~= spec_plugin_key());
    ListdatastoreRequest { key }
}

/// The read of the state of the invoice under a payment hash.
pub fn listdatastore_state(pay_hash: String) -> (request: ListdatastoreRequest)
    ensures
        spec_key(request.key) == spec_state_key(pay_hash@),
{
    ListdatastoreRequest { key: state_key(pay_hash) }
}

/// The removal of the state of the invoice under a payment hash.
pub fn del_datastore_state(pay_hash: String) -> (request: DeldatastoreRequest)
    ensures
        spec_key(request.key) == spec_state_key(pay_hash@),
        request.generation is None,
{
    DeldatastoreRequest { generation: None, key: state_key(pay_hash) }
}

/// The first write of a record, given as the bytes of its JSON text: it
/// fails where the key exists.
pub fn datastore_new_hold_invoice(pay_hash: String, record: &Vec<u8>) -> (request: DatastoreRequest)
    ensures
        spec_record_write(request, pay_hash@, record@, DatastoreMode::MustCreate, None),
{
    DatastoreRequest {
        generation: None,
        hex: Some(encode_hex(record)),
        mode: DatastoreMode::MustCreate,
        string: None,
        key: record_key(pay_hash),
    }
}

/// The write of a record that holds only against the generation given.
pub fn datastore_update_hold_invoice(
    pay_hash: String,
    record: &Vec<u8>,
    generation: u64,
) -> (request: DatastoreRequest)
    ensures
        spec_record_write(
            request,
            pay_hash@,
            record@,
            DatastoreMode::MustReplace,
            Some(generation),
        ),
{
    DatastoreRequest {
        generation: Some(generation),
        hex: Some(encode_hex(record)),
        mode: DatastoreMode::MustReplace,
        string: None,
        key: record_key(pay_hash),
    }
}

/// The write of a record whatever the generation.
pub fn datastore_update_hold_invoice_forced(pay_hash: String, record: &Vec<u8>) -> (request: DatastoreRequest)
    ensures
        spec_record_write(request, pay_hash@, record@, DatastoreMode::MustReplace, None),
{
    DatastoreRequest {
        generation: None,
        hex: Some(encode_hex(record)),
        mode: DatastoreMode::MustReplace,
        string: None,
        key: record_key(pay_hash),
    }
}

/// The read of the record of the invoice under a payment hash.
pub fn listdatastore_payment_hash(pay_hash: String) -> (request: ListdatastoreRequest)
    ensures
        spec_key(request.key) == spec_record_key(pay_hash@),
{
    ListdatastoreRequest { key: record_key(pay_hash) }
}

/// The removal of the record of the invoice under a payment hash.
pub fn del_datastore_hold_invoice(pay_hash: String) -> (request: DeldatastoreRequest)
    ensures
        spec_key(request.key) == spec_record_key(pay_hash@),
        request.generation is None,
{
    DeldatastoreRequest { generation: None, key: record_key(pay_hash) }
}

/// The error of a read that found nothing under a payment hash.
pub open spec fn spec_empty_result_error(pay_hash: Seq<char>) -> HoldErrorView {
    HoldErrorView {
        kind: ErrorKind::NotFound,
        message: "empty result for listdatastore_state with pay_hash: "@ + pay_hash,
    }
}

/// The error of an entry whose value is no record.
pub open spec fn spec_no_record_error(pay_hash: Seq<char>) -> HoldErrorView {
    HoldErrorView {
        kind: ErrorKind::Transport,
        message: "invalid datastore value for pay_hash: "@ + pay_hash,
    }
}

/// What a read under a payment hash found: the bytes of the first entry's
/// value and its generation, none counting as zero. No entry is not found;
/// a first entry without a hexadecimal value is no record.
pub open spec fn spec_stored_value(
    entries: Seq<DatastoreEntry>,
    pay_hash: Seq<char>,
) -> Result<(Seq<u8>, u64), HoldErrorView> {
    if entries.len() == 0 {
        Err(spec_empty_result_error(pay_hash))
    } else {
        match entries[0].hex {
            Some(hex) => match spec_hex_decode(hex@) {
                Some(bytes) => Ok(
                    (
                        bytes,
                        match entries[0].generation {
                            Some(g) => g,
                            None => 0,
                        },
                    ),
                ),
                None => Err(spec_no_record_error(pay_hash)),
            },
            None => Err(spec_no_record_error(pay_hash)),
        }
    }
}

/// Reads what the datastore listed under a payment hash: the bytes of the
/// record's JSON text and the generation.
pub fn stored_value(entries: &Vec<DatastoreEntry>, pay_hash: &str) -> (value: Result<(Vec<u8>, u64), HoldError>)
    ensures
        match value {
            Ok((bytes, generation)) => spec_stored_value(entries@, pay_hash@) == Ok::<
                (Seq<u8>, u64),
                HoldErrorView,
            >((bytes@, generation)),
            Err(e) => spec_stored_value(entries@, pay_hash@) == Err::<
                (Seq<u8>, u64),
                HoldErrorView,
            >(e@),
        },
{
    if entries.len() == 0 {
        let mut message = String::from_str("empty result for listdatastore_state with pay_hash: ");
        message.append(pay_hash);
        return Err(HoldError { kind: ErrorKind::NotFound, message });
    }
    let decoded = match &entries[0].hex {
        Some(hex) => decode_hex(hex.as_str()),
        None => None,
    };
    match decoded {
        Some(bytes) => {
            let generation = match entries[0].generation {
                Some(g) => g,
                None => 0,
            };
            Ok((bytes, generation))
        },
        None => {
            let mut message = String::from_str("invalid datastore value for pay_hash: ");
            message.append(pay_hash);
            Err(HoldError { kind: ErrorKind::Transport, message })
        },
    }
}

/// The state that a state entry holds as plain text.
pub open spec fn spec_stored_state(
    entries: Seq<DatastoreEntry>,
    pay_hash: Seq<char>,
) -> Result<(Holdstate, u64), HoldErrorView> {
    if entries.len() == 0 {
        Err(spec_empty_result_error(pay_hash))
    } else {
        match entries[0].string {
            Some(text) => match Holdstate::spec_from_label(text@) {
                Some(state) => Ok(
                    (
                        state,
                        match entries[0].generation {
                            Some(g) => g,
                            None => 0,
                        },
                    ),
                ),
                None => Err(spec_no_record_error(pay_hash)),
            },
            None => Err(spec_no_record_error(pay_hash)),
        }
    }
}

/// Reads what the datastore listed under the state key of a payment hash.
pub fn stored_state(entries: &Vec<DatastoreEntry>, pay_hash: &str) -> (value: Result<(Holdstate, u64), HoldError>)
    ensures
        spec_outcome(value) == spec_stored_state(entries@, pay_hash@),
{
    if entries.len() == 0 {
        let mut message = String::from_str("empty result for listdatastore_state with pay_hash: ");
        message.append(pay_hash);
        return Err(HoldError { kind: ErrorKind::NotFound, message });
    }
    let parsed = match &entries[0].string {
        Some(text) => match Holdstate::from_str(text.as_str()) {
            Ok(state) => Some(state),
            Err(_) => None,
        },
        None => None,
    };
    match parsed {
        Some(state) => {
            let generation = match entries[0].generation {
                Some(g) => g,
                None => 0,
            };
            Ok((state, generation))
        },
        None => {
            let mut message = String::from_str("invalid datastore value for pay_hash: ");
            message.append(pay_hash);
            Err(HoldError { kind: ErrorKind::Transport, message })
        },
    }
}

/// Bytes written in hexadecimal read back as themselves.
pub proof fn lemma_hex_round_trip(data: Seq<u8>)
    ensures
        spec_hex_decode(spec_hex_encode(data)) == Some(data),
        spec_hex_encode(data).len() == 2 * data.len(),
    decreases data.len(),
{
    if data.len() > 0 {
        let head = data.drop_last();
        let byte = data.last();
        lemma_hex_round_trip(head);
        let text = spec_hex_encode(data);
        let high = spec_lower_hex_digit(byte as int / 16);
        let low = spec_lower_hex_digit(byte as int % 16);
        assert(text == spec_hex_encode(head).push(high).push(low));
        assert(text.subrange(0, text.len() - 2) =~= spec_hex_encode(head));
        assert(text[text.len() - 2] == high);
        assert(text[text.len() - 1] == low);
        assert(spec_hex_digit_value(high) == Some((byte as int / 16) as nat));
        assert(spec_hex_digit_value(low) == Some((byte as int % 16) as nat));
        assert(head.push(((byte as int / 16) * 16 + byte as int % 16) as u8) =~= data);
    } else {
        assert(spec_hex_encode(data) =~= Seq::<char>::empty());
        assert(spec_hex_decode(Seq::<char>::empty()) == Some(Seq::<u8>::empty()));
        assert(data =~= Seq::<u8>::empty());
    }
}

/// The name of a state reads back as the state.
pub proof fn lemma_state_round_trip(state: Holdstate)
    ensures
        Holdstate::spec_from_label(state.spec_label()) == Some(state),
{
    reveal_strlit("OPEN");
    reveal_strlit("SETTLED");
    reveal_strlit("CANCELED");
    reveal_strlit("ACCEPTED");
    reveal_strlit("open");
    reveal_strlit("settled");
    reveal_strlit("canceled");
    reveal_strlit("accepted");
    assert(spec_eq_ignore_ascii_case("OPEN"@, "open"@));
    assert(spec_eq_ignore_ascii_case("SETTLED"@, "settled"@));
    assert(spec_eq_ignore_ascii_case("CANCELED"@, "canceled"@));
    assert(spec_eq_ignore_ascii_case("ACCEPTED"@, "accepted"@));
    assert(!spec_eq_ignore_ascii_case("ACCEPTED"@, "canceled"@)) by {
        assert(spec_ascii_lower("ACCEPTED"@[0]) != spec_ascii_lower("canceled"@[0]));
    }
}

} // verus!
