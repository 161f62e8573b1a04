//! The arguments of a command: a value of the host's JSON notation, held as
//! plain data together with the text that error messages quote.

use vstd::prelude::*;
use vstd::string::StringExecFns;

verus! {

/// A named member of an object.
#[derive(Debug)]
pub struct ArgField {
    pub key: String,
    pub value: ArgValue,
}

/// A value as a command receives it. Each variant but `Null` and `Bool`
/// carries in `json` the value's compact JSON text, as the host renders it.
#[derive(Debug)]
pub enum ArgValue {
    Null,
    Bool(bool),
    /// A number; `unsigned` holds it where it is a whole number from 0 to `u64::MAX`.
    Number { unsigned: Option<u64>, json: String },
    Text { text: String, json: String },
    Array { items: Vec<ArgValue>, json: String },
    /// An object; its members stand in the order in which the host walks them.
    Object { fields: Vec<ArgField>, json: String },
}

/// The first member under `key`.
pub open spec fn spec_get(fields: Seq<ArgField>, key: Seq<char>) -> Option<ArgValue>
    decreases fields.len(),
{
    if fields.len() == 0 {
        None
    } else if fields[0].key@ == key {
        Some(fields[0].value)
    } else {
        spec_get(fields.drop_first(), key)
    }
}

/// Is `key` one of the allowed names?
pub open spec fn spec_allowed(allowed: Seq<Seq<char>>, key: Seq<char>) -> bool {
    exists|i: int| 0 <= i < allowed.len() && #[trigger] allowed[i] == key
}

/// The key of the first member whose key is not allowed.
pub open spec fn spec_first_unknown(
    fields: Seq<ArgField>,
    allowed: Seq<Seq<char>>,
) -> Option<Seq<char>>
    decreases fields.len(),
{
    if fields.len() == 0 {
        None
    } else if !spec_allowed(allowed, fields[0].key@) {
        Some(fields[0].key@)
    } else {
        spec_first_unknown(fields.drop_first(), allowed)
    }
}

/// The views of a list of names.
pub open spec fn spec_names(names: Seq<&'static str>) -> Seq<Seq<char>> {
    Seq::new(names.len(), |i: int| names[i]@)
}

/// Number of bytes of a text in UTF-8, which is what `len` counts.
pub open spec fn spec_byte_len(text: Seq<char>) -> usize {
    vstd::utf8::encode_utf8(text).len() as usize
}

/// Are two texts the same?
pub fn text_eq(a: &str, b: &str) -> (same: bool)
    ensures
        same == (a@ == b@),
{
    let left = String::from_str(a);
    let right = String::from_str(b);
    left == right
}

impl ArgValue {
    /// The value's compact JSON text.
    pub open spec fn spec_json(self) -> Seq<char> {
        match self {
            ArgValue::Null => "null"@,
            ArgValue::Bool(b) => if b { "true"@ } else { "false"@ },
            ArgValue::Number { json, .. } => json@,
            ArgValue::Text { json, .. } => json@,
            ArgValue::Array { json, .. } => json@,
            ArgValue::Object { json, .. } => json@,
        }
    }

    /// The member under `key` of an object; `None` for any other value.
    pub open spec fn spec_member(self, key: Seq<char>) -> Option<ArgValue> {
        match self {
            ArgValue::Object { fields, .. } => spec_get(fields@, key),
            _ => None,
        }
    }

    /// The value's compact JSON text.
    pub fn json(&self) -> (text: String)
        ensures
            text@ == self.spec_json(),
    {
        match self {
            ArgValue::Null => String::from_str("null"),
            ArgValue::Bool(b) => if *b { String::from_str("true") } else { String::from_str("false") },
            ArgValue::Number { json, .. } => json.clone(),
            ArgValue::Text { json, .. } => json.clone(),
            ArgValue::Array { json, .. } => json.clone(),
            ArgValue::Object { json, .. } => json.clone(),
        }
    }

    /// The member under `key` of an object.
    pub fn get(&self, key: &str) -> (member: Option<&ArgValue>)
        ensures
            match member {
                Some(value) => self.spec_member(key@) == Some(*value),
                None => self.spec_member(key@) is None,
            },
    {
        match self {
            ArgValue::Object { fields, .. } => get_field(fields, key),
            _ => None,
        }
    }
}

/// The first member under `key`.
pub fn get_field<'a>(fields: &'a Vec<ArgField>, key: &str) -> (member: Option<&'a ArgValue>)
    ensures
        match member {
            Some(value) => spec_get(fields@, key@) == Some(*value),
            None => spec_get(fields@, key@) is None,
        },
{
    let mut i: usize = 0;
    assert(fields@.skip(0) =~= fields@);
    while i < fields.len()
        invariant
            i <= fields@.len(),
            spec_get(fields@, key@) == spec_get(fields@.skip(i as int), key@),
        decreases fields@.len() - i,
    {
        proof {
            assert(fields@.skip(i as int).drop_first() =~= fields@.skip(i as int + 1));
        }
        if text_eq(fields[i].key.as_str(), key) {
            return Some(&fields[i].value);
        }
        i = i + 1;
    }
    None
}

/// Is `key` one of the allowed names?
pub fn is_allowed(allowed: &Vec<&'static str>, key: &str) -> (found: bool)
    ensures
        found == spec_allowed(spec_names(allowed@), key@),
{
    let mut i: usize = 0;
    while i < allowed.len()
        invariant
            i <= allowed@.len(),
            forall|j: int| 0 <= j < i ==> #[trigger] spec_names(allowed@)[j] != key@,
        decreases allowed@.len() - i,
    {
        if text_eq(allowed[i], key) {
            assert(spec_names(allowed@)[i as int] == key@);
            return true;
        }
        i = i + 1;
    }
    false
}

/// Position of the first member whose key is not allowed.
pub fn first_unknown(fields: &Vec<ArgField>, allowed: &Vec<&'static str>) -> (found: Option<usize>)
    ensures
        match found {
            Some(i) => i < fields@.len() && spec_first_unknown(fields@, spec_names(allowed@))
                == Some(fields@[i as int].key@),
            None => spec_first_unknown(fields@, spec_names(allowed@)) is None,
        },
{
    let mut i: usize = 0;
    assert(fields@.skip(0) =~= fields@);
    while i < fields.len()
        invariant
            i <= fields@.len(),
            spec_first_unknown(fields@, spec_names(allowed@)) == spec_first_unknown(
                fields@.skip(i as int),
                spec_names(allowed@),
            ),
        decreases fields@.len() - i,
    {
        proof {
            assert(fields@.skip(i as int).drop_first() =~= fields@.skip(i as int + 1));
        }
        if !is_allowed(allowed, fields[i].key.as_str()) {
            return Some(i);
        }
        i = i + 1;
    }
    None
}

} // verus!
