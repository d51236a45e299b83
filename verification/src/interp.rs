//! The response interpreter: payload bytes arrive from the transport, are
//! decoded as UTF-8, parsed as JSON, and validated against the expected
//! structure. Every malformed input turns into a typed failure; nothing here
//! panics or aborts.

use vstd::prelude::*;
use vstd::utf8::{decode_utf8, valid_utf8};

use crate::errors::IpcError;
use crate::json::{lookup, spec_lookup, JsonValue};

verus! {

/// An output as the compositor reports it: a uniquely named display, at most
/// one focused per listing. Reconstructed fresh on every query.
#[derive(Debug)]
pub struct OutputInfo {
    pub name: String,
    pub focused: bool,
}

impl OutputInfo {
    /// An exact copy of this entry.
    pub fn duplicate(&self) -> (r: OutputInfo)
        ensures
            r == *self,
    {
        OutputInfo { name: self.name.clone(), focused: self.focused }
    }
}

/// A workspace as the compositor reports it: a named container bound to one
/// output; at most one focused per listing.
#[derive(Debug)]
pub struct WorkspaceInfo {
    pub name: String,
    pub output: String,
    pub visible: bool,
    pub focused: bool,
}

impl WorkspaceInfo {
    /// An exact copy of this entry.
    pub fn duplicate(&self) -> (r: WorkspaceInfo)
        ensures
            r == *self,
    {
        WorkspaceInfo {
            name: self.name.clone(),
            output: self.output.clone(),
            visible: self.visible,
            focused: self.focused,
        }
    }
}

/// Declares serde_json::Value so that the conversion into the crate's own
/// value model can mention it; values of it stay opaque here.
#[verifier::external_type_specification]
#[verifier::external_body]
pub struct ExValue(serde_json::Value);

/// What JSON text parses to in this crate's value model, if it parses at
/// all. Applied by the contract of `parse_json` below.
pub uninterp spec fn json_of(text: Seq<char>) -> Option<JsonValue>;

/// Relies on the variants of serde_json::Value: maps each one onto the
/// crate's value model, one variant to one variant; object fields keep the
/// order serde_json reports.
#[verifier::external_body]
fn value_to_json(v: &serde_json::Value) -> JsonValue {
    match v {
        serde_json::Value::Null => JsonValue::Null,
        serde_json::Value::Bool(b) => JsonValue::Bool(*b),
        serde_json::Value::Number(_) => JsonValue::Num,
        serde_json::Value::String(s) => JsonValue::Str(s.clone()),
        serde_json::Value::Array(a) => JsonValue::Arr(a.iter().map(value_to_json).collect()),
        serde_json::Value::Object(m) => JsonValue::Obj(
            m.iter().map(|(k, w)| (k.clone(), value_to_json(w))).collect(),
        ),
    }
}

/// Relies on serde_json::from_str: parses JSON text or fails on text that is
/// not JSON; the outcome depends on the text alone.
#[verifier::external_body]
fn parse_json(text: &str) -> (r: Option<JsonValue>)
    ensures
        r == json_of(text@),
{
    match serde_json::from_str::<serde_json::Value>(text) {
        Ok(v) => Some(value_to_json(&v)),
        Err(_) => None,
    }
}

/// Relies on String::from_utf8: succeeds exactly on valid UTF-8 and returns
/// the decoded characters.
#[verifier::external_body]
fn bytes_to_string(bytes: &Vec<u8>) -> (r: Option<String>)
    ensures
        (match r {
            Some(s) => valid_utf8(bytes@) && s@ == decode_utf8(bytes@),
            None => !valid_utf8(bytes@),
        }),
{
    String::from_utf8(bytes.clone()).ok()
}

/// The output entry described by one JSON value, if the value is an object
/// with a string `name` and a boolean `focused`.
pub open spec fn spec_output_of(v: JsonValue) -> Option<OutputInfo> {
    match v {
        JsonValue::Obj(fields) => match (
            spec_lookup(fields@, "name"@),
            spec_lookup(fields@, "focused"@),
        ) {
            (Some(JsonValue::Str(name)), Some(JsonValue::Bool(focused))) => Some(
                OutputInfo { name, focused },
            ),
            _ => None,
        },
        _ => None,
    }
}

/// The workspace entry described by one JSON value, if the value is an
/// object with string `name` and `output` and boolean `visible` and
/// `focused`.
pub open spec fn spec_workspace_of(v: JsonValue) -> Option<WorkspaceInfo> {
    match v {
        JsonValue::Obj(fields) => match (
            spec_lookup(fields@, "name"@),
            spec_lookup(fields@, "output"@),
            spec_lookup(fields@, "visible"@),
            spec_lookup(fields@, "focused"@),
        ) {
            (
                Some(JsonValue::Str(name)),
                Some(JsonValue::Str(output)),
                Some(JsonValue::Bool(visible)),
                Some(JsonValue::Bool(focused)),
            ) => Some(WorkspaceInfo { name, output, visible, focused }),
            _ => None,
        },
        _ => None,
    }
}

/// Validates one listing entry as an output.
pub fn output_of(v: &JsonValue) -> (r: Result<OutputInfo, IpcError>)
    ensures
        (match r {
            Ok(o) => spec_output_of(*v) == Some(o),
            Err(e) => spec_output_of(*v) is None && e == IpcError::SchemaError,
        }),
{
    match v {
        JsonValue::Obj(fields) => {
            let name = match lookup(fields, "name") {
                Some(JsonValue::Str(s)) => s.clone(),
                _ => {
                    return Err(IpcError::SchemaError);
                },
            };
            let focused = match lookup(fields, "focused") {
                Some(JsonValue::Bool(b)) => *b,
                _ => {
                    return Err(IpcError::SchemaError);
                },
            };
            Ok(OutputInfo { name, focused })
        },
        _ => Err(IpcError::SchemaError),
    }
}

/// Validates one listing entry as a workspace.
pub fn workspace_of(v: &JsonValue) -> (r: Result<WorkspaceInfo, IpcError>)
    ensures
        (match r {
            Ok(w) => spec_workspace_of(*v) == Some(w),
            Err(e) => spec_workspace_of(*v) is None && e == IpcError::SchemaError,
        }),
{
    match v {
        JsonValue::Obj(fields) => {
            let name = match lookup(fields, "name") {
                Some(JsonValue::Str(s)) => s.clone(),
                _ => {
                    return Err(IpcError::SchemaError);
                },
            };
            let output = match lookup(fields, "output") {
                Some(JsonValue::Str(s)) => s.clone(),
                _ => {
                    return Err(IpcError::SchemaError);
                },
            };
            let visible = match lookup(fields, "visible") {
                Some(JsonValue::Bool(b)) => *b,
                _ => {
                    return Err(IpcError::SchemaError);
                },
            };
            let focused = match lookup(fields, "focused") {
                Some(JsonValue::Bool(b)) => *b,
                _ => {
                    return Err(IpcError::SchemaError);
                },
            };
            Ok(WorkspaceInfo { name, output, visible, focused })
        },
        _ => Err(IpcError::SchemaError),
    }
}

/// Whether every element of a listing is a well-formed output entry.
pub open spec fn spec_outputs_ok(elems: Seq<JsonValue>) -> bool {
    forall|i: int| 0 <= i < elems.len() ==> spec_output_of(elems[i]) is Some
}

/// The outputs of a listing whose elements are all well-formed.
pub open spec fn spec_outputs_of(elems: Seq<JsonValue>) -> Seq<OutputInfo> {
    elems.map_values(|e: JsonValue| spec_output_of(e).unwrap())
}

/// Whether every element of a listing is a well-formed workspace entry.
pub open spec fn spec_workspaces_ok(elems: Seq<JsonValue>) -> bool {
    forall|i: int| 0 <= i < elems.len() ==> spec_workspace_of(elems[i]) is Some
}

/// The workspaces of a listing whose elements are all well-formed.
pub open spec fn spec_workspaces_of(elems: Seq<JsonValue>) -> Seq<WorkspaceInfo> {
    elems.map_values(|e: JsonValue| spec_workspace_of(e).unwrap())
}

/// What an output listing payload yields: the typed entries, or the first
/// failure of decoding, parsing, or structure.
pub open spec fn spec_parse_outputs(bytes: Seq<u8>) -> Result<Seq<OutputInfo>, IpcError> {
    if !valid_utf8(bytes) {
        Err(IpcError::EncodingError)
    } else {
        match json_of(decode_utf8(bytes)) {
            None => Err(IpcError::SchemaError),
            Some(v) => match v {
                JsonValue::Arr(elems) => if spec_outputs_ok(elems@) {
                    Ok(spec_outputs_of(elems@))
                } else {
                    Err(IpcError::SchemaError)
                },
                _ => Err(IpcError::SchemaError),
            },
        }
    }
}

/// What a workspace listing payload yields.
pub open spec fn spec_parse_workspaces(bytes: Seq<u8>) -> Result<Seq<WorkspaceInfo>, IpcError> {
    if !valid_utf8(bytes) {
        Err(IpcError::EncodingError)
    } else {
        match json_of(decode_utf8(bytes)) {
            None => Err(IpcError::SchemaError),
            Some(v) => match v {
                JsonValue::Arr(elems) => if spec_workspaces_ok(elems@) {
                    Ok(spec_workspaces_of(elems@))
                } else {
                    Err(IpcError::SchemaError)
                },
                _ => Err(IpcError::SchemaError),
            },
        }
    }
}

/// Interprets a reply payload as an output listing: UTF-8 decode, JSON
/// parse, then structural validation of every entry.
pub fn parse_outputs(payload: &Vec<u8>) -> (r: Result<Vec<OutputInfo>, IpcError>)
    ensures
        r is Ok <==> spec_parse_outputs(payload@) is Ok,
        r is Ok ==> r.unwrap()@ == spec_parse_outputs(payload@).unwrap(),
        r is Err ==> r->Err_0 == spec_parse_outputs(payload@)->Err_0,
{
    let text = match bytes_to_string(payload) {
        Some(t) => t,
        None => {
            return Err(IpcError::EncodingError);
        },
    };
    let parsed = match parse_json(text.as_str()) {
        Some(v) => v,
        None => {
            return Err(IpcError::SchemaError);
        },
    };
    let elems = match parsed {
        JsonValue::Arr(elems) => elems,
        _ => {
            return Err(IpcError::SchemaError);
        },
    };
    let ghost all = elems@;
    let mut entries: Vec<OutputInfo> = Vec::new();
    let n = elems.len();
    let mut i: usize = 0;
    while i < n
        invariant
            i <= n,
            n == all.len(),
            elems@ == all,
            valid_utf8(payload@),
            json_of(decode_utf8(payload@)) == Some(JsonValue::Arr(elems)),
            spec_outputs_ok(all.subrange(0, i as int)),
            entries@ == spec_outputs_of(all.subrange(0, i as int)),
        decreases n - i,
    {
        match output_of(&elems[i]) {
            Ok(o) => {
                entries.push(o);
            },
            Err(e) => {
                proof {
                    assert(!spec_outputs_ok(all)) by {
                        assert(spec_output_of(all[i as int]) is None);
                    }
                    assert(spec_parse_outputs(payload@) == Err::<Seq<OutputInfo>, IpcError>(
                        IpcError::SchemaError,
                    ));
                }
                return Err(e);
            },
        }
        proof {
            assert(all.subrange(0, i as int + 1) =~= all.subrange(0, i as int).push(
                all[i as int],
            ));
            assert(entries@ =~= spec_outputs_of(all.subrange(0, i as int + 1)));
        }
        i += 1;
    }
    proof {
        assert(all.subrange(0, n as int) =~= all);
    }
    Ok(entries)
}

/// Interprets a reply payload as a workspace listing.
pub fn parse_workspaces(payload: &Vec<u8>) -> (r: Result<Vec<WorkspaceInfo>, IpcError>)
    ensures
        r is Ok <==> spec_parse_workspaces(payload@) is Ok,
        r is Ok ==> r.unwrap()@ == spec_parse_workspaces(payload@).unwrap(),
        r is Err ==> r->Err_0 == spec_parse_workspaces(payload@)->Err_0,
{
    let text = match bytes_to_string(payload) {
        Some(t) => t,
        None => {
            return Err(IpcError::EncodingError);
        },
    };
    let parsed = match parse_json(text.as_str()) {
        Some(v) => v,
        None => {
            return Err(IpcError::SchemaError);
        },
    };
    let elems = match parsed {
        JsonValue::Arr(elems) => elems,
        _ => {
            return Err(IpcError::SchemaError);
        },
    };
    let ghost all = elems@;
    let mut entries: Vec<WorkspaceInfo> = Vec::new();
    let n = elems.len();
    let mut i: usize = 0;
    while i < n
        invariant
            i <= n,
            n == all.len(),
            elems@ == all,
            valid_utf8(payload@),
            json_of(decode_utf8(payload@)) == Some(JsonValue::Arr(elems)),
            spec_workspaces_ok(all.subrange(0, i as int)),
            entries@ == spec_workspaces_of(all.subrange(0, i as int)),
        decreases n - i,
    {
        match workspace_of(&elems[i]) {
            Ok(w) => {
                entries.push(w);
            },
            Err(e) => {
                proof {
                    assert(!spec_workspaces_ok(all)) by {
                        assert(spec_workspace_of(all[i as int]) is None);
                    }
                    assert(spec_parse_workspaces(payload@) == Err::<
                        Seq<WorkspaceInfo>,
                        IpcError,
                    >(IpcError::SchemaError));
                }
                return Err(e);
            },
        }
        proof {
            assert(all.subrange(0, i as int + 1) =~= all.subrange(0, i as int).push(
                all[i as int],
            ));
            assert(entries@ =~= spec_workspaces_of(all.subrange(0, i as int + 1)));
        }
        i += 1;
    }
    proof {
        assert(all.subrange(0, n as int) =~= all);
    }
    Ok(entries)
}

/// Whether a command reply's envelope reports success: a non-empty listing
/// whose first element is an object carrying `success` bound to true.
pub open spec fn spec_envelope_ok(v: JsonValue) -> bool {
    match v {
        JsonValue::Arr(elems) => elems@.len() > 0 && (match elems@[0] {
            JsonValue::Obj(fields) => spec_lookup(fields@, "success"@) == Some(
                JsonValue::Bool(true),
            ),
            _ => false,
        }),
        _ => false,
    }
}

/// Checks the success envelope of a command reply. Only element 0 is
/// inspected; the command failed exactly when that element's `success` field
/// is absent, not a boolean, or literally false, or when the envelope itself
/// is malformed.
pub fn check_success(v: &JsonValue) -> (r: Result<(), IpcError>)
    ensures
        r is Ok <==> spec_envelope_ok(*v),
        r is Err ==> r->Err_0 == IpcError::CommandFailed,
{
    match v {
        JsonValue::Arr(elems) => {
            if elems.len() == 0 {
                return Err(IpcError::CommandFailed);
            }
            match &elems[0] {
                JsonValue::Obj(fields) => match lookup(fields, "success") {
                    Some(JsonValue::Bool(true)) => Ok(()),
                    _ => Err(IpcError::CommandFailed),
                },
                _ => Err(IpcError::CommandFailed),
            }
        },
        _ => Err(IpcError::CommandFailed),
    }
}

/// What a command reply payload yields: acknowledgment, or the first failure
/// of decoding, parsing, or the envelope.
pub open spec fn spec_check_reply(bytes: Seq<u8>) -> Result<(), IpcError> {
    if !valid_utf8(bytes) {
        Err(IpcError::EncodingError)
    } else {
        match json_of(decode_utf8(bytes)) {
            None => Err(IpcError::SchemaError),
            Some(v) => if spec_envelope_ok(v) {
                Ok(())
            } else {
                Err(IpcError::CommandFailed)
            },
        }
    }
}

/// Interprets a command reply payload and demands success.
pub fn check_command_reply(payload: &Vec<u8>) -> (r: Result<(), IpcError>)
    ensures
        r is Ok <==> spec_check_reply(payload@) is Ok,
        r is Err ==> r->Err_0 == spec_check_reply(payload@)->Err_0,
{
    let text = match bytes_to_string(payload) {
        Some(t) => t,
        None => {
            return Err(IpcError::EncodingError);
        },
    };
    let parsed = match parse_json(text.as_str()) {
        Some(v) => v,
        None => {
            return Err(IpcError::SchemaError);
        },
    };
    check_success(&parsed)
}

} // verus!
