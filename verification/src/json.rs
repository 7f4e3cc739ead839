//! Decoding inbound frame text into typed envelopes.
//!
//! Parsing goes through `serde_json`, behind two trusted extraction
//! wrappers. What each extraction yields is a function of the frame text
//! alone, so the results carry names (`string_field_of`, `groups_of`):
//! stating them in full would amount to writing out the JSON grammar, but
//! the names let every contract downstream pin the decoded envelope — and
//! the fragment owed for it — to the text.

use vstd::prelude::*;

use crate::envelope::Envelope;
use crate::envelope::OpModeGroup;
use crate::envelope::RobotState;
use crate::envelope::groups_view;
use crate::text::str_eq;

verus! {

/// Whether `serde_json` accepts this text as a JSON document.
pub uninterp spec fn json_text_wf(s: Seq<char>) -> bool;

/// The string at `key` in the document parsed from `s`: `Some` exactly when
/// `s` parses to an object that holds a string at `key`.
pub uninterp spec fn string_field_of(s: Seq<char>, key: Seq<char>) -> Option<Seq<char>>;

/// The grouped string lists under `key` in the document parsed from `s`:
/// one `(label, names)` pair per entry of the object at `key`, in its
/// iteration order, where each entry's value is an array of objects and
/// `names` holds their strings at `name_key`, in array order. `None` when
/// the text does not parse or any part of that shape is absent or mistyped.
pub uninterp spec fn groups_of(s: Seq<char>, key: Seq<char>, name_key: Seq<char>) -> Option<
    Seq<(Seq<char>, Seq<Seq<char>>)>,
>;

/// Relies on serde_json::from_str::<Value>, Value::get and Value::as_str:
/// the string at `key` of the parsed text, a function of text and key alone.
#[verifier::external_body]
fn extract_string_field(text: &str, key: &str) -> (r: Option<String>)
    ensures
        (r is Some) == (string_field_of(text@, key@) is Some),
        r matches Some(t) ==> string_field_of(text@, key@) == Some(t@),
        r is Some ==> json_text_wf(text@),
        !json_text_wf(text@) ==> r is None,
{
    let doc: serde_json::Value = match serde_json::from_str(text) {
        Ok(d) => d,
        Err(_) => return None,
    };
    doc.get(key).and_then(|v| v.as_str()).map(|s| s.to_owned())
}

/// Relies on serde_json::from_str::<Value>, Value::get, Value::as_object,
/// Value::as_array and Value::as_str: the grouped string lists under `key`
/// of the parsed text, converted one entry at a time into the library's
/// group type — a function of the three arguments alone.
#[verifier::external_body]
fn extract_groups(text: &str, key: &str, name_key: &str) -> (r: Option<Vec<OpModeGroup>>)
    ensures
        (r is Some) == (groups_of(text@, key@, name_key@) is Some),
        r matches Some(gs) ==> groups_of(text@, key@, name_key@) == Some(groups_view(gs@)),
        r is Some ==> json_text_wf(text@),
        !json_text_wf(text@) ==> r is None,
{
    let doc: serde_json::Value = match serde_json::from_str(text) {
        Ok(d) => d,
        Err(_) => return None,
    };
    let obj = doc.get(key)?.as_object()?;
    let mut out: Vec<OpModeGroup> = Vec::new();
    for (label, val) in obj {
        let mut names: Vec<String> = Vec::new();
        for item in val.as_array()? {
            names.push(item.get(name_key)?.as_str()?.to_owned());
        }
        out.push(OpModeGroup { label: label.clone(), names });
    }
    Some(out)
}

/// The decode relation: which envelope a frame text yields. Over the named
/// parse results every case is pinned — the variant, each payload field,
/// and that a missing or mistyped part makes the frame malformed.
pub open spec fn decoded(s: Seq<char>, env: Envelope) -> bool {
    match string_field_of(s, "type"@) {
        None => env is Malformed,
        Some(ty) => if ty == "ROBOT_STATE"@ {
            match (
                string_field_of(s, "activeOpModeName"@),
                string_field_of(s, "opModeState"@),
                string_field_of(s, "flavour"@),
            ) {
                (Some(n), Some(st), Some(fl)) => env matches Envelope::RobotState(rs)
                    && rs.active_op_mode_name@ == n && rs.op_mode_state@ == st && rs.flavour@
                    == fl,
                _ => env is Malformed,
            }
        } else if ty == "RETURN_OP_MODE_META_DATA"@ {
            match groups_of(s, "metadata"@, "name"@) {
                Some(gs) => env matches Envelope::OpModeMetaData(groups) && groups_view(groups@)
                    == gs,
                None => env is Malformed,
            }
        } else {
            env is Unrecognized
        },
    }
}

/// Decode one inbound text payload into an envelope.
///
/// The result is exactly what `decoded` says for this text: text without a
/// string `type` (including text that is not JSON) is malformed, a
/// recognized variant carries precisely the named field values or is
/// malformed when any is absent or mistyped, and any other `type` string is
/// merely unrecognized. No input is an error: every frame decodes to some
/// envelope, and the malformed and unrecognized ones produce no output
/// downstream.
pub fn parse_envelope(text: &str) -> (env: Envelope)
    ensures
        decoded(text@, env),
        !json_text_wf(text@) ==> env is Malformed,
        !(env is Malformed) ==> json_text_wf(text@),
{
    let ty = match extract_string_field(text, "type") {
        Some(t) => t,
        None => {
            return Envelope::Malformed;
        },
    };
    if str_eq(ty.as_str(), "ROBOT_STATE") {
        let active_op_mode_name = match extract_string_field(text, "activeOpModeName") {
            Some(s) => s,
            None => {
                return Envelope::Malformed;
            },
        };
        let op_mode_state = match extract_string_field(text, "opModeState") {
            Some(s) => s,
            None => {
                return Envelope::Malformed;
            },
        };
        let flavour = match extract_string_field(text, "flavour") {
            Some(s) => s,
            None => {
                return Envelope::Malformed;
            },
        };
        Envelope::RobotState(RobotState { active_op_mode_name, op_mode_state, flavour })
    } else if str_eq(ty.as_str(), "RETURN_OP_MODE_META_DATA") {
        match extract_groups(text, "metadata", "name") {
            Some(groups) => Envelope::OpModeMetaData(groups),
            None => Envelope::Malformed,
        }
    } else {
        Envelope::Unrecognized
    }
}

} // verus!
