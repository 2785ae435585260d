//! The response envelope: one JSON object per call, either
//! `{"ok": value, "promiseId": id}` or
//! `{"err": {"message": text, "kind": code}, "promiseId": id}`,
//! where `id` is `null` for a synchronous call.

use crate::error::ErrorView;
use crate::error::OpError;
use crate::json::json_data;
use crate::json::json_text;
use crate::json::map_entries;
use crate::json::map_insert;
use crate::json::member_of;
use crate::json::new_map;
use crate::json::null_value;
use crate::json::object_value;
use crate::json::text_value;
use crate::json::to_bytes;
use crate::json::unsigned_value;
use crate::json::JsonData;
use serde_json::Value;
use vstd::prelude::*;

verus! {

/// What a handler's work comes to in the end: a value or an error.
pub type JsonResult = Result<Value, OpError>;

/// The bytes of a response.
pub type Buf = Vec<u8>;

/// The content of a [`JsonResult`].
pub open spec fn outcome_data(result: JsonResult) -> Result<JsonData, ErrorView> {
    match result {
        Ok(v) => Ok(json_data(v)),
        Err(e) => Err(e@),
    }
}

/// The `promiseId` member: the id, or `null` where there is none.
pub open spec fn promise_id_data(promise_id: Option<u64>) -> JsonData {
    match promise_id {
        Some(id) => JsonData::Unsigned(id),
        None => JsonData::Null,
    }
}

/// The `err` member: `{"message": text, "kind": code}`.
pub open spec fn error_object(e: ErrorView) -> JsonData {
    JsonData::Object(
        seq![("message"@, JsonData::Text(e.message)), ("kind"@, JsonData::Unsigned(e.kind as u64))],
    )
}

/// The envelope for an outcome and a promise id.
pub open spec fn envelope(outcome: Result<JsonData, ErrorView>, promise_id: Option<u64>) -> JsonData {
    match outcome {
        Ok(v) => JsonData::Object(seq![("ok"@, v), ("promiseId"@, promise_id_data(promise_id))]),
        Err(e) => JsonData::Object(
            seq![("err"@, error_object(e)), ("promiseId"@, promise_id_data(promise_id))],
        ),
    }
}

/// The response bytes for an outcome and a promise id: the envelope, printed.
pub open spec fn envelope_bytes(outcome: Result<JsonData, ErrorView>, promise_id: Option<u64>) -> Seq<u8> {
    json_text(envelope(outcome, promise_id))
}

/// `b` differs from `a` in length, so a list that holds only `a` has no
/// member under `b`.
proof fn lemma_single_member_other_key(a: Seq<char>, v: JsonData, b: Seq<char>)
    requires
        a.len() != b.len(),
    ensures
        member_of(seq![(a, v)], b) is None,
{
    let entries = seq![(a, v)];
    assert(entries.drop_first().len() == 0);
    assert(member_of(entries.drop_first(), b) is None);
}

/// The JSON value for a promise id.
fn promise_id_value(promise_id: Option<u64>) -> (v: Value)
    ensures
        json_data(v) == promise_id_data(promise_id),
{
    match promise_id {
        Some(id) => unsigned_value(id),
        None => null_value(),
    }
}

/// Builds the `err` member of an envelope from an error.
pub fn json_err(err: OpError) -> (v: Value)
    ensures
        json_data(v) == error_object(err@),
{
    let ghost view = err@;
    let mut map = new_map();
    map_insert(&mut map, "message".to_owned(), text_value(err.message));
    proof {
        reveal_strlit("message");
        reveal_strlit("kind");
        lemma_single_member_other_key("message"@, JsonData::Text(view.message), "kind"@);
    }
    map_insert(&mut map, "kind".to_owned(), unsigned_value(err.kind as u64));
    assert(map_entries(map) =~= seq![
        ("message"@, JsonData::Text(view.message)),
        ("kind"@, JsonData::Unsigned(view.kind as u64)),
    ]);
    object_value(map)
}

/// Builds the envelope for `result` and `promise_id` and prints it.
pub fn serialize_result(promise_id: Option<u64>, result: JsonResult) -> (buf: Buf)
    ensures
        buf@ == envelope_bytes(outcome_data(result), promise_id),
{
    let ghost outcome = outcome_data(result);
    let mut map = new_map();
    match result {
        Ok(v) => {
            map_insert(&mut map, "ok".to_owned(), v);
            proof {
                reveal_strlit("ok");
                reveal_strlit("promiseId");
                lemma_single_member_other_key("ok"@, outcome->Ok_0, "promiseId"@);
            }
        },
        Err(err) => {
            map_insert(&mut map, "err".to_owned(), json_err(err));
            proof {
                reveal_strlit("err");
                reveal_strlit("promiseId");
                lemma_single_member_other_key("err"@, error_object(outcome->Err_0), "promiseId"@);
            }
        },
    }
    map_insert(&mut map, "promiseId".to_owned(), promise_id_value(promise_id));
    assert(JsonData::Object(map_entries(map)) == envelope(outcome, promise_id)) by {
        match outcome {
            Ok(v) => {
                assert(map_entries(map) =~= seq![("ok"@, v), ("promiseId"@, promise_id_data(promise_id))]);
            },
            Err(e) => {
                assert(map_entries(map) =~= seq![
                    ("err"@, error_object(e)),
                    ("promiseId"@, promise_id_data(promise_id)),
                ]);
            },
        }
    }
    let value = object_value(map);
    to_bytes(&value)
}

} // verus!
