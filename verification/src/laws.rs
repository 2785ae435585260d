//! What holds of every call through the bridge, whatever the handler.

use crate::control::promise_id_of;
use crate::control::read_control;
use crate::dispatch::answers;
use crate::dispatch::dispatched;
use crate::dispatch::may_dispatch;
use crate::dispatch::Deferred;
use crate::dispatch::JsonOp;
use crate::dispatch::Op;
use crate::envelope::envelope;
use crate::envelope::envelope_bytes;
use crate::envelope::error_object;
use crate::envelope::outcome_data;
use crate::envelope::promise_id_data;
use crate::envelope::JsonResult;
use crate::error::DecodeKinds;
use crate::error::ErrorView;
use crate::error::OpError;
use crate::json::field;
use crate::json::json_data;
use crate::json::json_text;
use crate::json::member_of;
use crate::json::JsonData;
use serde_json::Value;
use vstd::prelude::*;

verus! {

/// Every outcome that the handler `d` may return for the arguments `args`
/// and `zero_copy` is `expected`, up to the content of values and errors.
pub open spec fn handler_returns<D, Z, F>(
    d: D,
    args: JsonData,
    zero_copy: Option<Z>,
    expected: Result<JsonOp<F>, ErrorView>,
) -> bool where D: Fn(Value, Option<Z>) -> Result<JsonOp<F>, OpError> {
    forall|value: Value, outcome: Result<JsonOp<F>, OpError>|
        json_data(value) == args && #[trigger] call_ensures(d, (value, zero_copy), outcome) ==> match (
            outcome,
            expected,
        ) {
            (Ok(JsonOp::Sync(a)), Ok(JsonOp::Sync(b))) => json_data(a) == json_data(b),
            (Ok(JsonOp::Async(a)), Ok(JsonOp::Async(b))) => a == b,
            (Ok(JsonOp::AsyncUnref(a)), Ok(JsonOp::AsyncUnref(b))) => a == b,
            (Err(a), Err(b)) => a@ == b,
            _ => false,
        }
}

/// The handler `d` can be called with the arguments `args` and `zero_copy`.
pub open spec fn handler_accepts<D, Z, F>(d: D, args: JsonData, zero_copy: Option<Z>) -> bool where
    D: Fn(Value, Option<Z>) -> Result<JsonOp<F>, OpError>,
 {
    forall|value: Value| json_data(value) == args ==> #[trigger] call_requires(d, (value, zero_copy))
}

/// A call without a promise id that the handler answers with a value gets,
/// at once, the envelope `{"ok": value, "promiseId": null}`.
pub proof fn lemma_value_at_once<D, Z, F>(
    d: D,
    kinds: DecodeKinds,
    control: Seq<u8>,
    zero_copy: Option<Z>,
    op: Op<F>,
    args: JsonData,
    value: Value,
) where D: Fn(Value, Option<Z>) -> Result<JsonOp<F>, OpError>
    requires
        read_control(control, kinds) == Ok::<(JsonData, Option<u64>), ErrorView>((args, None)),
        handler_returns(d, args, zero_copy, Ok::<JsonOp<F>, ErrorView>(JsonOp::Sync(value))),
    ensures
        handler_accepts(d, args, zero_copy) ==> may_dispatch(d, kinds, control, zero_copy),
        dispatched(d, kinds, control, zero_copy, op) ==> (op matches Op::Sync(buf) && buf@ == json_text(
            JsonData::Object(seq![("ok"@, json_data(value)), ("promiseId"@, JsonData::Null)]),
        )),
{
}

/// A call under the promise id `id` for which the handler returns a future
/// hands that future on with `id`, alive-keeping. Once the future resolves,
/// the response is `{"ok": value, "promiseId": id}` for a value and
/// `{"err": {"message": text, "kind": code}, "promiseId": id}` for an error.
pub proof fn lemma_future_then_envelope<D, Z, F>(
    d: D,
    kinds: DecodeKinds,
    control: Seq<u8>,
    zero_copy: Option<Z>,
    op: Op<F>,
    args: JsonData,
    id: u64,
    future: F,
    resolved: Result<JsonData, ErrorView>,
) where D: Fn(Value, Option<Z>) -> Result<JsonOp<F>, OpError>
    requires
        read_control(control, kinds) == Ok::<(JsonData, Option<u64>), ErrorView>((args, Some(id))),
        handler_returns(d, args, zero_copy, Ok::<JsonOp<F>, ErrorView>(JsonOp::Async(future))),
    ensures
        handler_accepts(d, args, zero_copy) ==> may_dispatch(d, kinds, control, zero_copy),
        dispatched(d, kinds, control, zero_copy, op) ==> op == Op::Async(
            (Deferred::Pending { promise_id: id, future }),
        ) && op.keeps_host_alive(),
        (Deferred::Pending { promise_id: id, future }).response(resolved) == json_text(
            match resolved {
                Ok(value) => JsonData::Object(seq![("ok"@, value), ("promiseId"@, JsonData::Unsigned(id))]),
                Err(e) => JsonData::Object(
                    seq![
                        (
                            "err"@,
                            JsonData::Object(
                                seq![
                                    ("message"@, JsonData::Text(e.message)),
                                    ("kind"@, JsonData::Unsigned(e.kind as u64)),
                                ],
                            ),
                        ),
                        ("promiseId"@, JsonData::Unsigned(id)),
                    ],
                ),
            },
        ),
{
}

/// A control buffer that does not decode is answered at once, whatever call
/// it was meant for and whatever the handler: with an error envelope whose
/// `promiseId` is `null` and whose message is not empty.
pub proof fn lemma_malformed_at_once<D, Z, F>(
    d: D,
    kinds: DecodeKinds,
    control: Seq<u8>,
    zero_copy: Option<Z>,
    op: Op<F>,
) where D: Fn(Value, Option<Z>) -> Result<JsonOp<F>, OpError>
    requires
        read_control(control, kinds) is Err,
    ensures
        may_dispatch(d, kinds, control, zero_copy),
        read_control(control, kinds)->Err_0.message.len() > 0,
        dispatched(d, kinds, control, zero_copy, op) ==> (op matches Op::Sync(buf) && buf@ == json_text(
            JsonData::Object(
                seq![
                    ("err"@, error_object(read_control(control, kinds)->Err_0)),
                    ("promiseId"@, JsonData::Null),
                ],
            ),
        )),
{
    crate::control::lemma_malformed_has_message(control, kinds);
}

/// A call under the promise id `id` that fails before the handler has
/// returned a call shape keeps its asynchronous shape: the answer is a
/// deferred response, already known, and it is the error envelope under
/// `id`.
pub proof fn lemma_failure_keeps_promise_id<D, Z, F>(
    d: D,
    kinds: DecodeKinds,
    control: Seq<u8>,
    zero_copy: Option<Z>,
    op: Op<F>,
    args: JsonData,
    id: u64,
    error: ErrorView,
    resolved: Result<JsonData, ErrorView>,
) where D: Fn(Value, Option<Z>) -> Result<JsonOp<F>, OpError>
    requires
        read_control(control, kinds) == Ok::<(JsonData, Option<u64>), ErrorView>((args, Some(id))),
        handler_returns(d, args, zero_copy, Err::<JsonOp<F>, ErrorView>(error)),
    ensures
        handler_accepts(d, args, zero_copy) ==> may_dispatch(d, kinds, control, zero_copy),
        dispatched(d, kinds, control, zero_copy, op) ==> (op matches Op::Async(Deferred::Ready(_))
            && op.keeps_host_alive() && op->Async_0.response(resolved) == json_text(
            JsonData::Object(
                seq![("err"@, error_object(error)), ("promiseId"@, JsonData::Unsigned(id))],
            ),
        )),
{
}

/// A call under the promise id `id` for which the handler returns a future
/// that does not keep the host alive hands that future on with `id`, and
/// never as alive-keeping. Once the future resolves, the response is the
/// same envelope that an alive-keeping future would give.
pub proof fn lemma_unref_future_then_envelope<D, Z, F>(
    d: D,
    kinds: DecodeKinds,
    control: Seq<u8>,
    zero_copy: Option<Z>,
    op: Op<F>,
    args: JsonData,
    id: u64,
    future: F,
    resolved: Result<JsonData, ErrorView>,
) where D: Fn(Value, Option<Z>) -> Result<JsonOp<F>, OpError>
    requires
        read_control(control, kinds) == Ok::<(JsonData, Option<u64>), ErrorView>((args, Some(id))),
        handler_returns(d, args, zero_copy, Ok::<JsonOp<F>, ErrorView>(JsonOp::AsyncUnref(future))),
    ensures
        handler_accepts(d, args, zero_copy) ==> may_dispatch(d, kinds, control, zero_copy),
        dispatched(d, kinds, control, zero_copy, op) ==> op == Op::AsyncUnref(
            (Deferred::Pending { promise_id: id, future }),
        ) && !op.keeps_host_alive(),
        (Deferred::Pending { promise_id: id, future }).response(resolved) == envelope_bytes(
            resolved,
            Some(id),
        ),
{
}

/// A call without a promise id that fails in the handler gets, at once, the
/// envelope `{"err": {"message": text, "kind": code}, "promiseId": null}`.
pub proof fn lemma_failure_at_once<D, Z, F>(
    d: D,
    kinds: DecodeKinds,
    control: Seq<u8>,
    zero_copy: Option<Z>,
    op: Op<F>,
    args: JsonData,
    error: ErrorView,
) where D: Fn(Value, Option<Z>) -> Result<JsonOp<F>, OpError>
    requires
        read_control(control, kinds) == Ok::<(JsonData, Option<u64>), ErrorView>((args, None)),
        handler_returns(d, args, zero_copy, Err::<JsonOp<F>, ErrorView>(error)),
    ensures
        handler_accepts(d, args, zero_copy) ==> may_dispatch(d, kinds, control, zero_copy),
        dispatched(d, kinds, control, zero_copy, op) ==> (op matches Op::Sync(buf) && buf@ == json_text(
            JsonData::Object(seq![("err"@, error_object(error)), ("promiseId"@, JsonData::Null)]),
        )),
{
}

/// A future that the handler marks as not keeping the host alive is never
/// handed on as alive-keeping, and one that it does not mark so always is.
pub proof fn lemma_liveness_follows_handler<F>(
    op: Op<F>,
    promise_id: Option<u64>,
    outcome: Result<JsonOp<F>, ErrorView>,
)
    requires
        answers(op, promise_id, outcome),
    ensures
        outcome matches Ok(JsonOp::AsyncUnref(_)) ==> !op.keeps_host_alive(),
        outcome matches Ok(JsonOp::Async(_)) ==> op.keeps_host_alive(),
{
}

/// Every envelope echoes the promise id that it was built for: its member
/// `promiseId` is the id, or `null` where there is none, and reading the
/// promise id back from the envelope gives the same id again.
pub proof fn lemma_envelope_echoes_promise_id(
    outcome: Result<JsonData, ErrorView>,
    promise_id: Option<u64>,
)
    ensures
        field(envelope(outcome, promise_id), "promiseId"@) == Some(promise_id_data(promise_id)),
        promise_id_of(envelope(outcome, promise_id)) == Ok::<Option<u64>, crate::control::ShapeFault>(
            promise_id,
        ),
{
    reveal_strlit("ok");
    reveal_strlit("err");
    reveal_strlit("promiseId");
    let entries = envelope(outcome, promise_id)->Object_0;
    assert(entries.len() == 2);
    assert(entries[0].0 != "promiseId"@) by {
        match outcome {
            Ok(_) => assert(entries[0].0.len() == 2),
            Err(_) => assert(entries[0].0.len() == 3),
        }
    }
    assert(entries.drop_first().len() == 1);
    assert(entries.drop_first()[0] == entries[1]);
    assert(member_of(entries.drop_first(), "promiseId"@) == Some(promise_id_data(promise_id)));
    assert(member_of(entries, "promiseId"@) == Some(promise_id_data(promise_id)));
}

/// Printing is stable: results of equal content under equal promise ids
/// give the same bytes, call after call.
pub proof fn lemma_same_inputs_same_bytes(
    first: JsonResult,
    second: JsonResult,
    first_id: Option<u64>,
    second_id: Option<u64>,
)
    requires
        outcome_data(first) == outcome_data(second),
        first_id == second_id,
    ensures
        envelope_bytes(outcome_data(first), first_id) == envelope_bytes(
            outcome_data(second),
            second_id,
        ),
{
}

} // verus!
