//! The call-shape protocol: from a handler for decoded arguments to the entry
//! point that the host's operation table calls with raw bytes.
//!
//! The presence of a promise id alone decides whether a call is synchronous.
//! A handler answers a synchronous call at once and an asynchronous call
//! with a future; the bridge never awaits. For a future it hands back the
//! promise id beside it, and whoever drives the future prints the envelope
//! with [`serialize_result`] once the outcome is known.

use crate::control::decode_control;
use crate::control::read_control;
use crate::envelope::envelope_bytes;
use crate::envelope::serialize_result;
use crate::envelope::Buf;
use crate::error::DecodeKinds;
use crate::error::ErrorView;
use crate::error::OpError;
use crate::json::json_data;
use crate::json::JsonData;
use serde_json::Value;
use vstd::pervasive::unreached;
use vstd::prelude::*;

verus! {

/// What a handler returns for a call that it accepts. `F` is the type of the
/// future that stands for work still to be done.
pub enum JsonOp<F> {
    /// The value, at once. Only for a call without a promise id.
    Sync(Value),
    /// The value, later. Only for a call with a promise id. The host stays
    /// alive until the future has resolved.
    Async(F),
    /// As `Async`, but the host may exit while the future is pending.
    AsyncUnref(F),
}

/// A response that the caller receives after the call has returned.
pub enum Deferred<F> {
    /// The response was known when the call returned.
    Ready(Buf),
    /// The response is the envelope for whatever `future` resolves to, under
    /// `promise_id`.
    Pending { promise_id: u64, future: F },
}

/// What the bridge returns to the host's operation table.
pub enum Op<F> {
    /// The response, at once.
    Sync(Buf),
    /// A response to come; the host stays alive for it.
    Async(Deferred<F>),
    /// A response to come; the host does not wait for it.
    AsyncUnref(Deferred<F>),
}

impl<F> Deferred<F> {
    /// The bytes that the caller receives in the end, given what the pending
    /// future, if there is one, resolves to.
    pub open spec fn response(self, outcome: Result<JsonData, ErrorView>) -> Seq<u8> {
        match self {
            Deferred::Ready(buf) => buf@,
            Deferred::Pending { promise_id, future } => envelope_bytes(outcome, Some(promise_id)),
        }
    }
}

impl<F> Op<F> {
    /// Whether the host must stay alive until the response has been sent.
    pub open spec fn keeps_host_alive(self) -> bool {
        self is Async
    }
}

/// A handler's outcome with its error taken by content.
pub open spec fn outcome_view<F>(outcome: Result<JsonOp<F>, OpError>) -> Result<JsonOp<F>, ErrorView> {
    match outcome {
        Ok(shape) => Ok(shape),
        Err(e) => Err(e@),
    }
}

/// The rule that binds every handler: a value at once exactly for a call
/// without a promise id, a future exactly for a call with one. An error may
/// answer either.
pub open spec fn fits_protocol<F>(promise_id: Option<u64>, outcome: Result<JsonOp<F>, ErrorView>) -> bool {
    match outcome {
        Ok(JsonOp::Sync(_)) => promise_id is None,
        Ok(JsonOp::Async(_)) => promise_id is Some,
        Ok(JsonOp::AsyncUnref(_)) => promise_id is Some,
        Err(_) => true,
    }
}

/// `op` is the bridge's answer to a handler's `outcome` for a call under
/// `promise_id`.
pub open spec fn answers<F>(op: Op<F>, promise_id: Option<u64>, outcome: Result<JsonOp<F>, ErrorView>) -> bool {
    match outcome {
        Ok(JsonOp::Sync(value)) => op matches Op::Sync(buf) && buf@ == envelope_bytes(
            Ok(json_data(value)),
            None,
        ),
        Ok(JsonOp::Async(future)) => promise_id matches Some(id) && op == Op::Async(
            Deferred::Pending { promise_id: id, future },
        ),
        Ok(JsonOp::AsyncUnref(future)) => promise_id matches Some(id) && op == Op::AsyncUnref(
            Deferred::Pending { promise_id: id, future },
        ),
        Err(e) => match promise_id {
            None => op matches Op::Sync(buf) && buf@ == envelope_bytes(Err(e), None),
            Some(id) => op matches Op::Async(Deferred::Ready(buf)) && buf@ == envelope_bytes(
                Err(e),
                Some(id),
            ),
        },
    }
}

/// Tests the rule of the protocol on one outcome.
pub fn fits<F>(promise_id: Option<u64>, outcome: &Result<JsonOp<F>, OpError>) -> (b: bool)
    ensures
        b == fits_protocol(promise_id, outcome_view(*outcome)),
{
    match outcome {
        Ok(JsonOp::Sync(_)) => promise_id.is_none(),
        Ok(JsonOp::Async(_)) => promise_id.is_some(),
        Ok(JsonOp::AsyncUnref(_)) => promise_id.is_some(),
        Err(_) => true,
    }
}

/// Turns a handler's outcome into the answer for the host.
///
/// A value becomes its envelope. A future is handed on beside the promise
/// id, alive-keeping or not as the handler chose. An error becomes its
/// envelope, at once for a synchronous call and as a response that is
/// already known for an asynchronous one.
///
/// An outcome that breaks the protocol is a fault in the handler and has no
/// answer; the precondition rules it out, and [`fits`] tests it.
pub fn normalize<F>(promise_id: Option<u64>, outcome: Result<JsonOp<F>, OpError>) -> (op: Op<F>)
    requires
        fits_protocol(promise_id, outcome_view(outcome)),
    ensures
        answers(op, promise_id, outcome_view(outcome)),
{
    match outcome {
        Ok(JsonOp::Sync(value)) => match promise_id {
            None => Op::Sync(serialize_result(None, Ok(value))),
            Some(_) => unreached(),
        },
        Ok(JsonOp::Async(future)) => match promise_id {
            Some(id) => Op::Async(Deferred::Pending { promise_id: id, future }),
            None => unreached(),
        },
        Ok(JsonOp::AsyncUnref(future)) => match promise_id {
            Some(id) => Op::AsyncUnref(Deferred::Pending { promise_id: id, future }),
            None => unreached(),
        },
        Err(e) => {
            let buf = serialize_result(promise_id, Err(e));
            match promise_id {
                None => Op::Sync(buf),
                Some(_) => Op::Async(Deferred::Ready(buf)),
            }
        },
    }
}

/// `op` is a possible result of dispatching `control` and `zero_copy` to
/// the handler `d`.
///
/// A buffer that does not decode is answered at once, with an error envelope
/// without a promise id. Otherwise the handler has been called once, with the
/// decoded arguments and `zero_copy`, and `op` answers what it returned.
pub open spec fn dispatched<D, Z, F>(
    d: D,
    kinds: DecodeKinds,
    control: Seq<u8>,
    zero_copy: Option<Z>,
    op: Op<F>,
) -> bool where D: Fn(Value, Option<Z>) -> Result<JsonOp<F>, OpError> {
    match read_control(control, kinds) {
        Err(e) => answers(op, None, Err(e)),
        Ok((args, promise_id)) => exists|value: Value, outcome: Result<JsonOp<F>, OpError>|
            json_data(value) == args && #[trigger] call_ensures(d, (value, zero_copy), outcome)
                && answers(op, promise_id, outcome_view(outcome)),
    }
}

/// What one call asks of the handler `d`, and of no other call: if
/// `control` decodes, the handler accepts the decoded arguments with
/// `zero_copy`, and whatever it returns for them fits the protocol under the
/// promise id of this call. A buffer that does not decode asks nothing, for
/// it never reaches the handler.
pub open spec fn may_dispatch<D, Z, F>(d: D, kinds: DecodeKinds, control: Seq<u8>, zero_copy: Option<Z>) -> bool where
    D: Fn(Value, Option<Z>) -> Result<JsonOp<F>, OpError>,
 {
    read_control(control, kinds) matches Ok((args, promise_id)) ==> {
        &&& forall|value: Value|
            json_data(value) == args ==> #[trigger] call_requires(d, (value, zero_copy))
        &&& forall|value: Value, outcome: Result<JsonOp<F>, OpError>|
            json_data(value) == args && #[trigger] call_ensures(d, (value, zero_copy), outcome)
                ==> fits_protocol(promise_id, outcome_view(outcome))
    }
}

/// Dispatches one call: decodes `control`, calls the handler and answers.
pub fn dispatch<D, Z, F>(d: &D, kinds: &DecodeKinds, control: &[u8], zero_copy: Option<Z>) -> (op: Op<F>) where
    D: Fn(Value, Option<Z>) -> Result<JsonOp<F>, OpError>,

    requires
        may_dispatch(*d, *kinds, control@, zero_copy),
    ensures
        dispatched(*d, *kinds, control@, zero_copy, op),
{
    match decode_control(control, kinds) {
        Err(e) => {
            // The promise id could not be read, so the call cannot be
            // asynchronous.
            Op::Sync(serialize_result(None, Err(e)))
        },
        Ok((args, promise_id)) => {
            let ghost value = args;
            let outcome = d(args, zero_copy);
            proof {
                assert(call_ensures(*d, (value, zero_copy), outcome));
            }
            normalize(promise_id, outcome)
        },
    }
}

/// Wraps a handler into the entry point for the host's operation table.
/// `kinds` gives the host's codes for the errors of decoding.
///
/// Any handler can be wrapped. The entry point asks of each call what
/// [`may_dispatch`] says, and of no call anything about the others.
pub fn json_op<D, Z, F>(d: D, kinds: DecodeKinds) -> (op: impl Fn(&[u8], Option<Z>) -> Op<F>) where
    D: Fn(Value, Option<Z>) -> Result<JsonOp<F>, OpError>,

    ensures
        forall|control: &[u8], zero_copy: Option<Z>|
            may_dispatch(d, kinds, control@, zero_copy) ==> #[trigger] call_requires(
                op,
                (control, zero_copy),
            ),
        forall|control: &[u8], zero_copy: Option<Z>, out: Op<F>| #[trigger]
            call_ensures(op, (control, zero_copy), out) ==> dispatched(
                d,
                kinds,
                control@,
                zero_copy,
                out,
            ),
{
    move |control: &[u8], zero_copy: Option<Z>| -> (out: Op<F>)
        requires
            may_dispatch(d, kinds, control@, zero_copy),
        ensures
            dispatched(d, kinds, control@, zero_copy, out),
        { dispatch(&d, &kinds, control, zero_copy) }
}

} // verus!
