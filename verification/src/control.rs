//! Reading a control buffer: JSON text that holds an object with the
//! handler's arguments and, for an asynchronous call, the member `promiseId`.

use crate::error::DecodeKinds;
use crate::error::ErrorView;
use crate::error::OpError;
use crate::json::as_u64;
use crate::json::error_category;
use crate::json::error_data;
use crate::json::error_text;
use crate::json::field;
use crate::json::is_null;
use crate::json::is_object;
use crate::json::json_data;
use crate::json::member;
use crate::json::parse;
use crate::json::parsed;
use crate::json::JsonData;
use crate::json::ParseFailure;
use serde_json::Value;
use vstd::prelude::*;

verus! {

/// The one member of a control buffer that the bridge reads itself.
#[derive(Clone, Copy, Debug, PartialEq, Eq)]
pub struct AsyncArgs {
    /// The caller's correlation token; `None` marks a synchronous call.
    pub promise_id: Option<u64>,
}

/// What is wrong with the shape of a control buffer that is valid JSON.
pub enum ShapeFault {
    /// The buffer holds something other than an object.
    NotAnObject,
    /// `promiseId` is neither `null` nor a non-negative integer.
    BadPromiseId,
}

impl ShapeFault {
    /// The message that reports the fault.
    pub open spec fn message(self) -> Seq<char> {
        match self {
            ShapeFault::NotAnObject => "invalid control buffer: expected a JSON object"@,
            ShapeFault::BadPromiseId => "invalid promiseId: expected a non-negative integer or null"@,
        }
    }
}

/// The promise id that the arguments `args` carry. A missing `promiseId` and
/// an explicit `null` both mean that there is none.
pub open spec fn promise_id_of(args: JsonData) -> Result<Option<u64>, ShapeFault> {
    if args is Object {
        match field(args, "promiseId"@) {
            None => Ok(None),
            Some(JsonData::Null) => Ok(None),
            Some(JsonData::Unsigned(id)) => Ok(Some(id)),
            Some(_) => Err(ShapeFault::BadPromiseId),
        }
    } else {
        Err(ShapeFault::NotAnObject)
    }
}

/// The error for a fault in the buffer's shape. It is classed as bad data.
pub open spec fn shape_error(fault: ShapeFault, kinds: DecodeKinds) -> ErrorView {
    ErrorView { message: fault.message(), kind: kinds.data }
}

/// The error for text that is not JSON: the parser's message under the
/// host's code for the parser's category. Should the parser ever report an
/// empty message, a fixed one stands in, so that no error is silent.
pub open spec fn parse_error(failure: ParseFailure, kinds: DecodeKinds) -> ErrorView {
    ErrorView {
        message: if failure.message.len() == 0 {
            "invalid control buffer"@
        } else {
            failure.message
        },
        kind: kinds.code(failure.category),
    }
}

/// What a control buffer decodes to: the arguments for the handler together
/// with the promise id, or the error to report.
pub open spec fn read_control(control: Seq<u8>, kinds: DecodeKinds) -> Result<(JsonData, Option<u64>), ErrorView> {
    match parsed(control) {
        Err(failure) => Err(parse_error(failure, kinds)),
        Ok(args) => match promise_id_of(args) {
            Ok(promise_id) => Ok((args, promise_id)),
            Err(fault) => Err(shape_error(fault, kinds)),
        },
    }
}

impl AsyncArgs {
    /// Reads the promise id out of decoded arguments.
    pub fn from_value(args: &Value, kinds: &DecodeKinds) -> (r: Result<AsyncArgs, OpError>)
        ensures
            match r {
                Ok(a) => promise_id_of(json_data(*args)) == Ok::<Option<u64>, ShapeFault>(a.promise_id),
                Err(e) => promise_id_of(json_data(*args)) is Err && e@ == shape_error(
                    promise_id_of(json_data(*args))->Err_0,
                    *kinds,
                ),
            },
    {
        if !is_object(args) {
            return Err(
                OpError {
                    message: "invalid control buffer: expected a JSON object".to_owned(),
                    kind: kinds.data,
                },
            );
        }
        match member(args, "promiseId") {
            None => Ok(AsyncArgs { promise_id: None }),
            Some(id) => {
                if is_null(id) {
                    Ok(AsyncArgs { promise_id: None })
                } else {
                    match as_u64(id) {
                        Some(n) => Ok(AsyncArgs { promise_id: Some(n) }),
                        None => Err(
                            OpError {
                                message: "invalid promiseId: expected a non-negative integer or null".to_owned(),
                                kind: kinds.data,
                            },
                        ),
                    }
                }
            },
        }
    }
}

/// Turns a failure of the parser into the error to report.
fn decode_error(e: &serde_json::Error, kinds: &DecodeKinds) -> (err: OpError)
    ensures
        err@ == parse_error(error_data(*e), *kinds),
{
    let text = error_text(e);
    let message = if text.as_str().is_empty() {
        "invalid control buffer".to_owned()
    } else {
        text
    };
    OpError { message, kind: kinds.kind_of(error_category(e)) }
}

/// Decodes a control buffer into the arguments for the handler and the
/// promise id.
pub fn decode_control(control: &[u8], kinds: &DecodeKinds) -> (r: Result<(Value, Option<u64>), OpError>)
    ensures
        match r {
            Ok((args, promise_id)) => read_control(control@, *kinds) == Ok::<
                (JsonData, Option<u64>),
                ErrorView,
            >((json_data(args), promise_id)),
            Err(e) => read_control(control@, *kinds) == Err::<(JsonData, Option<u64>), ErrorView>(e@),
        },
{
    match parse(control) {
        Err(e) => Err(decode_error(&e, kinds)),
        Ok(args) => match AsyncArgs::from_value(&args, kinds) {
            Ok(a) => Ok((args, a.promise_id)),
            Err(e) => Err(e),
        },
    }
}

/// A control buffer that cannot be decoded is reported with a message that
/// is not empty.
pub proof fn lemma_malformed_has_message(control: Seq<u8>, kinds: DecodeKinds)
    requires
        read_control(control, kinds) is Err,
    ensures
        read_control(control, kinds)->Err_0.message.len() > 0,
{
    reveal_strlit("invalid control buffer");
    reveal_strlit("invalid control buffer: expected a JSON object");
    reveal_strlit("invalid promiseId: expected a non-negative integer or null");
}

} // verus!
