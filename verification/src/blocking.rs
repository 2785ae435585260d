//! Work that may block, for handlers that serve both call shapes.

use crate::dispatch::JsonOp;
use serde_json::Value;
use vstd::prelude::*;

verus! {

/// Runs `f` now for a synchronous call and defers it for an asynchronous
/// one.
///
/// With `is_sync` the work runs on the calling thread, and its value or its
/// error is the result. Without it the work does not run here: it comes back
/// untouched in `JsonOp::Async`, for the host to submit to its pool of
/// blocking workers.
pub fn blocking_json<W, E>(is_sync: bool, f: W) -> (r: Result<JsonOp<W>, E>) where
    W: 'static + Send + FnOnce() -> Result<Value, E>,

    requires
        is_sync ==> call_requires(f, ()),
    ensures
        is_sync ==> match r {
            Ok(JsonOp::Sync(value)) => call_ensures(f, (), Ok::<Value, E>(value)),
            Ok(_) => false,
            Err(e) => call_ensures(f, (), Err::<Value, E>(e)),
        },
        !is_sync ==> r == Ok::<JsonOp<W>, E>(JsonOp::Async(f)),
{
    if is_sync {
        match f() {
            Ok(value) => Ok(JsonOp::Sync(value)),
            Err(e) => Err(e),
        }
    } else {
        Ok(JsonOp::Async(f))
    }
}

} // verus!
