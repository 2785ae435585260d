//! A dispatch bridge between a host runtime and its JSON operations.
//!
//! A caller invokes an operation with a control buffer of JSON text and an
//! optional raw payload. The bridge reads the promise id from the control
//! buffer, hands the decoded arguments to the operation's handler, and wraps
//! the outcome in a uniform response envelope that echoes the promise id.

pub mod blocking;
pub mod control;
pub mod dispatch;
pub mod envelope;
pub mod error;
pub mod json;
pub mod laws;

pub use blocking::blocking_json;
pub use control::decode_control;
pub use control::AsyncArgs;
pub use dispatch::dispatch;
pub use dispatch::fits;
pub use dispatch::json_op;
pub use dispatch::normalize;
pub use dispatch::Deferred;
pub use dispatch::JsonOp;
pub use dispatch::Op;
pub use envelope::json_err;
pub use envelope::serialize_result;
pub use envelope::Buf;
pub use envelope::JsonResult;
pub use error::DecodeKinds;
pub use error::OpError;
pub use json::Category;
pub use json::JsonData;
