//! The uniform response envelope and its two-phase decoding rule.
//!
//! Every response the platform sends carries `result: string` and
//! `msg: string`.  Decoding always reads this minimal envelope first;
//! only when `result == "success"` may a typed payload be read from the
//! same tree.  A failure envelope therefore short-circuits every decoder
//! before any payload field is looked at.

use vstd::prelude::*;
use crate::errors::ZulipApiError;
use crate::json::{get_str, get_str_field, str_eq, JsonValue};

verus! {

/// The minimal envelope of a response: the success discriminator and
/// the server's message.
#[derive(Debug, PartialEq, Eq)]
pub struct Envelope {
    pub success: bool,
    pub msg: String,
}

/// What the minimal envelope of `v` holds: whether `result` equals
/// `"success"`, and the text of `msg` — provided both fields are
/// present as strings.  Anything else is a protocol violation.
pub open spec fn spec_envelope(v: JsonValue) -> Option<(bool, Seq<char>)> {
    match (get_str(v, "result"@), get_str(v, "msg"@)) {
        (Some(res), Some(msg)) => Some((res == "success"@, msg)),
        _ => None,
    }
}

/// Reads the minimal envelope out of a response tree.
pub fn decode_envelope(v: &JsonValue) -> (r: Result<Envelope, ZulipApiError>)
    ensures
        match r {
            Ok(e) => spec_envelope(*v) == Some((e.success, e.msg@)),
            Err(e) => spec_envelope(*v) is None && e == ZulipApiError::ProtocolViolation,
        },
{
    let res = get_str_field(v, "result");
    let msg = get_str_field(v, "msg");
    match (res, msg) {
        (Some(res), Some(msg)) => Ok(Envelope { success: str_eq(res.as_str(), "success"), msg }),
        _ => Err(ZulipApiError::ProtocolViolation),
    }
}

} // verus!
