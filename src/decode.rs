use vstd::prelude::*;

use crate::routes::{Reply, ReplyBody, STATUS_BAD_REQUEST, STATUS_INTERNAL_ERROR};

verus! {

/// Why an inbound body could not be read as a batch of alerts. Each variant
/// carries the decoder's own description of the fault.
pub enum DecodeError {
    /// The request does not declare a JSON content type.
    MissingContentType(String),
    /// The body is not JSON, or not in the shape of a batch.
    MalformedBody(String),
    /// Any other failure, not attributable to the client.
    InternalDecodeError(String),
}

/// The diagnostic that the reply to a decode failure carries.
pub open spec fn diagnostic_of(err: DecodeError) -> Seq<char> {
    match err {
        DecodeError::MissingContentType(m) => m@,
        DecodeError::MalformedBody(m) => "Invalid JSON request: "@ + m@,
        DecodeError::InternalDecodeError(m) => "Unknown internal error: "@ + m@,
    }
}

/// The status of the reply to a decode failure: the client's fault but for
/// an internal one.
pub open spec fn status_of(err: DecodeError) -> u16 {
    match err {
        DecodeError::InternalDecodeError(_) => STATUS_INTERNAL_ERROR,
        _ => STATUS_BAD_REQUEST,
    }
}

/// The reply sent when the body could not be decoded; nothing was dispatched.
pub fn rejection_reply(err: DecodeError) -> (r: Reply)
    ensures
        r.status == status_of(err),
        r.body matches ReplyBody::Error(d) && d@ == diagnostic_of(err),
        err is MalformedBody ==> r.status == STATUS_BAD_REQUEST,
        err is MalformedBody ==> (r.body matches ReplyBody::Error(d) && d@.len() > 0),
{
    match err {
        DecodeError::MissingContentType(m) => Reply {
            status: STATUS_BAD_REQUEST,
            body: ReplyBody::Error(m),
        },
        DecodeError::MalformedBody(m) => {
            proof {
                reveal_strlit("Invalid JSON request: ");
            }
            let d = String::from_str("Invalid JSON request: ").concat(m.as_str());
            Reply { status: STATUS_BAD_REQUEST, body: ReplyBody::Error(d) }
        },
        DecodeError::InternalDecodeError(m) => {
            let d = String::from_str("Unknown internal error: ").concat(m.as_str());
            Reply { status: STATUS_INTERNAL_ERROR, body: ReplyBody::Error(d) }
        },
    }
}

} // verus!
