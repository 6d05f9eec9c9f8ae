use vstd::prelude::*;

verus! {

/// What a reply carries besides its status.
pub enum ReplyBody {
    /// No body at all.
    Empty,
    /// A plain text body.
    Text(String),
    /// A JSON object whose one field `error` holds this diagnostic.
    Error(String),
}

/// A reply to an inbound request.
pub struct Reply {
    pub status: u16,
    pub body: ReplyBody,
}

pub const STATUS_OK: u16 = 200;

pub const STATUS_BAD_REQUEST: u16 = 400;

pub const STATUS_INTERNAL_ERROR: u16 = 500;

/// The liveness reply: success with a fixed text, whatever the state.
pub fn get_health() -> (r: Reply)
    ensures
        r.status == STATUS_OK,
        r.body matches ReplyBody::Text(t) && t@ == "Good"@,
{
    Reply { status: STATUS_OK, body: ReplyBody::Text(String::from_str("Good")) }
}

} // verus!
