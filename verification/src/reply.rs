//! The HTTP answers of the frontend and of the compute services.

use vstd::prelude::*;
use crate::record::{ContentType, Reply};

verus! {

/// An answer with the given status, content type and body.
pub fn reply(status: u16, content_type: ContentType, body: String) -> (r: Reply)
    ensures
        r.status == status,
        r.content_type == content_type,
        r.body == body,
{
    Reply { status, content_type, body }
}

/// A request body that is not UTF-8 text is refused with 400.
pub fn undecodable_body_reply() -> (r: Reply)
    ensures
        r.status == 400,
        r.content_type == ContentType::Unset,
        r.body@ == "body decode failure"@,
{
    reply(400, ContentType::Unset, String::from_str("body decode failure"))
}

/// A request body that is not a workflow record is refused with 400 and the
/// parser's description of the fault.
pub fn malformed_record_reply(detail: String) -> (r: Reply)
    ensures
        r.status == 400,
        r.content_type == ContentType::Unset,
        r.body == detail,
{
    reply(400, ContentType::Unset, detail)
}

/// The table of pending requests could not be reached: 500.
pub fn registry_unavailable_reply() -> (r: Reply)
    ensures
        r.status == 500,
        r.content_type == ContentType::Html,
        r.body@ == "could not lock request map"@,
{
    reply(500, ContentType::Html, String::from_str("could not lock request map"))
}

} // verus!
