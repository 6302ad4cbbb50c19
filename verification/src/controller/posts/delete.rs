//! Deleting a post.

use crate::reply::{Body, BodyView, Reply, ReplyView, Status};
use crate::text::{append_decimal, decimal_of};
use vstd::prelude::*;
use vstd::string::StringExecFns;

verus! {

/// The text that acknowledges that the post `id` was deleted.
pub open spec fn acknowledgement_of(id: int) -> Seq<char> {
    "delete post ["@ + decimal_of(id) + "]"@
}

/// The text that acknowledges that the post `id` was deleted.
pub fn acknowledgement(id: i32) -> (r: String)
    ensures
        r@ == acknowledgement_of(id as int),
{
    let mut text = String::from_str("delete post [");
    append_decimal(&mut text, id);
    text.append("]");
    text
}

/// The reply to a request to delete post `id`, from what the store
/// gave.
pub open spec fn reply_of(id: int, outcome: Result<(), String>) -> ReplyView {
    match outcome {
        Ok(_) => ReplyView {
            status: Status::Success,
            body: BodyView::Text(acknowledgement_of(id)),
        },
        Err(text) => ReplyView {
            status: Status::InternalServerError,
            body: BodyView::Text(text@),
        },
    }
}

/// Turns what the store gave for the deletion of post `id` into the
/// reply: the acknowledgement, or the failure's text.
pub fn respond(id: i32, outcome: Result<(), String>) -> (r: Reply)
    ensures
        r@ == reply_of(id as int, outcome),
{
    match outcome {
        Ok(_) => Reply::ok(Body::Text(acknowledgement(id))),
        Err(text) => Reply::internal_server_error(text),
    }
}

} // verus!
