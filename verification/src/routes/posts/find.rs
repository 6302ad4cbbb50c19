//! Finding one post by its id.

use crate::db::posts::{Post, PostView};
use crate::reply::{Body, Reply};
use vstd::prelude::*;

verus! {

/// The post that was looked for, as it is sent; nothing where no post
/// has the id.
#[derive(Debug, Clone, PartialEq, Eq)]
pub struct Response {
    pub result: Option<Post>,
}

/// What a [`Response`] holds, as mathematical values.
pub struct ResponseView {
    pub result: Option<PostView>,
}

impl View for Response {
    type V = ResponseView;

    open spec fn view(&self) -> ResponseView {
        ResponseView {
            result: match self.result {
                Some(post) => Some(post@),
                None => None,
            },
        }
    }
}

/// What is sent for the rows that the store gave for one id: the first
/// of them, or nothing.
pub open spec fn found_of(rows: Seq<Post>) -> Response {
    Response { result: if rows.len() == 0 { None } else { Some(rows[0]) } }
}

/// The reply to a request for one post, from what the store gave.
pub open spec fn reply_of(outcome: Result<Vec<Post>, String>) -> Reply {
    match outcome {
        Ok(rows) => Reply::ok_of(Body::Found(found_of(rows@))),
        Err(text) => Reply::failure_of(text),
    }
}

/// Picks what is sent out of the rows that the store gave for one id.
pub fn found(rows: Vec<Post>) -> (r: Response)
    ensures
        r == found_of(rows@),
{
    let mut rows = rows;
    if rows.len() == 0 {
        Response { result: None }
    } else {
        Response { result: Some(rows.remove(0)) }
    }
}

/// Turns what the store gave into the reply. That no post has the id
/// is no failure: the reply is a success with nothing in it.
pub fn respond(outcome: Result<Vec<Post>, String>) -> (r: Reply)
    ensures
        r == reply_of(outcome),
{
    match outcome {
        Ok(rows) => Reply::ok(Body::Found(found(rows))),
        Err(text) => Reply::internal_server_error(text),
    }
}

} // verus!
