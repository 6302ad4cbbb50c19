//! Creating a post.

use crate::db::posts::{NewPost, Post};
use crate::reply::{Body, Reply};
use vstd::prelude::*;

verus! {

/// The request to create a post.
#[derive(Debug, Clone, PartialEq, Eq)]
pub struct PostJson {
    title: String,
    body: String,
}

/// What a [`PostJson`] holds, as mathematical values.
pub struct PostJsonView {
    pub title: Seq<char>,
    pub body: Seq<char>,
}

impl View for PostJson {
    type V = PostJsonView;

    closed spec fn view(&self) -> PostJsonView {
        PostJsonView { title: self.title@, body: self.body@ }
    }
}

impl PostJson {
    /// A request to create a post with this title and body.
    pub fn new(title: String, body: String) -> (r: PostJson)
        ensures
            r@.title == title@,
            r@.body == body@,
    {
        PostJson { title, body }
    }

    /// The values to store: the title and the body as they were sent.
    pub fn new_post(&self) -> (r: NewPost<'_>)
        ensures
            r@.title == self@.title,
            r@.body == self@.body,
    {
        NewPost { title: self.title.as_str(), body: self.body.as_str() }
    }
}

/// The reply to a request that creates or changes a post, from what
/// the store gave.
pub open spec fn reply_of(outcome: Result<Post, String>) -> Reply {
    match outcome {
        Ok(post) => Reply::ok_of(Body::Post(post)),
        Err(text) => Reply::failure_of(text),
    }
}

/// Turns what the store gave into the reply: the stored post as it
/// came back, or the failure's text.
pub fn respond(outcome: Result<Post, String>) -> (r: Reply)
    ensures
        r == reply_of(outcome),
{
    match outcome {
        Ok(post) => Reply::ok(Body::Post(post)),
        Err(text) => Reply::internal_server_error(text),
    }
}

} // verus!
