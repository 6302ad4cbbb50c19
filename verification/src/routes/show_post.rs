//! The listing of published posts, a page at a time.

use crate::db::posts::{Post, PostView};
use crate::reply::{Body, Reply};
use vstd::prelude::*;

verus! {

/// The request for a page of the listing: how many posts a page holds,
/// and which page, counted from 1. Without a page it asks for the
/// first.
#[derive(Debug, Clone, Copy, PartialEq, Eq)]
pub struct PostJson {
    page: Option<i64>,
    count: i64,
}

/// What a [`PostJson`] holds, as mathematical values.
pub struct PostJsonView {
    pub page: Option<int>,
    pub count: int,
}

impl View for PostJson {
    type V = PostJsonView;

    closed spec fn view(&self) -> PostJsonView {
        PostJson::view_of(self.page, self.count)
    }
}

impl PostJsonView {
    /// The page that is asked for: the first where none is named.
    pub open spec fn page_or_first(self) -> int {
        match self.page {
            Some(page) => page,
            None => 1,
        }
    }
}

impl PostJson {
    /// A page number that may be absent, as a mathematical value.
    pub open spec fn page_of(page: Option<i64>) -> Option<int> {
        match page {
            Some(page) => Some(page as int),
            None => None,
        }
    }

    /// What a request made of `page` and `count` holds.
    pub open spec fn view_of(page: Option<i64>, count: i64) -> PostJsonView {
        PostJsonView { page: PostJson::page_of(page), count: count as int }
    }

    /// A request for page `page`, or for the first page where `page`
    /// is `None`, of a listing with `count` posts a page.
    pub fn new(page: Option<i64>, count: i64) -> (r: PostJson)
        ensures
            r@ == PostJson::view_of(page, count),
    {
        PostJson { page, count }
    }

    /// The page that the request names, if it names one.
    pub fn page(&self) -> (r: Option<i64>)
        ensures
            PostJson::page_of(r) == self@.page,
    {
        self.page
    }

    /// How many posts a page holds.
    pub fn count(&self) -> (r: i64)
        ensures
            r == self@.count,
    {
        self.count
    }

    /// The page that is asked for: the first where none is named.
    pub fn page_or_first(&self) -> (r: i64)
        ensures
            r == self@.page_or_first(),
    {
        match self.page {
            Some(page) => page,
            None => 1,
        }
    }
}

/// A page of the listing, as it is sent.
#[derive(Debug, Clone, PartialEq, Eq)]
pub struct Response {
    pub result: Vec<Post>,
}

/// What a [`Response`] holds, as mathematical values.
pub struct ResponseView {
    pub result: Seq<PostView>,
}

impl View for Response {
    type V = ResponseView;

    open spec fn view(&self) -> ResponseView {
        ResponseView { result: self.result@.map_values(|post: Post| post@) }
    }
}

/// The reply to a request for a page, from what the store gave.
pub open spec fn reply_of(outcome: Result<Vec<Post>, String>) -> Reply {
    match outcome {
        Ok(posts) => Reply::ok_of(Body::Posts(Response { result: posts })),
        Err(text) => Reply::failure_of(text),
    }
}

/// Turns what the store gave into the reply: the rows as they came,
/// in their order, or the failure's text.
pub fn respond(outcome: Result<Vec<Post>, String>) -> (r: Reply)
    ensures
        r == reply_of(outcome),
{
    match outcome {
        Ok(posts) => Reply::ok(Body::Posts(Response { result: posts })),
        Err(text) => Reply::internal_server_error(text),
    }
}

} // verus!
