//! What a handler answers: a status and a body.

use crate::db::posts::{Post, PostView};
use crate::routes::posts::find;
use crate::routes::show_post;
use vstd::prelude::*;

verus! {

/// The two statuses of this service. Every failure, whatever its
/// cause, is an internal server error.
#[derive(Debug, Clone, Copy, PartialEq, Eq, Structural)]
pub enum Status {
    Success,
    InternalServerError,
}

impl Status {
    /// The status code that goes on the wire.
    pub open spec fn code_of(self) -> int {
        match self {
            Status::Success => 200,
            Status::InternalServerError => 500,
        }
    }

    /// The status code that goes on the wire.
    pub fn code(&self) -> (r: u16)
        ensures
            r == self.code_of(),
    {
        match self {
            Status::Success => 200,
            Status::InternalServerError => 500,
        }
    }
}

/// The bodies this service sends: plain text, or one of its values to
/// be written as JSON.
#[derive(Debug, Clone, PartialEq, Eq)]
pub enum Body {
    /// Plain text: an acknowledgement, or the text of a failure.
    Text(String),
    /// One post.
    Post(Post),
    /// A page of the listing.
    Posts(show_post::Response),
    /// The post that was looked for, or nothing.
    Found(find::Response),
}

/// What a [`Body`] holds, as mathematical values.
pub enum BodyView {
    Text(Seq<char>),
    Post(PostView),
    Posts(show_post::ResponseView),
    Found(find::ResponseView),
}

impl View for Body {
    type V = BodyView;

    open spec fn view(&self) -> BodyView {
        match self {
            Body::Text(text) => BodyView::Text(text@),
            Body::Post(post) => BodyView::Post(post@),
            Body::Posts(page) => BodyView::Posts(page@),
            Body::Found(found) => BodyView::Found(found@),
        }
    }
}

/// A reply: its status and its body.
#[derive(Debug, Clone, PartialEq, Eq)]
pub struct Reply {
    pub status: Status,
    pub body: Body,
}

/// What a [`Reply`] holds, as mathematical values.
pub struct ReplyView {
    pub status: Status,
    pub body: BodyView,
}

impl View for Reply {
    type V = ReplyView;

    open spec fn view(&self) -> ReplyView {
        ReplyView { status: self.status, body: self.body@ }
    }
}

impl Reply {
    /// The reply to a request that was carried out.
    pub open spec fn ok_of(body: Body) -> Reply {
        Reply { status: Status::Success, body }
    }

    /// The reply to a request that failed: the failure's text is the
    /// whole body.
    pub open spec fn failure_of(text: String) -> Reply {
        Reply { status: Status::InternalServerError, body: Body::Text(text) }
    }

    /// The reply to a request that was carried out.
    pub fn ok(body: Body) -> (r: Reply)
        ensures
            r == Reply::ok_of(body),
    {
        Reply { status: Status::Success, body }
    }

    /// The reply to a request that failed, with the failure's text.
    pub fn internal_server_error(text: String) -> (r: Reply)
        ensures
            r == Reply::failure_of(text),
    {
        Reply { status: Status::InternalServerError, body: Body::Text(text) }
    }
}

/// A request that was carried out answers 200 and one that failed
/// answers 500 with the failure's text and nothing else, so the status
/// alone tells the two apart.
pub proof fn lemma_status_tells_failure(body: Body, text: String)
    ensures
        Reply::ok_of(body).status.code_of() == 200,
        Reply::ok_of(body).body == body,
        Reply::failure_of(text).status.code_of() == 500,
        Reply::failure_of(text)@.body == BodyView::Text(text@),
{
}

} // verus!
