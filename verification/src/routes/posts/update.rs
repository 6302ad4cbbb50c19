//! Changing a post.

use crate::db::posts::PostUpdateAccess;
use vstd::prelude::*;

verus! {

/// The request to change a post: its id, and a new value for each
/// field that is to change.
#[derive(Debug, Clone, PartialEq, Eq)]
pub struct JsonBody {
    id: i32,
    title: Option<String>,
    body: Option<String>,
    published: Option<bool>,
}

impl JsonBody {
    /// The id of the post to change.
    pub closed spec fn id_of(self) -> i32 {
        self.id
    }

    /// The changes that are asked for.
    pub closed spec fn changes_of(self) -> PostUpdateAccess {
        PostUpdateAccess { title: self.title, body: self.body, published: self.published }
    }

    /// A request to change post `id`. A field that is `None` is not
    /// to change.
    pub fn new(
        id: i32,
        title: Option<String>,
        body: Option<String>,
        published: Option<bool>,
    ) -> (r: JsonBody)
        ensures
            r.id_of() == id,
            r.changes_of() == (PostUpdateAccess { title, body, published }),
    {
        JsonBody { id, title, body, published }
    }

    /// The id of the post to change.
    pub fn id(&self) -> (r: i32)
        ensures
            r == self.id_of(),
    {
        self.id
    }

    /// The changes to make: a value for each field that the request
    /// names, and nothing for a field that it leaves out, so that such
    /// a field stays as it is stored.
    pub fn into_changes(self) -> (r: PostUpdateAccess)
        ensures
            r == self.changes_of(),
    {
        PostUpdateAccess { title: self.title, body: self.body, published: self.published }
    }
}

} // verus!
