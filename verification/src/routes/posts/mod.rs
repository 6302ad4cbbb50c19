//! The operations on posts, and the verb and path that reach each.

pub mod find;
pub mod update;

use vstd::prelude::*;

verus! {

/// The verbs that the operations on posts answer to.
#[derive(Debug, Clone, Copy, PartialEq, Eq, Structural)]
pub enum Method {
    Get,
    Post,
    Patch,
    Delete,
}

/// The paths below the scope of posts: the collection itself, and one
/// post named by its id.
#[derive(Debug, Clone, Copy, PartialEq, Eq, Structural)]
pub enum Path {
    Collection,
    Item,
}

/// The operations on posts.
#[derive(Debug, Clone, Copy, PartialEq, Eq, Structural)]
pub enum Operation {
    /// A page of the published posts.
    Show,
    /// A new post.
    Create,
    /// Changes to a post.
    Update,
    /// The removal of a post.
    Delete,
    /// One post, by its id.
    Find,
}

/// The scope under which every operation on posts is reached.
pub fn scope() -> (r: &'static str)
    ensures
        r@ == "/posts"@,
{
    "/posts"
}

impl Path {
    /// The path as a pattern, below the scope.
    pub open spec fn pattern_of(self) -> Seq<char> {
        match self {
            Path::Collection => "/"@,
            Path::Item => "/{id}/"@,
        }
    }

    /// The path as a pattern, below the scope.
    pub fn pattern(&self) -> (r: &'static str)
        ensures
            r@ == self.pattern_of(),
    {
        match self {
            Path::Collection => "/",
            Path::Item => "/{id}/",
        }
    }
}

impl Operation {
    /// The verb that reaches the operation.
    pub open spec fn method_of(self) -> Method {
        match self {
            Operation::Show => Method::Get,
            Operation::Create => Method::Post,
            Operation::Update => Method::Patch,
            Operation::Delete => Method::Delete,
            Operation::Find => Method::Get,
        }
    }

    /// The path that reaches the operation.
    pub open spec fn path_of(self) -> Path {
        match self {
            Operation::Find => Path::Item,
            _ => Path::Collection,
        }
    }

    /// The verb that reaches the operation.
    pub fn method(&self) -> (r: Method)
        ensures
            r == self.method_of(),
    {
        match self {
            Operation::Show => Method::Get,
            Operation::Create => Method::Post,
            Operation::Update => Method::Patch,
            Operation::Delete => Method::Delete,
            Operation::Find => Method::Get,
        }
    }

    /// The path that reaches the operation.
    pub fn path(&self) -> (r: Path)
        ensures
            r == self.path_of(),
    {
        match self {
            Operation::Find => Path::Item,
            _ => Path::Collection,
        }
    }
}

/// No two operations share both verb and path: a request's verb and
/// path name at most one operation.
pub proof fn lemma_routes_are_unambiguous(a: Operation, b: Operation)
    requires
        a.method_of() == b.method_of(),
        a.path_of() == b.path_of(),
    ensures
        a == b,
{
}

/// The two paths are written differently, so a request's path tells
/// them apart.
pub proof fn lemma_patterns_differ()
    ensures
        Path::Collection.pattern_of() != Path::Item.pattern_of(),
{
    reveal_strlit("/");
    reveal_strlit("/{id}/");
    assert(Path::Collection.pattern_of().len() == 1);
    assert(Path::Item.pattern_of().len() == 6);
}

} // verus!
