//! The values that go into the store for tags.

use vstd::prelude::*;

verus! {

/// The changes to make to a tag. A field that is `None` is left as it
/// is stored.
#[derive(Debug, Clone, PartialEq, Eq)]
pub struct TagUpdateAccess {
    name: Option<String>,
    slug: Option<String>,
}

/// What a [`TagUpdateAccess`] holds, as mathematical values.
pub struct TagUpdateAccessView {
    pub name: Option<Seq<char>>,
    pub slug: Option<Seq<char>>,
}

/// The characters of a text that may be absent.
pub open spec fn chars_of(text: Option<String>) -> Option<Seq<char>> {
    match text {
        Some(text) => Some(text@),
        None => None,
    }
}

impl View for TagUpdateAccess {
    type V = TagUpdateAccessView;

    closed spec fn view(&self) -> TagUpdateAccessView {
        TagUpdateAccessView { name: chars_of(self.name), slug: chars_of(self.slug) }
    }
}

impl TagUpdateAccess {
    /// The changes that give a tag this name and this slug, each
    /// where it is not `None`.
    pub fn new(name: Option<String>, slug: Option<String>) -> (r: TagUpdateAccess)
        ensures
            r@.name == chars_of(name),
            r@.slug == chars_of(slug),
    {
        TagUpdateAccess { name, slug }
    }

    /// The new name, if the name is to change.
    pub fn name(&self) -> (r: &Option<String>)
        ensures
            chars_of(*r) == self@.name,
    {
        &self.name
    }

    /// The new slug, if the slug is to change.
    pub fn slug(&self) -> (r: &Option<String>)
        ensures
            chars_of(*r) == self@.slug,
    {
        &self.slug
    }
}

/// The values of a tag that is about to be stored. The store gives it
/// its id.
#[derive(Debug, Clone, PartialEq, Eq)]
pub struct NewTag {
    name: String,
    slug: String,
}

/// What a [`NewTag`] holds, as mathematical values.
pub struct NewTagView {
    pub name: Seq<char>,
    pub slug: Seq<char>,
}

impl View for NewTag {
    type V = NewTagView;

    closed spec fn view(&self) -> NewTagView {
        NewTagView { name: self.name@, slug: self.slug@ }
    }
}

impl NewTag {
    /// A tag to store under this name and slug.
    pub fn new(name: String, slug: String) -> (r: NewTag)
        ensures
            r@.name == name@,
            r@.slug == slug@,
    {
        NewTag { name, slug }
    }

    /// The tag's name.
    pub fn name(&self) -> (r: &str)
        ensures
            r@ == self@.name,
    {
        self.name.as_str()
    }

    /// The tag's slug.
    pub fn slug(&self) -> (r: &str)
        ensures
            r@ == self@.slug,
    {
        self.slug.as_str()
    }
}

/// One tag on one post: the row that attaches the two.
#[derive(Debug, Clone, Copy, PartialEq, Eq, Structural)]
pub struct PostsTag {
    pub post_id: i32,
    pub tag_id: i32,
}

} // verus!
