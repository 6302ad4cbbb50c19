//! Tags, and a tag as it is attached to a post.

use vstd::prelude::*;

verus! {

/// A stored tag.
#[derive(Debug, Clone, PartialEq, Eq)]
pub struct Tag {
    pub id: i32,
    pub name: String,
    pub slug: String,
}

/// What a [`Tag`] holds, as mathematical values.
pub struct TagView {
    pub id: int,
    pub name: Seq<char>,
    pub slug: Seq<char>,
}

impl View for Tag {
    type V = TagView;

    open spec fn view(&self) -> TagView {
        TagView { id: self.id as int, name: self.name@, slug: self.slug@ }
    }
}

/// A tag on a post: the pair of ids that attaches it, with the tag's
/// name and slug.
#[derive(Debug, Clone, PartialEq, Eq)]
pub struct PostTag {
    pub tag_id: i32,
    pub post_id: i32,
    pub name: String,
    pub slug: String,
}

/// What a [`PostTag`] holds, as mathematical values.
pub struct PostTagView {
    pub tag_id: int,
    pub post_id: int,
    pub name: Seq<char>,
    pub slug: Seq<char>,
}

impl View for PostTag {
    type V = PostTagView;

    open spec fn view(&self) -> PostTagView {
        PostTagView {
            tag_id: self.tag_id as int,
            post_id: self.post_id as int,
            name: self.name@,
            slug: self.slug@,
        }
    }
}

} // verus!
