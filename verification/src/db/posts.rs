//! Posts as they are stored, and the arithmetic of a paged listing.

use vstd::prelude::*;

verus! {

/// A stored post.
#[derive(Debug, Clone, PartialEq, Eq)]
pub struct Post {
    pub id: i32,
    pub title: String,
    pub body: String,
    pub published: bool,
}

/// What a [`Post`] holds, as mathematical values.
pub struct PostView {
    pub id: int,
    pub title: Seq<char>,
    pub body: Seq<char>,
    pub published: bool,
}

impl View for Post {
    type V = PostView;

    open spec fn view(&self) -> PostView {
        PostView {
            id: self.id as int,
            title: self.title@,
            body: self.body@,
            published: self.published,
        }
    }
}

/// The values of a post that is about to be stored. The store gives it
/// its id, and it starts unpublished.
#[derive(Debug, Clone, Copy, PartialEq, Eq)]
pub struct NewPost<'a> {
    pub title: &'a str,
    pub body: &'a str,
}

/// What a [`NewPost`] holds, as mathematical values.
pub struct NewPostView {
    pub title: Seq<char>,
    pub body: Seq<char>,
}

impl<'a> View for NewPost<'a> {
    type V = NewPostView;

    open spec fn view(&self) -> NewPostView {
        NewPostView { title: self.title@, body: self.body@ }
    }
}

/// The changes to make to a post. A field that is `None` is left as
/// it is stored.
#[derive(Debug, Clone, PartialEq, Eq)]
pub struct PostUpdateAccess {
    pub title: Option<String>,
    pub body: Option<String>,
    pub published: Option<bool>,
}

/// The number of rows that come before page `page` of a listing whose
/// pages hold `count` rows each. Pages are counted from 1.
pub open spec fn offset_of(count: int, page: int) -> int {
    count * (page - 1)
}

/// Whether the offset of page `page` can be computed in `i64`: the
/// number of the page before it and the offset itself both fit.
pub open spec fn offset_fits(count: int, page: int) -> bool {
    &&& i64::MIN <= page - 1
    &&& i64::MIN <= offset_of(count, page) <= i64::MAX
}

/// The offset of page `page` in a listing of `count` rows a page.
pub fn offset(count: i64, page: i64) -> (r: i64)
    requires
        offset_fits(count as int, page as int),
    ensures
        r == offset_of(count as int, page as int),
{
    count * (page - 1)
}

/// The offset of page `page`, or `None` where it cannot be held in an
/// `i64`.
pub fn checked_offset(count: i64, page: i64) -> (r: Option<i64>)
    ensures
        offset_fits(count as int, page as int) ==> r == Some(
            offset_of(count as int, page as int) as i64,
        ),
        !offset_fits(count as int, page as int) ==> r.is_none(),
{
    match page.checked_sub(1) {
        Some(before) => count.checked_mul(before),
        None => None,
    }
}

/// The first page starts at the first row.
pub proof fn lemma_first_page_starts_at_zero(count: int)
    ensures
        offset_of(count, 1) == 0,
{
}

/// Each page starts where the page before it ends: `count` rows after
/// that page's own start. So the pages cover a listing without a gap
/// and without a row shown twice.
pub proof fn lemma_pages_are_adjacent(count: int, page: int)
    ensures
        offset_of(count, page + 1) == offset_of(count, page) + count,
{
    assert(count * page == count * (page - 1) + count) by (nonlinear_arith);
}

/// With one row a page, page `page` shows the row with `page - 1` rows
/// before it: the `page`-th row of the listing.
pub proof fn lemma_single_row_pages(page: int)
    ensures
        offset_of(1, page) == page - 1,
{
}

} // verus!
