//! The data model: story items, comments and the merged story page.
//!
//! Values of these types are created when the application decodes an upstream
//! API response and are immutable thereafter. Creation times are carried as
//! epoch seconds; the application converts them to a calendar form only for
//! display.

use vstd::prelude::*;

verus! {

/// One top-level story as the upstream index and item endpoints deliver it.
#[derive(Debug, Clone, PartialEq)]
pub struct StoryItem {
    pub id: i64,
    pub title: String,
    pub url: Option<String>,
    pub text: Option<String>,
    pub by: String,
    pub score: i64,
    pub descendants: i64,
    /// Creation time in epoch seconds.
    pub time: i64,
    /// Identifiers of the direct child comments.
    pub kids: Vec<i64>,
    /// The upstream item-type tag (the wire field named `type`).
    pub item_type: String,
}

/// One comment. The wire payload never carries `sub_comments`; the comment
/// tree resolver fills it from the ids in `kids`.
#[derive(Debug, PartialEq)]
pub struct Comment {
    pub id: i64,
    pub by: String,
    pub text: String,
    /// Creation time in epoch seconds.
    pub time: i64,
    /// Identifiers of the direct child comments.
    pub kids: Vec<i64>,
    /// The children of `kids` that were fetched successfully, resolved
    /// recursively, in the order of `kids`.
    pub sub_comments: Vec<Comment>,
    /// The upstream item-type tag (the wire field named `type`).
    pub item_type: String,
}

/// A story item merged with its resolved top-level comments.
#[derive(Debug, PartialEq)]
pub struct StoryPageData {
    pub item: StoryItem,
    pub comments: Vec<Comment>,
}

/// A resolved comment never carries more children than its `kids` list names,
/// and the same holds of every comment below it. Fetches that failed are
/// dropped, so the count may fall short.
pub open spec fn comment_wf(c: Comment) -> bool
    decreases c,
{
    &&& c.sub_comments@.len() <= c.kids@.len()
    &&& forall|i: int| 0 <= i < c.sub_comments@.len() ==> comment_wf(#[trigger] c.sub_comments@[i])
}

/// A comment whose whole subtree was resolved without a single failed fetch:
/// exactly one child per id in `kids`, and the same below.
pub open spec fn comment_complete(c: Comment) -> bool
    decreases c,
{
    &&& c.sub_comments@.len() == c.kids@.len()
    &&& forall|i: int| 0 <= i < c.sub_comments@.len() ==> comment_complete(
        #[trigger] c.sub_comments@[i],
    )
}

impl Default for StoryItem {
    /// The placeholder story. The creation time is epoch zero, since the
    /// library takes no clock; a caller that wants the current time sets the
    /// field itself.
    fn default() -> (s: Self)
        ensures
            s.id == 0,
            s.title@ == "Hello hackernews"@,
            s.url is None,
            s.text is None,
            s.by@ == "Author"@,
            s.score == 0,
            s.descendants == 0,
            s.time == 0,
            s.kids@.len() == 0,
            s.item_type@.len() == 0,
    {
        StoryItem {
            id: 0,
            title: "Hello hackernews".to_owned(),
            url: None,
            text: None,
            by: "Author".to_owned(),
            score: 0,
            descendants: 0,
            time: 0,
            kids: Vec::new(),
            item_type: String::new(),
        }
    }
}

} // verus!
