//! The preview state machine.
//!
//! One `PreviewState` cell is shared by the whole UI session: the preview
//! pane reads it, and the story listings write it when they are hovered or
//! focused and when a fetch they started completes. Each listing keeps a
//! memo of its own story's full page, so a story is fetched at most once per
//! listing lifetime. The page is held behind `Rc`, the shared observable
//! cell suggested by the design: a cache hit hands out another handle to the
//! same allocation instead of deep-copying the page.

use std::rc::Rc;

use vstd::prelude::*;

use crate::story::StoryItem;
use crate::story::StoryPageData;

verus! {

/// Relies on `Rc::clone` (std): the clone is another handle to the same
/// allocation, so its value is the value cloned.
#[verifier::external_body]
fn clone_rc(v: &Rc<StoryPageData>) -> (res: Rc<StoryPageData>)
    ensures
        res == *v,
{
    v.clone()
}

/// What the preview pane shows: nothing yet, a fetch in flight, or a story
/// page. Exactly one value of this type exists per UI session.
#[derive(Debug)]
pub enum PreviewState {
    Unset,
    Loading,
    Loaded(Rc<StoryPageData>),
}

/// One row of the story list: the story it shows and the memo of its full
/// page, filled by the first successful preview fetch and never invalidated
/// while the row lives.
#[derive(Debug)]
pub struct StoryListing {
    /// The story this row shows.
    pub story: StoryItem,
    /// The page fetched for this story earlier in this row's lifetime.
    pub full_story: Option<Rc<StoryPageData>>,
}

/// Where the shared preview cell goes when a row is hovered or focused: to
/// the memoized page at once on a cache hit, else to `Loading` while the
/// fetch runs. The cell's previous value plays no part: a cache hit shows
/// the page directly from any state, without passing through `Loading`.
pub open spec fn trigger_target(l: StoryListing) -> PreviewState {
    match l.full_story {
        Some(page) => PreviewState::Loaded(page),
        None => PreviewState::Loading,
    }
}

/// The fetch a hover or focus sets off: none on a cache hit, else the one
/// request for this row's story.
pub open spec fn trigger_fetch(l: StoryListing) -> Option<i64> {
    match l.full_story {
        Some(_) => None,
        None => Some(l.story.id),
    }
}

impl StoryListing {
    /// A freshly rendered row: nothing fetched for it yet.
    pub fn new(story: StoryItem) -> (l: Self)
        ensures
            l.story == story,
            l.full_story is None,
    {
        StoryListing { story, full_story: None }
    }

    /// The row was hovered or focused. On a cache hit the shared cell shows
    /// the memoized page at once and no request is made; otherwise the cell
    /// goes to `Loading` and the caller is told which story to fetch. If
    /// that fetch fails, the caller reports the error elsewhere and does not
    /// call `on_story_fetched`: the cell then simply keeps showing
    /// `Loading`. That deliberate swallowing is this client's chosen way of
    /// handling a failed preview fetch; no error state is shown.
    pub fn resolve_trigger(&self, preview: &mut PreviewState) -> (fetch: Option<i64>)
        ensures
            *final(preview) == trigger_target(*self),
            fetch == trigger_fetch(*self),
    {
        match &self.full_story {
            Some(page) => {
                *preview = PreviewState::Loaded(clone_rc(page));
                None
            },
            None => {
                *preview = PreviewState::Loading;
                Some(self.story.id)
            },
        }
    }

    /// The fetch set off by `resolve_trigger` came back with the page: show
    /// it in the shared cell and memoize it, so that no later trigger on
    /// this row fetches again.
    pub fn on_story_fetched(&mut self, preview: &mut PreviewState, page: StoryPageData)
        ensures
            final(self).story == old(self).story,
            final(self).full_story matches Some(p) && p == page,
            *final(preview) matches PreviewState::Loaded(q) && q == page,
    {
        let rc = Rc::new(page);
        *preview = PreviewState::Loaded(clone_rc(&rc));
        self.full_story = Some(rc);
    }
}

/// On a row whose story was never fetched, a trigger goes through `Loading`
/// and sets off exactly one fetch, for that row's story; `on_story_fetched`
/// then shows the page and memoizes it.
pub proof fn lemma_preview_uncached(l: StoryListing)
    requires
        l.full_story is None,
    ensures
        trigger_target(l) is Loading,
        trigger_fetch(l) == Some(l.story.id),
{
}

/// On a row whose page is memoized, a trigger shows that page directly —
/// no `Loading` in between — and sets off no fetch at all: re-hovering a
/// cached story never reaches the network again.
pub proof fn lemma_preview_cached(l: StoryListing)
    requires
        l.full_story is Some,
    ensures
        trigger_target(l) == PreviewState::Loaded(l.full_story->Some_0),
        !(trigger_target(l) is Loading),
        trigger_fetch(l) is None,
{
}

} // verus!
