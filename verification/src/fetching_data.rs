//! The decision logic of the fetch client.
//!
//! The application performs the HTTP requests; everything here is the pure
//! part of those flows: truncating the story index, assembling the ordered
//! story list fail-fast, and resolving a story's comment tree with an
//! explicit work stack.

use vstd::prelude::*;

use crate::error::Error;
use crate::story::Comment;
use crate::story::StoryItem;
use crate::story::StoryPageData;
use crate::story::comment_wf;
use crate::story::comment_complete;

verus! {

/// The id list the client works from: the upstream index cut down to at most
/// `limit` entries, order kept.
pub open spec fn spec_limit_ids(ids: Seq<i64>, limit: int) -> Seq<i64> {
    if limit <= ids.len() {
        ids.take(limit)
    } else {
        ids
    }
}

/// Truncate the upstream story index to at most `limit` ids, keeping index
/// order.
pub fn limit_ids(ids: Vec<i64>, limit: usize) -> (r: Vec<i64>)
    ensures
        r@ == spec_limit_ids(ids@, limit as int),
{
    let mut ids = ids;
    ids.truncate(limit);
    ids
}

/// The truncated index is a prefix of the upstream one: never more than
/// `limit` ids, never more than were published, and each id in its upstream
/// position.
pub proof fn lemma_limit_ids_prefix(ids: Seq<i64>, limit: int)
    requires
        0 <= limit,
    ensures
        spec_limit_ids(ids, limit).len() <= limit,
        spec_limit_ids(ids, limit).len() <= ids.len(),
        forall|i: int|
            0 <= i < spec_limit_ids(ids, limit).len() ==> spec_limit_ids(ids, limit)[i] == ids[i],
{
}

/// An element-wise copy of an id list.
fn clone_ids(ids: &Vec<i64>) -> (r: Vec<i64>)
    ensures
        r@ == ids@,
{
    let mut r: Vec<i64> = Vec::new();
    let mut i: usize = 0;
    while i < ids.len()
        invariant
            i <= ids.len(),
            r@ == ids@.take(i as int),
        decreases ids.len() - i,
    {
        r.push(ids[i]);
        assert(r@ =~= ids@.take(i + 1));
        i = i + 1;
    }
    assert(r@ =~= ids@);
    r
}

/// One level of the work stack: a comment whose children are being resolved.
/// The root level has no parent; its "children" are the story's own kids.
pub struct Frame {
    /// The comment whose `kids` this level works through; `None` at the root.
    pub parent: Option<Comment>,
    /// The kid ids not yet requested, in upstream order.
    pub pending: Vec<i64>,
    /// The children resolved so far, in the order their ids stood in `kids`.
    pub resolved: Vec<Comment>,
    /// How many kid fetches failed at this level; those children are dropped.
    pub failed: usize,
}

/// What the resolver asks of its driver next.
#[derive(Debug, PartialEq, Eq, Structural)]
pub enum Step {
    /// Fetch the comment with this id and report back with `on_comment` or
    /// `on_failure`.
    Fetch(i64),
    /// A finished level was folded into its parent; ask again.
    Pop,
    /// The tree is resolved; call `finish`.
    Done,
}

/// Depth-first comment tree resolution as an explicit work stack.
///
/// The driver loop calls `step`; on `Step::Fetch(id)` it performs the one
/// network request and answers with `on_comment` (decoded child) or
/// `on_failure` (the failure is swallowed and the child dropped). The stack
/// replaces the recursion of a direct implementation, so arbitrarily deep
/// trees cannot overflow the call stack.
pub struct CommentResolver {
    /// The work stack; the first frame is the root level, never popped.
    pub frames: Vec<Frame>,
    /// True between a `Step::Fetch` answer and the matching report.
    pub awaiting: bool,
    /// How many ids the root kid list held.
    pub root_total: usize,
    /// Whether any fetch at all failed during this resolution.
    pub any_failed: bool,
}

impl CommentResolver {
    /// How many children level `i` owes in all: its parent's kid count.
    pub open spec fn goal(self, i: int) -> nat {
        if i == 0 {
            self.root_total as nat
        } else {
            self.frames@[i].parent->Some_0.kids@.len()
        }
    }

    /// The one kid of level `i` being worked on right now, if any: the level
    /// above resolves it, or it is out for fetching.
    pub open spec fn in_flight(self, i: int) -> nat {
        if i + 1 < self.frames@.len() {
            1
        } else if self.awaiting {
            1
        } else {
            0
        }
    }

    /// The bookkeeping of one level: every kid is accounted for — resolved,
    /// failed, still pending, or in flight — and everything resolved is a
    /// well-formed comment tree.
    pub open spec fn frame_ok(self, i: int) -> bool {
        let f = self.frames@[i];
        &&& (f.parent is None <==> i == 0)
        &&& f.resolved@.len() + f.failed + f.pending@.len() + self.in_flight(i) == self.goal(i)
        &&& (forall|j: int|
            0 <= j < f.resolved@.len() ==> comment_wf(#[trigger] f.resolved@[j]))
        &&& (i > 0 ==> f.parent->Some_0.sub_comments@.len() == 0)
        &&& (!self.any_failed ==> f.failed == 0 && (forall|j: int|
            0 <= j < f.resolved@.len() ==> comment_complete(#[trigger] f.resolved@[j])))
    }

    /// The resolver's invariant, established by `new` and kept by every
    /// operation.
    pub open spec fn wf(self) -> bool {
        &&& self.frames@.len() >= 1
        &&& (forall|i: int| 0 <= i < self.frames@.len() ==> self.frame_ok(i))
    }

    /// Nothing is left to do: only the root level remains and it is out of
    /// pending ids.
    pub open spec fn done(self) -> bool {
        &&& self.frames@.len() == 1
        &&& self.frames@[0].pending@.len() == 0
        &&& !self.awaiting
    }

    /// Start resolving the comments named by `kids` (a story's or a parent
    /// comment's kid ids).
    pub fn new(kids: Vec<i64>) -> (r: Self)
        ensures
            r.wf(),
            !r.awaiting,
            r.any_failed == false,
            r.root_total == kids@.len(),
            r.frames@.len() == 1,
            r.frames@[0].parent is None,
            r.frames@[0].pending@ == kids@,
            r.frames@[0].resolved@.len() == 0,
            r.frames@[0].failed == 0,
    {
        let root_total = kids.len();
        let mut frames: Vec<Frame> = Vec::new();
        frames.push(Frame { parent: None, pending: kids, resolved: Vec::new(), failed: 0 });
        CommentResolver { frames, awaiting: false, root_total, any_failed: false }
    }

    /// Advance the resolution: hand out the next id to fetch, fold one
    /// finished level into its parent, or report that the tree is resolved.
    /// Ids are handed out in `kids` order, depth first.
    pub fn step(&mut self) -> (r: Step)
        requires
            old(self).wf(),
            !old(self).awaiting,
        ensures
            final(self).wf(),
            final(self).root_total == old(self).root_total,
            final(self).any_failed == old(self).any_failed,
            match r {
                Step::Fetch(id) => {
                    let of = old(self).frames@;
                    let nf = final(self).frames@;
                    &&& final(self).awaiting
                    &&& of.last().pending@.len() > 0
                    &&& id == of.last().pending@.first()
                    &&& nf.len() == of.len()
                    &&& nf.drop_last() == of.drop_last()
                    &&& nf.last().parent == of.last().parent
                    &&& nf.last().pending@ == of.last().pending@.drop_first()
                    &&& nf.last().resolved@ == of.last().resolved@
                    &&& nf.last().failed == of.last().failed
                },
                Step::Pop => {
                    let of = old(self).frames@;
                    let nf = final(self).frames@;
                    &&& !final(self).awaiting
                    &&& of.len() >= 2
                    &&& of.last().pending@.len() == 0
                    &&& nf.len() == of.len() - 1
                    &&& nf.drop_last() == of.subrange(0, of.len() - 2)
                    &&& nf.last().parent == of[of.len() - 2].parent
                    &&& nf.last().pending@ == of[of.len() - 2].pending@
                    &&& nf.last().failed == of[of.len() - 2].failed
                    &&& nf.last().resolved@.len() == of[of.len() - 2].resolved@.len() + 1
                    &&& nf.last().resolved@.drop_last() == of[of.len() - 2].resolved@
                    &&& attached(
                        of.last().parent->Some_0,
                        of.last().resolved@,
                        nf.last().resolved@.last(),
                    )
                },
                Step::Done => {
                    &&& *final(self) == *old(self)
                    &&& old(self).done()
                },
            },
    {
        let n = self.frames.len();
        if self.frames[n - 1].pending.len() > 0 {
            let mut top = self.frames.pop().unwrap();
            let id = top.pending.remove(0);
            self.frames.push(top);
            self.awaiting = true;
            proof {
                assert(final(self).frames@.drop_last() =~= old(self).frames@.drop_last());
                assert forall|i: int|
                    0 <= i < final(self).frames@.len() implies final(self).frame_ok(i) by {
                    assert(old(self).frame_ok(i));
                }
            }
            Step::Fetch(id)
        } else if n >= 2 {
            proof {
                assert(old(self).frame_ok(old(self).frames@.len() - 1));
            }
            let top = self.frames.pop().unwrap();
            let mut parent = top.parent.unwrap();
            parent.sub_comments = top.resolved;
            let mut under = self.frames.pop().unwrap();
            under.resolved.push(parent);
            self.frames.push(under);
            proof {
                let of = old(self).frames@;
                let nf = final(self).frames@;
                assert(nf.drop_last() =~= of.subrange(0, of.len() - 2));
                assert(nf.last().resolved@.drop_last() =~= of[of.len() - 2].resolved@);
                assert(old(self).frame_ok(of.len() - 1));
                assert(old(self).frame_ok(of.len() - 2));
                assert(comment_wf(nf.last().resolved@.last()));
                assert forall|i: int| 0 <= i < nf.len() implies final(self).frame_ok(i) by {
                    assert(old(self).frame_ok(i));
                }
            }
            Step::Pop
        } else {
            Step::Done
        }
    }

    /// The comment requested by the last `Step::Fetch` arrived, fresh off the
    /// wire (so with no resolved children yet). Its own kids become the next,
    /// deeper level of the stack.
    pub fn on_comment(&mut self, c: Comment)
        requires
            old(self).wf(),
            old(self).awaiting,
            c.sub_comments@.len() == 0,
        ensures
            final(self).wf(),
            !final(self).awaiting,
            final(self).root_total == old(self).root_total,
            final(self).any_failed == old(self).any_failed,
            final(self).frames@.len() == old(self).frames@.len() + 1,
            final(self).frames@.drop_last() == old(self).frames@,
            final(self).frames@.last().parent == Some(c),
            final(self).frames@.last().pending@ == c.kids@,
            final(self).frames@.last().resolved@.len() == 0,
            final(self).frames@.last().failed == 0,
    {
        let pending = clone_ids(&c.kids);
        self.frames.push(Frame { parent: Some(c), pending, resolved: Vec::new(), failed: 0 });
        self.awaiting = false;
        proof {
            assert(final(self).frames@.drop_last() =~= old(self).frames@);
            assert forall|i: int|
                0 <= i < final(self).frames@.len() implies final(self).frame_ok(i) by {
                if i < old(self).frames@.len() {
                    assert(old(self).frame_ok(i));
                }
            }
        }
    }

    /// The fetch requested by the last `Step::Fetch` failed. The failure is
    /// swallowed: the child is dropped from its parent's `sub_comments`, and
    /// only the failure counts remember it.
    pub fn on_failure(&mut self)
        requires
            old(self).wf(),
            old(self).awaiting,
        ensures
            final(self).wf(),
            !final(self).awaiting,
            final(self).root_total == old(self).root_total,
            final(self).any_failed == true,
            final(self).frames@.len() == old(self).frames@.len(),
            final(self).frames@.drop_last() == old(self).frames@.drop_last(),
            final(self).frames@.last().parent == old(self).frames@.last().parent,
            final(self).frames@.last().pending@ == old(self).frames@.last().pending@,
            final(self).frames@.last().resolved@ == old(self).frames@.last().resolved@,
            final(self).frames@.last().failed == old(self).frames@.last().failed + 1,
    {
        proof {
            assert(old(self).frame_ok(old(self).frames@.len() - 1));
        }
        let mut top = self.frames.pop().unwrap();
        match &top.parent {
            Some(p) => {
                let kid_count = p.kids.len();
                assert(top.failed < kid_count);
            },
            None => {
                assert(top.failed < old(self).root_total);
            },
        }
        top.failed = top.failed + 1;
        self.frames.push(top);
        self.awaiting = false;
        self.any_failed = true;
        proof {
            assert(final(self).frames@.drop_last() =~= old(self).frames@.drop_last());
            assert forall|i: int|
                0 <= i < final(self).frames@.len() implies final(self).frame_ok(i) by {
                assert(old(self).frame_ok(i));
            }
        }
    }

    /// Take the resolved top-level comments out of a finished resolution.
    /// Every comment handed back is a well-formed tree; there is one for each
    /// root kid whose fetch succeeded, in kid order; and when nothing failed,
    /// there is one for every kid and every tree is complete.
    pub fn finish(self) -> (comments: Vec<Comment>)
        requires
            self.wf(),
            self.done(),
        ensures
            comments@ == self.frames@[0].resolved@,
            comments@.len() + self.frames@[0].failed == self.root_total,
            comments@.len() <= self.root_total,
            forall|j: int| 0 <= j < comments@.len() ==> comment_wf(#[trigger] comments@[j]),
            !self.any_failed ==> comments@.len() == self.root_total && (forall|j: int|
                0 <= j < comments@.len() ==> comment_complete(#[trigger] comments@[j])),
    {
        proof {
            assert(self.frame_ok(0));
        }
        let mut frames = self.frames;
        let root = frames.pop().unwrap();
        root.resolved
    }
}

/// The comment that a finished level folds into its parent: the parent's own
/// fields, with the resolved children in `sub_comments`.
pub open spec fn attached(p: Comment, subs: Seq<Comment>, c: Comment) -> bool {
    &&& c.id == p.id
    &&& c.by == p.by
    &&& c.text == p.text
    &&& c.time == p.time
    &&& c.kids == p.kids
    &&& c.item_type == p.item_type
    &&& c.sub_comments@ == subs
}

/// One story-page fetch in progress: the story item already decoded, and the
/// resolution of its comment tree under way. The driver works
/// `session.resolver` to completion, then calls `finish`.
pub struct StorySession {
    /// The story whose page is being put together.
    pub item: StoryItem,
    /// The resolution of `item.kids` into top-level comments.
    pub resolver: CommentResolver,
}

impl StorySession {
    /// The session's invariant: the resolver is sound and works through
    /// exactly the story's own kid ids.
    pub open spec fn wf(self) -> bool {
        &&& self.resolver.wf()
        &&& self.resolver.root_total == self.item.kids@.len()
    }

    /// Begin assembling the page of `item`: its comment tree is resolved
    /// from `item.kids`.
    pub fn new(item: StoryItem) -> (s: Self)
        ensures
            s.wf(),
            s.item == item,
            !s.resolver.awaiting,
            s.resolver.any_failed == false,
            s.resolver.frames@.len() == 1,
            s.resolver.frames@[0].pending@ == item.kids@,
            s.resolver.frames@[0].resolved@.len() == 0,
    {
        let pending = clone_ids(&item.kids);
        let resolver = CommentResolver::new(pending);
        StorySession { item, resolver }
    }

    /// Merge the story item with its resolved comments. The item comes back
    /// untouched — in particular the page keeps the id the fetch was made
    /// for — and the comments are the resolver's result: at most one per id
    /// in `item.kids`, in `kids` order, every one a well-formed tree, and
    /// one for every id when no fetch failed.
    pub fn finish(self) -> (page: StoryPageData)
        requires
            self.wf(),
            self.resolver.done(),
        ensures
            page.item == self.item,
            page.comments@ == self.resolver.frames@[0].resolved@,
            page.comments@.len() <= self.item.kids@.len(),
            forall|j: int| 0 <= j < page.comments@.len() ==> comment_wf(#[trigger] page.comments@[j]),
            !self.resolver.any_failed ==> page.comments@.len() == self.item.kids@.len() && (
            forall|j: int|
                0 <= j < page.comments@.len() ==> comment_complete(#[trigger] page.comments@[j])),
    {
        let StorySession { item, resolver } = self;
        let comments = resolver.finish();
        StoryPageData { item, comments }
    }
}

/// Collect the per-id fetch outcomes of the truncated index into the ordered
/// story list, failing fast: the result is the items in index order when
/// every fetch succeeded, and the first error otherwise.
pub fn assemble_stories(results: Vec<Result<StoryItem, Error>>) -> (r: Result<
    Vec<StoryItem>,
    Error,
>)
    ensures
        match r {
            Ok(items) => {
                &&& items@.len() == results@.len()
                &&& (forall|i: int| 0 <= i < results@.len() ==> (#[trigger] results@[i]) is Ok)
                &&& (forall|i: int|
                    0 <= i < results@.len() ==> items@[i] == (#[trigger] results@[i])->Ok_0)
            },
            Err(e) => exists|i: int|
                {
                    &&& 0 <= i < results@.len()
                    &&& (#[trigger] results@[i]) is Err
                    &&& e == results@[i]->Err_0
                    &&& (forall|j: int| 0 <= j < i ==> (#[trigger] results@[j]) is Ok)
                },
        },
{
    let ghost orig = results@;
    let mut rest = results;
    let mut items: Vec<StoryItem> = Vec::new();
    while rest.len() > 0
        invariant
            orig == results@,
            items@.len() + rest@.len() == orig.len(),
            rest@ == orig.subrange(items@.len() as int, orig.len() as int),
            forall|i: int|
                0 <= i < items@.len() ==> (#[trigger] orig[i]) is Ok && items@[i] == orig[i]->Ok_0,
        decreases rest@.len(),
    {
        let ghost taken = items@.len() as int;
        proof {
            assert(rest@[0] == orig[taken]);
        }
        let next = rest.remove(0);
        proof {
            assert(next == orig[taken]);
        }
        match next {
            Ok(item) => {
                items.push(item);
                proof {
                    assert(rest@ =~= orig.subrange(items@.len() as int, orig.len() as int));
                }
            },
            Err(e) => {
                proof {
                    assert(0 <= taken < results@.len());
                    assert(results@[taken] == next);
                    assert((results@[taken]) is Err && e == results@[taken]->Err_0 && (
                    forall|j: int| 0 <= j < taken ==> (#[trigger] results@[j]) is Ok));
                }
                return Err(e);
            },
        }
    }
    Ok(items)
}

/// The shape of a successful top-story listing, put together: with `ids` the
/// upstream index and `results` the one fetch outcome per truncated id, an
/// assembly that kept one item per outcome holds at most `limit` stories,
/// and the `i`-th of them is the item fetched for `ids[i]` — upstream order.
pub proof fn lemma_get_stories_shape(
    ids: Seq<i64>,
    limit: int,
    results: Seq<Result<StoryItem, Error>>,
    items: Seq<StoryItem>,
)
    requires
        0 <= limit,
        results.len() == spec_limit_ids(ids, limit).len(),
        items.len() == results.len(),
        forall|i: int| 0 <= i < results.len() ==> items[i] == (#[trigger] results[i])->Ok_0,
    ensures
        items.len() <= limit,
        items.len() <= ids.len(),
        forall|i: int|
            0 <= i < items.len() ==> (#[trigger] spec_limit_ids(ids, limit)[i]) == ids[i],
{
    lemma_limit_ids_prefix(ids, limit);
}

} // verus!
