//! Collecting a whole follow list, page by page.
//!
//! The collector is a state machine. Its driver starts it, carries out each
//! action that `Collector::step` returns, and hands back what came of it as
//! the next event: a page that the server sent, that a wait is over, or that
//! a request failed. The first page says how many entries the list has, and
//! with that how many pages are asked for; the collector holds on to that
//! number even where later pages disagree with it.

use crate::model::{Relation, RelationView, RequestError, Snapshot, SnapshotView, relation_views};
use crate::wire::{page_count, pages_for};
use vstd::prelude::*;

verus! {

/// Where a collection stands.
#[derive(Clone, Copy, Debug, PartialEq, Eq, Structural)]
pub enum CollectPhase {
    /// Nothing has been asked for yet.
    Idle,
    /// A page has been asked for and is awaited.
    Fetching,
    /// The wait before the next page is running.
    Pausing,
    /// Every page has come in.
    Finished,
    /// A request failed; the collection has stopped.
    Failed(RequestError),
}

/// What the driver tells the collector.
#[derive(Debug, PartialEq, Eq)]
pub enum CollectEvent {
    /// The collection is to begin.
    Start,
    /// The server sent the page that was asked for.
    Page(Snapshot),
    /// The wait is over.
    Paused,
    /// The last request failed.
    Failed(RequestError),
}

/// What a `CollectEvent` holds, as mathematical values.
pub enum CollectEventView {
    Start,
    Page(SnapshotView),
    Paused,
    Failed(RequestError),
}

impl View for CollectEvent {
    type V = CollectEventView;

    open spec fn view(&self) -> CollectEventView {
        match self {
            CollectEvent::Start => CollectEventView::Start,
            CollectEvent::Page(page) => CollectEventView::Page(page@),
            CollectEvent::Paused => CollectEventView::Paused,
            CollectEvent::Failed(error) => CollectEventView::Failed(*error),
        }
    }
}

/// What the collector tells the driver to do next.
#[derive(Clone, Copy, Debug, PartialEq, Eq, Structural)]
pub enum CollectAction {
    /// Ask the server for the page with this number; pages count from 1.
    Fetch { page: u16 },
    /// Wait before the next request.
    Pause,
    /// The list is complete: store the snapshot.
    Finish,
    /// Give the run up with this error.
    Abort(RequestError),
}

/// The state of a collection, as mathematical values.
pub struct CollectorView {
    /// Where the collection stands.
    pub phase: CollectPhase,
    /// The number of pages asked for so far, which is also the number of the
    /// page asked for last.
    pub requested: nat,
    /// The number of waits handed to the driver so far.
    pub pauses: nat,
    /// The number of entries that the first page reported; 0 before it came.
    pub total: u16,
    /// The entries of the pages that have come in, in the order of the pages.
    pub list: Seq<RelationView>,
}

/// The collection before anything has happened.
pub open spec fn collect_start() -> CollectorView {
    CollectorView {
        phase: CollectPhase::Idle,
        requested: 0,
        pauses: 0,
        total: 0,
        list: Seq::empty(),
    }
}

/// The request for the page after the last one asked for.
pub open spec fn next_fetch(s: CollectorView) -> (CollectorView, CollectAction) {
    (
        CollectorView { phase: CollectPhase::Fetching, requested: s.requested + 1, ..s },
        CollectAction::Fetch { page: (s.requested + 1) as u16 },
    )
}

/// The collection stopped by `error`.
pub open spec fn collect_failed(s: CollectorView, error: RequestError) -> (
    CollectorView,
    CollectAction,
) {
    (CollectorView { phase: CollectPhase::Failed(error), ..s }, CollectAction::Abort(error))
}

/// One step of the collection: the state after `event`, and what the driver
/// is to do next.
///
/// A finished collection stays finished and a failed one failed, whatever
/// comes. Otherwise a failed request stops the collection. The start leads to
/// the request for page 1. The entries of a page that comes in go behind
/// those already there. The first page also fixes the total, and with it the
/// number of pages: `total / 50`, rounded up. While fewer pages than that
/// have been asked for, a wait follows, and after the wait the request for
/// the next page; otherwise the collection is complete. An event that the
/// phase does not expect stops the collection as a reply out of turn.
pub open spec fn collect_step(s: CollectorView, event: CollectEventView) -> (
    CollectorView,
    CollectAction,
) {
    match s.phase {
        CollectPhase::Finished => (s, CollectAction::Finish),
        CollectPhase::Failed(error) => (s, CollectAction::Abort(error)),
        CollectPhase::Idle => match event {
            CollectEventView::Failed(error) => collect_failed(s, error),
            CollectEventView::Start => next_fetch(s),
            _ => collect_failed(s, RequestError::Protocol),
        },
        CollectPhase::Fetching => match event {
            CollectEventView::Failed(error) => collect_failed(s, error),
            CollectEventView::Page(page) => {
                let total = if s.requested == 1 {
                    page.total
                } else {
                    s.total
                };
                let list = s.list + page.list;
                if s.requested < page_count(total as nat) {
                    (
                        CollectorView {
                            phase: CollectPhase::Pausing,
                            pauses: s.pauses + 1,
                            total,
                            list,
                            ..s
                        },
                        CollectAction::Pause,
                    )
                } else {
                    (
                        CollectorView { phase: CollectPhase::Finished, total, list, ..s },
                        CollectAction::Finish,
                    )
                }
            },
            _ => collect_failed(s, RequestError::Protocol),
        },
        CollectPhase::Pausing => match event {
            CollectEventView::Failed(error) => collect_failed(s, error),
            CollectEventView::Paused => next_fetch(s),
            _ => collect_failed(s, RequestError::Protocol),
        },
    }
}

/// The number of requests that a list of `total` entries takes: one for each
/// page, and one where there is no entry at all, since only the first page
/// tells.
pub open spec fn requests_for(total: nat) -> nat {
    if total == 0 {
        1
    } else {
        page_count(total)
    }
}

/// What holds of a collection at every moment: pages are asked for one after
/// the other, never more than the total calls for once it is known, and a
/// wait has been taken between each request and the next, and nowhere else.
pub open spec fn collect_inv(s: CollectorView) -> bool {
    &&& s.requested <= 1311
    &&& s.pauses <= s.requested
    &&& match s.phase {
        CollectPhase::Idle => s.requested == 0 && s.pauses == 0 && s.total == 0 && s.list.len()
            == 0,
        CollectPhase::Fetching => s.requested >= 1 && s.pauses == s.requested - 1 && (s.requested
            == 1 ==> s.total == 0 && s.list.len() == 0) && (s.requested > 1 ==> s.requested
            <= page_count(s.total as nat)),
        CollectPhase::Pausing => s.requested >= 1 && s.pauses == s.requested && s.requested
            < page_count(s.total as nat),
        CollectPhase::Finished => s.pauses == s.requested - 1 && s.requested == requests_for(
            s.total as nat,
        ),
        CollectPhase::Failed(_) => true,
    }
}

/// The snapshot of a collection: the entries of all pages and the total that
/// the first page reported, once the collection has finished, and nothing
/// before that or after a failure.
pub open spec fn snapshot_of(s: CollectorView) -> Option<SnapshotView> {
    if s.phase == CollectPhase::Finished {
        Some(SnapshotView { list: s.list, total: s.total })
    } else {
        None
    }
}

/// A collection in progress.
pub struct Collector {
    phase: CollectPhase,
    requested: u16,
    pauses: u16,
    total: u16,
    list: Vec<Relation>,
}

impl View for Collector {
    type V = CollectorView;

    closed spec fn view(&self) -> CollectorView {
        CollectorView {
            phase: self.phase,
            requested: self.requested as nat,
            pauses: self.pauses as nat,
            total: self.total,
            list: relation_views(self.list@),
        }
    }
}

impl Collector {
    #[verifier::type_invariant]
    spec fn sound(self) -> bool {
        collect_inv(self@)
    }

    /// A collection that has not begun.
    pub fn new() -> (collector: Collector)
        ensures
            collector@ == collect_start(),
            collect_inv(collector@),
    {
        let list: Vec<Relation> = Vec::new();
        assert(relation_views(list@) =~= Seq::<RelationView>::empty());
        Collector { phase: CollectPhase::Idle, requested: 0, pauses: 0, total: 0, list }
    }

    /// Where the collection stands.
    pub fn phase(&self) -> (phase: CollectPhase)
        ensures
            phase == self@.phase,
    {
        self.phase
    }

    /// The number of pages asked for so far.
    pub fn requested(&self) -> (requested: u16)
        ensures
            requested == self@.requested,
    {
        self.requested
    }

    /// The number of waits handed to the driver so far.
    pub fn pauses(&self) -> (pauses: u16)
        ensures
            pauses == self@.pauses,
    {
        self.pauses
    }

    /// The number of entries that the first page reported; 0 before it came.
    pub fn total(&self) -> (total: u16)
        ensures
            total == self@.total,
    {
        self.total
    }

    /// The entries that have come in so far.
    pub fn list(&self) -> (list: &Vec<Relation>)
        ensures
            relation_views(list@) == self@.list,
    {
        &self.list
    }

    /// Gives up the collector for its snapshot: the entries of all pages and
    /// the total that the first page reported, once the collection has
    /// finished. There is none before that, and none after a failure.
    pub fn into_snapshot(self) -> (snapshot: Option<Snapshot>)
        ensures
            snapshot is Some <==> self@.phase == CollectPhase::Finished,
            snapshot matches Some(found) ==> snapshot_of(self@) == Some(found@),
    {
        match self.phase {
            CollectPhase::Finished => Some(Snapshot { list: self.list, total: self.total }),
            _ => None,
        }
    }

    fn fail(self, error: RequestError) -> (next: (Collector, CollectAction))
        ensures
            (next.0@, next.1) == collect_failed(self@, error),
    {
        proof {
            use_type_invariant(&self);
        }
        (Collector { phase: CollectPhase::Failed(error), ..self }, CollectAction::Abort(error))
    }

    fn fetch(self) -> (next: (Collector, CollectAction))
        requires
            self@.phase == CollectPhase::Idle || self@.phase == CollectPhase::Pausing,
        ensures
            (next.0@, next.1) == next_fetch(self@),
    {
        proof {
            use_type_invariant(&self);
        }
        let page: u16 = self.requested + 1;
        (
            Collector { phase: CollectPhase::Fetching, requested: page, ..self },
            CollectAction::Fetch { page },
        )
    }

    fn take(self, page: Snapshot) -> (next: (Collector, CollectAction))
        requires
            self@.phase == CollectPhase::Fetching,
        ensures
            (next.0@, next.1) == collect_step(self@, CollectEventView::Page(page@)),
    {
        proof {
            use_type_invariant(&self);
        }
        let total: u16 = if self.requested == 1 {
            page.total
        } else {
            self.total
        };
        let requested: u16 = self.requested;
        let pauses: u16 = self.pauses;
        let ghost before = self.list@;
        let ghost added = page.list@;
        let mut list = self.list;
        let mut entries = page.list;
        list.append(&mut entries);
        assert(relation_views(list@) =~= relation_views(before) + relation_views(added));
        if requested < pages_for(total) {
            (
                Collector { phase: CollectPhase::Pausing, requested, pauses: pauses + 1, total, list },
                CollectAction::Pause,
            )
        } else {
            (
                Collector { phase: CollectPhase::Finished, requested, pauses, total, list },
                CollectAction::Finish,
            )
        }
    }

    /// Takes one step: consumes the state and the event, and returns the next
    /// state with the action that the driver is to carry out.
    pub fn step(self, event: CollectEvent) -> (next: (Collector, CollectAction))
        ensures
            (next.0@, next.1) == collect_step(self@, event@),
            collect_inv(next.0@),
    {
        proof {
            use_type_invariant(&self);
        }
        match self.phase {
            CollectPhase::Finished => (self, CollectAction::Finish),
            CollectPhase::Failed(error) => (self, CollectAction::Abort(error)),
            CollectPhase::Idle => match event {
                CollectEvent::Failed(error) => self.fail(error),
                CollectEvent::Start => self.fetch(),
                _ => self.fail(RequestError::Protocol),
            },
            CollectPhase::Fetching => match event {
                CollectEvent::Failed(error) => self.fail(error),
                CollectEvent::Page(page) => self.take(page),
                _ => self.fail(RequestError::Protocol),
            },
            CollectPhase::Pausing => match event {
                CollectEvent::Failed(error) => self.fail(error),
                CollectEvent::Paused => self.fetch(),
                _ => self.fail(RequestError::Protocol),
            },
        }
    }
}

/// A step keeps what holds of a collection at every moment.
pub proof fn lemma_collect_step_sound(s: CollectorView, event: CollectEventView)
    requires
        collect_inv(s),
    ensures
        collect_inv(collect_step(s, event).0),
{
}

/// The counts of a collection count what the driver was told to do: a step
/// raises the number of requests by one exactly when it asks for a page,
/// which is then the page of that number, and the number of waits by one
/// exactly when it asks for a wait.
pub proof fn lemma_collect_counts(s: CollectorView, event: CollectEventView)
    requires
        collect_inv(s),
    ensures
        ({
            let (next, action) = collect_step(s, event);
            &&& next.requested == if action is Fetch {
                s.requested + 1
            } else {
                s.requested
            }
            &&& action matches CollectAction::Fetch { page } ==> page == next.requested
            &&& next.pauses == if action is Pause {
                s.pauses + 1
            } else {
                s.pauses
            }
        }),
{
}

/// One round of a collection that awaits a page: the page comes in, and the
/// wait that the collector then asks for, if it asks for one, is taken.
pub open spec fn collect_round(s: CollectorView, page: SnapshotView) -> CollectorView {
    let taken = collect_step(s, CollectEventView::Page(page));
    if taken.1 == CollectAction::Pause {
        collect_step(taken.0, CollectEventView::Paused).0
    } else {
        taken.0
    }
}

/// A whole collection in which every request is answered: the start, and
/// then one round for each page, in the order of `pages`.
pub open spec fn collect_run(pages: Seq<SnapshotView>) -> CollectorView
    decreases pages.len(),
{
    if pages.len() == 0 {
        collect_step(collect_start(), CollectEventView::Start).0
    } else {
        collect_round(collect_run(pages.drop_last()), pages.last())
    }
}

/// The entries of some pages, one page after the other.
pub open spec fn entries_of(pages: Seq<SnapshotView>) -> Seq<RelationView> {
    pages.map_values(|page: SnapshotView| page.list).flatten()
}

/// While pages keep coming, a collection asks for them in order: once as
/// many pages have come as the total of the first page calls for it has
/// finished, and before that it awaits the next page. It holds the entries of
/// all pages so far in their order and the total of the first page, and a
/// wait has been taken after every page but the last.
pub proof fn lemma_collect_progress(pages: Seq<SnapshotView>)
    requires
        pages.len() >= 1 ==> pages.len() <= requests_for(pages[0].total as nat),
    ensures
        ({
            let s = collect_run(pages);
            let complete = pages.len() >= 1 && pages.len() == requests_for(pages[0].total as nat);
            &&& collect_inv(s)
            &&& s.list == entries_of(pages)
            &&& pages.len() >= 1 ==> s.total == pages[0].total
            &&& s.phase == if complete {
                CollectPhase::Finished
            } else {
                CollectPhase::Fetching
            }
            &&& s.requested == if complete {
                pages.len()
            } else {
                pages.len() + 1
            }
        }),
    decreases pages.len(),
{
    let lists = |page: SnapshotView| page.list;
    if pages.len() == 0 {
        assert(entries_of(pages) =~= Seq::<RelationView>::empty());
    } else {
        let front = pages.drop_last();
        if front.len() >= 1 {
            assert(front[0] == pages[0]);
        }
        lemma_collect_progress(front);
        assert(pages.map_values(lists) =~= front.map_values(lists).push(pages.last().list));
        front.map_values(lists).lemma_flatten_push(pages.last().list);
    }
}

/// Where the first page reports that the list has no entries, the collection
/// is over after that one request, without a wait, and its snapshot holds
/// what that page held: nothing, where the page held no entry.
pub proof fn lemma_empty_list_takes_one_request(page: SnapshotView)
    requires
        page.total == 0,
    ensures
        collect_run(seq![page]).requested == 1,
        collect_run(seq![page]).pauses == 0,
        snapshot_of(collect_run(seq![page])) == Some(SnapshotView { list: page.list, total: 0 }),
        page.list.len() == 0 ==> snapshot_of(collect_run(seq![page])) == Some(
            SnapshotView { list: Seq::empty(), total: 0 },
        ),
{
    let pages = seq![page];
    lemma_collect_progress(pages);
    assert(pages.map_values(|p: SnapshotView| p.list) =~= seq![page.list]);
    seq![page.list].lemma_flatten_singleton();
    if page.list.len() == 0 {
        assert(page.list =~= Seq::<RelationView>::empty());
    }
}

/// The number of entries on page `number` of a list of `total` entries that
/// the server hands out in full pages: 50 on each page but the last, which
/// holds the rest. Pages count from 1.
pub open spec fn entries_on_page(total: nat, number: nat) -> nat {
    if 50 * number <= total {
        50
    } else if 50 * (number - 1) < total {
        (total - 50 * (number - 1)) as nat
    } else {
        0
    }
}

/// While the list on the server stays as it is, the entries of the first
/// pages add up: `count` full pages hold 50 entries each, and never more than
/// the list has.
pub proof fn lemma_entries_add_up(pages: Seq<SnapshotView>, total: nat)
    requires
        forall|i: int|
            0 <= i < pages.len() ==> (#[trigger] pages[i]).list.len() == entries_on_page(
                total,
                (i + 1) as nat,
            ),
    ensures
        entries_of(pages).len() == if 50 * pages.len() <= total {
            50 * pages.len()
        } else {
            total
        },
    decreases pages.len(),
{
    let lists = |page: SnapshotView| page.list;
    if pages.len() == 0 {
        assert(entries_of(pages) =~= Seq::<RelationView>::empty());
    } else {
        let front = pages.drop_last();
        assert forall|i: int| 0 <= i < front.len() implies (#[trigger] front[i]).list.len()
            == entries_on_page(total, (i + 1) as nat) by {
            assert(front[i] == pages[i]);
        }
        lemma_entries_add_up(front, total);
        assert(pages.map_values(lists) =~= front.map_values(lists).push(pages.last().list));
        front.map_values(lists).lemma_flatten_push(pages.last().list);
    }
}

/// Where the list on the server stays as it is during the collection, the
/// snapshot holds as many entries as its total says.
pub proof fn lemma_steady_list_fills_total(pages: Seq<SnapshotView>)
    requires
        pages.len() >= 1,
        pages.len() == requests_for(pages[0].total as nat),
        forall|i: int|
            0 <= i < pages.len() ==> (#[trigger] pages[i]).list.len() == entries_on_page(
                pages[0].total as nat,
                (i + 1) as nat,
            ),
    ensures
        snapshot_of(collect_run(pages)) matches Some(snapshot) && snapshot.list.len()
            == snapshot.total,
{
    lemma_collect_progress(pages);
    lemma_entries_add_up(pages, pages[0].total as nat);
}

/// Where the first page reports a list that has entries, the collection asks
/// for `total / 50` pages, rounded up, waits between each request and the
/// next, and then holds the entries of all those pages in their order, with
/// the total that the first page reported.
pub proof fn lemma_requests_match_total(pages: Seq<SnapshotView>)
    requires
        pages.len() >= 1,
        pages[0].total > 0,
        pages.len() == page_count(pages[0].total as nat),
    ensures
        collect_run(pages).requested == page_count(pages[0].total as nat),
        collect_run(pages).pauses == page_count(pages[0].total as nat) - 1,
        snapshot_of(collect_run(pages)) == Some(
            SnapshotView { list: entries_of(pages), total: pages[0].total },
        ),
{
    lemma_collect_progress(pages);
}

/// A failed request stops a collection that has not finished, and a stopped
/// collection has no snapshot, whatever comes after.
pub proof fn lemma_failure_leaves_no_snapshot(
    s: CollectorView,
    error: RequestError,
    later: CollectEventView,
)
    requires
        s.phase != CollectPhase::Finished,
    ensures
        collect_step(s, CollectEventView::Failed(error)).1 is Abort,
        snapshot_of(collect_step(s, CollectEventView::Failed(error)).0) is None,
        collect_step(collect_step(s, CollectEventView::Failed(error)).0, later) == collect_step(
            s,
            CollectEventView::Failed(error),
        ),
{
}

} // verus!
