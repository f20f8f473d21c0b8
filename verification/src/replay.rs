//! A fetch run against a scripted endpoint: a list of outcomes that answer
//! the requests one after the other.

use vstd::prelude::*;
use crate::error::FetchErrorView;
use crate::fetch::{Event, EventView, Fetcher, FetcherView, Step, StepView, event_views, initial, is_success, request_of, start_of, step_of};
use crate::page::{PageView, page_of_body};
use crate::video::VideoItemView;

verus! {

/// How a scripted fetch ended.
#[derive(Debug, Clone, PartialEq, Eq)]
pub struct Replay {
    /// The step the fetch had reached when it stopped.
    pub last: Step,
    /// The number of requests that were answered from the script.
    pub requests: usize,
}

/// A [`Replay`] as contracts see it.
pub struct ReplayView {
    pub last: StepView,
    pub requests: nat,
}

impl View for Replay {
    type V = ReplayView;

    open spec fn view(&self) -> ReplayView {
        ReplayView { last: self.last@, requests: self.requests as nat }
    }
}

/// Where a fetch that stands at `step` gets when its requests are answered
/// by `events` in turn. Each request takes the next event; the run stops at
/// the first step that is not a request, or when no event is left.
pub open spec fn run_of(step: StepView, events: Seq<EventView>) -> ReplayView
    decreases events.len(),
{
    match step {
        StepView::Request { fetcher, .. } => if events.len() > 0 {
            let rest = run_of(step_of(fetcher, events[0]), events.drop_first());
            ReplayView { last: rest.last, requests: rest.requests + 1 }
        } else {
            ReplayView { last: step, requests: 0 }
        },
        _ => ReplayView { last: step, requests: 0 },
    }
}

/// The page that an event delivers: the one read from the body of a
/// response with a successful status, if it reads as one.
pub open spec fn page_served(event: EventView) -> Option<PageView> {
    match event {
        EventView::Response { status, body } => if is_success(status) {
            match page_of_body(body) {
                Ok(page) => Some(page),
                Err(_) => None,
            }
        } else {
            None
        },
        EventView::TransportFailure { .. } => None,
    }
}

/// Whether an event delivers a page that names a page after it.
pub open spec fn names_next_page(event: EventView) -> bool {
    match page_served(event) {
        Some(page) => page.next_page_token is Some,
        None => false,
    }
}

/// Whether an event delivers a page that names no page after it.
pub open spec fn is_last_page(event: EventView) -> bool {
    match page_served(event) {
        Some(page) => page.next_page_token is None,
        None => false,
    }
}

/// The entries of the pages that `events` deliver, page after page.
pub open spec fn items_served(events: Seq<EventView>) -> Seq<VideoItemView>
    decreases events.len(),
{
    if events.len() == 0 {
        Seq::empty()
    } else {
        let first = match page_served(events[0]) {
            Some(page) => page.items,
            None => Seq::empty(),
        };
        first + items_served(events.drop_first())
    }
}

/// The videos a step holds: those gathered while it waits on a request,
/// the result when it is done, none when the fetch has failed.
pub open spec fn videos_of(step: StepView) -> Seq<VideoItemView> {
    match step {
        StepView::Request { fetcher, .. } => fetcher.videos,
        StepView::Done(videos) => videos,
        StepView::Failed(_) => Seq::empty(),
    }
}

/// Runs a fetch for `channel_id` with the credential `api_key`, answering
/// its requests from `events` in turn.
pub fn replay(api_key: &str, channel_id: &str, events: &Vec<Event>) -> (run: Replay)
    ensures
        run@ == run_of(start_of(api_key@, channel_id@), event_views(events@)),
{
    let ghost script = event_views(events@);
    let ghost goal = run_of(start_of(api_key@, channel_id@), script);
    let mut step = Fetcher::start(api_key, channel_id);
    let mut served: usize = 0;
    assert(script.skip(0) =~= script);
    while served < events.len()
        invariant_except_break
            served <= events.len(),
            goal == (ReplayView {
                last: run_of(step@, script.skip(served as int)).last,
                requests: (served + run_of(step@, script.skip(served as int)).requests) as nat,
            }),
        invariant
            script == event_views(events@),
        ensures
            goal == (ReplayView { last: step@, requests: served as nat }),
        decreases events.len() - served,
    {
        let ghost rest = script.skip(served as int);
        assert(rest.drop_first() =~= script.skip(served + 1));
        match step {
            Step::Request { fetcher, .. } => {
                step = fetcher.step(&events[served]);
                served = served + 1;
            },
            other => {
                step = other;
                break;
            },
        }
    }
    Replay { last: step, requests: served }
}

/// Induction behind the laws on order: a run only ever appends, to what
/// was gathered before it, the entries of the pages it was served.
proof fn lemma_run_appends(fetcher: FetcherView, events: Seq<EventView>)
    ensures
        ({
            let run = run_of(request_of(fetcher), events);
            !(run.last is Failed) ==> videos_of(run.last) == fetcher.videos + items_served(
                events.take(run.requests as int),
            )
        }),
        run_of(request_of(fetcher), events).requests <= events.len(),
    decreases events.len(),
{
    if events.len() > 0 {
        let next = step_of(fetcher, events[0]);
        let rest = events.drop_first();
        let run = run_of(request_of(fetcher), events);
        let tail = run_of(next, rest);
        match next {
            StepView::Request { fetcher: advanced, .. } => {
                lemma_run_appends(advanced, rest);
                assert(events.take(run.requests as int).drop_first() =~= rest.take(
                    tail.requests as int,
                ));
            },
            StepView::Done(_) => {
                assert(items_served(events.take(1).drop_first()) =~= Seq::empty());
            },
            StepView::Failed(_) => {},
        }
    }
}

/// Order is kept: whatever a fetch holds when a scripted run stops short
/// of failure, be it the result or what it has gathered while it waits
/// on a further request, is the concatenation of the entries of the pages
/// served, in the order they were served.
pub proof fn lemma_order_is_order_served(
    api_key: Seq<char>,
    channel_id: Seq<char>,
    events: Seq<EventView>,
)
    ensures
        ({
            let run = run_of(start_of(api_key, channel_id), events);
            &&& run.requests <= events.len()
            &&& !(run.last is Failed) ==> videos_of(run.last) == items_served(
                events.take(run.requests as int),
            )
        }),
{
    lemma_run_appends(initial(api_key, channel_id), events);
}

/// The fetcher that waits on the next request after the answers `events`,
/// as long as each of them names a next page.
spec fn fetcher_after(fetcher: FetcherView, events: Seq<EventView>) -> FetcherView
    decreases events.len(),
{
    if events.len() == 0 {
        fetcher
    } else {
        match step_of(fetcher, events[0]) {
            StepView::Request { fetcher: advanced, .. } => fetcher_after(
                advanced,
                events.drop_first(),
            ),
            _ => fetcher,
        }
    }
}

/// Induction behind the laws on the number of requests: answers that name
/// a next page keep the fetch going, one request each.
proof fn lemma_run_through(fetcher: FetcherView, events: Seq<EventView>, pages: nat)
    requires
        pages <= events.len(),
        forall|i: int| 0 <= i < pages ==> names_next_page(#[trigger] events[i]),
    ensures
        ({
            let reached = fetcher_after(fetcher, events.take(pages as int));
            let rest = run_of(request_of(reached), events.skip(pages as int));
            run_of(request_of(fetcher), events) == (ReplayView {
                last: rest.last,
                requests: pages + rest.requests,
            })
        }),
    decreases pages,
{
    if pages == 0 {
        assert(events.skip(0) =~= events);
    } else {
        let advanced = step_of(fetcher, events[0])->fetcher;
        let rest = events.drop_first();
        assert forall|i: int| 0 <= i < pages - 1 implies names_next_page(#[trigger] rest[i]) by {
            assert(rest[i] == events[i + 1]);
        }
        lemma_run_through(advanced, rest, (pages - 1) as nat);
        assert(rest.skip(pages - 1) =~= events.skip(pages as int));
        assert(events.take(pages as int).drop_first() =~= rest.take(pages - 1));
    }
}

/// An endpoint whose first answer names no next page is asked exactly
/// once. When that answer is a page, its entries are the result.
pub proof fn lemma_no_cursor_single_request(
    api_key: Seq<char>,
    channel_id: Seq<char>,
    events: Seq<EventView>,
)
    requires
        events.len() > 0,
        !names_next_page(events[0]),
    ensures
        run_of(start_of(api_key, channel_id), events).requests == 1,
        !(run_of(start_of(api_key, channel_id), events).last is Request),
        is_last_page(events[0]) ==> run_of(start_of(api_key, channel_id), events).last
            == StepView::Done(page_served(events[0])->0.items),
{
    lemma_halts_where_cursor_ends(api_key, channel_id, events, 0);
    if is_last_page(events[0]) {
        assert(items_served(events.take(1).drop_first()) =~= Seq::empty());
    }
}

/// Pagination follows the cursor and halts where it ends: when the first
/// `pages` answers each name a next page and the answer after them names
/// none, exactly `pages + 1` requests are made and no further one is asked
/// for. When that last answer is a page, the result is the entries of all
/// `pages + 1` pages in order.
pub proof fn lemma_halts_where_cursor_ends(
    api_key: Seq<char>,
    channel_id: Seq<char>,
    events: Seq<EventView>,
    pages: nat,
)
    requires
        pages < events.len(),
        forall|i: int| 0 <= i < pages ==> names_next_page(#[trigger] events[i]),
        !names_next_page(events[pages as int]),
    ensures
        run_of(start_of(api_key, channel_id), events).requests == pages + 1,
        !(run_of(start_of(api_key, channel_id), events).last is Request),
        is_last_page(events[pages as int]) ==> run_of(start_of(api_key, channel_id), events).last
            == StepView::Done(items_served(events.take(pages as int + 1))),
{
    lemma_run_through(initial(api_key, channel_id), events, pages);
    let reached = fetcher_after(initial(api_key, channel_id), events.take(pages as int));
    let rest = events.skip(pages as int);
    assert(run_of(step_of(reached, rest[0]), rest.drop_first()).requests == 0);
    lemma_order_is_order_served(api_key, channel_id, events);
}

/// A status that is not a success ends the fetch on whichever page it
/// comes: the run fails with that status and body at that request, and
/// nothing gathered from the pages before it is kept.
pub proof fn lemma_bad_status_aborts(
    api_key: Seq<char>,
    channel_id: Seq<char>,
    events: Seq<EventView>,
    pages: nat,
)
    requires
        pages < events.len(),
        forall|i: int| 0 <= i < pages ==> names_next_page(#[trigger] events[i]),
        events[pages as int] is Response,
        !is_success(events[pages as int]->status),
    ensures
        run_of(start_of(api_key, channel_id), events) == (ReplayView {
            last: StepView::Failed(
                FetchErrorView::HttpStatus {
                    status: events[pages as int]->status,
                    body: events[pages as int]->body,
                },
            ),
            requests: (pages + 1) as nat,
        }),
{
    lemma_run_through(initial(api_key, channel_id), events, pages);
    let reached = fetcher_after(initial(api_key, channel_id), events.take(pages as int));
    let rest = events.skip(pages as int);
    assert(run_of(step_of(reached, rest[0]), rest.drop_first()).requests == 0);
}

} // verus!
