//! The paginated fetch, as a machine that is told each response and answers
//! with what to do next.
//!
//! The caller performs the requests. It begins with [`Fetcher::start`],
//! sends a request to the address of every [`Step::Request`] it is given,
//! and reports what came back to [`Fetcher::step`], until the step is
//! [`Step::Done`] or [`Step::Failed`].

use vstd::prelude::*;
use crate::error::{FetchError, FetchErrorView};
use crate::page::{Page, PageView, page_of_body};
use crate::video::{VideoItem, VideoItemView, item_views};

verus! {

/// What the endpoint answered to one request.
#[derive(Debug, Clone, PartialEq, Eq)]
pub struct Response {
    pub status: u16,
    pub body: String,
}

/// What became of one request.
#[derive(Debug, Clone, PartialEq, Eq)]
pub enum Event {
    /// The endpoint answered.
    Response(Response),
    /// No answer could be had; `cause` says why.
    TransportFailure { cause: String },
}

/// An [`Event`] as contracts see it.
pub enum EventView {
    Response { status: u16, body: Seq<char> },
    TransportFailure { cause: Seq<char> },
}

impl View for Event {
    type V = EventView;

    open spec fn view(&self) -> EventView {
        match *self {
            Event::Response(response) => EventView::Response {
                status: response.status,
                body: response.body@,
            },
            Event::TransportFailure { cause } => EventView::TransportFailure { cause: cause@ },
        }
    }
}

/// The views of a sequence of events, in the same order.
pub open spec fn event_views(events: Seq<Event>) -> Seq<EventView> {
    events.map_values(|event: Event| event@)
}

/// A fetch in progress: whom it asks, where it stands, and what it has
/// gathered so far.
#[derive(Debug, Clone, PartialEq, Eq)]
pub struct Fetcher {
    api_key: String,
    channel_id: String,
    page_token: String,
    videos: Vec<VideoItem>,
}

/// A [`Fetcher`] as contracts see it.
pub struct FetcherView {
    pub api_key: Seq<char>,
    pub channel_id: Seq<char>,
    /// The cursor of the page to ask for next; empty for the first page.
    pub page_token: Seq<char>,
    /// The entries of the pages read so far, oldest page first.
    pub videos: Seq<VideoItemView>,
}

impl View for Fetcher {
    type V = FetcherView;

    closed spec fn view(&self) -> FetcherView {
        FetcherView {
            api_key: self.api_key@,
            channel_id: self.channel_id@,
            page_token: self.page_token@,
            videos: item_views(self.videos@),
        }
    }
}

/// What the caller is to do next.
#[derive(Debug, Clone, PartialEq, Eq)]
pub enum Step {
    /// Send a GET request to `url` and report the outcome to `fetcher`.
    Request { fetcher: Fetcher, url: String },
    /// The last page has been read: these are the videos of all pages.
    Done(Vec<VideoItem>),
    /// The fetch is abandoned.
    Failed(FetchError),
}

/// A [`Step`] as contracts see it.
pub enum StepView {
    Request { fetcher: FetcherView, url: Seq<char> },
    Done(Seq<VideoItemView>),
    Failed(FetchErrorView),
}

impl View for Step {
    type V = StepView;

    open spec fn view(&self) -> StepView {
        match *self {
            Step::Request { fetcher, url } => StepView::Request { fetcher: fetcher@, url: url@ },
            Step::Done(videos) => StepView::Done(item_views(videos@)),
            Step::Failed(error) => StepView::Failed(error@),
        }
    }
}

/// Whether a status counts as success: 200 to 299.
pub open spec fn is_success(status: u16) -> bool {
    200 <= status < 300
}

/// The address of the search request for one page: the endpoint, then the
/// credential, the channel, the fixed search parameters and the cursor.
/// None of the three is escaped.
pub open spec fn search_url(api_key: Seq<char>, channel_id: Seq<char>, page_token: Seq<char>) -> Seq<
    char,
> {
    "https://www.googleapis.com/youtube/v3/search?key="@ + api_key + "&channelId="@ + channel_id
        + "&part=snippet,id&order=date&maxResults=50&type=video&pageToken="@ + page_token
}

/// The fetcher before its first request.
pub open spec fn initial(api_key: Seq<char>, channel_id: Seq<char>) -> FetcherView {
    FetcherView { api_key, channel_id, page_token: Seq::empty(), videos: Seq::empty() }
}

/// The request that a fetcher in this state sends.
pub open spec fn request_of(fetcher: FetcherView) -> StepView {
    StepView::Request {
        fetcher,
        url: search_url(fetcher.api_key, fetcher.channel_id, fetcher.page_token),
    }
}

/// The first step of a fetch.
pub open spec fn start_of(api_key: Seq<char>, channel_id: Seq<char>) -> StepView {
    request_of(initial(api_key, channel_id))
}

/// The step after a page has been read: its entries follow those gathered
/// before; its cursor, if it has one, addresses the next request, and the
/// fetch is done if it has none.
pub open spec fn advance(fetcher: FetcherView, page: PageView) -> StepView {
    let videos = fetcher.videos + page.items;
    match page.next_page_token {
        Some(token) => request_of(FetcherView { page_token: token, videos, ..fetcher }),
        None => StepView::Done(videos),
    }
}

/// The step after an event. A transport failure, a status that is not a
/// success, a body that is not JSON and a document with an `error` member
/// each end the fetch with the matching error; a page advances it.
pub open spec fn step_of(fetcher: FetcherView, event: EventView) -> StepView {
    match event {
        EventView::TransportFailure { cause } => StepView::Failed(
            FetchErrorView::Transport { cause },
        ),
        EventView::Response { status, body } => if !is_success(status) {
            StepView::Failed(FetchErrorView::HttpStatus { status, body })
        } else {
            match page_of_body(body) {
                Ok(page) => advance(fetcher, page),
                Err(error) => StepView::Failed(error),
            }
        },
    }
}

/// Tells whether a status counts as success.
pub fn status_is_success(status: u16) -> (success: bool)
    ensures
        success == is_success(status),
{
    200 <= status && status < 300
}

impl Fetcher {
    /// Begins a fetch of the videos of `channel_id` with the credential
    /// `api_key`: the first request asks for the first page.
    pub fn start(api_key: &str, channel_id: &str) -> (first: Step)
        ensures
            first@ == start_of(api_key@, channel_id@),
    {
        let fetcher = Fetcher {
            api_key: String::from_str(api_key),
            channel_id: String::from_str(channel_id),
            page_token: String::new(),
            videos: Vec::new(),
        };
        assert(item_views(fetcher.videos@) =~= Seq::empty());
        fetcher.request()
    }

    /// The address of the request this fetcher is waiting on.
    pub fn request_url(&self) -> (url: String)
        ensures
            url@ == search_url(self@.api_key, self@.channel_id, self@.page_token),
    {
        let mut url = String::from_str("https://www.googleapis.com/youtube/v3/search?key=");
        url.append(self.api_key.as_str());
        url.append("&channelId=");
        url.append(self.channel_id.as_str());
        url.append("&part=snippet,id&order=date&maxResults=50&type=video&pageToken=");
        url.append(self.page_token.as_str());
        url
    }

    /// The number of videos gathered so far.
    pub fn gathered(&self) -> (count: usize)
        ensures
            count == self@.videos.len(),
    {
        self.videos.len()
    }

    fn request(self) -> (step: Step)
        ensures
            step@ == request_of(self@),
    {
        let url = self.request_url();
        Step::Request { fetcher: self, url }
    }

    /// Takes in a page that was read from a successful response.
    pub fn absorb(self, page: Page) -> (next: Step)
        ensures
            next@ == advance(self@, page@),
    {
        let mut fetcher = self;
        let mut page = page;
        let ghost fresh = item_views(page.items@);
        fetcher.videos.append(&mut page.items);
        assert(item_views(fetcher.videos@) =~= self@.videos + fresh);
        match page.next_page_token {
            Some(token) => {
                fetcher.page_token = token;
                fetcher.request()
            },
            None => Step::Done(fetcher.videos),
        }
    }

    /// Decides what follows from the outcome of the request this fetcher
    /// was waiting on.
    pub fn step(self, event: &Event) -> (next: Step)
        ensures
            next@ == step_of(self@, event@),
    {
        match event {
            Event::TransportFailure { cause } => Step::Failed(
                FetchError::Transport { cause: cause.clone() },
            ),
            Event::Response(response) => {
                if !status_is_success(response.status) {
                    Step::Failed(
                        FetchError::HttpStatus {
                            status: response.status,
                            body: response.body.clone(),
                        },
                    )
                } else {
                    match Page::parse(response.body.as_str()) {
                        Ok(page) => self.absorb(page),
                        Err(error) => Step::Failed(error),
                    }
                }
            },
        }
    }
}

} // verus!
