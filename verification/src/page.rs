//! One page of search results.

use vstd::prelude::*;
use crate::error::{FetchError, FetchErrorView};
use crate::json::{Json, debug_text, elements, json_debug, json_parse, json_view, member, parse, text};
use crate::video::{VideoItem, VideoItemView, item_of, item_views, text_view};

verus! {

/// What a successful response contributes: its entries, in the order the
/// endpoint listed them, and the cursor of the page after it, if any.
#[derive(Debug, Clone, PartialEq, Eq)]
pub struct Page {
    pub items: Vec<VideoItem>,
    pub next_page_token: Option<String>,
}

/// A [`Page`] as contracts see it.
pub struct PageView {
    pub items: Seq<VideoItemView>,
    pub next_page_token: Option<Seq<char>>,
}

impl View for Page {
    type V = PageView;

    open spec fn view(&self) -> PageView {
        PageView {
            items: item_views(self.items@),
            next_page_token: text_view(self.next_page_token),
        }
    }
}

/// The view of a decoding result.
pub open spec fn decoded_view(outcome: Result<Page, FetchError>) -> Result<
    PageView,
    FetchErrorView,
> {
    match outcome {
        Ok(page) => Ok(page@),
        Err(error) => Err(error@),
    }
}

/// The entries of a document: the elements of its `items` member when that
/// is an array, none otherwise.
pub open spec fn entries_of(document: Json) -> Seq<VideoItemView> {
    match document.member("items"@) {
        Some(Json::Array(entries)) => entries.map_values(|entry: Json| item_of(entry)),
        _ => Seq::empty(),
    }
}

/// The cursor of a document: its `nextPageToken` member when that is a
/// string.
pub open spec fn cursor_of(document: Json) -> Option<Seq<char>> {
    match document.member("nextPageToken"@) {
        Some(token) => token.text(),
        None => None,
    }
}

/// What a response document means. A document with an `error` member,
/// whatever it holds, is a failure reported by the endpoint. Any other
/// document is a page, also when it has no `items`.
pub open spec fn page_of(document: Json) -> Result<PageView, FetchErrorView> {
    match document.member("error"@) {
        Some(payload) => Err(FetchErrorView::Api { payload: json_debug(payload) }),
        None => Ok(PageView { items: entries_of(document), next_page_token: cursor_of(document) }),
    }
}

/// What a parsing result means: a rejected text is malformed, an accepted
/// one is read as a response document.
pub open spec fn page_of_parsed(parsed: Result<Json, Seq<char>>) -> Result<
    PageView,
    FetchErrorView,
> {
    match parsed {
        Ok(document) => page_of(document),
        Err(detail) => Err(FetchErrorView::MalformedJson { detail }),
    }
}

/// What the body of a successful response means.
pub open spec fn page_of_body(body: Seq<char>) -> Result<PageView, FetchErrorView> {
    page_of_parsed(json_parse(body))
}

/// Reads the entries of a document.
fn read_entries(document: &serde_json::Value) -> (items: Vec<VideoItem>)
    ensures
        item_views(items@) == entries_of(json_view(*document)),
{
    let mut items: Vec<VideoItem> = Vec::new();
    let listed = match member(document, "items") {
        Some(listed) => listed,
        None => {
            return items;
        },
    };
    let entries = match elements(listed) {
        Some(entries) => entries,
        None => {
            return items;
        },
    };
    let ghost expected = entries_of(json_view(*document));
    let mut index: usize = 0;
    while index < entries.len()
        invariant
            index <= entries.len(),
            items@.len() == index,
            expected.len() == entries.len(),
            forall|i: int| 0 <= i < entries.len() ==> expected[i] == item_of(json_view(entries@[i])),
            forall|i: int| 0 <= i < index ==> (#[trigger] items@[i])@ == expected[i],
        decreases entries.len() - index,
    {
        items.push(VideoItem::decode(&entries[index]));
        index = index + 1;
    }
    items
}

/// Reads the cursor of a document.
fn read_cursor(document: &serde_json::Value) -> (cursor: Option<String>)
    ensures
        text_view(cursor) == cursor_of(json_view(*document)),
{
    match member(document, "nextPageToken") {
        Some(token) => match text(token) {
            Some(characters) => Some(String::from_str(characters)),
            None => None,
        },
        None => None,
    }
}

impl Page {
    /// Reads a response document.
    pub fn decode(document: &serde_json::Value) -> (outcome: Result<Page, FetchError>)
        ensures
            decoded_view(outcome) == page_of(json_view(*document)),
    {
        match member(document, "error") {
            Some(payload) => Err(FetchError::Api { payload: debug_text(payload) }),
            None => Ok(Page { items: read_entries(document), next_page_token: read_cursor(document) }),
        }
    }

    /// Turns the result of parsing a response body, a document or the
    /// parser's message, into a page or the failure it stands for.
    pub fn interpret(parsed: Result<serde_json::Value, String>) -> (outcome: Result<
        Page,
        FetchError,
    >)
        ensures
            decoded_view(outcome) == page_of_parsed(
                match parsed {
                    Ok(document) => Ok(json_view(document)),
                    Err(message) => Err(message@),
                },
            ),
    {
        match parsed {
            Ok(document) => Page::decode(&document),
            Err(detail) => Err(FetchError::MalformedJson { detail }),
        }
    }

    /// Parses the body of a successful response and reads it.
    pub fn parse(body: &str) -> (outcome: Result<Page, FetchError>)
        ensures
            decoded_view(outcome) == page_of_body(body@),
    {
        Page::interpret(parse(body))
    }
}

} // verus!
