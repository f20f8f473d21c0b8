//! One video as the search endpoint describes it.

use vstd::prelude::*;
use crate::json::{Json, json_view, member, text};

verus! {

/// One entry of a search result. Every attribute may be absent from the
/// entry it was read from.
#[derive(Debug, Clone, PartialEq, Eq)]
pub struct VideoItem {
    pub video_id: Option<String>,
    pub title: Option<String>,
    pub description: Option<String>,
    pub published_at: Option<String>,
}

/// A [`VideoItem`] as contracts see it.
pub struct VideoItemView {
    pub video_id: Option<Seq<char>>,
    pub title: Option<Seq<char>>,
    pub description: Option<Seq<char>>,
    pub published_at: Option<Seq<char>>,
}

/// The characters of an optional string.
pub open spec fn text_view(field: Option<String>) -> Option<Seq<char>> {
    match field {
        Some(text) => Some(text@),
        None => None,
    }
}

impl View for VideoItem {
    type V = VideoItemView;

    open spec fn view(&self) -> VideoItemView {
        VideoItemView {
            video_id: text_view(self.video_id),
            title: text_view(self.title),
            description: text_view(self.description),
            published_at: text_view(self.published_at),
        }
    }
}

/// The views of a sequence of items, in the same order.
pub open spec fn item_views(items: Seq<VideoItem>) -> Seq<VideoItemView> {
    items.map_values(|item: VideoItem| item@)
}

/// The string stored under `key` in `outer[section]`, when `outer` is an
/// object, its member `section` is an object, and that object's member
/// `key` is a string.
pub open spec fn nested_text(outer: Json, section: Seq<char>, key: Seq<char>) -> Option<
    Seq<char>,
> {
    match outer.member(section) {
        Some(inner) => match inner.member(key) {
            Some(leaf) => leaf.text(),
            None => None,
        },
        None => None,
    }
}

/// The item that a search result entry describes: `id.videoId`,
/// `snippet.title`, `snippet.description` and `snippet.publishedAt`, each
/// absent unless it is present as a string.
pub open spec fn item_of(entry: Json) -> VideoItemView {
    VideoItemView {
        video_id: nested_text(entry, "id"@, "videoId"@),
        title: nested_text(entry, "snippet"@, "title"@),
        description: nested_text(entry, "snippet"@, "description"@),
        published_at: nested_text(entry, "snippet"@, "publishedAt"@),
    }
}

/// Reads the string at `outer[section][key]`.
fn read_nested(outer: &serde_json::Value, section: &str, key: &str) -> (found: Option<String>)
    ensures
        text_view(found) == nested_text(json_view(*outer), section@, key@),
{
    match member(outer, section) {
        Some(inner) => match member(inner, key) {
            Some(leaf) => match text(leaf) {
                Some(characters) => Some(String::from_str(characters)),
                None => None,
            },
            None => None,
        },
        None => None,
    }
}

impl VideoItem {
    /// Reads one entry of a search result. Nothing is required of the
    /// entry: what is missing or is not a string is left absent.
    pub fn decode(entry: &serde_json::Value) -> (item: VideoItem)
        ensures
            item@ == item_of(json_view(*entry)),
    {
        VideoItem {
            video_id: read_nested(entry, "id", "videoId"),
            title: read_nested(entry, "snippet", "title"),
            description: read_nested(entry, "snippet", "description"),
            published_at: read_nested(entry, "snippet", "publishedAt"),
        }
    }
}

} // verus!
