use channel_videos::error::FetchError;
use channel_videos::page::Page;
use channel_videos::video::VideoItem;

fn document(text: &str) -> serde_json::Value {
    serde_json::from_str(text).unwrap()
}

#[test]
fn entry_is_read_from_id_and_snippet() {
    let entry = document(
        "{\"id\":{\"videoId\":\"abc\"},\"snippet\":{\"title\":\"T\",\"description\":\"D\",\"publishedAt\":\"2020-01-01T00:00:00Z\"}}",
    );
    assert_eq!(
        VideoItem::decode(&entry),
        VideoItem {
            video_id: Some("abc".to_string()),
            title: Some("T".to_string()),
            description: Some("D".to_string()),
            published_at: Some("2020-01-01T00:00:00Z".to_string()),
        }
    );
}

#[test]
fn missing_attributes_are_absent() {
    let entry = document("{\"id\":{\"videoId\":\"abc\"},\"snippet\":{\"title\":\"T\"}}");
    let item = VideoItem::decode(&entry);
    assert_eq!(item.video_id.as_deref(), Some("abc"));
    assert_eq!(item.title.as_deref(), Some("T"));
    assert_eq!(item.description, None);
    assert_eq!(item.published_at, None);
}

#[test]
fn entry_without_id_or_snippet_has_nothing() {
    let empty = VideoItem { video_id: None, title: None, description: None, published_at: None };
    assert_eq!(VideoItem::decode(&document("{}")), empty);
    assert_eq!(VideoItem::decode(&document("null")), empty);
    assert_eq!(VideoItem::decode(&document("[\"id\"]")), empty);
    assert_eq!(VideoItem::decode(&document("{\"id\":\"abc\",\"snippet\":7}")), empty);
}

#[test]
fn attributes_that_are_no_strings_are_absent() {
    let entry = document(
        "{\"id\":{\"videoId\":17},\"snippet\":{\"title\":null,\"description\":[\"D\"],\"publishedAt\":{\"at\":\"now\"}}}",
    );
    assert_eq!(
        VideoItem::decode(&entry),
        VideoItem { video_id: None, title: None, description: None, published_at: None }
    );
}

#[test]
fn attributes_are_not_read_from_the_wrong_section() {
    let entry = document("{\"id\":{\"title\":\"T\"},\"snippet\":{\"videoId\":\"abc\"},\"title\":\"top\"}");
    assert_eq!(
        VideoItem::decode(&entry),
        VideoItem { video_id: None, title: None, description: None, published_at: None }
    );
}

#[test]
fn text_is_unescaped() {
    let entry = document("{\"snippet\":{\"title\":\"a \\\"b\\\" \\u00e9\\n\"}}");
    assert_eq!(VideoItem::decode(&entry).title.as_deref(), Some("a \"b\" \u{e9}\n"));
}

#[test]
fn page_holds_entries_in_order_and_the_cursor() {
    let page = Page::decode(&document(
        "{\"items\":[{\"id\":{\"videoId\":\"x\"}},{\"id\":{\"videoId\":\"y\"}},{\"id\":{\"videoId\":\"x\"}}],\"nextPageToken\":\"CDIQAA\"}",
    ))
    .unwrap();
    let ids: Vec<Option<&str>> = page.items.iter().map(|item| item.video_id.as_deref()).collect();
    assert_eq!(ids, vec![Some("x"), Some("y"), Some("x")]);
    assert_eq!(page.next_page_token.as_deref(), Some("CDIQAA"));
}

#[test]
fn page_without_members_is_empty_and_last() {
    assert_eq!(
        Page::decode(&document("{}")),
        Ok(Page { items: Vec::new(), next_page_token: None })
    );
}

#[test]
fn page_with_error_member_is_refused() {
    assert_eq!(
        Page::decode(&document("{\"error\":\"denied\",\"items\":[]}")),
        Err(FetchError::Api { payload: "String(\"denied\")".to_string() })
    );
    assert_eq!(
        Page::decode(&document("{\"error\":[1,true]}")),
        Err(FetchError::Api { payload: "Array [Number(1), Bool(true)]".to_string() })
    );
}

#[test]
fn error_member_is_only_looked_for_at_the_top() {
    let page = Page::decode(&document("{\"items\":[{\"error\":\"inner\"}]}")).unwrap();
    assert_eq!(page.items.len(), 1);
}

#[test]
fn interpret_reads_a_parsed_document() {
    let parsed = document("{\"nextPageToken\":\"n\"}");
    assert_eq!(
        Page::interpret(Ok(parsed)),
        Ok(Page { items: Vec::new(), next_page_token: Some("n".to_string()) })
    );
}

#[test]
fn interpret_reports_a_parse_error() {
    assert_eq!(
        Page::interpret(Err("expected `:` at line 1 column 6".to_string())),
        Err(FetchError::MalformedJson { detail: "expected `:` at line 1 column 6".to_string() })
    );
    assert_eq!(
        Page::parse("{\"a\" 1}"),
        Err(FetchError::MalformedJson { detail: "expected `:` at line 1 column 6".to_string() })
    );
}

#[test]
fn parse_agrees_with_decode() {
    let text = "{\"items\":[{\"id\":{\"videoId\":\"x\"},\"snippet\":{\"title\":\"X\"}}],\"nextPageToken\":\"p\"}";
    assert_eq!(Page::parse(text), Page::decode(&document(text)));
}

#[test]
fn trailing_text_is_malformed() {
    assert!(matches!(Page::parse("{} {}"), Err(FetchError::MalformedJson { .. })));
    assert!(matches!(Page::parse(""), Err(FetchError::MalformedJson { .. })));
}
