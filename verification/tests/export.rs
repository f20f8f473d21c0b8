use channel_videos::error::{ExportError, FetchError};
use channel_videos::export::{append_record, cell, write_to_csv};
use channel_videos::fetch::{Event, Response, Step};
use channel_videos::outcome::{conclude, Outcome, API_KEY_VARIABLE, CHANNEL_ID, OUTPUT_PATH};
use channel_videos::replay::replay;
use channel_videos::video::VideoItem;

fn video(id: &str, title: &str, description: &str, published_at: &str) -> VideoItem {
    VideoItem {
        video_id: Some(id.to_string()),
        title: Some(title.to_string()),
        description: Some(description.to_string()),
        published_at: Some(published_at.to_string()),
    }
}

fn table(videos: &Vec<VideoItem>) -> String {
    String::from_utf8(write_to_csv(videos.clone()).unwrap()).unwrap()
}

#[test]
fn two_mocked_pages_give_header_and_two_rows() {
    let script = vec![
        Event::Response(Response {
            status: 200,
            body: "{\"items\":[{\"id\":{\"videoId\":\"abc\"},\"snippet\":{\"title\":\"T1\",\"description\":\"D1\",\"publishedAt\":\"2020-01-01T00:00:00Z\"}}],\"nextPageToken\":\"p2\"}".to_string(),
        }),
        Event::Response(Response {
            status: 200,
            body: "{\"items\":[{\"id\":{\"videoId\":\"xyz\"},\"snippet\":{\"title\":\"T2\",\"description\":\"D2\",\"publishedAt\":\"2020-01-02T00:00:00Z\"}}]}".to_string(),
        }),
    ];
    let run = replay("KEY", "CHANNEL", &script);
    assert_eq!(run.requests, 2);
    let videos = match run.last {
        Step::Done(videos) => videos,
        other => panic!("expected the result, got {:?}", other),
    };
    assert_eq!(
        table(&videos),
        "Video ID,Title,Description,Published At\nabc,T1,D1,2020-01-01T00:00:00Z\nxyz,T2,D2,2020-01-02T00:00:00Z\n"
    );
    match conclude(Ok(videos)) {
        Outcome::Exported { count, table } => {
            assert_eq!(count, 2);
            assert_eq!(
                String::from_utf8(table).unwrap(),
                "Video ID,Title,Description,Published At\nabc,T1,D1,2020-01-01T00:00:00Z\nxyz,T2,D2,2020-01-02T00:00:00Z\n"
            );
        }
        other => panic!("expected a table, got {:?}", other),
    }
}

#[test]
fn no_videos_gives_the_header_alone() {
    assert_eq!(table(&Vec::new()), "Video ID,Title,Description,Published At\n");
}

#[test]
fn missing_attributes_are_exported_as_empty_fields() {
    let videos = vec![
        VideoItem {
            video_id: Some("abc".to_string()),
            title: None,
            description: Some("D".to_string()),
            published_at: None,
        },
        VideoItem { video_id: None, title: None, description: None, published_at: None },
        VideoItem {
            video_id: None,
            title: Some("T".to_string()),
            description: None,
            published_at: Some("2020-01-01T00:00:00Z".to_string()),
        },
    ];
    assert_eq!(
        table(&videos),
        "Video ID,Title,Description,Published At\nabc,,D,\n,,,\n,T,,2020-01-01T00:00:00Z\n"
    );
}

#[test]
fn absent_and_empty_export_alike() {
    let absent = vec![VideoItem {
        video_id: Some("abc".to_string()),
        title: None,
        description: None,
        published_at: None,
    }];
    let empty = vec![video("abc", "", "", "")];
    assert_eq!(write_to_csv(absent).unwrap(), write_to_csv(empty).unwrap());
}

#[test]
fn cell_is_the_value_or_empty() {
    assert_eq!(cell(&Some("T".to_string())), "T");
    assert_eq!(cell(&Some(String::new())), "");
    assert_eq!(cell(&None), "");
}

#[test]
fn fields_are_quoted_where_needed() {
    let videos = vec![video("a,b", "say \"hi\"", "two\nlines", " plain ")];
    assert_eq!(
        table(&videos),
        "Video ID,Title,Description,Published At\n\"a,b\",\"say \"\"hi\"\"\",\"two\nlines\", plain \n"
    );
}

#[test]
fn rows_keep_the_order_and_duplicates() {
    let videos = vec![video("b", "2", "", ""), video("a", "1", "", ""), video("b", "2", "", "")];
    assert_eq!(table(&videos), "Video ID,Title,Description,Published At\nb,2,,\na,1,,\nb,2,,\n");
}

#[test]
fn text_is_exported_as_utf8() {
    let videos = vec![video("id", "caf\u{e9} \u{1f600}", "", "")];
    assert_eq!(
        write_to_csv(videos).unwrap(),
        "Video ID,Title,Description,Published At\nid,caf\u{e9} \u{1f600},,\n".as_bytes()
    );
}

#[test]
fn encoded_record_is_put_behind_the_table() {
    let mut table = b"a,b\n".to_vec();
    assert_eq!(append_record(&mut table, Ok(b"c,d\n".to_vec())), Ok(()));
    assert_eq!(table, b"a,b\nc,d\n");
    assert_eq!(append_record(&mut table, Ok(Vec::new())), Ok(()));
    assert_eq!(table, b"a,b\nc,d\n");
}

#[test]
fn failed_encoding_fails_the_export_and_leaves_the_table() {
    let mut table = b"a,b\n".to_vec();
    assert_eq!(
        append_record(&mut table, Err("found record with 3 fields".to_string())),
        Err(ExportError::Writer { detail: "found record with 3 fields".to_string() })
    );
    assert_eq!(table, b"a,b\n");
}

#[test]
fn long_fields_are_exported_whole() {
    let long = "x".repeat(100_000);
    let videos = vec![video("id", &long, "", ""), video("next", "T", "", "")];
    assert_eq!(
        table(&videos),
        format!("Video ID,Title,Description,Published At\nid,{},,\nnext,T,,\n", long)
    );
}

#[test]
fn export_error_message_is_its_detail() {
    let error = ExportError::Writer { detail: "disk full".to_string() };
    assert_eq!(error.message(), "disk full");
}

#[test]
fn failed_fetch_writes_no_file() {
    let script = vec![
        Event::Response(Response {
            status: 200,
            body: "{\"items\":[{\"id\":{\"videoId\":\"abc\"}}],\"nextPageToken\":\"CDIQAA\"}".to_string(),
        }),
        Event::Response(Response { status: 500, body: "boom".to_string() }),
        Event::Response(Response { status: 200, body: "{}".to_string() }),
    ];
    let run = replay("KEY", "CHANNEL", &script);
    let fetched = match run.last {
        Step::Failed(error) => Err(error),
        other => panic!("expected a failure, got {:?}", other),
    };
    let outcome = conclude(fetched);
    assert_eq!(
        outcome,
        Outcome::FetchFailed(FetchError::HttpStatus { status: 500, body: "boom".to_string() })
    );
    assert_eq!(outcome.table(), None);
}

#[test]
fn empty_fetch_writes_no_file() {
    let outcome = conclude(Ok(Vec::new()));
    assert_eq!(outcome, Outcome::NoVideos);
    assert_eq!(outcome.table(), None);
}

#[test]
fn fetched_videos_are_written() {
    let outcome = conclude(Ok(vec![video("abc", "T", "D", "P")]));
    assert_eq!(
        outcome.table().map(|bytes| bytes.as_slice()),
        Some("Video ID,Title,Description,Published At\nabc,T,D,P\n".as_bytes())
    );
    assert!(matches!(outcome, Outcome::Exported { count: 1, .. }));
}

#[test]
fn fixed_settings() {
    assert_eq!(CHANNEL_ID, "UCBRxDSTfr2aJVODDh4WG_7g");
    assert_eq!(API_KEY_VARIABLE, "YOUTUBE_API_KEY");
    assert_eq!(OUTPUT_PATH, "francesco_ciulla_videos.csv");
}
