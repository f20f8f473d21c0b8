//! The fetched videos as a comma-separated table.
//!
//! Records are encoded one by one by the `csv` crate with its default
//! configuration, and the table is put together from them in memory.
//! Writing it to a file is the caller's part.

use vstd::prelude::*;
use crate::error::ExportError;
use crate::video::{VideoItem, VideoItemView, item_views};

verus! {

/// What a `csv::Writer` with the default configuration, writing into an
/// empty vector, makes of one record: the bytes it hands over (the fields,
/// quoted where they need it, separated by commas and ended by a line
/// feed), or the message of the error it fails with.
pub uninterp spec fn csv_record(fields: Seq<Seq<char>>) -> Result<Seq<u8>, Seq<char>>;

/// Encodes one record of four fields with the `csv` crate: makes a writer
/// with `csv::Writer::from_writer` on an empty vector, calls
/// `csv::Writer::write_record` with the fields and takes the vector back
/// with `csv::Writer::into_inner`; where either fails, takes the message
/// of the error. The writer is new and its configuration fixed, so the
/// outcome depends on the fields alone.
#[verifier::external_body]
fn encode_record(first: &str, second: &str, third: &str, fourth: &str) -> (encoded: Result<
    Vec<u8>,
    String,
>)
    ensures
        match encoded {
            Ok(bytes) => csv_record(seq![first@, second@, third@, fourth@]) == Ok::<
                Seq<u8>,
                Seq<char>,
            >(bytes@),
            Err(message) => csv_record(seq![first@, second@, third@, fourth@]) == Err::<
                Seq<u8>,
                Seq<char>,
            >(message@),
        },
{
    let mut writer = csv::Writer::from_writer(Vec::new());
    if let Err(error) = writer.write_record(&[first, second, third, fourth]) {
        return Err(error.to_string());
    }
    match writer.into_inner() {
        Ok(bytes) => Ok(bytes),
        Err(error) => Err(error.to_string()),
    }
}

/// The characters of an optional text, none when it is absent.
pub open spec fn or_empty(field: Option<Seq<char>>) -> Seq<char> {
    match field {
        Some(text) => text,
        None => Seq::empty(),
    }
}

/// The column names of the table.
pub open spec fn header_row() -> Seq<Seq<char>> {
    seq!["Video ID"@, "Title"@, "Description"@, "Published At"@]
}

/// The row of one video: identifier, title, description and publication
/// time, each empty where the video lacks it.
pub open spec fn row_of(item: VideoItemView) -> Seq<Seq<char>> {
    seq![
        or_empty(item.video_id),
        or_empty(item.title),
        or_empty(item.description),
        or_empty(item.published_at),
    ]
}

/// A table with one more encoded record behind it. An encoding that
/// failed makes the table fail with the same message; a table that has
/// failed stays as it is.
pub open spec fn with_record(
    table: Result<Seq<u8>, Seq<char>>,
    encoded: Result<Seq<u8>, Seq<char>>,
) -> Result<Seq<u8>, Seq<char>> {
    match table {
        Ok(bytes) => match encoded {
            Ok(more) => Ok(bytes + more),
            Err(message) => Err(message),
        },
        Err(message) => Err(message),
    }
}

/// The whole table: the encoded header, then the encoded row of each item,
/// in order. It fails with the message of the first record, header
/// included, whose encoding fails.
pub open spec fn csv_table(items: Seq<VideoItemView>) -> Result<Seq<u8>, Seq<char>>
    decreases items.len(),
{
    if items.len() == 0 {
        csv_record(header_row())
    } else {
        with_record(csv_table(items.drop_last()), csv_record(row_of(items.last())))
    }
}

/// The result of an export as contracts see it: the bytes of the table,
/// or the message of the failure.
pub open spec fn exported_view(table: Result<Vec<u8>, ExportError>) -> Result<
    Seq<u8>,
    Seq<char>,
> {
    match table {
        Ok(bytes) => Ok(bytes@),
        Err(ExportError::Writer { detail }) => Err(detail@),
    }
}

/// A table that fails after its first `count` rows fails in the same way
/// however many rows follow.
pub proof fn lemma_failure_is_final(items: Seq<VideoItemView>, count: int)
    requires
        0 <= count <= items.len(),
        csv_table(items.take(count)) is Err,
    ensures
        csv_table(items) == csv_table(items.take(count)),
    decreases items.len(),
{
    if count == items.len() {
        assert(items.take(count) =~= items);
    } else {
        assert(items.drop_last().take(count) =~= items.take(count));
        lemma_failure_is_final(items.drop_last(), count);
    }
}

/// An item with every absent attribute replaced by an empty one.
pub open spec fn blanked(item: VideoItemView) -> VideoItemView {
    VideoItemView {
        video_id: Some(or_empty(item.video_id)),
        title: Some(or_empty(item.title)),
        description: Some(or_empty(item.description)),
        published_at: Some(or_empty(item.published_at)),
    }
}

/// The items with every absent attribute replaced by an empty one.
pub open spec fn blanked_all(items: Seq<VideoItemView>) -> Seq<VideoItemView> {
    items.map_values(|item: VideoItemView| blanked(item))
}

/// An absent attribute is exported as an empty field: a row, and so a
/// table, is the same whether a video lacks an attribute or has it empty.
pub proof fn lemma_absent_exports_as_empty(items: Seq<VideoItemView>)
    ensures
        forall|item: VideoItemView| #[trigger] row_of(item) == row_of(blanked(item)),
        csv_table(items) == csv_table(blanked_all(items)),
    decreases items.len(),
{
    if items.len() > 0 {
        lemma_absent_exports_as_empty(items.drop_last());
        assert(blanked_all(items).drop_last() =~= blanked_all(items.drop_last()));
    }
}

/// The text to export for an attribute: its value, or the empty string
/// when the video lacks it.
pub fn cell(field: &Option<String>) -> (text: &str)
    ensures
        text@ == or_empty(crate::video::text_view(*field)),
{
    match field {
        Some(text) => text.as_str(),
        None => {
            proof {
                reveal_strlit("");
            }
            ""
        },
    }
}

/// Puts an encoded record behind `table`, or reports why there is none:
/// bytes are appended, and a message becomes the failure of the export
/// and leaves `table` as it was.
pub fn append_record(table: &mut Vec<u8>, encoded: Result<Vec<u8>, String>) -> (appended: Result<
    (),
    ExportError,
>)
    ensures
        match encoded {
            Ok(bytes) => appended is Ok && final(table)@ == old(table)@ + bytes@,
            Err(message) => {
                &&& appended matches Err(ExportError::Writer { detail }) && detail@ == message@
                &&& final(table)@ == old(table)@
            },
        },
{
    match encoded {
        Ok(bytes) => {
            let mut bytes = bytes;
            table.append(&mut bytes);
            Ok(())
        },
        Err(detail) => Err(ExportError::Writer { detail }),
    }
}

/// Encodes `videos` as a table: a header row, then one row for each video,
/// in order. A missing attribute is exported as an empty field. The export
/// fails where the encoding of a record does, with the message of the
/// first record that fails; the records after it are not encoded.
pub fn write_to_csv(videos: Vec<VideoItem>) -> (table: Result<Vec<u8>, ExportError>)
    ensures
        exported_view(table) == csv_table(item_views(videos@)),
{
    let ghost items = item_views(videos@);
    let mut table: Vec<u8> = Vec::new();
    let header = encode_record("Video ID", "Title", "Description", "Published At");
    match append_record(&mut table, header) {
        Ok(()) => {},
        Err(error) => {
            proof {
                lemma_failure_is_final(items, 0);
            }
            return Err(error);
        },
    }
    let mut index: usize = 0;
    while index < videos.len()
        invariant
            index <= videos.len(),
            items == item_views(videos@),
            csv_table(items.take(index as int)) == Ok::<Seq<u8>, Seq<char>>(table@),
        decreases videos.len() - index,
    {
        let video = &videos[index];
        let row = encode_record(
            cell(&video.video_id),
            cell(&video.title),
            cell(&video.description),
            cell(&video.published_at),
        );
        proof {
            let done = items.take(index + 1);
            assert(done.drop_last() =~= items.take(index as int));
        }
        match append_record(&mut table, row) {
            Ok(()) => {},
            Err(error) => {
                proof {
                    lemma_failure_is_final(items, index + 1);
                }
                return Err(error);
            },
        }
        index = index + 1;
    }
    assert(items.take(videos.len() as int) =~= items);
    Ok(table)
}

} // verus!
