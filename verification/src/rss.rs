//! The feed as the topic table lists it: four columns for each entry.

use vstd::prelude::*;
use crate::api::{feed_failure, FetchError};
use crate::feed::{
    comment_count, entry_views, feed_is_readable, feed_readable, first_or_empty, first_text,
    parse_comment_count, parsed_feed, read_feed, FeedEntry, FeedEntryView,
};
use crate::models::{topic_views, Topic, TopicView};

verus! {

/// The row that the table shows for a feed entry: title as given, the
/// first author, the number of comments that the first link tells, and the
/// time of update as the feed gives it. An entry without author leaves the
/// column empty.
pub open spec fn row_of(entry: FeedEntryView) -> TopicView {
    TopicView {
        title: entry.title,
        author: first_or_empty(entry.authors),
        comment: comment_count(first_or_empty(entry.links)),
        updated: entry.updated_text,
    }
}

/// The rows for the entries of a feed, in feed order.
pub open spec fn rows_of(entries: Seq<FeedEntryView>) -> Seq<TopicView> {
    entries.map_values(|e: FeedEntryView| row_of(e))
}

/// Computes `row_of`.
pub fn build_row(entry: &FeedEntry) -> (row: Topic)
    ensures
        row@ == row_of(entry@),
{
    let link = first_text(&entry.links);
    Topic::new(
        entry.title.clone(),
        first_text(&entry.authors),
        parse_comment_count(link.as_str()),
        entry.updated_text.clone(),
    )
}

/// Computes `rows_of`.
pub fn build_rows(entries: &Vec<FeedEntry>) -> (rows: Vec<Topic>)
    ensures
        topic_views(rows@) == rows_of(entry_views(entries@)),
{
    let mut rows: Vec<Topic> = Vec::new();
    let mut i: usize = 0;
    while i < entries.len()
        invariant
            i <= entries.len(),
            rows.len() == i,
            forall|k: int| 0 <= k < i ==> rows@[k]@ == row_of(entries@[k]@),
        decreases entries.len() - i,
    {
        rows.push(build_row(&entries[i]));
        i += 1;
    }
    assert(topic_views(rows@) =~= rows_of(entry_views(entries@)));
    rows
}

/// The rows that the feed `body` lists. It succeeds exactly where `body`
/// is `feed_readable` and an Atom feed; what is not readable is not handed
/// to the parser.
pub fn fetch_topics(body: &[u8]) -> (r: Result<Vec<Topic>, FetchError>)
    ensures
        r is Ok <==> feed_readable(body@) && parsed_feed(body@) is Some,
        r matches Ok(rows) ==> topic_views(rows@) == rows_of(parsed_feed(body@)->0),
        r matches Err(e) ==> e == feed_failure(body@),
{
    if !feed_is_readable(body) {
        return Err(FetchError::TooLarge);
    }
    match read_feed(body) {
        Ok(entries) => Ok(build_rows(&entries)),
        Err(_) => Err(FetchError::Feed),
    }
}

} // verus!
