//! The content extractor's entry points: from the bytes of the feed to the
//! list of topics, and from the text of a topic's page to its detail.
//!
//! Fetching is left to the caller; what is fetched, and how the request
//! presents itself, is said here.

use vstd::prelude::*;
use crate::feed::{
    comment_count, entry_views, feed_is_readable, feed_readable, first_or_empty, first_text,
    parse_comment_count, parsed_feed, read_feed, FeedEntry, FeedEntryView,
};
use crate::model::{topic_views, Topic, TopicDetail, TopicView};
use crate::scrape::{
    build_detail, detail_of, page_failure, page_readable, scrape_page, scraped_page,
    selectors_accepted,
};
use crate::time::time_formatting::{format_relative_to, relative_to};
use crate::time::{unix_now, Moment};

verus! {

/// The address of the feed that lists the topics.
pub const V2EX_RSS_URL: &'static str = "https://www.v2ex.com/feed/tab/all.xml";

/// What the requests give as their user agent: that of a desktop browser.
pub const USER_AGENT: &'static str =
    "Mozilla/5.0 (Macintosh; Intel Mac OS X 10_15_7) AppleWebKit/537.36 (KHTML, like Gecko) Chrome/131.0.0.0 Safari/537.36";

/// Why a fetch gave no content. Every such failure leaves the page that
/// asked in place, to try again.
#[derive(Debug, Clone, PartialEq)]
pub enum FetchError {
    /// The request did not come back with a body; the text says why.
    Transport(String),
    /// The body is no Atom feed.
    Feed,
    /// The extractor could not put one of its selectors to the page.
    Selector,
    /// The body is more than the extractor reads: a page longer than
    /// `MAX_PAGE_CHARS`, or a feed that is not `feed_readable`.
    TooLarge,
}

impl FetchError {
    /// The failure in words.
    pub open spec fn spec_message(&self) -> Seq<char> {
        match *self {
            FetchError::Transport(reason) => reason@,
            FetchError::Feed => "the feed could not be read"@,
            FetchError::Selector => "the page could not be searched"@,
            FetchError::TooLarge => "the body is too large to read"@,
        }
    }

    /// The failure in words, for the page to show.
    pub fn message(&self) -> (s: String)
        ensures
            s@ == self.spec_message(),
    {
        match self {
            FetchError::Transport(reason) => reason.clone(),
            FetchError::Feed => "the feed could not be read".to_owned(),
            FetchError::Selector => "the page could not be searched".to_owned(),
            FetchError::TooLarge => "the body is too large to read".to_owned(),
        }
    }
}

/// The topic that the extractor makes of a feed entry, seen at the moment
/// `now`: title as given, the first author, the first link, the number of
/// comments that the link tells, and the age of the entry in words. An
/// entry without author or link leaves the field empty.
pub open spec fn topic_of(entry: FeedEntryView, now: Moment) -> TopicView {
    TopicView {
        title: entry.title,
        author: first_or_empty(entry.authors),
        comment: comment_count(first_or_empty(entry.links)),
        content: Seq::empty(),
        updated: relative_to(entry.updated, now),
        link: first_or_empty(entry.links),
        replies: Seq::empty(),
    }
}

/// The topics that the extractor makes of the entries of a feed, in feed
/// order, seen at the moment `now`.
pub open spec fn topics_of(entries: Seq<FeedEntryView>, now: Moment) -> Seq<TopicView> {
    entries.map_values(|e: FeedEntryView| topic_of(e, now))
}

/// Computes `topic_of`.
pub fn build_topic(entry: &FeedEntry, now: Moment) -> (topic: Topic)
    ensures
        topic@ == topic_of(entry@, now),
{
    let link = first_text(&entry.links);
    Topic::new(
        entry.title.clone(),
        first_text(&entry.authors),
        parse_comment_count(link.as_str()),
        String::new(),
        format_relative_to(entry.updated, now),
        link,
    )
}

/// Computes `topics_of`.
pub fn build_topics(entries: &Vec<FeedEntry>, now: Moment) -> (topics: Vec<Topic>)
    ensures
        topic_views(topics@) == topics_of(entry_views(entries@), now),
{
    let mut topics: Vec<Topic> = Vec::new();
    let mut i: usize = 0;
    while i < entries.len()
        invariant
            i <= entries.len(),
            topics.len() == i,
            forall|k: int| 0 <= k < i ==> topics@[k]@ == topic_of(entries@[k]@, now),
        decreases entries.len() - i,
    {
        topics.push(build_topic(&entries[i], now));
        i += 1;
    }
    assert(topic_views(topics@) =~= topics_of(entry_views(entries@), now));
    topics
}

/// Why the feed `bytes` gives no topics, where it gives none: it is more
/// than the extractor reads, or else it is no Atom feed.
pub open spec fn feed_failure(bytes: Seq<u8>) -> FetchError {
    if feed_readable(bytes) {
        FetchError::Feed
    } else {
        FetchError::TooLarge
    }
}

/// The content extractor.
pub struct Crawler {
    feed_url: String,
    user_agent: String,
}

impl Crawler {
    /// An extractor for the forum's feed and pages.
    pub fn new() -> (crawler: Self)
        ensures
            crawler.spec_feed_url() == V2EX_RSS_URL@,
            crawler.spec_user_agent() == USER_AGENT@,
    {
        Self { feed_url: V2EX_RSS_URL.to_owned(), user_agent: USER_AGENT.to_owned() }
    }

    /// The address that the extractor fetches the feed from.
    pub closed spec fn spec_feed_url(&self) -> Seq<char> {
        self.feed_url@
    }

    /// The user agent that the extractor has its requests give.
    pub closed spec fn spec_user_agent(&self) -> Seq<char> {
        self.user_agent@
    }

    /// The address to fetch the feed from.
    pub fn feed_url(&self) -> (url: &str)
        ensures
            url@ == self.spec_feed_url(),
    {
        self.feed_url.as_str()
    }

    /// The user agent that a request gives.
    pub fn user_agent(&self) -> (agent: &str)
        ensures
            agent@ == self.spec_user_agent(),
    {
        self.user_agent.as_str()
    }

    /// The topics that the feed `body` lists, seen at the present moment.
    /// It succeeds exactly where `body` is `feed_readable` and an Atom
    /// feed; what is not readable is not handed to the parser.
    pub fn fetch_topics(&self, body: &[u8]) -> (r: Result<Vec<Topic>, FetchError>)
        ensures
            r is Ok <==> feed_readable(body@) && parsed_feed(body@) is Some,
            r matches Ok(topics) ==> exists|now: Moment|
                topic_views(topics@) == #[trigger] topics_of(parsed_feed(body@)->0, now),
            r matches Err(e) ==> e == feed_failure(body@),
    {
        if !feed_is_readable(body) {
            return Err(FetchError::TooLarge);
        }
        match read_feed(body) {
            Ok(entries) => {
                let now = unix_now();
                let topics = build_topics(&entries, now);
                assert(topic_views(topics@) == topics_of(parsed_feed(body@)->0, now));
                Ok(topics)
            },
            Err(_) => Err(FetchError::Feed),
        }
    }

    /// The detail of the topic at `url`, whose page reads `body`. Any text
    /// is a page: what the page lacks is left empty. It succeeds exactly
    /// where `body` is `page_readable` and `scraper` takes every selector
    /// of the extractor.
    pub fn fetch_topic_detail(&self, url: &str, body: &str) -> (r: Result<
        TopicDetail,
        FetchError,
    >)
        ensures
            r is Ok <==> page_readable(body@) && selectors_accepted(),
            r matches Ok(detail) ==> detail@ == detail_of(scraped_page(body@), url@),
            r matches Err(e) ==> e == page_failure(body@),
    {
        match scrape_page(body) {
            Ok(raw) => Ok(build_detail(&raw, url)),
            Err(e) => Err(e),
        }
    }
}

} // verus!
