//! The records that the extractor produces.

use vstd::prelude::*;

verus! {

/// One topic of the forum, as the feed lists it and as its page shows it.
#[derive(Debug, Clone, PartialEq)]
pub struct Topic {
    pub title: String,
    pub author: String,
    /// The number of comments, as text: `"0"` where none is known.
    pub comment: String,
    pub content: String,
    /// How long ago the topic was last touched, in words.
    pub updated: String,
    /// The topic's address, which tells the topics of one feed apart.
    pub link: String,
    pub replies: Vec<Reply>,
}

/// One reply under a topic.
#[derive(Debug, Clone, PartialEq)]
pub struct Reply {
    pub author: String,
    /// When it was posted, as the page displays it.
    pub time: String,
    pub content: String,
    /// Its ordinal on the page, as the page displays it.
    pub number: String,
    /// The author that the reply addresses, empty where it addresses none.
    pub reply_to: String,
    /// How many replies of the same list address this reply's author.
    pub reply_count: usize,
}

/// A topic's page: the topic itself and the replies under it, in page order.
#[derive(Debug, Clone, PartialEq)]
pub struct TopicDetail {
    pub title: String,
    pub content: String,
    pub author: String,
    pub comment: String,
    pub updated: String,
    pub link: String,
    pub replies: Vec<Reply>,
}

/// What a `Reply` holds, as mathematical values.
pub struct ReplyView {
    pub author: Seq<char>,
    pub time: Seq<char>,
    pub content: Seq<char>,
    pub number: Seq<char>,
    pub reply_to: Seq<char>,
    pub reply_count: nat,
}

/// What a `Topic` holds, as mathematical values.
pub struct TopicView {
    pub title: Seq<char>,
    pub author: Seq<char>,
    pub comment: Seq<char>,
    pub content: Seq<char>,
    pub updated: Seq<char>,
    pub link: Seq<char>,
    pub replies: Seq<ReplyView>,
}

/// What a `TopicDetail` holds, as mathematical values.
pub struct TopicDetailView {
    pub title: Seq<char>,
    pub content: Seq<char>,
    pub author: Seq<char>,
    pub comment: Seq<char>,
    pub updated: Seq<char>,
    pub link: Seq<char>,
    pub replies: Seq<ReplyView>,
}

impl View for Reply {
    type V = ReplyView;

    open spec fn view(&self) -> ReplyView {
        ReplyView {
            author: self.author@,
            time: self.time@,
            content: self.content@,
            number: self.number@,
            reply_to: self.reply_to@,
            reply_count: self.reply_count as nat,
        }
    }
}

/// The views of a list of replies, in order.
pub open spec fn reply_views(replies: Seq<Reply>) -> Seq<ReplyView> {
    replies.map_values(|r: Reply| r@)
}

impl View for Topic {
    type V = TopicView;

    open spec fn view(&self) -> TopicView {
        TopicView {
            title: self.title@,
            author: self.author@,
            comment: self.comment@,
            content: self.content@,
            updated: self.updated@,
            link: self.link@,
            replies: reply_views(self.replies@),
        }
    }
}

/// The views of a list of topics, in order.
pub open spec fn topic_views(topics: Seq<Topic>) -> Seq<TopicView> {
    topics.map_values(|t: Topic| t@)
}

impl View for TopicDetail {
    type V = TopicDetailView;

    open spec fn view(&self) -> TopicDetailView {
        TopicDetailView {
            title: self.title@,
            content: self.content@,
            author: self.author@,
            comment: self.comment@,
            updated: self.updated@,
            link: self.link@,
            replies: reply_views(self.replies@),
        }
    }
}

impl Topic {
    /// A topic with the given fields and no replies.
    pub fn new(
        title: String,
        author: String,
        comment: String,
        content: String,
        updated: String,
        link: String,
    ) -> (topic: Self)
        ensures
            topic@ == (TopicView {
                title: title@,
                author: author@,
                comment: comment@,
                content: content@,
                updated: updated@,
                link: link@,
                replies: Seq::empty(),
            }),
    {
        let topic = Self { title, author, comment, content, updated, link, replies: Vec::new() };
        assert(reply_views(topic.replies@) =~= Seq::empty());
        topic
    }
}

} // verus!
