//! The row of the topic table: the four columns that the list shows.

use vstd::prelude::*;

verus! {

/// One topic as the table lists it.
#[derive(Debug, Clone)]
pub struct Topic {
    title: String,
    author: String,
    comment: String,
    updated: String,
}

/// What a `Topic` holds, as mathematical values.
pub struct TopicView {
    pub title: Seq<char>,
    pub author: Seq<char>,
    pub comment: Seq<char>,
    pub updated: Seq<char>,
}

impl View for Topic {
    type V = TopicView;

    closed spec fn view(&self) -> TopicView {
        TopicView {
            title: self.title@,
            author: self.author@,
            comment: self.comment@,
            updated: self.updated@,
        }
    }
}

/// The views of a list of rows, in order.
pub open spec fn topic_views(topics: Seq<Topic>) -> Seq<TopicView> {
    topics.map_values(|t: Topic| t@)
}

impl Topic {
    /// A row with the given columns.
    pub fn new(title: String, author: String, comment: String, updated: String) -> (topic: Self)
        ensures
            topic@ == (TopicView {
                title: title@,
                author: author@,
                comment: comment@,
                updated: updated@,
            }),
    {
        Self { title, author, comment, updated }
    }

    pub fn title(&self) -> (s: &str)
        ensures
            s@ == self@.title,
    {
        self.title.as_str()
    }

    pub fn author(&self) -> (s: &str)
        ensures
            s@ == self@.author,
    {
        self.author.as_str()
    }

    /// The number of comments, as text.
    pub fn comment(&self) -> (s: &str)
        ensures
            s@ == self@.comment,
    {
        self.comment.as_str()
    }

    /// When the topic was last touched, as the feed gives it.
    pub fn updated(&self) -> (s: &str)
        ensures
            s@ == self@.updated,
    {
        self.updated.as_str()
    }
}

} // verus!
