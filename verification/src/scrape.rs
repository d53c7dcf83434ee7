//! Reads a topic's page: what the selectors find on it, and the record that
//! the extractor makes of that.
//!
//! The page is parsed and searched by `scraper`. Those calls stand at the top
//! of this file, each with the name under which the contracts speak of its
//! result; everything below them is verified.

use vstd::prelude::*;
use crate::api::FetchError;
use crate::feed::{first_or_empty, first_text};
use crate::model::{reply_views, Reply, ReplyView, TopicDetail, TopicDetailView};
use crate::text::{
    after_spaces, after_word, chars_of, first_word, is_whitespace, lemma_skip_spaces_bounds,
    lemma_skip_word_bounds, skip_spaces, string_of,
};
use crate::threader::{thread_replies, threaded};

verus! {

/// `scraper::Html`, a parsed document. Nothing is known of it but what the
/// functions below say.
#[verifier::external_type_specification]
#[verifier::external_body]
pub struct ExHtml(scraper::Html);

/// `scraper::Selector`, a parsed selector. Nothing is known of it but what
/// the functions below say.
#[verifier::external_type_specification]
#[verifier::external_body]
pub struct ExSelector(scraper::Selector);

/// `scraper::error::SelectorErrorKind`, why a text is no selector. Nothing
/// is read of it.
#[verifier::external_type_specification]
#[verifier::external_body]
pub struct ExSelectorErrorKind(scraper::error::SelectorErrorKind);

/// The text that a document was made from by `scraper::Html::parse_document`.
pub uninterp spec fn document_source(doc: scraper::Html) -> Seq<char>;

/// The text that a selector was made from by `scraper::Selector::parse`.
pub uninterp spec fn selector_source(selector: scraper::Selector) -> Seq<char>;

/// Tells whether `scraper::Selector::parse` takes `css` for a selector.
pub uninterp spec fn selector_accepted(css: Seq<char>) -> bool;

/// The texts of the elements of the document `html` that match the selector
/// `css`, in the order in which `scraper::Html::select` gives the elements
/// (that in which the parser made them, which for a page without misplaced
/// markup is document order). The text of an element is all the text
/// inside it, joined in document order, as `scraper::ElementRef::text`
/// gives it.
pub uninterp spec fn matched_texts(html: Seq<char>, css: Seq<char>) -> Seq<Seq<char>>;

/// For each element of the document `html` that matches the selector `css`,
/// in the order in which `scraper::Html::select` gives the elements, the
/// value of its attribute `name`, or none where it has no such attribute.
pub uninterp spec fn matched_attrs(html: Seq<char>, css: Seq<char>, name: Seq<char>) -> Seq<
    Option<Seq<char>>,
>;

/// For each element of the document `html` that matches the selector
/// `outer`, in the order in which `scraper::Html::select` gives the
/// elements, the texts of the elements inside it that match the selector
/// `inner`, in document order.
pub uninterp spec fn nested_texts(html: Seq<char>, outer: Seq<char>, inner: Seq<char>) -> Seq<
    Seq<Seq<char>>,
>;

/// How many characters a page may hold and still be read.
pub const MAX_PAGE_CHARS: usize = 0x0400_0000;

/// Tells whether the extractor reads the page `text`: it holds no more than
/// `MAX_PAGE_CHARS` characters.
pub open spec fn page_readable(text: Seq<char>) -> bool {
    text.len() <= MAX_PAGE_CHARS
}

/// Parses `text` with `scraper::Html::parse_document`, which gives a
/// document for any text that its buffers hold. The buffers count bytes in
/// 32 bits and grow by doubling, so none may pass 2 GiB. The text, and
/// every text that the parser makes of a part of it (a text node, a name,
/// the value of an attribute), holds at most four bytes for each character
/// of the text, so a text that is `page_readable` keeps every buffer at or
/// under 256 MiB.
#[verifier::external_body]
fn parse_document(text: &str) -> (doc: scraper::Html)
    requires
        page_readable(text@),
    ensures
        document_source(doc) == text@,
{
    scraper::Html::parse_document(text)
}

/// Parses `css` with `scraper::Selector::parse`. Whether it is taken depends
/// on `css` alone.
#[verifier::external_body]
fn parse_selector(css: &str) -> (r: Result<scraper::Selector, scraper::error::SelectorErrorKind>)
    ensures
        r is Ok <==> selector_accepted(css@),
        r matches Ok(selector) ==> selector_source(selector) == css@,
{
    scraper::Selector::parse(css)
}

/// Walks `scraper::Html::select` and hands out, for each element found, its
/// text as `scraper::ElementRef::text` gives it.
#[verifier::external_body]
fn select_texts(doc: &scraper::Html, selector: &scraper::Selector) -> (r: Vec<String>)
    ensures
        r.deep_view() == matched_texts(document_source(*doc), selector_source(*selector)),
{
    doc.select(selector).map(|e| e.text().collect()).collect()
}

/// Walks `scraper::Html::select` and hands out, for each element found, the
/// value of its attribute `name` as `scraper::ElementRef::attr` gives it.
#[verifier::external_body]
fn select_attrs(doc: &scraper::Html, selector: &scraper::Selector, name: &str) -> (r: Vec<
    Option<String>,
>)
    ensures
        r.deep_view() == matched_attrs(
            document_source(*doc),
            selector_source(*selector),
            name@,
        ),
{
    doc.select(selector).map(|e| e.attr(name).map(|v| v.to_string())).collect()
}

/// Walks `scraper::Html::select` with `outer` and, inside each element
/// found, `scraper::ElementRef::select` with `inner`; hands out the texts of
/// the inner elements, one list for each outer element. Both walks go over
/// the same outer elements as `select_texts` does with `outer`, so there are
/// as many lists as that gives texts.
#[verifier::external_body]
fn select_nested_texts(
    doc: &scraper::Html,
    outer: &scraper::Selector,
    inner: &scraper::Selector,
) -> (r: Vec<Vec<String>>)
    ensures
        r.deep_view() == nested_texts(
            document_source(*doc),
            selector_source(*outer),
            selector_source(*inner),
        ),
        r.len() == matched_texts(document_source(*doc), selector_source(*outer)).len(),
{
    doc.select(outer).map(|e| e.select(inner).map(|x| x.text().collect()).collect()).collect()
}

/// The selector of the topic's title.
pub const TITLE_SELECTOR: &'static str = "h1";

/// The selector of the link that holds the topic's author.
pub const AUTHOR_SELECTOR: &'static str = ".header small a";

/// The selector of the element whose attribute holds the topic's time.
pub const TIME_SELECTOR: &'static str = ".header small span";

/// The attribute that holds the topic's time.
pub const TIME_ATTRIBUTE: &'static str = "title";

/// The selector of the topic's body.
pub const CONTENT_SELECTOR: &'static str = ".topic_content";

/// The selector of the elements that hold one reply each.
pub const REPLY_SELECTOR: &'static str = ".cell[id^='r_']";

/// The selector of a reply's body, inside the reply's element.
pub const REPLY_CONTENT_SELECTOR: &'static str = ".reply_content";

/// The selector of the link that holds a reply's author.
pub const REPLY_AUTHOR_SELECTOR: &'static str = "strong a";

/// The selector of a reply's time.
pub const REPLY_TIME_SELECTOR: &'static str = ".ago";

/// The selector of a reply's ordinal.
pub const REPLY_NUMBER_SELECTOR: &'static str = ".no";

/// What the selectors found in one reply's element: the texts of the
/// matches of each, in page order.
#[derive(Debug, Clone, PartialEq)]
pub struct RawReply {
    pub contents: Vec<String>,
    pub authors: Vec<String>,
    pub times: Vec<String>,
    pub numbers: Vec<String>,
}

/// What the selectors found on a topic's page, before any rule of the
/// extractor is applied: for each selector its matches, in page order.
#[derive(Debug, Clone, PartialEq)]
pub struct RawPage {
    pub titles: Vec<String>,
    pub authors: Vec<String>,
    /// For each match of the time selector, its time attribute if it has one.
    pub times: Vec<Option<String>>,
    pub contents: Vec<String>,
    pub replies: Vec<RawReply>,
}

/// What a `RawReply` holds, as mathematical values.
pub struct RawReplyView {
    pub contents: Seq<Seq<char>>,
    pub authors: Seq<Seq<char>>,
    pub times: Seq<Seq<char>>,
    pub numbers: Seq<Seq<char>>,
}

/// What a `RawPage` holds, as mathematical values.
pub struct RawPageView {
    pub titles: Seq<Seq<char>>,
    pub authors: Seq<Seq<char>>,
    pub times: Seq<Option<Seq<char>>>,
    pub contents: Seq<Seq<char>>,
    pub replies: Seq<RawReplyView>,
}

impl View for RawReply {
    type V = RawReplyView;

    open spec fn view(&self) -> RawReplyView {
        RawReplyView {
            contents: self.contents.deep_view(),
            authors: self.authors.deep_view(),
            times: self.times.deep_view(),
            numbers: self.numbers.deep_view(),
        }
    }
}

/// The views of a list of raw replies, in order.
pub open spec fn raw_reply_views(replies: Seq<RawReply>) -> Seq<RawReplyView> {
    replies.map_values(|r: RawReply| r@)
}

impl View for RawPage {
    type V = RawPageView;

    open spec fn view(&self) -> RawPageView {
        RawPageView {
            titles: self.titles.deep_view(),
            authors: self.authors.deep_view(),
            times: self.times.deep_view(),
            contents: self.contents.deep_view(),
            replies: raw_reply_views(self.replies@),
        }
    }
}

/// Tells whether `scraper` takes every selector of the extractor.
pub open spec fn selectors_accepted() -> bool {
    &&& selector_accepted(TITLE_SELECTOR@)
    &&& selector_accepted(AUTHOR_SELECTOR@)
    &&& selector_accepted(TIME_SELECTOR@)
    &&& selector_accepted(CONTENT_SELECTOR@)
    &&& selector_accepted(REPLY_SELECTOR@)
    &&& selector_accepted(REPLY_CONTENT_SELECTOR@)
    &&& selector_accepted(REPLY_AUTHOR_SELECTOR@)
    &&& selector_accepted(REPLY_TIME_SELECTOR@)
    &&& selector_accepted(REPLY_NUMBER_SELECTOR@)
}

/// What the extractor's selectors find in the reply element number `i` of
/// the document `html`.
pub open spec fn scraped_reply(html: Seq<char>, i: int) -> RawReplyView {
    RawReplyView {
        contents: nested_texts(html, REPLY_SELECTOR@, REPLY_CONTENT_SELECTOR@)[i],
        authors: nested_texts(html, REPLY_SELECTOR@, REPLY_AUTHOR_SELECTOR@)[i],
        times: nested_texts(html, REPLY_SELECTOR@, REPLY_TIME_SELECTOR@)[i],
        numbers: nested_texts(html, REPLY_SELECTOR@, REPLY_NUMBER_SELECTOR@)[i],
    }
}

/// What the extractor's selectors find in the document `html`.
pub open spec fn scraped_page(html: Seq<char>) -> RawPageView {
    RawPageView {
        titles: matched_texts(html, TITLE_SELECTOR@),
        authors: matched_texts(html, AUTHOR_SELECTOR@),
        times: matched_attrs(html, TIME_SELECTOR@, TIME_ATTRIBUTE@),
        contents: matched_texts(html, CONTENT_SELECTOR@),
        replies: Seq::new(
            matched_texts(html, REPLY_SELECTOR@).len(),
            |i: int| scraped_reply(html, i),
        ),
    }
}

/// Parses one of the extractor's selectors.
fn compile(css: &str) -> (r: Result<scraper::Selector, FetchError>)
    ensures
        r is Ok <==> selector_accepted(css@),
        r matches Ok(selector) ==> selector_source(selector) == css@,
        r matches Err(e) ==> e == FetchError::Selector,
{
    match parse_selector(css) {
        Ok(selector) => Ok(selector),
        Err(_) => Err(FetchError::Selector),
    }
}

/// A copy of `texts`.
fn copy_texts(texts: &Vec<String>) -> (r: Vec<String>)
    ensures
        r.deep_view() == texts.deep_view(),
{
    let mut r: Vec<String> = Vec::new();
    let mut i: usize = 0;
    while i < texts.len()
        invariant
            i <= texts.len(),
            r.len() == i,
            forall|k: int| 0 <= k < i ==> r@[k]@ == texts@[k]@,
        decreases texts.len() - i,
    {
        r.push(texts[i].clone());
        i += 1;
    }
    assert(r.deep_view() =~= texts.deep_view());
    r
}

/// Why the page `text` gives no detail, where it gives none: it is more
/// than the extractor reads, or else a selector was refused.
pub open spec fn page_failure(text: Seq<char>) -> FetchError {
    if page_readable(text) {
        FetchError::Selector
    } else {
        FetchError::TooLarge
    }
}

/// Puts the extractor's selectors to the page `body`. It succeeds exactly
/// where `body` is `page_readable` and `scraper` takes every selector; a
/// page that is not readable is not handed to the parser.
pub fn scrape_page(body: &str) -> (r: Result<RawPage, FetchError>)
    ensures
        r is Ok <==> page_readable(body@) && selectors_accepted(),
        r matches Ok(page) ==> page@ == scraped_page(body@),
        r matches Err(e) ==> e == page_failure(body@),
{
    if body.unicode_len() > MAX_PAGE_CHARS {
        return Err(FetchError::TooLarge);
    }
    let title = compile(TITLE_SELECTOR)?;
    let author = compile(AUTHOR_SELECTOR)?;
    let time = compile(TIME_SELECTOR)?;
    let content = compile(CONTENT_SELECTOR)?;
    let reply = compile(REPLY_SELECTOR)?;
    let reply_content = compile(REPLY_CONTENT_SELECTOR)?;
    let reply_author = compile(REPLY_AUTHOR_SELECTOR)?;
    let reply_time = compile(REPLY_TIME_SELECTOR)?;
    let reply_number = compile(REPLY_NUMBER_SELECTOR)?;
    let doc = parse_document(body);
    let contents = select_nested_texts(&doc, &reply, &reply_content);
    let authors = select_nested_texts(&doc, &reply, &reply_author);
    let times = select_nested_texts(&doc, &reply, &reply_time);
    let numbers = select_nested_texts(&doc, &reply, &reply_number);
    let mut replies: Vec<RawReply> = Vec::new();
    let mut i: usize = 0;
    while i < contents.len()
        invariant
            i <= contents.len(),
            contents.len() == authors.len(),
            contents.len() == times.len(),
            contents.len() == numbers.len(),
            contents.deep_view() == nested_texts(body@, REPLY_SELECTOR@, REPLY_CONTENT_SELECTOR@),
            authors.deep_view() == nested_texts(body@, REPLY_SELECTOR@, REPLY_AUTHOR_SELECTOR@),
            times.deep_view() == nested_texts(body@, REPLY_SELECTOR@, REPLY_TIME_SELECTOR@),
            numbers.deep_view() == nested_texts(body@, REPLY_SELECTOR@, REPLY_NUMBER_SELECTOR@),
            replies.len() == i,
            forall|k: int| 0 <= k < i ==> replies@[k]@ == scraped_reply(body@, k),
        decreases contents.len() - i,
    {
        let raw = RawReply {
            contents: copy_texts(&contents[i]),
            authors: copy_texts(&authors[i]),
            times: copy_texts(&times[i]),
            numbers: copy_texts(&numbers[i]),
        };
        proof {
            assert(contents.deep_view()[i as int] == contents@[i as int].deep_view());
            assert(authors.deep_view()[i as int] == authors@[i as int].deep_view());
            assert(times.deep_view()[i as int] == times@[i as int].deep_view());
            assert(numbers.deep_view()[i as int] == numbers@[i as int].deep_view());
        }
        replies.push(raw);
        i += 1;
    }
    let page = RawPage {
        titles: select_texts(&doc, &title),
        authors: select_texts(&doc, &author),
        times: select_attrs(&doc, &time, TIME_ATTRIBUTE),
        contents: select_texts(&doc, &content),
        replies,
    };
    assert(page@.replies =~= scraped_page(body@).replies);
    Ok(page)
}

/// The author that a reply with the content `content` addresses. A reply
/// addresses someone where its first word begins with `@`: the name is the
/// rest of that word. It is empty where the first word does not begin so,
/// where there is no word, and where the word is `@` alone.
pub open spec fn reply_target(content: Seq<char>) -> Seq<char> {
    let word = first_word(content);
    if word.len() > 0 && word[0] == '@' {
        word.drop_first()
    } else {
        Seq::empty()
    }
}

/// The name that a reply addresses is one word: it holds no white space.
pub proof fn lemma_reply_target_is_one_word(content: Seq<char>)
    ensures
        forall|i: int|
            0 <= i < reply_target(content).len() ==> !is_whitespace(
                #[trigger] reply_target(content)[i],
            ),
{
    let start = skip_spaces(content, 0);
    lemma_skip_spaces_bounds(content, 0);
    lemma_skip_word_bounds(content, start);
    let word = first_word(content);
    assert forall|i: int| 0 <= i < reply_target(content).len() implies !is_whitespace(
        #[trigger] reply_target(content)[i],
    ) by {
        assert(reply_target(content)[i] == word[i + 1]);
        assert(word[i + 1] == content[start + i + 1]);
    }
}

/// Computes `reply_target`.
pub fn parse_reply_target(content: &str) -> (name: String)
    ensures
        name@ == reply_target(content@),
{
    let chars = chars_of(content);
    let start = after_spaces(&chars, 0);
    let end = after_word(&chars, start);
    if start < end && chars[start] == '@' {
        let name = string_of(&chars, start + 1, end);
        assert(chars@.subrange(start + 1, end as int) =~= first_word(content@).drop_first());
        name
    } else {
        String::new()
    }
}

/// The time of the first of `times`, or the empty text where there is no
/// first one or it holds none.
pub open spec fn first_time(times: Seq<Option<Seq<char>>>) -> Seq<char> {
    if times.len() > 0 && times[0] is Some {
        times[0]->0
    } else {
        Seq::empty()
    }
}

/// The reply that the extractor makes of what it found in a reply's
/// element: of each selector the first match counts, and a selector without
/// a match leaves its field empty. The count is not known yet.
pub open spec fn reply_of(raw: RawReplyView) -> ReplyView {
    ReplyView {
        author: first_or_empty(raw.authors),
        time: first_or_empty(raw.times),
        content: first_or_empty(raw.contents),
        number: first_or_empty(raw.numbers),
        reply_to: reply_target(first_or_empty(raw.contents)),
        reply_count: 0,
    }
}

/// The record that the extractor makes of what it found on the page at
/// `url`: of each selector the first match counts, a selector without a
/// match leaves its field empty, and the replies are threaded.
pub open spec fn detail_of(raw: RawPageView, url: Seq<char>) -> TopicDetailView {
    TopicDetailView {
        title: first_or_empty(raw.titles),
        content: first_or_empty(raw.contents),
        author: first_or_empty(raw.authors),
        comment: "0"@,
        updated: first_time(raw.times),
        link: url,
        replies: threaded(raw.replies.map_values(|r: RawReplyView| reply_of(r))),
    }
}

/// Computes `reply_of`.
pub fn build_reply(raw: &RawReply) -> (reply: Reply)
    ensures
        reply@ == reply_of(raw@),
{
    let content = first_text(&raw.contents);
    let reply_to = parse_reply_target(content.as_str());
    Reply {
        author: first_text(&raw.authors),
        time: first_text(&raw.times),
        content,
        number: first_text(&raw.numbers),
        reply_to,
        reply_count: 0,
    }
}

/// Computes `detail_of`.
pub fn build_detail(raw: &RawPage, url: &str) -> (detail: TopicDetail)
    ensures
        detail@ == detail_of(raw@, url@),
{
    let mut replies: Vec<Reply> = Vec::new();
    let mut i: usize = 0;
    while i < raw.replies.len()
        invariant
            i <= raw.replies.len(),
            replies.len() == i,
            forall|k: int| 0 <= k < i ==> replies@[k]@ == reply_of(raw.replies@[k]@),
        decreases raw.replies.len() - i,
    {
        replies.push(build_reply(&raw.replies[i]));
        i += 1;
    }
    assert(reply_views(replies@) =~= raw@.replies.map_values(|r: RawReplyView| reply_of(r)));
    thread_replies(&mut replies);
    let updated = if raw.times.len() > 0 {
        match &raw.times[0] {
            Some(t) => t.clone(),
            None => String::new(),
        }
    } else {
        String::new()
    };
    assert(raw.times.len() > 0 ==> raw.times.deep_view()[0] == raw.times@[0].deep_view());
    TopicDetail {
        title: first_text(&raw.titles),
        content: first_text(&raw.contents),
        author: first_text(&raw.authors),
        comment: "0".to_owned(),
        updated,
        link: url.to_owned(),
        replies,
    }
}

} // verus!
