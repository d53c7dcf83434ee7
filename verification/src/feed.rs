//! Reads an Atom feed into plain entries.

use vstd::prelude::*;
use crate::time::Moment;
use crate::text::{
    after_spaces, all_digits, before_spaces, chars_of, digits_only, find, position_from, slice_of,
    string_of, trim,
};

verus! {

/// One entry of a feed, with what the extractor reads of it.
#[derive(Debug, Clone, PartialEq)]
pub struct FeedEntry {
    pub title: String,
    /// The names of the entry's authors, in feed order.
    pub authors: Vec<String>,
    /// The addresses that the entry links to, in feed order.
    pub links: Vec<String>,
    /// When the entry was last touched.
    pub updated: Moment,
    /// The same moment written out as a date, a time and an offset.
    pub updated_text: String,
}

/// What a `FeedEntry` holds, as mathematical values.
pub struct FeedEntryView {
    pub title: Seq<char>,
    pub authors: Seq<Seq<char>>,
    pub links: Seq<Seq<char>>,
    pub updated: Moment,
    pub updated_text: Seq<char>,
}

impl View for FeedEntry {
    type V = FeedEntryView;

    open spec fn view(&self) -> FeedEntryView {
        FeedEntryView {
            title: self.title@,
            authors: self.authors.deep_view(),
            links: self.links.deep_view(),
            updated: self.updated,
            updated_text: self.updated_text@,
        }
    }
}

/// The views of a list of entries, in order.
pub open spec fn entry_views(entries: Seq<FeedEntry>) -> Seq<FeedEntryView> {
    entries.map_values(|e: FeedEntry| e@)
}

/// `atom_syndication::Error`, why some bytes are no feed. Nothing is read
/// of it.
#[verifier::external_type_specification]
#[verifier::external_body]
pub struct ExFeedError(atom_syndication::Error);

/// How many tags a feed that may bear extension elements can open and
/// still be read.
pub const MAX_EXTENSION_TAGS: usize = 256;

/// Tells whether `b` is white space as XML has it in a tag: a space, a tab,
/// a line feed or a carriage return.
pub open spec fn is_xml_space(b: u8) -> bool {
    b == 0x20 || b == 0x09 || b == 0x0a || b == 0x0d
}

/// Tells whether `b` can stand in the name of an element that is no
/// extension element: a printable ASCII byte other than `"`, `'`, `:`, `<`
/// and `>`.
pub open spec fn is_plain_name_byte(b: u8) -> bool {
    0x21 <= b <= 0x7e && b != 0x22 && b != 0x27 && b != 0x3a && b != 0x3c && b != 0x3e
}

/// Tells whether a tag can open at position `i` of `bytes`: a `<` stands
/// there, followed by a byte other than `!`, `/` and `?`.
pub open spec fn opens_tag(bytes: Seq<u8>, i: int) -> bool {
    &&& 0 <= i && i + 1 < bytes.len()
    &&& bytes[i] == 0x3c
    &&& bytes[i + 1] != 0x21 && bytes[i + 1] != 0x2f && bytes[i + 1] != 0x3f
}

/// Tells whether the name that begins at position `from` of `bytes` is
/// plain: up to the first white space or `>`, or to the end of the bytes,
/// it holds plain name bytes only.
pub open spec fn plain_name(bytes: Seq<u8>, from: int) -> bool
    decreases bytes.len() - from,
{
    if from < 0 || from >= bytes.len() {
        true
    } else if is_xml_space(bytes[from]) || bytes[from] == 0x3e {
        true
    } else if is_plain_name_byte(bytes[from]) {
        plain_name(bytes, from + 1)
    } else {
        false
    }
}

/// Tells whether every tag that can open before position `upto` of `bytes`
/// bears a plain name.
pub open spec fn all_plain(bytes: Seq<u8>, upto: int) -> bool {
    forall|i: int| 0 <= i < upto && #[trigger] opens_tag(bytes, i) ==> plain_name(bytes, i + 1)
}

/// How many tags can open before position `upto` of `bytes`.
pub open spec fn count_openers(bytes: Seq<u8>, upto: int) -> nat
    decreases upto,
{
    if upto <= 0 {
        0
    } else if opens_tag(bytes, upto - 1) {
        count_openers(bytes, upto - 1) + 1
    } else {
        count_openers(bytes, upto - 1)
    }
}

/// Tells whether the extractor reads the feed `bytes`. The parser goes one
/// call deeper for every element that opens inside an extension element
/// (one whose name bears a prefix), so a feed is read where no tag can bear
/// such a name, or where it can open no more than `MAX_EXTENSION_TAGS` tags
/// at all.
pub open spec fn feed_readable(bytes: Seq<u8>) -> bool {
    all_plain(bytes, bytes.len() as int) || count_openers(bytes, bytes.len() as int)
        <= MAX_EXTENSION_TAGS
}

/// Computes `plain_name`.
pub fn name_is_plain(bytes: &[u8], from: usize) -> (b: bool)
    ensures
        b == plain_name(bytes@, from as int),
{
    let mut k: usize = from;
    while k < bytes.len()
        invariant
            plain_name(bytes@, k as int) == plain_name(bytes@, from as int),
        decreases bytes.len() - k,
    {
        let b: u8 = bytes[k];
        if b == 0x20 || b == 0x09 || b == 0x0a || b == 0x0d || b == 0x3e {
            return true;
        }
        if !(0x21 <= b && b <= 0x7e && b != 0x22 && b != 0x27 && b != 0x3a && b != 0x3c) {
            return false;
        }
        k += 1;
    }
    true
}

/// Computes `feed_readable`.
pub fn feed_is_readable(bytes: &[u8]) -> (b: bool)
    ensures
        b == feed_readable(bytes@),
{
    let mut plain = true;
    let mut count: usize = 0;
    let mut i: usize = 0;
    while i < bytes.len()
        invariant
            i <= bytes.len(),
            count <= i,
            count == count_openers(bytes@, i as int),
            plain == all_plain(bytes@, i as int),
        decreases bytes.len() - i,
    {
        let opens = bytes[i] == 0x3c && i + 1 < bytes.len() && bytes[i + 1] != 0x21 && bytes[i + 1]
            != 0x2f && bytes[i + 1] != 0x3f;
        if opens {
            count += 1;
            if plain && !name_is_plain(bytes, i + 1) {
                plain = false;
            }
        }
        assert(opens == opens_tag(bytes@, i as int));
        i += 1;
    }
    plain || count <= MAX_EXTENSION_TAGS
}

/// The entries of the Atom document `bytes`, in document order, or none
/// where `bytes` is no Atom document. It stands for what
/// `atom_syndication::Feed::read_from` makes of the bytes.
pub uninterp spec fn parsed_feed(bytes: Seq<u8>) -> Option<Seq<FeedEntryView>>;

/// Parses `bytes` with `atom_syndication::Feed::read_from` and copies out of
/// each entry its title, the names of its authors, the addresses of its
/// links, and its time of update (as `chrono` counts and prints it). The
/// parser reads nothing but the bytes, so its outcome gets a name,
/// `parsed_feed`; an error comes back exactly where the parser gives one.
///
/// The parser calls itself once for every element that opens inside an
/// extension element, without a bound of its own, so the bytes must be
/// `feed_readable`. That holds the depth to `MAX_EXTENSION_TAGS` for this
/// reason: an element opens only at a `<` that is followed by a byte other
/// than `!`, `/` and `?`; its name runs to the first white space, or to the
/// `>` that closes the tag, which is the first `>` unless a quote stands
/// before it; and the parser takes it for an extension element only if the
/// name, decoded, bears a colon, which a name of plain name bytes does not.
#[verifier::external_body]
pub(crate) fn read_feed(bytes: &[u8]) -> (r: Result<Vec<FeedEntry>, atom_syndication::Error>)
    requires
        feed_readable(bytes@),
    ensures
        match r {
            Ok(entries) => parsed_feed(bytes@) == Some(entry_views(entries@)),
            Err(_) => parsed_feed(bytes@) is None,
        },
{
    let feed = atom_syndication::Feed::read_from(bytes)?;
    Ok(feed.entries().iter().map(|e| FeedEntry {
        title: e.title().as_str().to_string(),
        authors: e.authors().iter().map(|a| a.name().to_string()).collect(),
        links: e.links().iter().map(|l| l.href().to_string()).collect(),
        updated: Moment {
            secs: e.updated().timestamp(),
            nanos: e.updated().timestamp_subsec_nanos(),
        },
        updated_text: e.updated().to_string(),
    }).collect())
}

/// The first of `texts`, or the empty text where there is none.
pub open spec fn first_or_empty(texts: Seq<Seq<char>>) -> Seq<char> {
    if texts.len() > 0 {
        texts[0]
    } else {
        Seq::empty()
    }
}

/// The first of `texts`, or the empty string where there is none.
pub fn first_text(texts: &Vec<String>) -> (s: String)
    ensures
        s@ == first_or_empty(texts.deep_view()),
{
    if texts.len() > 0 {
        texts[0].clone()
    } else {
        String::new()
    }
}

/// What follows the first `#reply` in `link`, up to the next `#reply` or to
/// the end; none where `link` holds no `#reply`.
pub open spec fn reply_fragment(link: Seq<char>) -> Option<Seq<char>> {
    match find(link, "#reply"@) {
        None => None,
        Some(p) => {
            let rest = link.skip(p + "#reply"@.len());
            match find(rest, "#reply"@) {
                None => Some(rest),
                Some(q) => Some(rest.take(q)),
            }
        },
    }
}

/// The number of comments that a topic's address tells. The feed appends
/// `#reply` and the count to the address of a topic that has comments. The
/// count is what follows the first `#reply`, without the white space around
/// it, where that is a run of decimal digits; it is `0` where the address
/// holds no `#reply` or something else follows it.
pub open spec fn comment_count(link: Seq<char>) -> Seq<char> {
    match reply_fragment(link) {
        None => "0"@,
        Some(fragment) => {
            let token = trim(fragment);
            if token.len() > 0 && all_digits(token) {
                token
            } else {
                "0"@
            }
        },
    }
}

/// The number of comments is always a number: a run of decimal digits, and
/// not an empty one.
pub proof fn lemma_comment_count_is_a_number(link: Seq<char>)
    ensures
        comment_count(link).len() > 0,
        all_digits(comment_count(link)),
{
    reveal_strlit("0");
}

/// Computes `comment_count`.
pub fn parse_comment_count(link: &str) -> (count: String)
    ensures
        count@ == comment_count(link@),
{
    let chars = chars_of(link);
    let marker = chars_of("#reply");
    match position_from(&chars, &marker, 0) {
        None => "0".to_owned(),
        Some(p) => {
            let rest = slice_of(&chars, p + marker.len(), chars.len());
            assert(rest@ =~= link@.skip(p + "#reply"@.len()));
            let end: usize = match position_from(&rest, &marker, 0) {
                None => rest.len(),
                Some(q) => q,
            };
            let fragment = slice_of(&rest, 0, end);
            assert(fragment@ =~= rest@.take(end as int));
            assert(rest@.take(rest.len() as int) =~= rest@);
            let a = after_spaces(&fragment, 0);
            let b = before_spaces(&fragment, fragment.len());
            if a < b && digits_only(&fragment, a, b) {
                string_of(&fragment, a, b)
            } else {
                "0".to_owned()
            }
        },
    }
}

} // verus!
