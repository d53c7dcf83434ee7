//! One topic with its replies, scrolled in a viewport.

use vstd::prelude::*;
use crate::action::{Action, ActionView, Effect, EffectView};
use crate::api::FetchError;
use crate::event::{Event, KeyCode, MouseEventKind};
use crate::model::{TopicDetail, TopicDetailView};
use crate::pages::{Page, PageType};

verus! {

/// How many lines one press of a scroll key, or one notch of the wheel,
/// moves the text.
pub const SCROLL_STEP: u32 = 3;

/// The detail page: the topic of the last fetch and how far it is scrolled.
pub struct DetailPage {
    loading: bool,
    topic_detail: Option<TopicDetail>,
    max_scroll: u16,
    scroll: u16,
    error: Option<String>,
}

/// What a `DetailPage` holds, as mathematical values.
pub struct DetailView {
    /// Whether the page waits for its topic.
    pub loading: bool,
    pub topic_detail: Option<TopicDetailView>,
    /// The furthest that the text can be scrolled: the lines that do not
    /// fit the viewport.
    pub max_scroll: int,
    /// How many lines the text is scrolled.
    pub scroll: int,
    /// Why the last fetch failed, if it did.
    pub error: Option<Seq<char>>,
}

/// `scroll` moved up by `lines`, staying at the top.
pub open spec fn scrolled_up(scroll: int, lines: int) -> int {
    if scroll - lines > 0 {
        scroll - lines
    } else {
        0
    }
}

/// `scroll` moved down by `lines`, staying at `max_scroll`.
pub open spec fn scrolled_down(scroll: int, lines: int, max_scroll: int) -> int {
    if scroll + lines < max_scroll {
        scroll + lines
    } else {
        max_scroll
    }
}

/// The furthest that a text of `content_height` lines can be scrolled in a
/// viewport of `viewport_height` lines: the lines that do not fit, as far
/// as sixteen bits count them.
pub open spec fn scroll_limit(content_height: int, viewport_height: int) -> int {
    if content_height <= viewport_height {
        0
    } else if content_height - viewport_height < 0xffff {
        content_height - viewport_height
    } else {
        0xffff
    }
}

/// The detail page made ready to be shown again: it waits, holds no topic
/// and no failure, and stands at the top.
pub open spec fn detail_reset(page: DetailView) -> DetailView {
    DetailView { loading: true, topic_detail: None, scroll: 0, error: None, ..page }
}

/// The action that an input event stands for on the detail page `page`.
pub open spec fn detail_action(page: DetailView, event: Event) -> Option<ActionView> {
    match event {
        Event::Key(key) => match key.code {
            KeyCode::Esc | KeyCode::Backspace => Some(ActionView::GoHome),
            KeyCode::Char(c) => if c == 'o' {
                match page.topic_detail {
                    Some(detail) => Some(ActionView::OpenBrowser(detail.link)),
                    None => None,
                }
            } else if c == 't' {
                Some(ActionView::Top)
            } else if c == 'b' {
                Some(ActionView::Bottom)
            } else if c == 'k' {
                Some(ActionView::LineUp(SCROLL_STEP))
            } else if c == 'j' {
                Some(ActionView::LineDown(SCROLL_STEP))
            } else {
                None
            },
            KeyCode::Up => Some(ActionView::LineUp(SCROLL_STEP)),
            KeyCode::Down => Some(ActionView::LineDown(SCROLL_STEP)),
            _ => None,
        },
        Event::Mouse(kind) => match kind {
            MouseEventKind::ScrollUp => Some(ActionView::LineUp(SCROLL_STEP)),
            MouseEventKind::ScrollDown => Some(ActionView::LineDown(SCROLL_STEP)),
            _ => None,
        },
        _ => None,
    }
}

/// The detail page after it has taken `action`.
pub open spec fn detail_after(page: DetailView, action: ActionView) -> DetailView {
    match action {
        ActionView::GoHome => detail_reset(page),
        ActionView::FetchTopicDetail(_) => DetailView {
            loading: true,
            topic_detail: None,
            error: None,
            ..page
        },
        ActionView::Top => DetailView { scroll: 0, ..page },
        ActionView::Bottom => DetailView { scroll: page.max_scroll, ..page },
        ActionView::LineUp(n) => DetailView { scroll: scrolled_up(page.scroll, n as int), ..page },
        ActionView::LineDown(n) => DetailView {
            scroll: scrolled_down(page.scroll, n as int, page.max_scroll),
            ..page
        },
        _ => page,
    }
}

/// What the detail page leaves to do when it takes `action`.
pub open spec fn detail_effect(action: ActionView) -> EffectView {
    match action {
        ActionView::FetchTopicDetail(url) => EffectView::FetchPage(url),
        _ => EffectView::Idle,
    }
}

/// The detail page after the fetch that it asked for has come back with
/// `detail`.
pub open spec fn detail_loaded(page: DetailView, detail: TopicDetailView) -> DetailView {
    DetailView { loading: false, topic_detail: Some(detail), error: None, ..page }
}

/// The detail page after the fetch that it asked for has failed: it holds
/// no topic and says why.
pub open spec fn detail_failed(page: DetailView, reason: Seq<char>) -> DetailView {
    DetailView { loading: false, topic_detail: None, error: Some(reason), ..page }
}

/// The detail page after its text has been laid out in `content_height`
/// lines for a viewport of `viewport_height` lines: the limit follows the
/// layout, and the text is scrolled no further than the limit.
pub open spec fn detail_laid_out(
    page: DetailView,
    content_height: int,
    viewport_height: int,
) -> DetailView {
    let limit = scroll_limit(content_height, viewport_height);
    DetailView {
        max_scroll: limit,
        scroll: if page.scroll < limit {
            page.scroll
        } else {
            limit
        },
        ..page
    }
}

/// Tells whether `page` is a state of the detail page: the text is
/// scrolled between the top and the limit, and a failure never stands
/// beside a topic.
pub open spec fn valid_detail(page: DetailView) -> bool {
    &&& 0 <= page.scroll <= page.max_scroll
    &&& page.error is Some ==> page.topic_detail is None
}

/// Whatever the page takes (an action, a topic, a failure, a layout), it
/// stays a state of the detail page. A fetch that is asked for discards the
/// topic that was held, and so does one that fails, so that what the page
/// shows after a failure is the failure.
pub proof fn lemma_detail_stays_valid(
    page: DetailView,
    action: ActionView,
    detail: TopicDetailView,
    reason: Seq<char>,
    content_height: int,
    viewport_height: int,
)
    requires
        valid_detail(page),
    ensures
        valid_detail(detail_after(page, action)),
        valid_detail(detail_reset(page)),
        valid_detail(detail_loaded(page, detail)),
        valid_detail(detail_failed(page, reason)),
        valid_detail(detail_laid_out(page, content_height, viewport_height)),
        action is FetchTopicDetail ==> detail_after(page, action).topic_detail is None,
        detail_failed(detail_after(page, action), reason).topic_detail is None,
        detail_failed(page, reason).error == Some(reason),
{
}

/// Scrolling stays in range: whatever action the page takes, a text that
/// was scrolled between the top and the limit is so afterwards, and the
/// limit is what it was.
pub proof fn lemma_scroll_stays_in_range(page: DetailView, action: ActionView)
    requires
        0 <= page.scroll <= page.max_scroll,
    ensures
        0 <= detail_after(page, action).scroll <= detail_after(page, action).max_scroll,
        detail_after(page, action).max_scroll == page.max_scroll,
{
}

/// `LineDown` never passes the limit, `LineUp` never passes the top, and
/// `Bottom` goes to the limit exactly. Short of the ends, a line key moves
/// the text by the lines it names.
pub proof fn lemma_scroll_clamps(page: DetailView, lines: u32)
    requires
        0 <= page.scroll <= page.max_scroll,
    ensures
        detail_after(page, ActionView::LineDown(lines)).scroll <= page.max_scroll,
        detail_after(page, ActionView::LineDown(lines)).scroll >= page.scroll,
        page.scroll + lines <= page.max_scroll ==> detail_after(
            page,
            ActionView::LineDown(lines),
        ).scroll == page.scroll + lines,
        detail_after(page, ActionView::LineUp(lines)).scroll >= 0,
        detail_after(page, ActionView::LineUp(lines)).scroll <= page.scroll,
        page.scroll - lines >= 0 ==> detail_after(page, ActionView::LineUp(lines)).scroll
            == page.scroll - lines,
        detail_after(page, ActionView::Bottom).scroll == page.max_scroll,
        detail_after(page, ActionView::Top).scroll == 0,
{
}

/// A new layout leaves the text scrolled in range, whatever the heights.
pub proof fn lemma_layout_keeps_scroll_in_range(
    page: DetailView,
    content_height: int,
    viewport_height: int,
)
    requires
        0 <= page.scroll <= page.max_scroll,
    ensures
        0 <= detail_laid_out(page, content_height, viewport_height).scroll <= detail_laid_out(
            page,
            content_height,
            viewport_height,
        ).max_scroll,
{
}

impl View for DetailPage {
    type V = DetailView;

    closed spec fn view(&self) -> DetailView {
        DetailView {
            loading: self.loading,
            topic_detail: match self.topic_detail {
                Some(detail) => Some(detail@),
                None => None,
            },
            max_scroll: self.max_scroll as int,
            scroll: self.scroll as int,
            error: match self.error {
                Some(reason) => Some(reason@),
                None => None,
            },
        }
    }
}

impl DetailPage {
    /// A detail page that waits for its first topic.
    pub fn new() -> (page: Self)
        ensures
            page.wf(),
            page@ == (DetailView {
                loading: true,
                topic_detail: None,
                max_scroll: 0,
                scroll: 0,
                error: None,
            }),
    {
        DetailPage { loading: true, topic_detail: None, max_scroll: 0, scroll: 0, error: None }
    }

    /// Whether the page waits for its topic.
    pub fn is_loading(&self) -> (loading: bool)
        ensures
            loading == self@.loading,
    {
        self.loading
    }

    /// The topic of the last fetch.
    pub fn topic_detail(&self) -> (detail: Option<&TopicDetail>)
        ensures
            match detail {
                Some(d) => self@.topic_detail == Some(d@),
                None => self@.topic_detail is None,
            },
    {
        self.topic_detail.as_ref()
    }

    /// How many lines the text is scrolled.
    pub fn scroll(&self) -> (scroll: u16)
        ensures
            scroll == self@.scroll,
    {
        self.scroll
    }

    /// The furthest that the text can be scrolled.
    pub fn max_scroll(&self) -> (max_scroll: u16)
        ensures
            max_scroll == self@.max_scroll,
    {
        self.max_scroll
    }

    /// Why the last fetch failed, if it did.
    pub fn error(&self) -> (error: Option<&String>)
        ensures
            match error {
                Some(reason) => self@.error == Some(reason@),
                None => self@.error is None,
            },
    {
        self.error.as_ref()
    }

    /// Takes what the fetch has brought: the topic, or why there is none.
    pub fn load(&mut self, outcome: Result<TopicDetail, FetchError>)
        requires
            old(self).wf(),
        ensures
            final(self).wf(),
            final(self)@ == match outcome {
                Ok(detail) => detail_loaded(old(self)@, detail@),
                Err(e) => detail_failed(old(self)@, e.spec_message()),
            },
    {
        match outcome {
            Ok(detail) => {
                self.topic_detail = Some(detail);
                self.loading = false;
                self.error = None;
            },
            Err(e) => {
                self.topic_detail = None;
                self.loading = false;
                self.error = Some(e.message());
            },
        }
    }

    /// Takes the layout of the text: how many lines it fills, and how many
    /// of them the viewport shows.
    pub fn set_layout(&mut self, content_height: usize, viewport_height: u16)
        requires
            old(self).wf(),
        ensures
            final(self).wf(),
            final(self)@ == detail_laid_out(
                old(self)@,
                content_height as int,
                viewport_height as int,
            ),
    {
        let height: usize = viewport_height as usize;
        let limit: u16 = if content_height <= height {
            0
        } else if content_height - height < 0xffff {
            (content_height - height) as u16
        } else {
            0xffff
        };
        self.max_scroll = limit;
        if self.scroll > limit {
            self.scroll = limit;
        }
    }
}

impl Page for DetailPage {
    open spec fn wf(&self) -> bool {
        valid_detail(self@)
    }

    fn page_type(&self) -> (page_type: PageType)
        ensures
            page_type == PageType::Detail,
    {
        PageType::Detail
    }

    /// The detail page forgets its topic whenever it is entered: the
    /// action that brings the next one carries the address.
    fn init(&mut self) -> (next: Option<Action>)
        ensures
            final(self)@ == detail_reset(old(self)@),
            next is None,
    {
        self.loading = true;
        self.topic_detail = None;
        self.scroll = 0;
        self.error = None;
        None
    }

    fn handle_event(&self, event: Event) -> (action: Option<Action>)
        ensures
            action.deep_view() == detail_action(self@, event),
    {
        match event {
            Event::Key(key) => match key.code {
                KeyCode::Esc | KeyCode::Backspace => Some(Action::GoHome),
                KeyCode::Char(c) => if c == 'o' {
                    match &self.topic_detail {
                        Some(detail) => Some(Action::OpenBrowser(detail.link.clone())),
                        None => None,
                    }
                } else if c == 't' {
                    Some(Action::Top)
                } else if c == 'b' {
                    Some(Action::Bottom)
                } else if c == 'k' {
                    Some(Action::LineUp(SCROLL_STEP))
                } else if c == 'j' {
                    Some(Action::LineDown(SCROLL_STEP))
                } else {
                    None
                },
                KeyCode::Up => Some(Action::LineUp(SCROLL_STEP)),
                KeyCode::Down => Some(Action::LineDown(SCROLL_STEP)),
                _ => None,
            },
            Event::Mouse(kind) => match kind {
                MouseEventKind::ScrollUp => Some(Action::LineUp(SCROLL_STEP)),
                MouseEventKind::ScrollDown => Some(Action::LineDown(SCROLL_STEP)),
                _ => None,
            },
            _ => None,
        }
    }

    fn update(&mut self, action: Action) -> (effect: Effect)
        ensures
            final(self)@ == detail_after(old(self)@, action@),
            effect@ == detail_effect(action@),
    {
        match action {
            Action::GoHome => {
                self.init();
                Effect::Idle
            },
            Action::FetchTopicDetail(url) => {
                self.loading = true;
                self.topic_detail = None;
                self.error = None;
                Effect::FetchPage(url)
            },
            Action::Top => {
                self.scroll = 0;
                Effect::Idle
            },
            Action::Bottom => {
                self.scroll = self.max_scroll;
                Effect::Idle
            },
            Action::LineUp(count) => {
                self.scroll = if count >= self.scroll as u32 {
                    0
                } else {
                    self.scroll - count as u16
                };
                Effect::Idle
            },
            Action::LineDown(count) => {
                self.scroll = if count >= (self.max_scroll - self.scroll) as u32 {
                    self.max_scroll
                } else {
                    self.scroll + count as u16
                };
                Effect::Idle
            },
            _ => Effect::Idle,
        }
    }
}

} // verus!
