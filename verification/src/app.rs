//! The router: which page is active, and what each action does to it.

use vstd::prelude::*;
use crate::action::{Action, ActionView, Effect, EffectView};
use crate::api::{feed_failure, topics_of, Crawler, FetchError, USER_AGENT, V2EX_RSS_URL};
use crate::event::{Event, KeyCode, CONTROL};
use crate::feed::{feed_readable, parsed_feed};
use crate::pages::detail::{
    detail_action, detail_after, detail_effect, detail_failed, detail_laid_out, detail_loaded,
    detail_reset, DetailPage, DetailView,
};
use crate::pages::home::{
    home_action, home_after, home_effect, home_failed, home_loaded, HomePage, HomeView,
};
use crate::pages::{Page, PageType};
use crate::scrape::{
    detail_of, page_failure, page_readable, scraped_page, selectors_accepted,
};
use crate::time::Moment;

verus! {

/// The application: its two pages and which of them is active.
pub struct App {
    current_page: PageType,
    home: HomePage,
    detail: DetailPage,
    crawler: Crawler,
}

/// What an `App` holds, as mathematical values.
pub struct AppView {
    pub current_page: PageType,
    pub home: HomeView,
    pub detail: DetailView,
}

/// Tells whether `event` is one of the keys that end the process on any
/// page: `q`, or `c` with the control key and no other modifier.
pub open spec fn is_quit_key(event: Event) -> bool {
    match event {
        Event::Key(key) => key.code == KeyCode::Char('q') || (key.code == KeyCode::Char('c')
            && key.modifiers == CONTROL),
        _ => false,
    }
}

/// The action that an input event stands for: to quit, on any page, or
/// what the active page makes of the event.
pub open spec fn app_action(app: AppView, event: Event) -> Option<ActionView> {
    if is_quit_key(event) {
        Some(ActionView::Quit)
    } else {
        match app.current_page {
            PageType::Home => home_action(event),
            PageType::Detail => detail_action(app.detail, event),
        }
    }
}

/// The application after `action` has gone to its active page.
pub open spec fn forwarded(app: AppView, action: ActionView) -> AppView {
    match app.current_page {
        PageType::Home => AppView { home: home_after(app.home, action), ..app },
        PageType::Detail => AppView { detail: detail_after(app.detail, action), ..app },
    }
}

/// The application after it has taken `action`. To quit and to open the
/// browser change nothing. `Enter` on the home page is taken by the home
/// page, and then the detail page, made ready, becomes the active one.
/// `GoHome` on the detail page is taken by the detail page, and then the
/// home page becomes the active one. Every other action goes to the active
/// page.
pub open spec fn app_after(app: AppView, action: ActionView) -> AppView {
    match action {
        ActionView::Quit => app,
        ActionView::OpenBrowser(_) => app,
        ActionView::Enter => if app.current_page == PageType::Home {
            AppView {
                current_page: PageType::Detail,
                home: home_after(app.home, action),
                detail: detail_reset(app.detail),
            }
        } else {
            forwarded(app, action)
        },
        ActionView::GoHome => if app.current_page == PageType::Detail {
            AppView {
                current_page: PageType::Home,
                home: app.home,
                detail: detail_after(app.detail, action),
            }
        } else {
            forwarded(app, action)
        },
        _ => forwarded(app, action),
    }
}

/// What the application leaves to do when it takes `action`: to end the
/// process, to open the browser, to fetch the feed anew when the home page
/// is entered, or what the active page leaves.
pub open spec fn app_effect(app: AppView, action: ActionView) -> EffectView {
    match action {
        ActionView::Quit => EffectView::Quit,
        ActionView::OpenBrowser(url) => EffectView::OpenBrowser(url),
        _ => if action is GoHome && app.current_page == PageType::Detail {
            EffectView::Dispatch(ActionView::FetchTopics)
        } else {
            match app.current_page {
                PageType::Home => home_effect(app.home, action),
                PageType::Detail => detail_effect(action),
            }
        },
    }
}

/// The application after `page_type` was made the active page and made
/// ready.
pub open spec fn app_switched(app: AppView, page_type: PageType) -> AppView {
    match page_type {
        PageType::Home => AppView { current_page: PageType::Home, ..app },
        PageType::Detail => AppView {
            current_page: PageType::Detail,
            detail: detail_reset(app.detail),
            ..app
        },
    }
}

/// How many more actions a chain that starts with `action` can dispatch.
pub open spec fn chain_rank(action: ActionView) -> nat {
    match action {
        ActionView::Reload => 1,
        ActionView::Enter => 1,
        ActionView::GoHome => 1,
        _ => 0,
    }
}

/// A chain of actions ends: the action that a step asks to dispatch next
/// has a smaller rank than the action that the step took, so no chain is
/// longer than two actions.
pub proof fn lemma_chains_end(app: AppView, action: ActionView)
    ensures
        app_effect(app, action) matches EffectView::Dispatch(next) ==> chain_rank(next)
            < chain_rank(action),
{
}

/// `Enter` on the home page makes the detail page the active one and makes
/// it ready: it waits, holds no topic and stands at the top.
pub proof fn lemma_enter_opens_detail(app: AppView)
    requires
        app.current_page == PageType::Home,
    ensures
        app_after(app, ActionView::Enter).current_page == PageType::Detail,
        app_after(app, ActionView::Enter).detail == detail_reset(app.detail),
        app_after(app, ActionView::Enter).detail.topic_detail is None,
        app_after(app, ActionView::Enter).home == app.home,
{
}

/// `GoHome` on the detail page makes the home page the active one, clears
/// the detail page, and has the home page fetch anew.
pub proof fn lemma_go_home_returns(app: AppView)
    requires
        app.current_page == PageType::Detail,
    ensures
        app_after(app, ActionView::GoHome).current_page == PageType::Home,
        app_after(app, ActionView::GoHome).detail == detail_reset(app.detail),
        app_after(app, ActionView::GoHome).detail.topic_detail is None,
        app_after(app, ActionView::GoHome).home == app.home,
        app_effect(app, ActionView::GoHome) == EffectView::Dispatch(ActionView::FetchTopics),
{
}

impl View for App {
    type V = AppView;

    closed spec fn view(&self) -> AppView {
        AppView { current_page: self.current_page, home: self.home@, detail: self.detail@ }
    }
}

impl App {
    /// The application's invariant: that of its pages, and that its
    /// extractor is the forum's.
    pub closed spec fn wf(&self) -> bool {
        &&& self.home.wf()
        &&& self.detail.wf()
        &&& self.crawler.spec_feed_url() == V2EX_RSS_URL@
        &&& self.crawler.spec_user_agent() == USER_AGENT@
    }

    /// The application at its start: on the home page, nothing fetched yet.
    pub fn new() -> (app: Self)
        ensures
            app.wf(),
            app@ == (AppView {
                current_page: PageType::Home,
                home: HomeView {
                    items: Seq::empty(),
                    selected: None,
                    loading: true,
                    error: None,
                },
                detail: DetailView {
                    loading: true,
                    topic_detail: None,
                    max_scroll: 0,
                    scroll: 0,
                    error: None,
                },
            }),
    {
        App {
            current_page: PageType::Home,
            home: HomePage::new(),
            detail: DetailPage::new(),
            crawler: Crawler::new(),
        }
    }

    /// Which page is active.
    pub fn current_page(&self) -> (page_type: PageType)
        ensures
            page_type == self@.current_page,
    {
        self.current_page
    }

    /// The home page.
    pub fn home(&self) -> (home: &HomePage)
        ensures
            home@ == self@.home,
            self.wf() ==> home.wf(),
    {
        &self.home
    }

    /// The detail page.
    pub fn detail(&self) -> (detail: &DetailPage)
        ensures
            detail@ == self@.detail,
            self.wf() ==> detail.wf(),
    {
        &self.detail
    }

    /// The extractor, which says where the feed is fetched from.
    pub fn crawler(&self) -> (crawler: &Crawler)
        ensures
            self.wf() ==> crawler.spec_feed_url() == V2EX_RSS_URL@,
            self.wf() ==> crawler.spec_user_agent() == USER_AGENT@,
    {
        &self.crawler
    }

    /// The action that an input event stands for.
    pub fn handle_event(&self, event: Event) -> (action: Option<Action>)
        ensures
            action.deep_view() == app_action(self@, event),
    {
        if let Event::Key(key) = event {
            if key.code == KeyCode::Char('q') {
                return Some(Action::Quit);
            }
            if key.code == KeyCode::Char('c') && key.modifiers == CONTROL {
                return Some(Action::Quit);
            }
        }
        match self.current_page {
            PageType::Home => self.home.handle_event(event),
            PageType::Detail => self.detail.handle_event(event),
        }
    }

    /// Takes an action, and says what is left to do.
    pub fn update(&mut self, action: Action) -> (effect: Effect)
        requires
            old(self).wf(),
        ensures
            final(self).wf(),
            final(self)@ == app_after(old(self)@, action@),
            effect@ == app_effect(old(self)@, action@),
    {
        match action {
            Action::Quit => Effect::Quit,
            Action::OpenBrowser(url) => Effect::OpenBrowser(url),
            Action::Enter => match self.current_page {
                PageType::Home => {
                    let effect = self.home.update(Action::Enter);
                    self.current_page = PageType::Detail;
                    self.detail.init();
                    effect
                },
                PageType::Detail => self.detail.update(Action::Enter),
            },
            Action::GoHome => match self.current_page {
                PageType::Home => self.home.update(Action::GoHome),
                PageType::Detail => {
                    self.detail.update(Action::GoHome);
                    self.current_page = PageType::Home;
                    match self.home.init() {
                        Some(next) => Effect::Dispatch(next),
                        None => Effect::Idle,
                    }
                },
            },
            other => match self.current_page {
                PageType::Home => self.home.update(other),
                PageType::Detail => self.detail.update(other),
            },
        }
    }

    /// Makes `page_type` the active page and makes it ready; the action
    /// returned, if any, is to be dispatched next.
    pub fn switch_page(&mut self, page_type: PageType) -> (next: Option<Action>)
        requires
            old(self).wf(),
        ensures
            final(self).wf(),
            final(self)@ == app_switched(old(self)@, page_type),
            next.deep_view() == match page_type {
                PageType::Home => Some(ActionView::FetchTopics),
                PageType::Detail => None,
            },
    {
        self.current_page = page_type;
        match page_type {
            PageType::Home => self.home.init(),
            PageType::Detail => self.detail.init(),
        }
    }

    /// Takes the layout of the detail page's text: how many lines it
    /// fills, and how many of them the viewport shows.
    pub fn layout_detail(&mut self, content_height: usize, viewport_height: u16)
        requires
            old(self).wf(),
        ensures
            final(self).wf(),
            final(self)@ == (AppView {
                detail: detail_laid_out(
                    old(self)@.detail,
                    content_height as int,
                    viewport_height as int,
                ),
                ..old(self)@
            }),
    {
        self.detail.set_layout(content_height, viewport_height);
    }

    /// Takes what the fetch of the feed has brought: its body, or why there
    /// is none. The home page gets the topics or the failure.
    pub fn feed_fetched(&mut self, response: Result<Vec<u8>, String>)
        requires
            old(self).wf(),
        ensures
            final(self).wf(),
            final(self)@.current_page == old(self)@.current_page,
            final(self)@.detail == old(self)@.detail,
            match response {
                Ok(body) => if feed_readable(body@) && parsed_feed(body@) is Some {
                    exists|now: Moment|
                        final(self)@.home == home_loaded(
                            old(self)@.home,
                            #[trigger] topics_of(parsed_feed(body@)->0, now),
                        )
                } else {
                    final(self)@.home == home_failed(
                        old(self)@.home,
                        feed_failure(body@).spec_message(),
                    )
                },
                Err(reason) => final(self)@.home == home_failed(old(self)@.home, reason@),
            },
    {
        let outcome = match response {
            Ok(body) => self.crawler.fetch_topics(body.as_slice()),
            Err(reason) => Err(FetchError::Transport(reason)),
        };
        self.home.load(outcome);
    }

    /// Takes what the fetch of the page at `url` has brought: its body, or
    /// why there is none. The detail page gets the topic or the failure.
    pub fn page_fetched(&mut self, url: &str, response: Result<String, String>)
        requires
            old(self).wf(),
        ensures
            final(self).wf(),
            final(self)@.current_page == old(self)@.current_page,
            final(self)@.home == old(self)@.home,
            final(self)@.detail == match response {
                Ok(body) => if page_readable(body@) && selectors_accepted() {
                    detail_loaded(old(self)@.detail, detail_of(scraped_page(body@), url@))
                } else {
                    detail_failed(old(self)@.detail, page_failure(body@).spec_message())
                },
                Err(reason) => detail_failed(old(self)@.detail, reason@),
            },
    {
        let outcome = match response {
            Ok(body) => self.crawler.fetch_topic_detail(url, body.as_str()),
            Err(reason) => Err(FetchError::Transport(reason)),
        };
        self.detail.load(outcome);
    }
}

} // verus!
