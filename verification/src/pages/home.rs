//! The list of topics, with a cursor.

use vstd::prelude::*;
use crate::action::{Action, ActionView, Effect, EffectView};
use crate::api::FetchError;
use crate::event::{Event, KeyCode};
use crate::model::{topic_views, Topic, TopicView};
use crate::pages::{Page, PageType};

verus! {

/// The home page: the topics of the last fetch and the cursor on them.
pub struct HomePage {
    items: Vec<Topic>,
    selected: Option<usize>,
    loading: bool,
    error: Option<String>,
}

/// What a `HomePage` holds, as mathematical values.
pub struct HomeView {
    pub items: Seq<TopicView>,
    /// The cursor: the index of the selected topic.
    pub selected: Option<int>,
    /// Whether a fetch is under way.
    pub loading: bool,
    /// Why the last fetch failed, if it did.
    pub error: Option<Seq<char>>,
}

/// The cursor on the first of `len` items: none where there is no item.
pub open spec fn first_cursor(len: nat) -> Option<int> {
    if len > 0 {
        Some(0)
    } else {
        None
    }
}

/// The cursor on the last of `len` items: none where there is no item.
pub open spec fn last_cursor(len: nat) -> Option<int> {
    if len > 0 {
        Some(len - 1)
    } else {
        None
    }
}

/// The cursor one item up, staying on the first.
pub open spec fn previous_cursor(selected: Option<int>) -> Option<int> {
    match selected {
        Some(i) => if i > 0 {
            Some(i - 1)
        } else {
            Some(i)
        },
        None => None,
    }
}

/// The cursor one item down among `len` items, staying on the last.
pub open spec fn next_cursor(selected: Option<int>, len: nat) -> Option<int> {
    match selected {
        Some(i) => if i + 1 < len {
            Some(i + 1)
        } else {
            Some(i)
        },
        None => None,
    }
}

/// Tells whether `selected` is a cursor on a list of `len` items: the index
/// of one of them, or none where the list is empty.
pub open spec fn valid_cursor(selected: Option<int>, len: nat) -> bool {
    match selected {
        Some(i) => 0 <= i < len,
        None => len == 0,
    }
}

/// The action that an input event stands for on the home page.
pub open spec fn home_action(event: Event) -> Option<ActionView> {
    match event {
        Event::Key(key) => match key.code {
            KeyCode::Char(c) => if c == 'r' {
                Some(ActionView::Reload)
            } else if c == 't' {
                Some(ActionView::Top)
            } else if c == 'b' {
                Some(ActionView::Bottom)
            } else if c == 'k' {
                Some(ActionView::PreviousRow)
            } else if c == 'j' {
                Some(ActionView::NextRow)
            } else {
                None
            },
            KeyCode::Up => Some(ActionView::PreviousRow),
            KeyCode::Down => Some(ActionView::NextRow),
            KeyCode::Enter => Some(ActionView::Enter),
            _ => None,
        },
        _ => None,
    }
}

/// The home page after it has taken `action`.
pub open spec fn home_after(page: HomeView, action: ActionView) -> HomeView {
    match action {
        ActionView::Reload | ActionView::FetchTopics => HomeView {
            loading: true,
            selected: first_cursor(page.items.len()),
            error: None,
            ..page
        },
        ActionView::Top => HomeView { selected: first_cursor(page.items.len()), ..page },
        ActionView::Bottom => HomeView { selected: last_cursor(page.items.len()), ..page },
        ActionView::PreviousRow => HomeView {
            selected: previous_cursor(page.selected),
            ..page
        },
        ActionView::NextRow => HomeView {
            selected: next_cursor(page.selected, page.items.len()),
            ..page
        },
        _ => page,
    }
}

/// What the home page leaves to do when it takes `action`.
pub open spec fn home_effect(page: HomeView, action: ActionView) -> EffectView {
    match action {
        ActionView::Reload => EffectView::Dispatch(ActionView::FetchTopics),
        ActionView::FetchTopics => EffectView::FetchFeed,
        ActionView::Enter => match page.selected {
            Some(i) => EffectView::Dispatch(ActionView::FetchTopicDetail(page.items[i].link)),
            None => EffectView::Idle,
        },
        _ => EffectView::Idle,
    }
}

/// The home page after the fetch that it asked for has come back with
/// `topics`: they replace the list and the cursor goes to the first.
pub open spec fn home_loaded(page: HomeView, topics: Seq<TopicView>) -> HomeView {
    HomeView { items: topics, selected: first_cursor(topics.len()), loading: false, error: None }
}

/// The home page after the fetch that it asked for has failed: the list and
/// the cursor stay, and the page says why there is nothing new.
pub open spec fn home_failed(page: HomeView, reason: Seq<char>) -> HomeView {
    HomeView { loading: false, error: Some(reason), ..page }
}

/// The cursor never leaves the list: whatever action the page takes, a
/// cursor that was on the list is on it afterwards.
pub proof fn lemma_cursor_stays_valid(page: HomeView, action: ActionView)
    requires
        valid_cursor(page.selected, page.items.len()),
    ensures
        valid_cursor(home_after(page, action).selected, home_after(page, action).items.len()),
        home_after(page, action).items == page.items,
{
}

/// At the ends of the list the cursor stays: `NextRow` on the last topic
/// and `PreviousRow` on the first change nothing.
pub proof fn lemma_cursor_stops_at_ends(page: HomeView)
    requires
        valid_cursor(page.selected, page.items.len()),
    ensures
        page.selected == last_cursor(page.items.len()) ==> home_after(page, ActionView::NextRow)
            == page,
        page.selected == first_cursor(page.items.len()) ==> home_after(
            page,
            ActionView::PreviousRow,
        ) == page,
{
}

/// On an empty list `Top` and `Bottom` leave the cursor on nothing.
pub proof fn lemma_empty_list_has_no_cursor(page: HomeView)
    requires
        valid_cursor(page.selected, page.items.len()),
        page.items.len() == 0,
    ensures
        home_after(page, ActionView::Top) == page,
        home_after(page, ActionView::Bottom) == page,
        home_after(page, ActionView::Top).selected is None,
        home_after(page, ActionView::Bottom).selected is None,
{
}

/// A fetch that comes back, with topics or without, leaves the cursor on
/// the list.
pub proof fn lemma_load_keeps_cursor_valid(page: HomeView, topics: Seq<TopicView>, reason: Seq<char>)
    requires
        valid_cursor(page.selected, page.items.len()),
    ensures
        valid_cursor(home_loaded(page, topics).selected, home_loaded(page, topics).items.len()),
        valid_cursor(home_failed(page, reason).selected, home_failed(page, reason).items.len()),
{
}

impl View for HomePage {
    type V = HomeView;

    closed spec fn view(&self) -> HomeView {
        HomeView {
            items: topic_views(self.items@),
            selected: match self.selected {
                Some(i) => Some(i as int),
                None => None,
            },
            loading: self.loading,
            error: match self.error {
                Some(reason) => Some(reason@),
                None => None,
            },
        }
    }
}

impl HomePage {
    /// An empty home page that waits for its first fetch.
    pub fn new() -> (page: Self)
        ensures
            page.wf(),
            page@ == (HomeView { items: Seq::empty(), selected: None, loading: true, error: None }),
    {
        let page = HomePage { items: Vec::new(), selected: None, loading: true, error: None };
        assert(topic_views(page.items@) =~= Seq::empty());
        page
    }

    /// The topics of the last fetch.
    pub fn items(&self) -> (items: &Vec<Topic>)
        ensures
            topic_views(items@) == self@.items,
    {
        &self.items
    }

    /// The cursor.
    pub fn selected(&self) -> (selected: Option<usize>)
        ensures
            match selected {
                Some(i) => self@.selected == Some(i as int),
                None => self@.selected is None,
            },
    {
        self.selected
    }

    /// Whether a fetch is under way.
    pub fn is_loading(&self) -> (loading: bool)
        ensures
            loading == self@.loading,
    {
        self.loading
    }

    /// Why the last fetch failed, if it did.
    pub fn error(&self) -> (error: Option<&String>)
        ensures
            match error {
                Some(reason) => self@.error == Some(reason@),
                None => self@.error is None,
            },
    {
        self.error.as_ref()
    }

    /// Puts the cursor on the first topic.
    fn select_first(&mut self)
        requires
            old(self).wf(),
        ensures
            final(self).wf(),
            final(self)@ == (HomeView {
                selected: first_cursor(old(self)@.items.len()),
                ..old(self)@
            }),
    {
        if self.items.len() > 0 {
            self.selected = Some(0);
        }
    }

    /// Takes what the fetch has brought: the topics, or why there are none.
    pub fn load(&mut self, outcome: Result<Vec<Topic>, FetchError>)
        requires
            old(self).wf(),
        ensures
            final(self).wf(),
            final(self)@ == match outcome {
                Ok(topics) => home_loaded(old(self)@, topic_views(topics@)),
                Err(e) => home_failed(old(self)@, e.spec_message()),
            },
    {
        match outcome {
            Ok(topics) => {
                self.selected = if topics.len() > 0 {
                    Some(0)
                } else {
                    None
                };
                self.items = topics;
                self.loading = false;
                self.error = None;
            },
            Err(e) => {
                self.loading = false;
                self.error = Some(e.message());
            },
        }
    }
}

impl Page for HomePage {
    open spec fn wf(&self) -> bool {
        valid_cursor(self@.selected, self@.items.len())
    }

    fn page_type(&self) -> (page_type: PageType)
        ensures
            page_type == PageType::Home,
    {
        PageType::Home
    }

    /// The home page fetches anew whenever it is entered.
    fn init(&mut self) -> (next: Option<Action>)
        ensures
            final(self)@ == old(self)@,
            next.deep_view() == Some(ActionView::FetchTopics),
    {
        Some(Action::FetchTopics)
    }

    fn handle_event(&self, event: Event) -> (action: Option<Action>)
        ensures
            action.deep_view() == home_action(event),
    {
        match event {
            Event::Key(key) => match key.code {
                KeyCode::Char(c) => if c == 'r' {
                    Some(Action::Reload)
                } else if c == 't' {
                    Some(Action::Top)
                } else if c == 'b' {
                    Some(Action::Bottom)
                } else if c == 'k' {
                    Some(Action::PreviousRow)
                } else if c == 'j' {
                    Some(Action::NextRow)
                } else {
                    None
                },
                KeyCode::Up => Some(Action::PreviousRow),
                KeyCode::Down => Some(Action::NextRow),
                KeyCode::Enter => Some(Action::Enter),
                _ => None,
            },
            _ => None,
        }
    }

    fn update(&mut self, action: Action) -> (effect: Effect)
        ensures
            final(self)@ == home_after(old(self)@, action@),
            effect@ == home_effect(old(self)@, action@),
    {
        match action {
            Action::Reload => {
                self.loading = true;
                self.error = None;
                self.select_first();
                Effect::Dispatch(Action::FetchTopics)
            },
            Action::FetchTopics => {
                self.loading = true;
                self.error = None;
                self.select_first();
                Effect::FetchFeed
            },
            Action::Top => {
                self.select_first();
                Effect::Idle
            },
            Action::Bottom => {
                if self.items.len() > 0 {
                    self.selected = Some(self.items.len() - 1);
                }
                Effect::Idle
            },
            Action::PreviousRow => {
                match self.selected {
                    Some(i) => if i > 0 {
                        self.selected = Some(i - 1);
                    },
                    None => {},
                }
                Effect::Idle
            },
            Action::NextRow => {
                match self.selected {
                    Some(i) => if i < self.items.len() - 1 {
                        self.selected = Some(i + 1);
                    },
                    None => {},
                }
                Effect::Idle
            },
            Action::Enter => match self.selected {
                Some(i) => Effect::Dispatch(Action::FetchTopicDetail(self.items[i].link.clone())),
                None => Effect::Idle,
            },
            _ => Effect::Idle,
        }
    }
}

} // verus!
