//! The state of the single-screen client.

use vstd::prelude::*;
use crate::action::{Effect, EffectView};
use crate::api::FetchError;
use crate::event::{Event, KeyCode, CONTROL};
use crate::model::{topic_views, Topic, TopicView};
use crate::pages::home::{first_cursor, last_cursor, next_cursor, previous_cursor, valid_cursor};
use crate::ui::action::Action;

verus! {

/// The topic list and the cursor on it.
pub struct Home {
    items: Vec<Topic>,
    selected: Option<usize>,
}

/// What a `Home` holds, as mathematical values.
pub struct HomeView {
    pub items: Seq<TopicView>,
    /// The cursor: the index of the selected topic.
    pub selected: Option<int>,
}

impl View for Home {
    type V = HomeView;

    closed spec fn view(&self) -> HomeView {
        HomeView {
            items: topic_views(self.items@),
            selected: match self.selected {
                Some(i) => Some(i as int),
                None => None,
            },
        }
    }
}

impl Home {
    /// An empty list.
    pub fn new() -> (home: Self)
        ensures
            home@ == (HomeView { items: Seq::empty(), selected: None }),
    {
        let home = Home { items: Vec::new(), selected: None };
        assert(topic_views(home.items@) =~= Seq::empty());
        home
    }

    /// The topics.
    pub fn items(&self) -> (items: &Vec<Topic>)
        ensures
            topic_views(items@) == self@.items,
    {
        &self.items
    }

    /// The cursor.
    pub fn selected(&self) -> (selected: Option<usize>)
        ensures
            match selected {
                Some(i) => self@.selected == Some(i as int),
                None => self@.selected is None,
            },
    {
        self.selected
    }
}

/// The whole state: the list, and whether the client goes on.
pub struct Store {
    home: Home,
    running: bool,
}

/// What a `Store` holds, as mathematical values.
pub struct StoreState {
    pub home: HomeView,
    pub running: bool,
}

impl View for Store {
    type V = StoreState;

    closed spec fn view(&self) -> StoreState {
        StoreState { home: self.home@, running: self.running }
    }
}

/// The store after it has taken `action`: the cursor moves within the
/// list, `Reload` puts it on the first topic, and `Quit` ends the run.
pub open spec fn store_after(store: StoreState, action: Action) -> StoreState {
    let len = store.home.items.len();
    match action {
        Action::PreviousRow => StoreState {
            home: HomeView { selected: previous_cursor(store.home.selected), ..store.home },
            ..store
        },
        Action::NextRow => StoreState {
            home: HomeView { selected: next_cursor(store.home.selected, len), ..store.home },
            ..store
        },
        Action::Reload | Action::Top => StoreState {
            home: HomeView { selected: first_cursor(len), ..store.home },
            ..store
        },
        Action::Bottom => StoreState {
            home: HomeView { selected: last_cursor(len), ..store.home },
            ..store
        },
        Action::Enter => store,
        Action::Quit => StoreState { running: false, ..store },
    }
}

/// What the store leaves to do when it takes `action`.
pub open spec fn store_effect(action: Action) -> EffectView {
    match action {
        Action::Reload => EffectView::FetchFeed,
        Action::Quit => EffectView::Quit,
        _ => EffectView::Idle,
    }
}

/// The action that an input event stands for.
pub open spec fn store_action(event: Event) -> Option<Action> {
    match event {
        Event::Key(key) => match key.code {
            KeyCode::Char(c) => if c == 'q' {
                Some(Action::Quit)
            } else if c == 'c' && key.modifiers & CONTROL != 0 {
                Some(Action::Quit)
            } else if c == 'r' {
                Some(Action::Reload)
            } else if c == 't' {
                Some(Action::Top)
            } else if c == 'b' {
                Some(Action::Bottom)
            } else if c == 'k' {
                Some(Action::PreviousRow)
            } else if c == 'j' {
                Some(Action::NextRow)
            } else {
                None
            },
            KeyCode::Up => Some(Action::PreviousRow),
            KeyCode::Down => Some(Action::NextRow),
            KeyCode::Enter => Some(Action::Enter),
            _ => None,
        },
        _ => None,
    }
}

/// Computes `store_action`.
pub fn action_for(event: Event) -> (action: Option<Action>)
    ensures
        action == store_action(event),
{
    match event {
        Event::Key(key) => match key.code {
            KeyCode::Char(c) => if c == 'q' {
                Some(Action::Quit)
            } else if c == 'c' && key.modifiers & CONTROL != 0 {
                Some(Action::Quit)
            } else if c == 'r' {
                Some(Action::Reload)
            } else if c == 't' {
                Some(Action::Top)
            } else if c == 'b' {
                Some(Action::Bottom)
            } else if c == 'k' {
                Some(Action::PreviousRow)
            } else if c == 'j' {
                Some(Action::NextRow)
            } else {
                None
            },
            KeyCode::Up => Some(Action::PreviousRow),
            KeyCode::Down => Some(Action::NextRow),
            KeyCode::Enter => Some(Action::Enter),
            _ => None,
        },
        _ => None,
    }
}

/// Has `store` take the action that `event` stands for, if it stands for
/// one, and says what is left to do.
pub fn handle_event(store: &mut Store, event: Event) -> (effect: Effect)
    requires
        old(store).wf(),
    ensures
        final(store).wf(),
        match store_action(event) {
            Some(action) => final(store)@ == store_after(old(store)@, action) && effect@
                == store_effect(action),
            None => final(store)@ == old(store)@ && effect@ == EffectView::Idle,
        },
{
    match action_for(event) {
        Some(action) => store.update(action),
        None => Effect::Idle,
    }
}

impl Store {
    /// The store's invariant: the cursor is on the list.
    pub closed spec fn wf(&self) -> bool {
        valid_cursor(self@.home.selected, self@.home.items.len())
    }

    /// The store at the start: an empty list, running.
    pub fn new() -> (store: Self)
        ensures
            store.wf(),
            store@ == (StoreState {
                home: HomeView { items: Seq::empty(), selected: None },
                running: true,
            }),
    {
        Self { home: Home::new(), running: true }
    }

    /// The list.
    pub fn home(&self) -> (home: &Home)
        ensures
            home@ == self@.home,
    {
        &self.home
    }

    /// Whether the client goes on.
    pub fn is_running(&self) -> (running: bool)
        ensures
            running == self@.running,
    {
        self.running
    }

    /// Takes an action, and says what is left to do.
    pub fn update(&mut self, action: Action) -> (effect: Effect)
        requires
            old(self).wf(),
        ensures
            final(self).wf(),
            final(self)@ == store_after(old(self)@, action),
            effect@ == store_effect(action),
    {
        let len = self.home.items.len();
        match action {
            Action::PreviousRow => {
                match self.home.selected {
                    Some(i) => if i > 0 {
                        self.home.selected = Some(i - 1);
                    },
                    None => {},
                }
                Effect::Idle
            },
            Action::NextRow => {
                match self.home.selected {
                    Some(i) => if i < len - 1 {
                        self.home.selected = Some(i + 1);
                    },
                    None => {},
                }
                Effect::Idle
            },
            Action::Reload => {
                if len > 0 {
                    self.home.selected = Some(0);
                }
                Effect::FetchFeed
            },
            Action::Top => {
                if len > 0 {
                    self.home.selected = Some(0);
                }
                Effect::Idle
            },
            Action::Bottom => {
                if len > 0 {
                    self.home.selected = Some(len - 1);
                }
                Effect::Idle
            },
            Action::Enter => Effect::Idle,
            Action::Quit => {
                self.running = false;
                Effect::Quit
            },
        }
    }

    /// Takes what the fetch has brought. Topics replace the list and the
    /// cursor goes to the first. A failure leaves the store as it is and
    /// comes back to the caller.
    pub fn load(&mut self, outcome: Result<Vec<Topic>, FetchError>) -> (r: Result<(), FetchError>)
        requires
            old(self).wf(),
        ensures
            final(self).wf(),
            match outcome {
                Ok(topics) => r is Ok && final(self)@ == (StoreState {
                    home: HomeView {
                        items: topic_views(topics@),
                        selected: first_cursor(topics@.len()),
                    },
                    ..old(self)@
                }),
                Err(e) => r == Err::<(), FetchError>(e) && final(self)@ == old(self)@,
            },
    {
        match outcome {
            Ok(topics) => {
                self.home.selected = if topics.len() > 0 {
                    Some(0)
                } else {
                    None
                };
                self.home.items = topics;
                Ok(())
            },
            Err(e) => Err(e),
        }
    }
}

} // verus!
