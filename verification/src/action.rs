//! The vocabulary of intents that input handling produces and the router
//! and the pages consume, and what a step asks of the world outside.

use vstd::prelude::*;

verus! {

/// An intent. Actions are data: what one brings about is said where it is
/// consumed.
#[derive(PartialEq, Debug, Clone)]
pub enum Action {
    PreviousRow,
    NextRow,
    Top,
    Bottom,
    Enter,
    Reload,
    FetchTopics,
    /// Fetch the detail of the topic at this address.
    FetchTopicDetail(String),
    GoHome,
    /// Scroll up by so many lines.
    LineUp(u32),
    /// Scroll down by so many lines.
    LineDown(u32),
    /// Open this address in the host's browser.
    OpenBrowser(String),
    Quit,
    Noop,
}

/// An `Action` as a mathematical value.
pub enum ActionView {
    PreviousRow,
    NextRow,
    Top,
    Bottom,
    Enter,
    Reload,
    FetchTopics,
    FetchTopicDetail(Seq<char>),
    GoHome,
    LineUp(u32),
    LineDown(u32),
    OpenBrowser(Seq<char>),
    Quit,
    Noop,
}

impl View for Action {
    type V = ActionView;

    open spec fn view(&self) -> ActionView {
        match *self {
            Action::PreviousRow => ActionView::PreviousRow,
            Action::NextRow => ActionView::NextRow,
            Action::Top => ActionView::Top,
            Action::Bottom => ActionView::Bottom,
            Action::Enter => ActionView::Enter,
            Action::Reload => ActionView::Reload,
            Action::FetchTopics => ActionView::FetchTopics,
            Action::FetchTopicDetail(url) => ActionView::FetchTopicDetail(url@),
            Action::GoHome => ActionView::GoHome,
            Action::LineUp(n) => ActionView::LineUp(n),
            Action::LineDown(n) => ActionView::LineDown(n),
            Action::OpenBrowser(url) => ActionView::OpenBrowser(url@),
            Action::Quit => ActionView::Quit,
            Action::Noop => ActionView::Noop,
        }
    }
}

impl DeepView for Action {
    type V = ActionView;

    open spec fn deep_view(&self) -> ActionView {
        self@
    }
}

/// What a step leaves for its caller to do. The library decides; what
/// reaches outside the process (the network, the browser, the end of the
/// process) is the caller's to carry out.
#[derive(PartialEq, Debug, Clone)]
pub enum Effect {
    /// Nothing is left to do.
    Idle,
    /// Dispatch this action next.
    Dispatch(Action),
    /// Fetch the feed and hand its body to the router.
    FetchFeed,
    /// Fetch the page at this address and hand its body to the router.
    FetchPage(String),
    /// Open this address in the host's browser.
    OpenBrowser(String),
    /// End the process.
    Quit,
}

/// An `Effect` as a mathematical value.
pub enum EffectView {
    Idle,
    Dispatch(ActionView),
    FetchFeed,
    FetchPage(Seq<char>),
    OpenBrowser(Seq<char>),
    Quit,
}

impl View for Effect {
    type V = EffectView;

    open spec fn view(&self) -> EffectView {
        match *self {
            Effect::Idle => EffectView::Idle,
            Effect::Dispatch(action) => EffectView::Dispatch(action@),
            Effect::FetchFeed => EffectView::FetchFeed,
            Effect::FetchPage(url) => EffectView::FetchPage(url@),
            Effect::OpenBrowser(url) => EffectView::OpenBrowser(url@),
            Effect::Quit => EffectView::Quit,
        }
    }
}

} // verus!
