//! The screens. Each owns its state, maps input to actions, and takes the
//! actions that the router forwards to it.

use vstd::prelude::*;
use crate::action::{Action, Effect};
use crate::event::Event;


pub mod detail;
pub mod home;

verus! {

/// Which screen.
#[derive(Clone, Copy, Debug, PartialEq, Eq, Structural)]
pub enum PageType {
    Home,
    Detail,
}

/// What every screen offers the router.
pub trait Page {
    /// The page's invariant. `new` establishes it and every method keeps it.
    spec fn wf(&self) -> bool;

    /// Which screen this is.
    fn page_type(&self) -> PageType;

    /// Makes the page ready to be shown again; the action it returns, if
    /// any, is to be dispatched next.
    fn init(&mut self) -> (next: Option<Action>)
        requires
            old(self).wf(),
        ensures
            final(self).wf(),
    ;

    /// The action that an input event stands for on this page.
    fn handle_event(&self, event: Event) -> (action: Option<Action>);

    /// Takes an action.
    fn update(&mut self, action: Action) -> (effect: Effect)
        requires
            old(self).wf(),
        ensures
            final(self).wf(),
    ;
}

} // verus!
