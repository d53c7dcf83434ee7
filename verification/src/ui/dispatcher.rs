//! Hands actions to the store.

use vstd::prelude::*;
use crate::action::Effect;
use crate::ui::action::Action;
use crate::ui::store::{store_after, store_effect, Store};

verus! {

/// The way by which actions reach the store.
pub struct Dispatcher {}

impl Dispatcher {
    pub fn new() -> Self {
        Self {  }
    }

    /// Has `store` take `action`, and says what is left to do.
    pub fn dispatch(&mut self, store: &mut Store, action: Action) -> (effect: Effect)
        requires
            old(store).wf(),
        ensures
            final(store).wf(),
            final(store)@ == store_after(old(store)@, action),
            effect@ == store_effect(action),
    {
        store.update(action)
    }
}

} // verus!
