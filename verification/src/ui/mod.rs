//! The single-screen form of the client: one store that holds the topic
//! list, and a dispatcher that hands it actions.

pub mod action;
pub mod dispatcher;
pub mod store;

pub use dispatcher::Dispatcher;
pub use store::Store;
