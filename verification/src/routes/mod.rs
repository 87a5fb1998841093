//! What each request handler decides, apart from the store and the network.

pub mod queue;
pub mod search;
pub mod settings;
pub mod users;
pub mod ws;
