//! The state store of a chat client: one aggregate of account, route, chats,
//! friends and files, changed only by dispatching an `Action`.
//!
//! `State::mutate` applies an action and shows the result to the hooks. What
//! an action does is stated over the values of the states (`StateView`), and
//! `laws` holds what follows for every state and every action: no chat twice
//! in a list, no stale copy of a chat, copies that agree.

pub mod action;
pub mod chat;
pub mod chats;
pub mod laws;
pub mod records;
pub mod state;

pub use action::Action;
pub use chat::Chat;
pub use chats::Chats;
pub use records::{Account, Files, Friends, Identity, Item, Message, Reaction, Route, To};
pub use state::{Hook, Snapshot, State};
