//! The intents that the store accepts.

use vstd::prelude::*;
use crate::chat::Chat;
use crate::records::{Identity, Message, Reaction, To};

verus! {

/// One intended change of the state. The list is the whole contract between
/// the user interface and the store; the variants that have no handler yet
/// are part of it, and `State::mutate` does not take them.
#[derive(Debug, PartialEq, Eq)]
pub enum Action {
    // Account
    /// Sets the identity of the user.
    SetId(Identity),
    // Routes
    /// Sets the active route.
    Navigate(To),
    // Requests
    /// Sends a new friend request.
    SendRequest(Identity),
    /// To be fired when a friend request the user sent is accepted.
    RequestAccepted(Identity),
    /// Cancels an outgoing request.
    CancelRequest(Identity),
    /// Handles a new incoming friend request.
    IncomingRequest(Identity),
    /// Accepts an incoming friend request.
    AcceptRequest(Identity),
    /// Denies an incoming friend request.
    DenyRequest(Identity),
    // Friends
    /// Blocks a peer.
    Block(Identity),
    /// Lifts the block of a peer.
    UnBlock(Identity),
    /// Marks a chat as favorite.
    Favorite(Chat),
    /// Takes a chat from the favorites.
    UnFavorite(Chat),
    /// Sets the active chat to a given chat.
    ChatWith(Chat),
    /// Adds a chat to the sidebar.
    AddToSidebar(Chat),
    /// Removes a chat from the sidebar, and from being active if it is.
    RemoveFromSidebar(Chat),
    /// Adds a chat to the favorites or removes it from them.
    ToggleFavorite(Chat),
    // Messaging
    /// Records a new message.
    NewMessage(Chat, Message),
    /// Reacts to a given message.
    React(Chat, Message, Reaction),
    /// Replies to a given message.
    Reply(Chat, Message),
    /// Prepares the reply to a message.
    StartReplying(Chat, Message),
    /// Clears the reply for a given chat.
    CancelReply(Chat),
    /// Sends a message to the given chat.
    Send(Chat, Message),
    /// Marks a chat as read.
    ClearUnreads(Chat),
}

impl Action {
    /// The store has a handler for this action.
    pub open spec fn implemented(self) -> bool {
        match self {
            Action::SetId(_)
            | Action::Navigate(_)
            | Action::Favorite(_)
            | Action::UnFavorite(_)
            | Action::ChatWith(_)
            | Action::AddToSidebar(_)
            | Action::RemoveFromSidebar(_)
            | Action::ToggleFavorite(_)
            | Action::StartReplying(_, _)
            | Action::CancelReply(_)
            | Action::ClearUnreads(_) => true,
            Action::SendRequest(_)
            | Action::RequestAccepted(_)
            | Action::CancelRequest(_)
            | Action::IncomingRequest(_)
            | Action::AcceptRequest(_)
            | Action::DenyRequest(_)
            | Action::Block(_)
            | Action::UnBlock(_)
            | Action::NewMessage(_, _)
            | Action::React(_, _, _)
            | Action::Reply(_, _)
            | Action::Send(_, _) => false,
        }
    }

    /// Tells whether the store has a handler for this action.
    pub fn is_implemented(&self) -> (yes: bool)
        ensures
            yes == self.implemented(),
    {
        match self {
            Action::SetId(_) => true,
            Action::Navigate(_) => true,
            Action::SendRequest(_) => false,
            Action::RequestAccepted(_) => false,
            Action::CancelRequest(_) => false,
            Action::IncomingRequest(_) => false,
            Action::AcceptRequest(_) => false,
            Action::DenyRequest(_) => false,
            Action::Block(_) => false,
            Action::UnBlock(_) => false,
            Action::Favorite(_) => true,
            Action::UnFavorite(_) => true,
            Action::ChatWith(_) => true,
            Action::AddToSidebar(_) => true,
            Action::RemoveFromSidebar(_) => true,
            Action::ToggleFavorite(_) => true,
            Action::NewMessage(_, _) => false,
            Action::React(_, _, _) => false,
            Action::Reply(_, _) => false,
            Action::StartReplying(_, _) => true,
            Action::CancelReply(_) => true,
            Action::Send(_, _) => false,
            Action::ClearUnreads(_) => true,
        }
    }
}

} // verus!
