//! A conversation, and the changes that the store makes to one.

use vstd::prelude::*;
use crate::records::{views, view_of, Identity, IdentityView, Message, MessageView};

verus! {

/// A conversation. The store keeps the canonical record of each chat and
/// copies of it in the lists it shows; copies of one chat share its id.
#[derive(Debug, PartialEq, Eq)]
pub struct Chat {
    /// The id of the chat, unique and stable.
    pub id: u128,
    /// The participants of the chat.
    pub participants: Vec<Identity>,
    /// The messages to render, not the whole history.
    pub messages: Vec<Message>,
    /// Unread count for this chat, cleared when the chat is viewed.
    pub unreads: u32,
    /// The message that is being replied to, if any.
    pub replying_to: Option<Message>,
}

/// The value of a `Chat`.
pub struct ChatView {
    pub id: u128,
    pub participants: Seq<IdentityView>,
    pub messages: Seq<MessageView>,
    pub unreads: u32,
    pub replying_to: Option<MessageView>,
}

impl ChatView {
    /// The chat with id zero, nobody in it and nothing said.
    pub open spec fn empty() -> ChatView {
        ChatView {
            id: 0,
            participants: Seq::empty(),
            messages: Seq::empty(),
            unreads: 0,
            replying_to: None,
        }
    }

    /// Two copies agree when they show the same unread count and the same
    /// message replied to.
    pub open spec fn agrees_with(self, other: ChatView) -> bool {
        self.unreads == other.unreads && self.replying_to == other.replying_to
    }
}

impl View for Chat {
    type V = ChatView;

    open spec fn view(&self) -> ChatView {
        ChatView {
            id: self.id,
            participants: views(self.participants@),
            messages: views(self.messages@),
            unreads: self.unreads,
            replying_to: view_of(self.replying_to),
        }
    }
}

impl Clone for Chat {
    fn clone(&self) -> (r: Self)
        ensures
            r@ == self@,
    {
        let participants = self.participants.clone();
        let messages = self.messages.clone();
        let replying_to = self.replying_to.clone();
        assert(views(participants@) =~= views(self.participants@));
        assert(views(messages@) =~= views(self.messages@));
        Chat { id: self.id, participants, messages, unreads: self.unreads, replying_to }
    }
}

impl Default for Chat {
    fn default() -> (r: Self)
        ensures
            r@ == ChatView::empty(),
    {
        let r = Chat {
            id: 0,
            participants: Vec::new(),
            messages: Vec::new(),
            unreads: 0,
            replying_to: None,
        };
        assert(r@.participants =~= Seq::<IdentityView>::empty());
        assert(r@.messages =~= Seq::<MessageView>::empty());
        r
    }
}

/// A change to the fields of a chat that every copy of the chat has to follow.
#[derive(Debug, PartialEq, Eq)]
pub enum Patch {
    /// The chat has been read: no unread message is left.
    ClearUnreads,
    /// The user starts replying to this message.
    Reply(Message),
    /// The user gives up replying.
    CancelReply,
}

/// The value of a `Patch`.
pub enum PatchView {
    ClearUnreads,
    Reply(MessageView),
    CancelReply,
}

impl PatchView {
    /// The chat after the change. The id, the participants and the messages
    /// stay; of the unread count and the message replied to, the one that
    /// the change names is set.
    pub open spec fn apply(self, chat: ChatView) -> ChatView {
        match self {
            PatchView::ClearUnreads => ChatView { unreads: 0, ..chat },
            PatchView::Reply(message) => ChatView { replying_to: Some(message), ..chat },
            PatchView::CancelReply => ChatView { replying_to: None, ..chat },
        }
    }

    /// The chat after the change if it is the chat with this id, else the
    /// chat as it is.
    pub open spec fn apply_to(self, id: u128, chat: ChatView) -> ChatView {
        if chat.id == id {
            self.apply(chat)
        } else {
            chat
        }
    }
}

impl View for Patch {
    type V = PatchView;

    open spec fn view(&self) -> PatchView {
        match self {
            Patch::ClearUnreads => PatchView::ClearUnreads,
            Patch::Reply(message) => PatchView::Reply(message@),
            Patch::CancelReply => PatchView::CancelReply,
        }
    }
}

impl Chat {
    /// Makes the change to this chat.
    pub fn apply(&mut self, patch: &Patch)
        ensures
            final(self)@ == patch@.apply(old(self)@),
    {
        match patch {
            Patch::ClearUnreads => {
                self.unreads = 0;
            },
            Patch::Reply(message) => {
                self.replying_to = Some(message.clone());
            },
            Patch::CancelReply => {
                self.replying_to = None;
            },
        }
    }
}

} // verus!
