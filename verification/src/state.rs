//! The state aggregate, its hooks, and the dispatch of actions.

use vstd::prelude::*;
use vstd::pervasive::unreached;
use crate::action::Action;
use crate::chat::{Chat, ChatView, Patch, PatchView};
use crate::chats::{has_id, lemma_first_with_id, position, Chats, ChatsView};
use crate::laws::{admits, lemma_consistency_kept, lemma_empty_state, lemma_well_formed_kept};
use crate::records::{
    view_of, Account, Files, FilesView, Friends, FriendsView, Identity, IdentityView, Message,
    Route,
};

verus! {

/// What a hook is shown: the parts of the state, read-only.
pub struct Snapshot<'a> {
    pub account: &'a Account,
    pub route: &'a Route,
    pub chats: &'a Chats,
    pub friends: &'a Friends,
    pub files: &'a Files,
}

/// An observer of the state.
pub trait Hook {
    /// Called with the state that a mutation has left.
    fn state_changed(&self, snapshot: &Snapshot<'_>);
}

/// The whole state of the application. Its hooks are no part of its value:
/// they are neither compared nor copied.
pub struct State {
    pub account: Account,
    pub route: Route,
    pub chats: Chats,
    pub friends: Friends,
    pub files: Files,
    /// The observers, in the order in which they were added.
    pub hooks: Vec<Box<dyn Hook>>,
}

/// The value of a `State`: everything but the hooks.
pub struct StateView {
    pub account: IdentityView,
    pub route: Seq<char>,
    pub chats: ChatsView,
    pub friends: FriendsView,
    pub files: FilesView,
}

impl View for State {
    type V = StateView;

    open spec fn view(&self) -> StateView {
        StateView {
            account: self.account@,
            route: self.route@,
            chats: self.chats@,
            friends: self.friends@,
            files: self.files@,
        }
    }
}

impl StateView {
    /// The state of a fresh installation: the empty identity, the empty
    /// route, no chats, no friends and no files.
    pub open spec fn empty() -> StateView {
        StateView {
            account: IdentityView::empty(),
            route: Seq::empty(),
            chats: ChatsView::empty(),
            friends: FriendsView::empty(),
            files: FilesView::empty(),
        }
    }

    /// This state with other chats.
    pub open spec fn with_chats(self, chats: ChatsView) -> StateView {
        StateView { chats, ..self }
    }

    /// The state that an action leaves. An action without a handler leaves
    /// none: `State::mutate` does not take it, and here it stands for the
    /// state as it is.
    pub open spec fn apply(self, action: Action) -> StateView {
        match action {
            Action::SetId(identity) => StateView { account: identity@, ..self },
            Action::Navigate(to) => StateView { route: to@, ..self },
            Action::Favorite(chat) => self.with_chats(self.chats.favorite(chat@)),
            Action::UnFavorite(chat) => self.with_chats(self.chats.unfavorite(chat@)),
            Action::ToggleFavorite(chat) => self.with_chats(self.chats.toggle_favorite(chat@)),
            Action::ChatWith(chat) => self.with_chats(self.chats.chat_with(chat@)),
            Action::AddToSidebar(chat) => self.with_chats(self.chats.add_to_sidebar(chat@)),
            Action::RemoveFromSidebar(chat) => self.with_chats(
                self.chats.remove_from_sidebar(chat@),
            ),
            Action::StartReplying(chat, message) => self.with_chats(
                self.chats.replicate(chat.id, PatchView::Reply(message@)),
            ),
            Action::CancelReply(chat) => self.with_chats(
                self.chats.replicate(chat.id, PatchView::CancelReply),
            ),
            Action::ClearUnreads(chat) => self.with_chats(
                self.chats.replicate(chat.id, PatchView::ClearUnreads),
            ),
            Action::SendRequest(_)
            | Action::RequestAccepted(_)
            | Action::CancelRequest(_)
            | Action::IncomingRequest(_)
            | Action::AcceptRequest(_)
            | Action::DenyRequest(_)
            | Action::Block(_)
            | Action::UnBlock(_)
            | Action::NewMessage(_, _)
            | Action::React(_, _, _)
            | Action::Reply(_, _)
            | Action::Send(_, _) => self,
        }
    }

    /// The state that a sequence of actions leaves, the first action first.
    pub open spec fn apply_all(self, actions: Seq<Action>) -> StateView
        decreases actions.len(),
    {
        if actions.len() == 0 {
            self
        } else {
            self.apply_all(actions.drop_last()).apply(actions.last())
        }
    }

    /// What loading makes of a saved state: the saved state where there is
    /// one and its chats are well formed, the state of a fresh installation
    /// where there is none or it is damaged.
    pub open spec fn restored(saved: Option<StateView>) -> StateView {
        match saved {
            Some(state) if state.chats.well_formed() => state,
            _ => StateView::empty(),
        }
    }
}

impl Clone for State {
    /// The copy has the value of the state and no hooks: a snapshot that is
    /// handed out cannot set off the observers.
    fn clone(&self) -> (r: Self)
        ensures
            r@ == self@,
            r.hooks@.len() == 0,
    {
        State {
            account: self.account.clone(),
            route: self.route.clone(),
            chats: self.chats.clone(),
            friends: self.friends.clone(),
            files: self.files.clone(),
            hooks: Vec::new(),
        }
    }
}

impl Default for State {
    /// The state of a fresh installation. Its chats are well formed and
    /// their copies agree, there being none.
    fn default() -> (r: Self)
        ensures
            r@ == StateView::empty(),
            r@.chats.well_formed(),
            r@.chats.consistent(),
            r.hooks@.len() == 0,
    {
        proof {
            lemma_empty_state();
        }
        State {
            account: Account::default(),
            route: Route::default(),
            chats: Chats::default(),
            friends: Friends::default(),
            files: Files::default(),
            hooks: Vec::new(),
        }
    }
}

impl State {
    /// Constructs a new `State` with default values.
    pub fn new() -> (r: Self)
        ensures
            r@ == StateView::empty(),
            r@.chats.well_formed(),
            r@.chats.consistent(),
            r.hooks@.len() == 0,
    {
        State::default()
    }

    /// Makes a state of what was read from storage: the saved state itself
    /// where one was read and its chats are well formed, else a fresh one.
    /// Either way it has no hooks.
    pub fn load(saved: Option<State>) -> (r: Self)
        ensures
            r@ == StateView::restored(view_of(saved)),
            r@.chats.well_formed(),
            r.hooks@.len() == 0,
    {
        match saved {
            Some(state) => {
                if state.chats.is_well_formed() {
                    State {
                        account: state.account,
                        route: state.route,
                        chats: state.chats,
                        friends: state.friends,
                        files: state.files,
                        hooks: Vec::new(),
                    }
                } else {
                    State::default()
                }
            },
            None => State::default(),
        }
    }

    /// Sets the active chat.
    fn set_active_chat(&mut self, chat: &Chat)
        ensures
            final(self)@ == old(self)@.with_chats(
                (ChatsView { active: Some(chat@), ..old(self)@.chats }),
            ),
            final(self).hooks@ == old(self).hooks@,
    {
        self.chats.active = Some(chat.clone());
    }

    /// Clears the active chat.
    fn clear_active_chat(&mut self)
        ensures
            final(self)@ == old(self)@.with_chats(
                (ChatsView { active: None, ..old(self)@.chats }),
            ),
            final(self).hooks@ == old(self).hooks@,
    {
        self.chats.active = None;
    }

    /// Adds a chat to the sidebar, unless a chat with its id is there.
    fn add_chat_to_sidebar(&mut self, chat: Chat)
        ensures
            final(self)@ == old(self)@.with_chats(old(self)@.chats.add_to_sidebar(chat@)),
            final(self).hooks@ == old(self).hooks@,
    {
        if position(&self.chats.in_sidebar, chat.id).is_none() {
            self.chats.in_sidebar.push(chat);
            assert(self@.chats.in_sidebar =~= old(self)@.chats.in_sidebar.push(chat@));
        }
    }

    /// Sets the active route.
    fn set_active_route(&mut self, to: String)
        ensures
            final(self)@ == (StateView { route: to@, ..old(self)@ }),
            final(self).hooks@ == old(self).hooks@,
    {
        self.route.active = to;
    }

    /// Adds the given chat to the favorites, unless a chat with its id is
    /// one already.
    pub fn favorite(&mut self, chat: &Chat)
        ensures
            final(self)@ == old(self)@.with_chats(old(self)@.chats.favorite(chat@)),
            final(self).hooks@ == old(self).hooks@,
    {
        if position(&self.chats.favorites, chat.id).is_none() {
            self.chats.favorites.push(chat.clone());
            assert(self@.chats.favorites =~= old(self)@.chats.favorites.push(chat@));
        }
    }

    /// Removes the chat with the id of the given one from the favorites.
    pub fn unfavorite(&mut self, chat: &Chat)
        ensures
            final(self)@ == old(self)@.with_chats(old(self)@.chats.unfavorite(chat@)),
            final(self).hooks@ == old(self).hooks@,
    {
        if let Some(index) = position(&self.chats.favorites, chat.id) {
            proof {
                lemma_first_with_id(
                    old(self)@.chats.favorites,
                    chat.id,
                    index as int,
                );
            }
            self.chats.favorites.remove(index);
            assert(self@.chats.favorites =~= old(self)@.chats.favorites.remove(index as int));
        }
    }

    /// Removes the chat from the favorites if it is one, and adds it to them
    /// if it is none.
    fn toggle_favorite(&mut self, chat: &Chat)
        ensures
            final(self)@ == old(self)@.with_chats(old(self)@.chats.toggle_favorite(chat@)),
            final(self).hooks@ == old(self).hooks@,
    {
        match position(&self.chats.favorites, chat.id) {
            Some(index) => {
                proof {
                    lemma_first_with_id(
                        old(self)@.chats.favorites,
                        chat.id,
                        index as int,
                    );
                }
                self.chats.favorites.remove(index);
                assert(self@.chats.favorites =~= old(self)@.chats.favorites.remove(
                    index as int,
                ));
            },
            None => {
                self.chats.favorites.push(chat.clone());
                assert(self@.chats.favorites =~= old(self)@.chats.favorites.push(chat@));
            },
        }
    }

    /// Begins replying to a message in the given chat, if the chat has a
    /// canonical record: the record then shows the message, and every copy
    /// of the chat is the record.
    fn start_replying(&mut self, chat: &Chat, message: &Message)
        ensures
            final(self)@ == old(self)@.with_chats(
                old(self)@.chats.replicate(chat.id, PatchView::Reply(message@)),
            ),
            final(self).hooks@ == old(self).hooks@,
    {
        self.chats.replicate(chat.id, &Patch::Reply(message.clone()));
    }

    /// Cancels the reply in the given chat, if the chat has a canonical
    /// record: the record then shows no message replied to, and every copy of
    /// the chat is the record.
    fn cancel_reply(&mut self, chat: &Chat)
        ensures
            final(self)@ == old(self)@.with_chats(
                old(self)@.chats.replicate(chat.id, PatchView::CancelReply),
            ),
            final(self).hooks@ == old(self).hooks@,
    {
        self.chats.replicate(chat.id, &Patch::CancelReply);
    }

    /// Clears the unread count of the given chat, if the chat has a canonical
    /// record: the record then counts zero, and every copy of the chat is the
    /// record.
    fn clear_unreads(&mut self, chat: &Chat)
        ensures
            final(self)@ == old(self)@.with_chats(
                old(self)@.chats.replicate(chat.id, PatchView::ClearUnreads),
            ),
            final(self).hooks@ == old(self).hooks@,
    {
        self.chats.replicate(chat.id, &Patch::ClearUnreads);
    }

    /// Removes the chat from the sidebar, and clears the active chat if it
    /// is the one removed.
    fn remove_sidebar_chat(&mut self, chat: &Chat)
        ensures
            final(self)@ == old(self)@.with_chats(old(self)@.chats.remove_from_sidebar(chat@)),
            final(self).hooks@ == old(self).hooks@,
    {
        if let Some(index) = position(&self.chats.in_sidebar, chat.id) {
            proof {
                lemma_first_with_id(
                    old(self)@.chats.in_sidebar,
                    chat.id,
                    index as int,
                );
            }
            self.chats.in_sidebar.remove(index);
            assert(self@.chats.in_sidebar =~= old(self)@.chats.in_sidebar.remove(index as int));
        }
        let is_active = match &self.chats.active {
            Some(active) => active.id == chat.id,
            None => false,
        };
        if is_active {
            self.clear_active_chat();
        }
    }

    /// Makes the chat the active one and marks it as read wherever it
    /// appears.
    fn chat_with(&mut self, chat: &Chat)
        ensures
            final(self)@ == old(self)@.with_chats(old(self)@.chats.chat_with(chat@)),
            final(self).hooks@ == old(self).hooks@,
    {
        self.set_active_chat(chat);
        if self.chats.all.contains_key(&chat.id) {
            self.chats.replicate(chat.id, &Patch::ClearUnreads);
        } else {
            self.chats.patch_copies(chat.id, &Patch::ClearUnreads);
        }
    }

    /// Sets the identity of the user.
    pub fn set_identity(&mut self, identity: &Identity)
        ensures
            final(self)@ == (StateView { account: identity@, ..old(self)@ }),
            final(self).hooks@ == old(self).hooks@,
    {
        self.account.identity = identity.clone();
    }

    /// Tells whether a chat with the id of the given one is a favorite.
    pub fn is_favorite(&self, chat: &Chat) -> (favorite: bool)
        ensures
            favorite == has_id(self@.chats.favorites, chat.id),
    {
        position(&self.chats.favorites, chat.id).is_some()
    }

    /// A copy of the active chat, or the empty chat where none is active.
    pub fn get_active_chat(&self) -> (chat: Chat)
        ensures
            chat@ == match self@.chats.active {
                Some(active) => active,
                None => ChatView::empty(),
            },
    {
        match &self.chats.active {
            Some(active) => active.clone(),
            None => Chat::default(),
        }
    }

    /// Adds an observer behind those that are there.
    pub fn add_hook(&mut self, hook: Box<dyn Hook>)
        ensures
            final(self)@ == old(self)@,
            final(self).hooks@ == old(self).hooks@.push(hook),
    {
        self.hooks.push(hook);
    }

    /// Shows the state to each hook, in the order in which they were added.
    fn run_hooks(&self) {
        let snapshot = Snapshot {
            account: &self.account,
            route: &self.route,
            chats: &self.chats,
            friends: &self.friends,
            files: &self.files,
        };
        let mut i: usize = 0;
        while i < self.hooks.len()
            invariant
                i <= self.hooks@.len(),
            decreases self.hooks@.len() - i,
        {
            self.hooks[i].state_changed(&snapshot);
            i = i + 1;
        }
    }

    /// Applies one action to the state, then shows the new state to every
    /// hook in turn. An action that has no handler yet is not taken.
    pub fn mutate(&mut self, action: Action)
        requires
            action.implemented(),
        ensures
            final(self)@ == old(self)@.apply(action),
            final(self).hooks@ == old(self).hooks@,
            old(self)@.chats.well_formed() ==> final(self)@.chats.well_formed(),
            old(self)@.chats.well_formed() && old(self)@.chats.consistent() && admits(
                old(self)@.chats,
                action,
            ) ==> final(self)@.chats.consistent(),
    {
        proof {
            if old(self)@.chats.well_formed() {
                lemma_well_formed_kept(old(self)@, action);
            }
            if old(self)@.chats.well_formed() && old(self)@.chats.consistent() && admits(
                old(self)@.chats,
                action,
            ) {
                lemma_consistency_kept(old(self)@, action);
            }
        }
        match action {
            Action::SetId(identity) => self.set_identity(&identity),
            Action::SendRequest(_) => unreached(),
            Action::RequestAccepted(_) => unreached(),
            Action::CancelRequest(_) => unreached(),
            Action::IncomingRequest(_) => unreached(),
            Action::AcceptRequest(_) => unreached(),
            Action::DenyRequest(_) => unreached(),
            Action::Block(_) => unreached(),
            Action::UnBlock(_) => unreached(),
            Action::Favorite(chat) => self.favorite(&chat),
            Action::UnFavorite(chat) => self.unfavorite(&chat),
            Action::ChatWith(chat) => self.chat_with(&chat),
            Action::AddToSidebar(chat) => self.add_chat_to_sidebar(chat),
            Action::RemoveFromSidebar(chat) => self.remove_sidebar_chat(&chat),
            Action::NewMessage(_, _) => unreached(),
            Action::ToggleFavorite(chat) => self.toggle_favorite(&chat),
            Action::StartReplying(chat, message) => self.start_replying(&chat, &message),
            Action::CancelReply(chat) => self.cancel_reply(&chat),
            Action::ClearUnreads(chat) => self.clear_unreads(&chat),
            Action::React(_, _, _) => unreached(),
            Action::Reply(_, _) => unreached(),
            Action::Send(_, _) => unreached(),
            Action::Navigate(to) => self.set_active_route(to),
        }
        self.run_hooks();
    }
}

} // verus!
