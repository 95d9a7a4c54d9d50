//! The plain records that the store keeps: identities, messages, files, the
//! account and the route. Each record has a view, its mathematical value, and
//! the contracts of the store speak of these views only.

use vstd::prelude::*;
use std::collections::HashMap;

verus! {

/// The views of the elements of a sequence, in the same order.
pub open spec fn views<T: View>(s: Seq<T>) -> Seq<T::V> {
    s.map_values(|t: T| t@)
}

/// The view of an optional record.
pub open spec fn view_of<T: View>(o: Option<T>) -> Option<T::V> {
    match o {
        Some(t) => Some(t@),
        None => None,
    }
}

/// Alias for the type representing a route.
pub type To = String;

/// A peer as the network knows it: the text of its public key and the name
/// it shows.
#[derive(Debug, PartialEq, Eq)]
pub struct Identity {
    pub did_key: String,
    pub username: String,
}

/// The value of an `Identity`.
pub struct IdentityView {
    pub did_key: Seq<char>,
    pub username: Seq<char>,
}

impl IdentityView {
    /// The identity of a fresh installation: no key and no name.
    pub open spec fn empty() -> IdentityView {
        IdentityView { did_key: Seq::empty(), username: Seq::empty() }
    }
}

impl View for Identity {
    type V = IdentityView;

    open spec fn view(&self) -> IdentityView {
        IdentityView { did_key: self.did_key@, username: self.username@ }
    }
}

impl Clone for Identity {
    fn clone(&self) -> (r: Self)
        ensures
            r@ == self@,
    {
        Identity { did_key: self.did_key.clone(), username: self.username.clone() }
    }
}

impl Default for Identity {
    fn default() -> (r: Self)
        ensures
            r@ == IdentityView::empty(),
    {
        Identity { did_key: String::new(), username: String::new() }
    }
}

/// One message of a conversation: its id, the key of its sender, the time it
/// was sent in milliseconds since the epoch, and its text line by line.
#[derive(Debug, PartialEq, Eq)]
pub struct Message {
    pub id: u128,
    pub sender: String,
    pub date: i64,
    pub lines: Vec<String>,
}

/// The value of a `Message`.
pub struct MessageView {
    pub id: u128,
    pub sender: Seq<char>,
    pub date: i64,
    pub lines: Seq<Seq<char>>,
}

impl MessageView {
    /// The message with id zero, no sender and no text.
    pub open spec fn empty() -> MessageView {
        MessageView { id: 0, sender: Seq::empty(), date: 0, lines: Seq::empty() }
    }
}

impl View for Message {
    type V = MessageView;

    open spec fn view(&self) -> MessageView {
        MessageView {
            id: self.id,
            sender: self.sender@,
            date: self.date,
            lines: views(self.lines@),
        }
    }
}

impl Clone for Message {
    fn clone(&self) -> (r: Self)
        ensures
            r@ == self@,
    {
        let lines = self.lines.clone();
        assert(views(lines@) =~= views(self.lines@));
        Message { id: self.id, sender: self.sender.clone(), date: self.date, lines }
    }
}

impl Default for Message {
    fn default() -> (r: Self)
        ensures
            r@ == MessageView::empty(),
    {
        let lines: Vec<String> = Vec::new();
        assert(views(lines@) =~= Seq::<Seq<char>>::empty());
        Message { id: 0, sender: String::new(), date: 0, lines }
    }
}

/// A reaction to a message: the emoji and the keys of those who chose it.
#[derive(Debug, PartialEq, Eq)]
pub struct Reaction {
    pub emoji: String,
    pub users: Vec<String>,
}

/// The value of a `Reaction`.
pub struct ReactionView {
    pub emoji: Seq<char>,
    pub users: Seq<Seq<char>>,
}

impl View for Reaction {
    type V = ReactionView;

    open spec fn view(&self) -> ReactionView {
        ReactionView { emoji: self.emoji@, users: views(self.users@) }
    }
}

impl Clone for Reaction {
    fn clone(&self) -> (r: Self)
        ensures
            r@ == self@,
    {
        let users = self.users.clone();
        assert(views(users@) =~= views(self.users@));
        Reaction { emoji: self.emoji.clone(), users }
    }
}

/// An entry of the file store: a file or a directory, by name and size.
#[derive(Debug, PartialEq, Eq)]
pub struct Item {
    pub name: String,
    pub size: u64,
    pub directory: bool,
}

/// The value of an `Item`.
pub struct ItemView {
    pub name: Seq<char>,
    pub size: u64,
    pub directory: bool,
}

impl View for Item {
    type V = ItemView;

    open spec fn view(&self) -> ItemView {
        ItemView { name: self.name@, size: self.size, directory: self.directory }
    }
}

impl Clone for Item {
    fn clone(&self) -> (r: Self)
        ensures
            r@ == self@,
    {
        Item { name: self.name.clone(), size: self.size, directory: self.directory }
    }
}

/// The account of the local user.
#[derive(Debug, PartialEq, Eq)]
pub struct Account {
    pub identity: Identity,
}

impl View for Account {
    type V = IdentityView;

    open spec fn view(&self) -> IdentityView {
        self.identity@
    }
}

impl Clone for Account {
    fn clone(&self) -> (r: Self)
        ensures
            r@ == self@,
    {
        Account { identity: self.identity.clone() }
    }
}

impl Default for Account {
    fn default() -> (r: Self)
        ensures
            r@ == IdentityView::empty(),
    {
        Account { identity: Identity::default() }
    }
}

/// The navigation target that is shown.
#[derive(Debug, PartialEq, Eq)]
pub struct Route {
    /// String representation of the current active route.
    pub active: To,
}

impl View for Route {
    type V = Seq<char>;

    open spec fn view(&self) -> Seq<char> {
        self.active@
    }
}

impl Clone for Route {
    fn clone(&self) -> (r: Self)
        ensures
            r@ == self@,
    {
        Route { active: self.active.clone() }
    }
}

impl Default for Route {
    fn default() -> (r: Self)
        ensures
            r@ == Seq::<char>::empty(),
    {
        Route { active: String::new() }
    }
}

/// The ids of the interface scopes that redraw when their part of the state
/// changes.
#[derive(Clone, Copy, Debug, PartialEq, Eq)]
pub struct ScopeIds {
    pub chatbar: Option<usize>,
    pub file_transfer: Option<usize>,
    pub file_transfer_icon: Option<usize>,
    pub pending_message_component: Option<usize>,
}

impl Default for ScopeIds {
    fn default() -> (r: Self)
        ensures
            r.chatbar is None,
            r.file_transfer is None,
            r.file_transfer_icon is None,
            r.pending_message_component is None,
    {
        ScopeIds {
            chatbar: None,
            file_transfer: None,
            file_transfer_icon: None,
            pending_message_component: None,
        }
    }
}

/// The friends of the local user. No action writes these lists yet.
#[derive(Debug, PartialEq, Eq)]
pub struct Friends {
    /// All active friends, by the text of their key.
    pub all: HashMap<String, Identity>,
    /// Friends the user has blocked.
    pub blocked: Vec<Identity>,
    /// Requests that others sent to the user.
    pub incoming_requests: Vec<Identity>,
    /// Requests that the user sent to others.
    pub outgoing_requests: Vec<Identity>,
}

/// The value of `Friends`.
pub struct FriendsView {
    pub all: Map<String, IdentityView>,
    pub blocked: Seq<IdentityView>,
    pub incoming_requests: Seq<IdentityView>,
    pub outgoing_requests: Seq<IdentityView>,
}

impl FriendsView {
    /// Nobody befriended, blocked or asked.
    pub open spec fn empty() -> FriendsView {
        FriendsView {
            all: Map::empty(),
            blocked: Seq::empty(),
            incoming_requests: Seq::empty(),
            outgoing_requests: Seq::empty(),
        }
    }
}

impl View for Friends {
    type V = FriendsView;

    open spec fn view(&self) -> FriendsView {
        FriendsView {
            all: self.all@.map_values(|i: Identity| i@),
            blocked: views(self.blocked@),
            incoming_requests: views(self.incoming_requests@),
            outgoing_requests: views(self.outgoing_requests@),
        }
    }
}

impl Clone for Friends {
    fn clone(&self) -> (r: Self)
        ensures
            r@ == self@,
    {
        let all = self.all.clone();
        let blocked = self.blocked.clone();
        let incoming_requests = self.incoming_requests.clone();
        let outgoing_requests = self.outgoing_requests.clone();
        assert(views(blocked@) =~= views(self.blocked@));
        assert(views(incoming_requests@) =~= views(self.incoming_requests@));
        assert(views(outgoing_requests@) =~= views(self.outgoing_requests@));
        Friends { all, blocked, incoming_requests, outgoing_requests }
    }
}

impl Default for Friends {
    fn default() -> (r: Self)
        ensures
            r@ == FriendsView::empty(),
    {
        let r = Friends {
            all: HashMap::new(),
            blocked: Vec::new(),
            incoming_requests: Vec::new(),
            outgoing_requests: Vec::new(),
        };
        assert(r@.all =~= Map::<String, IdentityView>::empty());
        assert(r@.blocked =~= Seq::<IdentityView>::empty());
        assert(r@.incoming_requests =~= Seq::<IdentityView>::empty());
        assert(r@.outgoing_requests =~= Seq::<IdentityView>::empty());
        r
    }
}

/// The files of the local user. No action writes them yet.
#[derive(Debug, PartialEq, Eq)]
pub struct Files {
    /// All files.
    pub all: Vec<Item>,
    /// The folder that is open, if one is.
    pub active_folder: Option<Item>,
}

/// The value of `Files`.
pub struct FilesView {
    pub all: Seq<ItemView>,
    pub active_folder: Option<ItemView>,
}

impl FilesView {
    /// No file and no open folder.
    pub open spec fn empty() -> FilesView {
        FilesView { all: Seq::empty(), active_folder: None }
    }
}

impl View for Files {
    type V = FilesView;

    open spec fn view(&self) -> FilesView {
        FilesView { all: views(self.all@), active_folder: view_of(self.active_folder) }
    }
}

impl Clone for Files {
    fn clone(&self) -> (r: Self)
        ensures
            r@ == self@,
    {
        let all = self.all.clone();
        let active_folder = self.active_folder.clone();
        assert(views(all@) =~= views(self.all@));
        Files { all, active_folder }
    }
}

impl Default for Files {
    fn default() -> (r: Self)
        ensures
            r@ == FilesView::empty(),
    {
        let r = Files { all: Vec::new(), active_folder: None };
        assert(r@.all =~= Seq::<ItemView>::empty());
        r
    }
}

} // verus!
