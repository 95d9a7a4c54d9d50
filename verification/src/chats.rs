//! The four places where the store keeps chats, and what each action does
//! to them.

use vstd::prelude::*;
use std::collections::HashMap;
use vstd::std_specs::hash::spec_hash_map_iter;
use vstd::std_specs::iter::IteratorSpec;
use crate::chat::{Chat, ChatView, Patch, PatchView};
use crate::records::{views, view_of};

verus! {

/// Some chat of the list has this id.
pub open spec fn has_id(list: Seq<ChatView>, id: u128) -> bool {
    exists|i: int| 0 <= i < list.len() && list[i].id == id
}

/// The chat at `i` has this id, and none before it has.
pub open spec fn is_first_with_id(list: Seq<ChatView>, id: u128, i: int) -> bool {
    &&& 0 <= i < list.len()
    &&& list[i].id == id
    &&& forall|j: int| 0 <= j < i ==> list[j].id != id
}

/// The place of the first chat with this id, where the list has one.
pub open spec fn first_with_id(list: Seq<ChatView>, id: u128) -> int {
    choose|i: int| is_first_with_id(list, id, i)
}

/// The list with this chat at its end, unless a chat with the same id is in
/// it already.
pub open spec fn with_chat(list: Seq<ChatView>, chat: ChatView) -> Seq<ChatView> {
    if has_id(list, chat.id) {
        list
    } else {
        list.push(chat)
    }
}

/// The list without the first chat that has this id.
pub open spec fn without_id(list: Seq<ChatView>, id: u128) -> Seq<ChatView> {
    if has_id(list, id) {
        list.remove(first_with_id(list, id))
    } else {
        list
    }
}

/// The list with the change made to every chat that has this id, each chat
/// in its place.
pub open spec fn patched(list: Seq<ChatView>, id: u128, patch: PatchView) -> Seq<ChatView> {
    list.map_values(|chat: ChatView| patch.apply_to(id, chat))
}

/// The list with `chat` in the place of every chat that has this id.
pub open spec fn overwritten(list: Seq<ChatView>, id: u128, chat: ChatView) -> Seq<ChatView> {
    list.map_values(|entry: ChatView| if entry.id == id { chat } else { entry })
}

/// No two chats of the list share an id.
pub open spec fn distinct_ids(list: Seq<ChatView>) -> bool {
    forall|i: int, j: int| 0 <= i < j < list.len() ==> list[i].id != list[j].id
}

/// Each record of the map is kept under its own id.
pub open spec fn keyed_by_id(all: Map<u128, ChatView>) -> bool {
    forall|id: u128| all.contains_key(id) ==> (#[trigger] all[id]).id == id
}

/// The values of the records of a map, each under its key.
pub open spec fn records(all: Map<u128, Chat>) -> Map<u128, ChatView> {
    all.map_values(|chat: Chat| chat@)
}

/// The ids of the chats of the list.
pub open spec fn ids(list: Seq<ChatView>) -> Set<u128> {
    Set::new(|id: u128| has_id(list, id))
}

/// Where the list has a chat with this id, exactly one place is the first.
pub proof fn lemma_first_with_id(list: Seq<ChatView>, id: u128, i: int)
    requires
        is_first_with_id(list, id, i),
    ensures
        has_id(list, id),
        first_with_id(list, id) == i,
{
    let k = first_with_id(list, id);
    assert(is_first_with_id(list, id, k));
    if k < i {
        assert(list[k].id != id);
    }
    if i < k {
        assert(list[i].id != id);
    }
}

/// Looks for the first chat of the list with this id.
pub fn position(list: &Vec<Chat>, id: u128) -> (found: Option<usize>)
    ensures
        match found {
            Some(i) => is_first_with_id(views(list@), id, i as int),
            None => !has_id(views(list@), id),
        },
{
    let mut i: usize = 0;
    while i < list.len()
        invariant
            i <= list@.len(),
            forall|j: int| 0 <= j < i ==> views(list@)[j].id != id,
        decreases list@.len() - i,
    {
        if list[i].id == id {
            return Some(i);
        }
        i = i + 1;
    }
    None
}

/// Makes the change to every chat of the list that has this id.
pub fn patch_list(list: &mut Vec<Chat>, id: u128, patch: &Patch)
    ensures
        views(final(list)@) == patched(views(old(list)@), id, patch@),
{
    let mut i: usize = 0;
    while i < list.len()
        invariant
            i <= list@.len(),
            list@.len() == old(list)@.len(),
            forall|j: int| 0 <= j < i ==> list@[j]@ == patch@.apply_to(id, old(list)@[j]@),
            forall|j: int| i <= j < list@.len() ==> list@[j] == old(list)@[j],
        decreases list@.len() - i,
    {
        if list[i].id == id {
            list[i].apply(patch);
        }
        i = i + 1;
    }
    assert(views(list@) =~= patched(views(old(list)@), id, patch@));
}

/// Puts a copy of `chat` in the place of every chat of the list that has
/// this id.
pub fn overwrite_list(list: &mut Vec<Chat>, id: u128, chat: &Chat)
    ensures
        views(final(list)@) == overwritten(views(old(list)@), id, chat@),
{
    let mut i: usize = 0;
    while i < list.len()
        invariant
            i <= list@.len(),
            list@.len() == old(list)@.len(),
            forall|j: int|
                0 <= j < i ==> list@[j]@ == (if old(list)@[j].id == id {
                    chat@
                } else {
                    old(list)@[j]@
                }),
            forall|j: int| i <= j < list@.len() ==> list@[j] == old(list)@[j],
        decreases list@.len() - i,
    {
        if list[i].id == id {
            list[i] = chat.clone();
        }
        i = i + 1;
    }
    assert(views(list@) =~= overwritten(views(old(list)@), id, chat@));
}

/// The chats of the store. `all` holds the canonical record of each chat
/// under its id; `active`, `in_sidebar` and `favorites` hold copies for
/// display.
#[derive(Debug, PartialEq, Eq)]
pub struct Chats {
    /// All chats, each under its id.
    pub all: HashMap<u128, Chat>,
    /// Chat to display and interact with currently.
    pub active: Option<Chat>,
    /// Chats to show in the sidebar.
    pub in_sidebar: Vec<Chat>,
    /// Favorite chats.
    pub favorites: Vec<Chat>,
}

/// The value of `Chats`.
pub struct ChatsView {
    pub all: Map<u128, ChatView>,
    pub active: Option<ChatView>,
    pub in_sidebar: Seq<ChatView>,
    pub favorites: Seq<ChatView>,
}

impl View for Chats {
    type V = ChatsView;

    open spec fn view(&self) -> ChatsView {
        ChatsView {
            all: records(self.all@),
            active: view_of(self.active),
            in_sidebar: views(self.in_sidebar@),
            favorites: views(self.favorites@),
        }
    }
}

impl ChatsView {
    /// No chat anywhere.
    pub open spec fn empty() -> ChatsView {
        ChatsView {
            all: Map::empty(),
            active: None,
            in_sidebar: Seq::empty(),
            favorites: Seq::empty(),
        }
    }

    /// Neither the sidebar nor the favorites show a chat twice, and each
    /// canonical record is kept under its own id.
    pub open spec fn well_formed(self) -> bool {
        &&& distinct_ids(self.in_sidebar)
        &&& distinct_ids(self.favorites)
        &&& keyed_by_id(self.all)
    }

    /// `chat` is one of the copies of the chat with this id: its canonical
    /// record, the active chat, or an entry of the sidebar or the favorites.
    pub open spec fn holds(self, id: u128, chat: ChatView) -> bool {
        ||| self.all.contains_key(id) && self.all[id] == chat
        ||| chat.id == id && self.active == Some(chat)
        ||| chat.id == id && self.in_sidebar.contains(chat)
        ||| chat.id == id && self.favorites.contains(chat)
    }

    /// These chats with no chat active.
    pub open spec fn without_active(self) -> ChatsView {
        ChatsView { active: None, ..self }
    }

    /// The chat shows the unread count and the message replied to that every
    /// copy of the chat with its id shows.
    pub open spec fn fits(self, chat: ChatView) -> bool {
        forall|copy: ChatView| #[trigger] self.holds(chat.id, copy) ==> chat.agrees_with(copy)
    }

    /// All copies of one chat show the same unread count and the same
    /// message replied to.
    pub open spec fn consistent(self) -> bool {
        forall|id: u128, a: ChatView, b: ChatView|
            #![trigger self.holds(id, a), self.holds(id, b)]
            self.holds(id, a) && self.holds(id, b) ==> a.agrees_with(b)
    }

    /// The chat joins the favorites, unless it is one already.
    pub open spec fn favorite(self, chat: ChatView) -> ChatsView {
        ChatsView { favorites: with_chat(self.favorites, chat), ..self }
    }

    /// The chat leaves the favorites.
    pub open spec fn unfavorite(self, chat: ChatView) -> ChatsView {
        ChatsView { favorites: without_id(self.favorites, chat.id), ..self }
    }

    /// A favorite chat leaves the favorites, another joins them.
    pub open spec fn toggle_favorite(self, chat: ChatView) -> ChatsView {
        if has_id(self.favorites, chat.id) {
            self.unfavorite(chat)
        } else {
            self.favorite(chat)
        }
    }

    /// The chat joins the sidebar, unless it is there already.
    pub open spec fn add_to_sidebar(self, chat: ChatView) -> ChatsView {
        ChatsView { in_sidebar: with_chat(self.in_sidebar, chat), ..self }
    }

    /// The chat leaves the sidebar, and is no longer active if it was.
    pub open spec fn remove_from_sidebar(self, chat: ChatView) -> ChatsView {
        ChatsView {
            in_sidebar: without_id(self.in_sidebar, chat.id),
            active: match self.active {
                Some(active) if active.id == chat.id => None,
                _ => self.active,
            },
            ..self
        }
    }

    /// The change is made to the canonical record of the chat with this id,
    /// and the changed record takes the place of every copy of the chat: of
    /// the active chat if it is the one, and of its entries in the sidebar
    /// and the favorites, each where it stands. Where the chat has no
    /// canonical record nothing changes.
    pub open spec fn replicate(self, id: u128, patch: PatchView) -> ChatsView {
        if self.all.contains_key(id) {
            let updated = patch.apply(self.all[id]);
            ChatsView {
                all: self.all.insert(id, updated),
                active: match self.active {
                    Some(active) if active.id == id => Some(updated),
                    _ => self.active,
                },
                in_sidebar: overwritten(self.in_sidebar, id, updated),
                favorites: overwritten(self.favorites, id, updated),
            }
        } else {
            self
        }
    }

    /// The change is made to each copy of the chat with this id that is
    /// shown: to the active chat if it is the one, and to its entries in the
    /// sidebar and the favorites, each where it stands.
    pub open spec fn patch_copies(self, id: u128, patch: PatchView) -> ChatsView {
        ChatsView {
            active: match self.active {
                Some(active) => Some(patch.apply_to(id, active)),
                None => None,
            },
            in_sidebar: patched(self.in_sidebar, id, patch),
            favorites: patched(self.favorites, id, patch),
            ..self
        }
    }

    /// The chat becomes the active one and is marked as read wherever it
    /// appears. Where it has a canonical record, that record is marked and
    /// takes the place of every copy, the active one too; where it has none,
    /// each copy that is shown is marked.
    pub open spec fn chat_with(self, chat: ChatView) -> ChatsView {
        let shown = ChatsView { active: Some(chat), ..self };
        if self.all.contains_key(chat.id) {
            shown.replicate(chat.id, PatchView::ClearUnreads)
        } else {
            shown.patch_copies(chat.id, PatchView::ClearUnreads)
        }
    }
}

impl Clone for Chats {
    fn clone(&self) -> (r: Self)
        ensures
            r@ == self@,
    {
        let all = self.all.clone();
        let active = self.active.clone();
        let in_sidebar = self.in_sidebar.clone();
        let favorites = self.favorites.clone();
        assert(views(in_sidebar@) =~= views(self.in_sidebar@));
        assert(views(favorites@) =~= views(self.favorites@));
        Chats { all, active, in_sidebar, favorites }
    }
}

impl Default for Chats {
    fn default() -> (r: Self)
        ensures
            r@ == ChatsView::empty(),
    {
        let r = Chats {
            all: HashMap::new(),
            active: None,
            in_sidebar: Vec::new(),
            favorites: Vec::new(),
        };
        assert(r@.all =~= Map::<u128, ChatView>::empty());
        assert(r@.in_sidebar =~= Seq::<ChatView>::empty());
        assert(r@.favorites =~= Seq::<ChatView>::empty());
        r
    }
}

/// Tells whether no two chats of the list share an id.
pub fn has_distinct_ids(list: &Vec<Chat>) -> (distinct: bool)
    ensures
        distinct == distinct_ids(views(list@)),
{
    let mut j: usize = 0;
    while j < list.len()
        invariant
            j <= list@.len(),
            forall|a: int, b: int| 0 <= a < b < j ==> views(list@)[a].id != views(list@)[b].id,
        decreases list@.len() - j,
    {
        let mut i: usize = 0;
        while i < j
            invariant
                i <= j < list@.len(),
                forall|a: int| 0 <= a < i ==> views(list@)[a].id != views(list@)[j as int].id,
            decreases j - i,
        {
            if list[i].id == list[j].id {
                assert(views(list@)[i as int].id == views(list@)[j as int].id);
                return false;
            }
            i = i + 1;
        }
        j = j + 1;
    }
    true
}

/// Tells whether each record of the map is kept under its own id.
pub fn is_keyed_by_id(all: &HashMap<u128, Chat>) -> (keyed: bool)
    ensures
        keyed == keyed_by_id(records(all@)),
{
    for entry in iter: all.iter()
        invariant
            iter.seq() == spec_hash_map_iter(all).remaining(),
            forall|j: int| 0 <= j < iter.index() ==> (*iter.seq()[j].1).id == *iter.seq()[j].0,
    {
        if entry.1.id != *entry.0 {
            assert(all@.contains_key(*entry.0) && all@[*entry.0] == *entry.1);
            assert(records(all@)[*entry.0].id != *entry.0);
            return false;
        }
    }
    assert forall|id: u128| records(all@).contains_key(id) implies (#[trigger] records(
        all@,
    )[id]).id == id by {
        let entries = spec_hash_map_iter(all).remaining();
        assert(entries.contains((&id, &all@[id])));
        let j = choose|j: int| 0 <= j < entries.len() && entries[j] == (&id, &all@[id]);
        assert((*entries[j].1).id == *entries[j].0);
    }
    true
}

impl Chats {
    /// Tells whether the chats are well formed: no chat twice in the sidebar
    /// or in the favorites, and each canonical record under its own id.
    pub fn is_well_formed(&self) -> (well_formed: bool)
        ensures
            well_formed == self@.well_formed(),
    {
        has_distinct_ids(&self.in_sidebar) && has_distinct_ids(&self.favorites) && is_keyed_by_id(
            &self.all,
        )
    }

    /// Makes the change to the canonical record of the chat with this id and
    /// puts the changed record in the place of every copy of the chat. Does
    /// nothing where the chat has no canonical record.
    pub fn replicate(&mut self, id: u128, patch: &Patch)
        ensures
            final(self)@ == old(self)@.replicate(id, patch@),
    {
        let known = match self.all.get(&id) {
            Some(chat) => Some(chat.clone()),
            None => None,
        };
        if let Some(mut updated) = known {
            updated.apply(patch);
            let is_active = match &self.active {
                Some(active) => active.id == id,
                None => false,
            };
            if is_active {
                self.active = Some(updated.clone());
            }
            overwrite_list(&mut self.in_sidebar, id, &updated);
            overwrite_list(&mut self.favorites, id, &updated);
            self.all.insert(id, updated);
            assert(self@.all =~= old(self)@.replicate(id, patch@).all);
        }
    }

    /// Makes the change to each copy of the chat with this id that is shown.
    pub fn patch_copies(&mut self, id: u128, patch: &Patch)
        ensures
            final(self)@ == old(self)@.patch_copies(id, patch@),
    {
        if let Some(active) = &mut self.active {
            if active.id == id {
                active.apply(patch);
            }
        }
        patch_list(&mut self.in_sidebar, id, patch);
        patch_list(&mut self.favorites, id, patch);
    }
}

} // verus!
