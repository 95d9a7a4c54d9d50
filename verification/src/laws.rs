//! What holds of the store whatever is dispatched: the invariants of the
//! chats, stated over the values of the states.

use vstd::prelude::*;
use crate::action::Action;
use crate::chat::{ChatView, PatchView};
use crate::chats::{
    distinct_ids, first_with_id, has_id, ids, is_first_with_id, overwritten, patched, with_chat,
    without_id, ChatsView,
};
use crate::state::StateView;

verus! {

/// A list that has a chat with this id has a first one.
proof fn lemma_first_before(list: Seq<ChatView>, id: u128, i: int)
    requires
        0 <= i < list.len(),
        list[i].id == id,
    ensures
        exists|k: int| is_first_with_id(list, id, k),
    decreases i,
{
    if exists|j: int| 0 <= j < i && list[j].id == id {
        let j = choose|j: int| 0 <= j < i && list[j].id == id;
        lemma_first_before(list, id, j);
    } else {
        assert(is_first_with_id(list, id, i));
    }
}

/// In a list that has a chat with this id, `first_with_id` is the place of
/// the first one.
pub proof fn lemma_first_with_id_found(list: Seq<ChatView>, id: u128)
    requires
        has_id(list, id),
    ensures
        is_first_with_id(list, id, first_with_id(list, id)),
{
    let i = choose|i: int| 0 <= i < list.len() && list[i].id == id;
    lemma_first_before(list, id, i);
}

/// Adding a chat keeps the ids of a list distinct.
pub proof fn lemma_with_chat_distinct(list: Seq<ChatView>, chat: ChatView)
    requires
        distinct_ids(list),
    ensures
        distinct_ids(with_chat(list, chat)),
{
    if !has_id(list, chat.id) {
        let longer = list.push(chat);
        assert forall|i: int, j: int| 0 <= i < j < longer.len() implies longer[i].id
            != longer[j].id by {
            assert(longer[i] == list[i]);
            if j < list.len() {
                assert(longer[j] == list[j]);
            }
        }
    }
}

/// Removing a chat keeps the ids of a list distinct, and where they are
/// distinct no chat with the id is left.
pub proof fn lemma_without_id_distinct(list: Seq<ChatView>, id: u128)
    requires
        distinct_ids(list),
    ensures
        distinct_ids(without_id(list, id)),
        !has_id(without_id(list, id), id),
{
    if has_id(list, id) {
        lemma_first_with_id_found(list, id);
        let k = first_with_id(list, id);
        let shorter = list.remove(k);
        assert forall|i: int, j: int| 0 <= i < j < shorter.len() implies shorter[i].id
            != shorter[j].id by {
            let a = if i < k { i } else { i + 1 };
            let b = if j < k { j } else { j + 1 };
            assert(list[a].id != list[b].id);
        }
        assert forall|i: int| 0 <= i < shorter.len() implies shorter[i].id != id by {
            let a = if i < k { i } else { i + 1 };
            if a < k {
                assert(list[a].id != list[k].id);
            } else {
                assert(list[k].id != list[a].id);
            }
        }
    }
}

/// A change to the chats of a list keeps their ids, each in its place.
pub proof fn lemma_patched_distinct(list: Seq<ChatView>, id: u128, patch: PatchView)
    requires
        distinct_ids(list),
    ensures
        distinct_ids(patched(list, id, patch)),
{
    let changed = patched(list, id, patch);
    assert forall|i: int, j: int| 0 <= i < j < changed.len() implies changed[i].id
        != changed[j].id by {
        assert(changed[i].id == list[i].id);
        assert(changed[j].id == list[j].id);
    }
}

/// A chat that takes the place of the chats with its own id keeps the ids
/// of a list, each in its place.
pub proof fn lemma_overwritten_distinct(list: Seq<ChatView>, chat: ChatView)
    requires
        distinct_ids(list),
    ensures
        distinct_ids(overwritten(list, chat.id, chat)),
{
    let changed = overwritten(list, chat.id, chat);
    assert forall|i: int, j: int| 0 <= i < j < changed.len() implies changed[i].id
        != changed[j].id by {
        assert(changed[i].id == list[i].id);
        assert(changed[j].id == list[j].id);
    }
}

/// Replicating a change keeps the chats well formed.
pub proof fn lemma_replicate_well_formed(chats: ChatsView, id: u128, patch: PatchView)
    requires
        chats.well_formed(),
    ensures
        chats.replicate(id, patch).well_formed(),
{
    if chats.all.contains_key(id) {
        let updated = patch.apply(chats.all[id]);
        assert(updated.id == id);
        lemma_overwritten_distinct(chats.in_sidebar, updated);
        lemma_overwritten_distinct(chats.favorites, updated);
        let after = chats.replicate(id, patch).all;
        assert forall|key: u128| after.contains_key(key) implies (#[trigger] after[key]).id
            == key by {
            assert(chats.all.contains_key(key));
            assert(chats.all[key].id == key);
        }
    }
}

/// Membership uniqueness: whatever is dispatched to a state whose chats are
/// well formed, the chats are well formed afterwards. No chat id appears
/// twice in the sidebar, none twice in the favorites, and each canonical
/// record stays under its id.
pub proof fn lemma_well_formed_kept(state: StateView, action: Action)
    requires
        state.chats.well_formed(),
    ensures
        state.apply(action).chats.well_formed(),
{
    let chats = state.chats;
    match action {
        Action::Favorite(chat) => {
            lemma_with_chat_distinct(chats.favorites, chat@);
        },
        Action::UnFavorite(chat) => {
            lemma_without_id_distinct(chats.favorites, chat.id);
        },
        Action::ToggleFavorite(chat) => {
            lemma_with_chat_distinct(chats.favorites, chat@);
            lemma_without_id_distinct(chats.favorites, chat.id);
        },
        Action::AddToSidebar(chat) => {
            lemma_with_chat_distinct(chats.in_sidebar, chat@);
        },
        Action::RemoveFromSidebar(chat) => {
            lemma_without_id_distinct(chats.in_sidebar, chat.id);
        },
        Action::ChatWith(chat) => {
            let shown = ChatsView { active: Some(chat@), ..chats };
            lemma_replicate_well_formed(shown, chat.id, PatchView::ClearUnreads);
            lemma_patched_distinct(chats.in_sidebar, chat.id, PatchView::ClearUnreads);
            lemma_patched_distinct(chats.favorites, chat.id, PatchView::ClearUnreads);
        },
        Action::StartReplying(chat, message) => {
            lemma_replicate_well_formed(chats, chat.id, PatchView::Reply(message@));
        },
        Action::CancelReply(chat) => {
            lemma_replicate_well_formed(chats, chat.id, PatchView::CancelReply);
        },
        Action::ClearUnreads(chat) => {
            lemma_replicate_well_formed(chats, chat.id, PatchView::ClearUnreads);
        },
        _ => {},
    }
}

/// Membership uniqueness, for every sequence of actions: from a state whose
/// chats are well formed, no sequence of actions leads to chats that are
/// not.
pub proof fn lemma_well_formed_always(state: StateView, actions: Seq<Action>)
    requires
        state.chats.well_formed(),
    ensures
        state.apply_all(actions).chats.well_formed(),
    decreases actions.len(),
{
    if actions.len() > 0 {
        lemma_well_formed_always(state, actions.drop_last());
        lemma_well_formed_kept(state.apply_all(actions.drop_last()), actions.last());
    }
}

/// Membership uniqueness, for every state that actions lead to: whatever
/// sequence of actions is dispatched to the state of a fresh installation,
/// no chat id appears twice in the sidebar and none twice in the favorites.
pub proof fn lemma_well_formed_from_start(actions: Seq<Action>)
    ensures
        StateView::empty().apply_all(actions).chats.well_formed(),
        distinct_ids(StateView::empty().apply_all(actions).chats.in_sidebar),
        distinct_ids(StateView::empty().apply_all(actions).chats.favorites),
{
    lemma_empty_state();
    lemma_well_formed_always(StateView::empty(), actions);
}

/// The action brings in no copy of a chat that disagrees with the copies
/// that are there. A chat that joins the favorites or the sidebar has to
/// show what the other copies of it show. A chat that becomes active and has
/// no canonical record has to show the message replied to that its other
/// copies show; with a canonical record, the record takes its place. Every
/// other action brings in no copy.
pub open spec fn admits(chats: ChatsView, action: Action) -> bool {
    match action {
        Action::Favorite(chat) | Action::ToggleFavorite(chat) => has_id(
            chats.favorites,
            chat.id,
        ) || chats.fits(chat@),
        Action::AddToSidebar(chat) => has_id(chats.in_sidebar, chat.id) || chats.fits(chat@),
        Action::ChatWith(chat) => chats.all.contains_key(chat.id) || forall|copy: ChatView| #[trigger]
            chats.without_active().holds(chat.id, copy) ==> copy.replying_to
                == chat@.replying_to,
        _ => true,
    }
}

/// After a change has been replicated, each copy of the changed chat is its
/// changed record, and each copy of another chat was there before.
proof fn lemma_replicated_copy(
    chats: ChatsView,
    target: u128,
    patch: PatchView,
    id: u128,
    copy: ChatView,
)
    requires
        chats.all.contains_key(target),
        chats.all[target].id == target,
        chats.replicate(target, patch).holds(id, copy),
    ensures
        id == target ==> copy == patch.apply(chats.all[target]),
        id != target ==> chats.holds(id, copy),
{
    let after = chats.replicate(target, patch);
    let updated = patch.apply(chats.all[target]);
    assert(updated.id == target);
    if after.all.contains_key(id) && after.all[id] == copy {
    } else if copy.id == id && after.active == Some(copy) {
    } else if copy.id == id && after.in_sidebar.contains(copy) {
        let i = choose|i: int| 0 <= i < after.in_sidebar.len() && after.in_sidebar[i] == copy;
        if id != target {
            assert(chats.in_sidebar[i] == copy);
            assert(chats.in_sidebar.contains(copy));
        }
    } else {
        let i = choose|i: int| 0 <= i < after.favorites.len() && after.favorites[i] == copy;
        if id != target {
            assert(chats.favorites[i] == copy);
            assert(chats.favorites.contains(copy));
        }
    }
}

/// The id of the chat whose canonical record the action changes and puts in
/// the place of its copies, where the action does so in these chats.
pub open spec fn replicated(chats: ChatsView, action: Action) -> Option<u128> {
    match action {
        Action::StartReplying(chat, _)
        | Action::CancelReply(chat)
        | Action::ClearUnreads(chat)
        | Action::ChatWith(chat) => if chats.all.contains_key(chat.id) {
            Some(chat.id)
        } else {
            None
        },
        _ => None,
    }
}

/// No stale copy: in a state with well-formed chats, after replying has
/// begun or ended in a chat that has a canonical record, or such a chat has
/// been marked as read or made the active one, every copy of the chat is its
/// canonical record as the action left it.
pub proof fn lemma_no_stale_copy(state: StateView, action: Action, copy: ChatView)
    requires
        state.chats.well_formed(),
        replicated(state.chats, action) is Some,
        state.apply(action).chats.holds(replicated(state.chats, action)->0, copy),
    ensures
        copy == state.apply(action).chats.all[replicated(state.chats, action)->0],
{
    let chats = state.chats;
    match action {
        Action::StartReplying(chat, message) => {
            lemma_replicated_copy(chats, chat.id, PatchView::Reply(message@), chat.id, copy);
        },
        Action::CancelReply(chat) => {
            lemma_replicated_copy(chats, chat.id, PatchView::CancelReply, chat.id, copy);
        },
        Action::ClearUnreads(chat) => {
            lemma_replicated_copy(chats, chat.id, PatchView::ClearUnreads, chat.id, copy);
        },
        Action::ChatWith(chat) => {
            let shown = ChatsView { active: Some(chat@), ..chats };
            lemma_replicated_copy(shown, chat.id, PatchView::ClearUnreads, chat.id, copy);
        },
        _ => {},
    }
}

/// Replicating a change leaves all copies of each chat in agreement.
proof fn lemma_replicate_consistent(chats: ChatsView, target: u128, patch: PatchView)
    requires
        chats.well_formed(),
        forall|id: u128, a: ChatView, b: ChatView|
            #![trigger chats.holds(id, a), chats.holds(id, b)]
            id != target && chats.holds(id, a) && chats.holds(id, b) ==> a.agrees_with(b),
        chats.all.contains_key(target) || chats.consistent(),
    ensures
        chats.replicate(target, patch).consistent(),
{
    let after = chats.replicate(target, patch);
    if chats.all.contains_key(target) {
        assert forall|id: u128, a: ChatView, b: ChatView|
            after.holds(id, a) && after.holds(id, b) implies a.agrees_with(b) by {
            lemma_replicated_copy(chats, target, patch, id, a);
            lemma_replicated_copy(chats, target, patch, id, b);
        }
    }
}

/// The copy as a change to the chat `target` leaves it, seen as a copy of
/// the chat `id`.
pub open spec fn changed(id: u128, target: u128, patch: PatchView, copy: ChatView) -> ChatView {
    if id == target {
        patch.apply(copy)
    } else {
        copy
    }
}

/// Each copy that is there after a change to the copies of a chat without a
/// canonical record was a copy of the same chat before, and is that copy,
/// changed if the change is to its chat.
proof fn lemma_patched_origin(
    chats: ChatsView,
    target: u128,
    patch: PatchView,
    id: u128,
    copy: ChatView,
)
    requires
        !chats.all.contains_key(target),
        chats.patch_copies(target, patch).holds(id, copy),
    ensures
        exists|before: ChatView| #[trigger]
            chats.holds(id, before) && copy == changed(id, target, patch, before),
{
    let after = chats.patch_copies(target, patch);
    if after.all.contains_key(id) && after.all[id] == copy {
        assert(chats.holds(id, copy) && copy == changed(id, target, patch, copy));
    } else if copy.id == id && after.active == Some(copy) {
        let before = chats.active->0;
        assert(chats.holds(id, before) && copy == changed(id, target, patch, before));
    } else if copy.id == id && after.in_sidebar.contains(copy) {
        let i = choose|i: int| 0 <= i < after.in_sidebar.len() && after.in_sidebar[i] == copy;
        let before = chats.in_sidebar[i];
        assert(chats.in_sidebar.contains(before));
        assert(chats.holds(id, before) && copy == changed(id, target, patch, before));
    } else {
        let i = choose|i: int| 0 <= i < after.favorites.len() && after.favorites[i] == copy;
        let before = chats.favorites[i];
        assert(chats.favorites.contains(before));
        assert(chats.holds(id, before) && copy == changed(id, target, patch, before));
    }
}

/// Each copy that is shown before a change to the copies of a chat is there
/// after it, changed if the change is to its chat.
proof fn lemma_patched_image(
    chats: ChatsView,
    target: u128,
    patch: PatchView,
    id: u128,
    before: ChatView,
)
    requires
        !chats.all.contains_key(target),
        chats.holds(id, before),
    ensures
        chats.patch_copies(target, patch).holds(id, changed(id, target, patch, before)),
{
    let after = chats.patch_copies(target, patch);
    let copy = changed(id, target, patch, before);
    if chats.all.contains_key(id) && chats.all[id] == before {
    } else if before.id == id && chats.active == Some(before) {
        assert(after.active == Some(copy));
    } else if before.id == id && chats.in_sidebar.contains(before) {
        let i = choose|i: int| 0 <= i < chats.in_sidebar.len() && chats.in_sidebar[i] == before;
        assert(after.in_sidebar[i] == copy);
        assert(after.in_sidebar.contains(copy));
    } else {
        let i = choose|i: int| 0 <= i < chats.favorites.len() && chats.favorites[i] == before;
        assert(after.favorites[i] == copy);
        assert(after.favorites.contains(copy));
    }
}

/// A copy that is there after a chat has joined a list was there before, or
/// is the chat that joined.
proof fn lemma_joined_copy(
    chats: ChatsView,
    after: ChatsView,
    chat: ChatView,
    id: u128,
    copy: ChatView,
)
    requires
        after.holds(id, copy),
        after.all == chats.all,
        after.active == chats.active,
        after.in_sidebar == chats.in_sidebar && after.favorites == chats.favorites.push(chat)
            || after.favorites == chats.favorites && after.in_sidebar == chats.in_sidebar.push(
            chat,
        ),
    ensures
        chats.holds(id, copy) || (copy == chat && id == chat.id),
{
    if copy.id == id && after.in_sidebar.contains(copy) {
        let i = choose|i: int| 0 <= i < after.in_sidebar.len() && after.in_sidebar[i] == copy;
        if i < chats.in_sidebar.len() {
            assert(chats.in_sidebar[i] == copy);
            assert(chats.in_sidebar.contains(copy));
        }
    }
    if copy.id == id && after.favorites.contains(copy) {
        let i = choose|i: int| 0 <= i < after.favorites.len() && after.favorites[i] == copy;
        if i < chats.favorites.len() {
            assert(chats.favorites[i] == copy);
            assert(chats.favorites.contains(copy));
        }
    }
}

/// A chat that has joined a list is one of its copies, and so is every copy
/// that was there.
proof fn lemma_join_holds(
    chats: ChatsView,
    after: ChatsView,
    chat: ChatView,
    id: u128,
    copy: ChatView,
)
    requires
        chats.holds(id, copy),
        after.all == chats.all,
        after.active == chats.active,
        after.in_sidebar == chats.in_sidebar && after.favorites == chats.favorites.push(chat)
            || after.favorites == chats.favorites && after.in_sidebar == chats.in_sidebar.push(
            chat,
        ),
    ensures
        after.holds(id, copy),
        after.holds(chat.id, chat),
{
    if after.favorites == chats.favorites.push(chat) {
        assert(after.favorites[chats.favorites.len() as int] == chat);
        if copy.id == id && chats.favorites.contains(copy) {
            let i = choose|i: int| 0 <= i < chats.favorites.len() && chats.favorites[i] == copy;
            assert(after.favorites[i] == copy);
        }
    } else {
        assert(after.in_sidebar[chats.in_sidebar.len() as int] == chat);
        if copy.id == id && chats.in_sidebar.contains(copy) {
            let i = choose|i: int| 0 <= i < chats.in_sidebar.len() && chats.in_sidebar[i] == copy;
            assert(after.in_sidebar[i] == copy);
        }
    }
}

/// A chat that joins a list and fits the copies that are there leaves all
/// copies in agreement.
proof fn lemma_join_consistent(chats: ChatsView, after: ChatsView, chat: ChatView)
    requires
        chats.consistent(),
        chats.fits(chat),
        after.all == chats.all,
        after.active == chats.active,
        after.in_sidebar == chats.in_sidebar && after.favorites == chats.favorites.push(chat)
            || after.favorites == chats.favorites && after.in_sidebar == chats.in_sidebar.push(
            chat,
        ),
    ensures
        after.consistent(),
{
    assert forall|id: u128, a: ChatView, b: ChatView|
        after.holds(id, a) && after.holds(id, b) implies a.agrees_with(b) by {
        lemma_joined_copy(chats, after, chat, id, a);
        lemma_joined_copy(chats, after, chat, id, b);
        if chats.holds(id, a) && chats.holds(id, b) {
        } else if chats.holds(id, a) {
            assert(chat.agrees_with(a));
        } else if chats.holds(id, b) {
            assert(chat.agrees_with(b));
        }
    }
}

/// A copy that is in a list after the first chat with some id has left it
/// was in the list before.
proof fn lemma_left_copy(list: Seq<ChatView>, id: u128, copy: ChatView)
    requires
        without_id(list, id).contains(copy),
    ensures
        list.contains(copy),
{
    if has_id(list, id) {
        lemma_first_with_id_found(list, id);
        let k = first_with_id(list, id);
        let shorter = list.remove(k);
        let i = choose|i: int| 0 <= i < shorter.len() && shorter[i] == copy;
        let j = if i < k { i } else { i + 1 };
        assert(list[j] == copy);
    }
}

/// Chats that lose copies and gain none stay in agreement.
proof fn lemma_fewer_consistent(chats: ChatsView, after: ChatsView)
    requires
        chats.consistent(),
        forall|id: u128, copy: ChatView| #[trigger] after.holds(id, copy) ==> chats.holds(id, copy),
    ensures
        after.consistent(),
{
    assert forall|id: u128, a: ChatView, b: ChatView|
        after.holds(id, a) && after.holds(id, b) implies a.agrees_with(b) by {
        assert(chats.holds(id, a) && chats.holds(id, b));
    }
}

/// A chat that becomes active leaves all copies in agreement where it has a
/// canonical record, and where it shows the message replied to that its
/// other copies show.
proof fn lemma_chat_with_consistent(chats: ChatsView, chat: ChatView)
    requires
        chats.well_formed(),
        chats.consistent(),
        chats.all.contains_key(chat.id) || forall|copy: ChatView| #[trigger]
            chats.without_active().holds(chat.id, copy) ==> copy.replying_to == chat.replying_to,
    ensures
        chats.chat_with(chat).consistent(),
{
    let shown = ChatsView { active: Some(chat), ..chats };
    let patch = PatchView::ClearUnreads;
    let after = chats.chat_with(chat);
    if chats.all.contains_key(chat.id) {
        assert forall|id: u128, a: ChatView, b: ChatView|
            id != chat.id && shown.holds(id, a) && shown.holds(id, b) implies a.agrees_with(
            b,
        ) by {
            assert(chats.holds(id, a) && chats.holds(id, b));
        }
        lemma_replicate_consistent(shown, chat.id, patch);
    } else {
        assert forall|id: u128, a: ChatView, b: ChatView|
            after.holds(id, a) && after.holds(id, b) implies a.agrees_with(b) by {
            lemma_patched_origin(shown, chat.id, patch, id, a);
            lemma_patched_origin(shown, chat.id, patch, id, b);
            let a0 = choose|before: ChatView| #[trigger]
                shown.holds(id, before) && a == changed(id, chat.id, patch, before);
            let b0 = choose|before: ChatView| #[trigger]
                shown.holds(id, before) && b == changed(id, chat.id, patch, before);
            if id == chat.id {
                assert(a0 == chat || chats.without_active().holds(id, a0));
                assert(b0 == chat || chats.without_active().holds(id, b0));
            } else {
                assert(chats.holds(id, a0) && chats.holds(id, b0));
            }
        }
    }
}

/// Replication consistency: where the chats are well formed, all copies of
/// each chat agree on the unread count and on the message replied to, and
/// the action brings in no copy that disagrees with those that are there,
/// all copies of each chat agree after the action.
pub proof fn lemma_consistency_kept(state: StateView, action: Action)
    requires
        state.chats.well_formed(),
        state.chats.consistent(),
        admits(state.chats, action),
    ensures
        state.apply(action).chats.consistent(),
{
    let chats = state.chats;
    let after = state.apply(action).chats;
    match action {
        Action::Favorite(chat) => {
            if !has_id(chats.favorites, chat.id) {
                lemma_join_consistent(chats, after, chat@);
            }
        },
        Action::AddToSidebar(chat) => {
            if !has_id(chats.in_sidebar, chat.id) {
                lemma_join_consistent(chats, after, chat@);
            }
        },
        Action::ToggleFavorite(chat) => {
            if !has_id(chats.favorites, chat.id) {
                lemma_join_consistent(chats, after, chat@);
            } else {
                assert forall|id: u128, copy: ChatView| #[trigger]
                    after.holds(id, copy) implies chats.holds(id, copy) by {
                    if copy.id == id && after.favorites.contains(copy) {
                        lemma_left_copy(chats.favorites, chat.id, copy);
                    }
                }
                lemma_fewer_consistent(chats, after);
            }
        },
        Action::UnFavorite(chat) => {
            assert forall|id: u128, copy: ChatView| #[trigger]
                after.holds(id, copy) implies chats.holds(id, copy) by {
                if copy.id == id && after.favorites.contains(copy) {
                    lemma_left_copy(chats.favorites, chat.id, copy);
                }
            }
            lemma_fewer_consistent(chats, after);
        },
        Action::RemoveFromSidebar(chat) => {
            assert forall|id: u128, copy: ChatView| #[trigger]
                after.holds(id, copy) implies chats.holds(id, copy) by {
                if copy.id == id && after.in_sidebar.contains(copy) {
                    lemma_left_copy(chats.in_sidebar, chat.id, copy);
                }
            }
            lemma_fewer_consistent(chats, after);
        },
        Action::ChatWith(chat) => {
            lemma_chat_with_consistent(chats, chat@);
        },
        Action::StartReplying(chat, message) => {
            lemma_replicate_consistent(chats, chat.id, PatchView::Reply(message@));
        },
        Action::CancelReply(chat) => {
            lemma_replicate_consistent(chats, chat.id, PatchView::CancelReply);
        },
        Action::ClearUnreads(chat) => {
            lemma_replicate_consistent(chats, chat.id, PatchView::ClearUnreads);
        },
        _ => {},
    }
}

/// Replication consistency is lost by exactly the actions that `admits`
/// leaves out: where all copies of each chat agree and the action brings in
/// a copy that disagrees with one that is there, two copies of one chat
/// disagree after the action.
pub proof fn lemma_consistency_lost(state: StateView, action: Action)
    requires
        state.chats.consistent(),
        !admits(state.chats, action),
    ensures
        !state.apply(action).chats.consistent(),
{
    let chats = state.chats;
    let after = state.apply(action).chats;
    match action {
        Action::Favorite(chat) | Action::ToggleFavorite(chat) | Action::AddToSidebar(chat) => {
            let other = choose|copy: ChatView| #[trigger]
                chats.holds(chat.id, copy) && !chat@.agrees_with(copy);
            lemma_join_holds(chats, after, chat@, chat.id, other);
            assert(after.holds(chat.id, chat@) && after.holds(chat.id, other));
        },
        Action::ChatWith(chat) => {
            let other = choose|copy: ChatView| #[trigger]
                chats.without_active().holds(chat.id, copy) && copy.replying_to
                    != chat@.replying_to;
            let shown = ChatsView { active: Some(chat@), ..chats };
            let patch = PatchView::ClearUnreads;
            assert(shown.holds(chat.id, other));
            assert(shown.holds(chat.id, chat@));
            lemma_patched_image(shown, chat.id, patch, chat.id, other);
            lemma_patched_image(shown, chat.id, patch, chat.id, chat@);
            assert(after.holds(chat.id, patch.apply(other)) && after.holds(
                chat.id,
                patch.apply(chat@),
            ));
        },
        _ => {},
    }
}

/// Each action of the sequence, dispatched in its turn, brings in no copy
/// that disagrees with the copies that are there.
pub open spec fn admits_all(state: StateView, actions: Seq<Action>) -> bool
    decreases actions.len(),
{
    if actions.len() == 0 {
        true
    } else {
        &&& admits_all(state, actions.drop_last())
        &&& admits(state.apply_all(actions.drop_last()).chats, actions.last())
    }
}

/// Replication consistency, for every sequence of actions: from a state with
/// well-formed chats in which all copies of each chat agree, a sequence of
/// actions of which none brings in a copy that disagrees leads to a state in
/// which they agree.
pub proof fn lemma_consistency_always(state: StateView, actions: Seq<Action>)
    requires
        state.chats.well_formed(),
        state.chats.consistent(),
        admits_all(state, actions),
    ensures
        state.apply_all(actions).chats.consistent(),
    decreases actions.len(),
{
    if actions.len() > 0 {
        lemma_consistency_always(state, actions.drop_last());
        lemma_well_formed_always(state, actions.drop_last());
        lemma_consistency_kept(state.apply_all(actions.drop_last()), actions.last());
    }
}

/// Replication consistency, for every state that actions lead to: after a
/// sequence of actions dispatched to the state of a fresh installation, of
/// which none brings in a copy that disagrees with those that are there, all
/// copies of each chat agree on the unread count and on the message replied
/// to.
pub proof fn lemma_consistency_from_start(actions: Seq<Action>)
    requires
        admits_all(StateView::empty(), actions),
    ensures
        StateView::empty().apply_all(actions).chats.consistent(),
{
    lemma_empty_state();
    lemma_consistency_always(StateView::empty(), actions);
}

/// The ids of a list that a chat has joined are those of the list and the
/// id of the chat.
proof fn lemma_ids_joined(list: Seq<ChatView>, chat: ChatView)
    ensures
        ids(list.push(chat)) == ids(list).insert(chat.id),
{
    let longer = list.push(chat);
    assert forall|id: u128| has_id(longer, id) <==> has_id(list, id) || id == chat.id by {
        if has_id(longer, id) {
            let i = choose|i: int| 0 <= i < longer.len() && longer[i].id == id;
            if i < list.len() {
                assert(list[i].id == id);
            }
        }
        if has_id(list, id) {
            let i = choose|i: int| 0 <= i < list.len() && list[i].id == id;
            assert(longer[i].id == id);
        }
        if id == chat.id {
            assert(longer[list.len() as int].id == id);
        }
    }
    assert(ids(longer) =~= ids(list).insert(chat.id));
}

/// The ids of a list of distinct ids that the chat with one id has left are
/// those of the list but that id.
proof fn lemma_ids_left(list: Seq<ChatView>, id: u128)
    requires
        distinct_ids(list),
    ensures
        ids(without_id(list, id)) == ids(list).remove(id),
{
    let shorter = without_id(list, id);
    lemma_without_id_distinct(list, id);
    assert forall|other: u128| has_id(shorter, other) <==> has_id(list, other) && other
        != id by {
        if has_id(shorter, other) {
            let i = choose|i: int| 0 <= i < shorter.len() && shorter[i].id == other;
            assert(shorter.contains(shorter[i]));
            lemma_left_copy(list, id, shorter[i]);
            let j = choose|j: int| 0 <= j < list.len() && list[j] == shorter[i];
            assert(list[j].id == other);
        }
        if has_id(list, other) && other != id {
            let j = choose|j: int| 0 <= j < list.len() && list[j].id == other;
            if has_id(list, id) {
                lemma_first_with_id_found(list, id);
                let k = first_with_id(list, id);
                let i = if j < k { j } else { j - 1 };
                assert(list.remove(k)[i] == list[j]);
                assert(shorter[i].id == other);
            }
        }
    }
    assert(ids(shorter) =~= ids(list).remove(id));
}

/// Idempotent toggles: toggling a chat as favorite twice in succession
/// leaves the ids of the favorites as they were.
pub proof fn lemma_toggle_twice(state: StateView, action: Action)
    requires
        state.chats.well_formed(),
        action is ToggleFavorite,
    ensures
        ids(state.apply(action).apply(action).chats.favorites) == ids(state.chats.favorites),
{
    let chat = action->ToggleFavorite_0;
    let favorites = state.chats.favorites;
    let once = state.apply(action).chats.favorites;
    if has_id(favorites, chat.id) {
        lemma_without_id_distinct(favorites, chat.id);
        lemma_ids_left(favorites, chat.id);
        lemma_ids_joined(once, chat@);
        assert(ids(favorites).remove(chat.id).insert(chat.id) =~= ids(favorites));
    } else {
        lemma_ids_joined(favorites, chat@);
        lemma_with_chat_distinct(favorites, chat@);
        lemma_ids_left(once, chat.id);
        assert(ids(favorites).insert(chat.id).remove(chat.id) =~= ids(favorites));
    }
}

/// Single active: in a state with well-formed chats, after `ChatWith` the
/// active chat is the chat of the action by its id, marked as read, whatever
/// was active before. After any other action a chat is active only if a chat
/// with its id was active before.
pub proof fn lemma_single_active(state: StateView, action: Action)
    requires
        state.chats.well_formed(),
    ensures
        match action {
            Action::ChatWith(chat) => state.apply(action).chats.active matches Some(now)
                && now.id == chat.id && now.unreads == 0,
            _ => state.apply(action).chats.active matches Some(now) ==> state.chats.active
                matches Some(before) && now.id == before.id,
        },
{
}

/// The state of a fresh installation has well-formed chats whose copies
/// agree.
pub proof fn lemma_empty_state()
    ensures
        StateView::empty().chats.well_formed(),
        StateView::empty().chats.consistent(),
{
    let chats = StateView::empty().chats;
    assert forall|id: u128, copy: ChatView| !chats.holds(id, copy) by {
        if chats.in_sidebar.contains(copy) {
            let i = choose|i: int| 0 <= i < chats.in_sidebar.len() && chats.in_sidebar[i] == copy;
        }
        if chats.favorites.contains(copy) {
            let i = choose|i: int| 0 <= i < chats.favorites.len() && chats.favorites[i] == copy;
        }
    }
}

} // verus!
