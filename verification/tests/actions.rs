use uplink_state::action::Action;
use uplink_state::chat::{Chat, Patch};
use uplink_state::chats::{
    has_distinct_ids, is_keyed_by_id, overwrite_list, patch_list, position, Chats,
};
use uplink_state::records::{Identity, Item, Message, Reaction};
use uplink_state::state::State;
use std::collections::HashMap;

fn peer(name: &str) -> Identity {
    Identity { did_key: format!("did:key:{name}"), username: name.to_string() }
}

fn message(id: u128, text: &str) -> Message {
    Message { id, sender: "did:key:bob".to_string(), date: 12, lines: vec![text.to_string()] }
}

fn room(id: u128, unreads: u32) -> Chat {
    Chat { id, participants: vec![peer("bob")], messages: vec![], unreads, replying_to: None }
}

fn room_replying(id: u128, unreads: u32, to: Message) -> Chat {
    Chat { id, participants: vec![peer("bob")], messages: vec![], unreads, replying_to: Some(to) }
}

#[test]
fn new_state_is_empty() {
    let state = State::new();
    assert_eq!(state.account.identity, Identity { did_key: String::new(), username: String::new() });
    assert_eq!(state.route.active, "");
    assert!(state.chats.all.is_empty());
    assert_eq!(state.chats.active, None);
    assert!(state.chats.in_sidebar.is_empty());
    assert!(state.chats.favorites.is_empty());
    assert!(state.friends.all.is_empty());
    assert!(state.friends.blocked.is_empty());
    assert!(state.friends.incoming_requests.is_empty());
    assert!(state.friends.outgoing_requests.is_empty());
    assert!(state.files.all.is_empty());
    assert_eq!(state.files.active_folder, None);
    assert!(state.hooks.is_empty());
}

#[test]
fn default_state_equals_new_state() {
    let a = State::default();
    let b = State::new();
    assert_eq!(a.account, b.account);
    assert_eq!(a.route, b.route);
    assert_eq!(a.chats, b.chats);
    assert_eq!(a.friends, b.friends);
    assert_eq!(a.files, b.files);
}

#[test]
fn set_id_replaces_identity() {
    let mut state = State::new();
    state.mutate(Action::SetId(peer("alice")));
    assert_eq!(state.account.identity, peer("alice"));
    state.mutate(Action::SetId(peer("bob")));
    assert_eq!(state.account.identity, peer("bob"));
    assert_eq!(state.chats, Chats::default());
}

#[test]
fn set_identity_replaces_identity() {
    let mut state = State::new();
    state.set_identity(&peer("dora"));
    assert_eq!(state.account.identity, peer("dora"));
}

#[test]
fn navigate_replaces_route() {
    let mut state = State::new();
    state.mutate(Action::Navigate("/settings".to_string()));
    assert_eq!(state.route.active, "/settings");
    state.mutate(Action::Navigate("/files".to_string()));
    assert_eq!(state.route.active, "/files");
}

#[test]
fn favorite_appends_once_per_id() {
    let mut state = State::new();
    state.mutate(Action::Favorite(room(1, 0)));
    state.mutate(Action::Favorite(room(2, 0)));
    state.mutate(Action::Favorite(room(1, 9)));
    assert_eq!(state.chats.favorites, vec![room(1, 0), room(2, 0)]);
    assert!(state.is_favorite(&room(1, 0)));
    assert!(state.is_favorite(&room(1, 9)));
    assert!(!state.is_favorite(&room(3, 0)));
}

#[test]
fn favorite_method_appends_once_per_id() {
    let mut state = State::new();
    state.favorite(&room(1, 0));
    state.favorite(&room(1, 4));
    assert_eq!(state.chats.favorites, vec![room(1, 0)]);
}

#[test]
fn unfavorite_removes_by_id_and_keeps_order() {
    let mut state = State::new();
    state.mutate(Action::Favorite(room(1, 0)));
    state.mutate(Action::Favorite(room(2, 0)));
    state.mutate(Action::Favorite(room(3, 0)));
    state.mutate(Action::UnFavorite(room(2, 77)));
    assert_eq!(state.chats.favorites, vec![room(1, 0), room(3, 0)]);
    state.mutate(Action::UnFavorite(room(2, 0)));
    assert_eq!(state.chats.favorites, vec![room(1, 0), room(3, 0)]);
}

#[test]
fn unfavorite_method_removes_by_id() {
    let mut state = State::new();
    state.favorite(&room(1, 0));
    state.unfavorite(&room(1, 3));
    assert!(state.chats.favorites.is_empty());
}

#[test]
fn toggle_favorite_adds_then_removes() {
    let mut state = State::new();
    state.mutate(Action::ToggleFavorite(room(1, 0)));
    assert_eq!(state.chats.favorites, vec![room(1, 0)]);
    state.mutate(Action::ToggleFavorite(room(1, 0)));
    assert!(state.chats.favorites.is_empty());
}

#[test]
fn add_to_sidebar_appends_once_per_id() {
    let mut state = State::new();
    state.mutate(Action::AddToSidebar(room(1, 0)));
    state.mutate(Action::AddToSidebar(room(2, 0)));
    state.mutate(Action::AddToSidebar(room(1, 5)));
    assert_eq!(state.chats.in_sidebar, vec![room(1, 0), room(2, 0)]);
}

#[test]
fn chat_with_replaces_active_chat() {
    let mut state = State::new();
    state.mutate(Action::ChatWith(room(1, 4)));
    assert_eq!(state.chats.active, Some(room(1, 0)));
    state.mutate(Action::ChatWith(room(2, 6)));
    assert_eq!(state.chats.active, Some(room(2, 0)));
}

#[test]
fn chat_with_clears_unreads_of_canonical_record() {
    let mut state = State::new();
    state.chats.all.insert(1, room(1, 4));
    state.chats.all.insert(2, room(2, 8));
    state.mutate(Action::ChatWith(room(1, 4)));
    assert_eq!(state.chats.all[&1], room(1, 0));
    assert_eq!(state.chats.all[&2], room(2, 8));
}

#[test]
fn clear_unreads_reaches_every_copy_in_place() {
    let mut state = State::new();
    state.chats.all.insert(1, room(1, 4));
    state.chats.all.insert(2, room(2, 8));
    state.mutate(Action::AddToSidebar(room(2, 8)));
    state.mutate(Action::AddToSidebar(room(1, 4)));
    state.mutate(Action::AddToSidebar(room(3, 1)));
    state.mutate(Action::Favorite(room(3, 1)));
    state.mutate(Action::Favorite(room(1, 4)));
    state.chats.active = Some(room(1, 4));

    state.mutate(Action::ClearUnreads(room(1, 4)));

    assert_eq!(state.chats.all[&1], room(1, 0));
    assert_eq!(state.chats.all[&2], room(2, 8));
    assert_eq!(state.chats.active, Some(room(1, 0)));
    assert_eq!(state.chats.in_sidebar, vec![room(2, 8), room(1, 0), room(3, 1)]);
    assert_eq!(state.chats.favorites, vec![room(3, 1), room(1, 0)]);
}

#[test]
fn clear_unreads_of_unknown_chat_changes_nothing() {
    let mut state = State::new();
    state.mutate(Action::AddToSidebar(room(1, 4)));
    state.mutate(Action::Favorite(room(1, 4)));
    state.chats.active = Some(room(1, 4));

    state.mutate(Action::ClearUnreads(room(1, 4)));

    assert!(state.chats.all.is_empty());
    assert_eq!(state.chats.active, Some(room(1, 4)));
    assert_eq!(state.chats.in_sidebar, vec![room(1, 4)]);
    assert_eq!(state.chats.favorites, vec![room(1, 4)]);
}

#[test]
fn clear_unreads_leaves_other_active_chat() {
    let mut state = State::new();
    state.chats.all.insert(1, room(1, 4));
    state.chats.active = Some(room(2, 3));
    state.mutate(Action::ClearUnreads(room(1, 4)));
    assert_eq!(state.chats.active, Some(room(2, 3)));
    assert_eq!(state.chats.all[&1], room(1, 0));
}

#[test]
fn start_replying_reaches_every_copy() {
    let mut state = State::new();
    state.chats.all.insert(1, room(1, 4));
    state.mutate(Action::AddToSidebar(room(1, 4)));
    state.mutate(Action::Favorite(room(2, 0)));
    state.mutate(Action::Favorite(room(1, 4)));
    state.chats.active = Some(room(1, 4));

    state.mutate(Action::StartReplying(room(1, 4), message(5, "hi")));

    let expected = room_replying(1, 4, message(5, "hi"));
    assert_eq!(state.chats.all[&1], expected);
    assert_eq!(state.chats.active, Some(room_replying(1, 4, message(5, "hi"))));
    assert_eq!(state.chats.in_sidebar, vec![room_replying(1, 4, message(5, "hi"))]);
    assert_eq!(state.chats.favorites, vec![room(2, 0), room_replying(1, 4, message(5, "hi"))]);
}

#[test]
fn start_replying_in_unknown_chat_changes_nothing() {
    let mut state = State::new();
    state.mutate(Action::Favorite(room(1, 4)));
    state.chats.active = Some(room(1, 4));

    state.mutate(Action::StartReplying(room(1, 4), message(5, "hi")));

    assert_eq!(state.chats.active, Some(room(1, 4)));
    assert_eq!(state.chats.favorites, vec![room(1, 4)]);
}

#[test]
fn start_replying_replaces_earlier_reply() {
    let mut state = State::new();
    state.chats.all.insert(1, room(1, 0));
    state.mutate(Action::StartReplying(room(1, 0), message(5, "first")));
    state.mutate(Action::StartReplying(room(1, 0), message(6, "second")));
    assert_eq!(state.chats.all[&1].replying_to, Some(message(6, "second")));
}

#[test]
fn cancel_reply_reaches_every_copy() {
    let mut state = State::new();
    let replying = || room_replying(1, 2, message(5, "hi"));
    state.chats.all.insert(1, replying());
    state.mutate(Action::AddToSidebar(replying()));
    state.mutate(Action::Favorite(replying()));
    state.chats.active = Some(replying());

    state.mutate(Action::CancelReply(room(1, 0)));

    assert_eq!(state.chats.all[&1], room(1, 2));
    assert_eq!(state.chats.active, Some(room(1, 2)));
    assert_eq!(state.chats.in_sidebar, vec![room(1, 2)]);
    assert_eq!(state.chats.favorites, vec![room(1, 2)]);
}

#[test]
fn cancel_reply_in_unknown_chat_changes_nothing() {
    let mut state = State::new();
    state.chats.active = Some(room_replying(1, 2, message(5, "hi")));
    state.mutate(Action::CancelReply(room(1, 0)));
    assert_eq!(state.chats.active, Some(room_replying(1, 2, message(5, "hi"))));
}

#[test]
fn get_active_chat_gives_default_without_active_chat() {
    let state = State::new();
    let chat = state.get_active_chat();
    assert_eq!(chat, Chat { id: 0, participants: vec![], messages: vec![], unreads: 0, replying_to: None });
    assert_eq!(chat, Chat::default());
}

#[test]
fn get_active_chat_gives_copy_of_active_chat() {
    let mut state = State::new();
    state.mutate(Action::ChatWith(room_replying(3, 1, message(9, "x"))));
    assert_eq!(state.get_active_chat(), room_replying(3, 0, message(9, "x")));
}

#[test]
fn is_implemented_tells_handlers_from_stubs() {
    let handled = vec![
        Action::SetId(peer("a")),
        Action::Navigate("/".to_string()),
        Action::Favorite(room(1, 0)),
        Action::UnFavorite(room(1, 0)),
        Action::ChatWith(room(1, 0)),
        Action::AddToSidebar(room(1, 0)),
        Action::RemoveFromSidebar(room(1, 0)),
        Action::ToggleFavorite(room(1, 0)),
        Action::StartReplying(room(1, 0), message(1, "m")),
        Action::CancelReply(room(1, 0)),
        Action::ClearUnreads(room(1, 0)),
    ];
    for action in &handled {
        assert!(action.is_implemented(), "{action:?}");
    }
    let stubs = vec![
        Action::SendRequest(peer("a")),
        Action::RequestAccepted(peer("a")),
        Action::CancelRequest(peer("a")),
        Action::IncomingRequest(peer("a")),
        Action::AcceptRequest(peer("a")),
        Action::DenyRequest(peer("a")),
        Action::Block(peer("a")),
        Action::UnBlock(peer("a")),
        Action::NewMessage(room(1, 0), message(1, "m")),
        Action::React(room(1, 0), message(1, "m"), Reaction { emoji: ":)".to_string(), users: vec![] }),
        Action::Reply(room(1, 0), message(1, "m")),
        Action::Send(room(1, 0), message(1, "m")),
    ];
    for action in &stubs {
        assert!(!action.is_implemented(), "{action:?}");
    }
}

#[test]
fn actions_leave_friends_and_files_alone() {
    let mut state = State::new();
    state.friends.all.insert("did:key:bob".to_string(), peer("bob"));
    state.friends.blocked.push(peer("eve"));
    state.files.all.push(Item { name: "a.txt".to_string(), size: 3, directory: false });
    state.files.active_folder = Some(Item { name: "docs".to_string(), size: 0, directory: true });
    let before = state.clone();

    state.mutate(Action::Favorite(room(1, 0)));
    state.mutate(Action::ChatWith(room(1, 0)));
    state.mutate(Action::Navigate("/x".to_string()));

    assert_eq!(state.friends, before.friends);
    assert_eq!(state.files, before.files);
    assert_eq!(state.account, before.account);
}

#[test]
fn position_finds_first_chat_with_id() {
    let list = vec![room(4, 0), room(5, 0), room(4, 1)];
    assert_eq!(position(&list, 4), Some(0));
    assert_eq!(position(&list, 5), Some(1));
    assert_eq!(position(&list, 6), None);
    assert_eq!(position(&Vec::new(), 4), None);
}

#[test]
fn patch_list_changes_matching_chats_in_place() {
    let mut list = vec![room(4, 3), room(5, 2), room(4, 1)];
    patch_list(&mut list, 4, &Patch::ClearUnreads);
    assert_eq!(list, vec![room(4, 0), room(5, 2), room(4, 0)]);
    patch_list(&mut list, 5, &Patch::Reply(message(1, "m")));
    assert_eq!(list, vec![room(4, 0), room_replying(5, 2, message(1, "m")), room(4, 0)]);
    patch_list(&mut list, 5, &Patch::CancelReply);
    assert_eq!(list, vec![room(4, 0), room(5, 2), room(4, 0)]);
}

#[test]
fn chat_apply_sets_only_the_named_field() {
    let mut chat = room_replying(1, 7, message(2, "old"));
    chat.apply(&Patch::ClearUnreads);
    assert_eq!(chat, room_replying(1, 0, message(2, "old")));
    chat.unreads = 7;
    chat.apply(&Patch::Reply(message(3, "new")));
    assert_eq!(chat, room_replying(1, 7, message(3, "new")));
    chat.apply(&Patch::CancelReply);
    assert_eq!(chat, room(1, 7));
}

#[test]
fn patch_copies_changes_every_copy_that_is_shown() {
    let mut chats = Chats::default();
    chats.all.insert(2, room(2, 3));
    chats.active = Some(room(1, 3));
    chats.in_sidebar.push(room(1, 3));
    chats.in_sidebar.push(room(2, 3));
    chats.favorites.push(room(1, 3));
    chats.patch_copies(1, &Patch::ClearUnreads);
    assert_eq!(chats.all.len(), 1);
    assert_eq!(chats.all[&2], room(2, 3));
    assert_eq!(chats.active, Some(room(1, 0)));
    assert_eq!(chats.in_sidebar, vec![room(1, 0), room(2, 3)]);
    assert_eq!(chats.favorites, vec![room(1, 0)]);
}

#[test]
fn replicate_puts_the_changed_record_in_place_of_every_copy() {
    let mut chats = Chats::default();
    let mut record = room(1, 6);
    record.messages.push(message(70, "latest"));
    chats.all.insert(1, record);
    chats.all.insert(2, room(2, 2));
    chats.active = Some(room(1, 9));
    chats.in_sidebar.push(room(2, 2));
    chats.in_sidebar.push(room(1, 8));
    chats.favorites.push(room(1, 7));
    chats.favorites.push(room(3, 1));

    chats.replicate(1, &Patch::Reply(message(5, "hi")));

    let mut updated = room_replying(1, 6, message(5, "hi"));
    updated.messages.push(message(70, "latest"));
    assert_eq!(chats.all[&1], updated);
    assert_eq!(chats.all[&2], room(2, 2));
    assert_eq!(chats.active.as_ref(), Some(&updated));
    assert_eq!(chats.in_sidebar[0], room(2, 2));
    assert_eq!(chats.in_sidebar[1], updated);
    assert_eq!(chats.favorites[0], updated);
    assert_eq!(chats.favorites[1], room(3, 1));
    assert_eq!(chats.in_sidebar.len(), 2);
    assert_eq!(chats.favorites.len(), 2);
}

#[test]
fn replicate_without_canonical_record_changes_nothing() {
    let mut chats = Chats::default();
    chats.all.insert(2, room(2, 2));
    chats.active = Some(room(1, 9));
    chats.in_sidebar.push(room(1, 8));
    chats.favorites.push(room(1, 7));

    chats.replicate(1, &Patch::ClearUnreads);

    assert_eq!(chats.all[&2], room(2, 2));
    assert_eq!(chats.active, Some(room(1, 9)));
    assert_eq!(chats.in_sidebar, vec![room(1, 8)]);
    assert_eq!(chats.favorites, vec![room(1, 7)]);
}

#[test]
fn replicate_leaves_another_active_chat() {
    let mut chats = Chats::default();
    chats.all.insert(1, room(1, 6));
    chats.active = Some(room(2, 9));
    chats.replicate(1, &Patch::ClearUnreads);
    assert_eq!(chats.active, Some(room(2, 9)));
    assert_eq!(chats.all[&1], room(1, 0));
}

#[test]
fn overwrite_list_replaces_matching_chats_in_place() {
    let mut list = vec![room(4, 3), room(5, 2), room(6, 1)];
    overwrite_list(&mut list, 5, &room_replying(5, 0, message(1, "m")));
    assert_eq!(list, vec![room(4, 3), room_replying(5, 0, message(1, "m")), room(6, 1)]);
    overwrite_list(&mut list, 7, &room(7, 0));
    assert_eq!(list, vec![room(4, 3), room_replying(5, 0, message(1, "m")), room(6, 1)]);
}

#[test]
fn chat_with_known_chat_shows_its_canonical_record() {
    let mut state = State::new();
    let mut record = room(1, 6);
    record.messages.push(message(70, "latest"));
    state.chats.all.insert(1, record);
    state.mutate(Action::AddToSidebar(room(1, 2)));
    state.mutate(Action::Favorite(room_replying(1, 3, message(9, "stale"))));

    state.mutate(Action::ChatWith(room_replying(1, 4, message(8, "other"))));

    let mut updated = room(1, 0);
    updated.messages.push(message(70, "latest"));
    assert_eq!(state.chats.all[&1], updated);
    assert_eq!(state.get_active_chat(), updated);
    assert_eq!(state.chats.in_sidebar, vec![state.get_active_chat()]);
    assert_eq!(state.chats.favorites, vec![state.get_active_chat()]);
}

#[test]
fn chat_with_unknown_chat_shows_the_given_chat_as_read() {
    let mut state = State::new();
    state.chats.all.insert(2, room(2, 6));
    state.mutate(Action::AddToSidebar(room_replying(1, 2, message(9, "kept"))));
    state.mutate(Action::AddToSidebar(room(2, 6)));

    state.mutate(Action::ChatWith(room(1, 4)));

    assert_eq!(state.chats.active, Some(room(1, 0)));
    assert_eq!(
        state.chats.in_sidebar,
        vec![room_replying(1, 0, message(9, "kept")), room(2, 6)]
    );
    assert_eq!(state.chats.all[&2], room(2, 6));
}

#[test]
fn well_formed_checks_tell_duplicates_and_wrong_keys() {
    assert!(has_distinct_ids(&vec![]));
    assert!(has_distinct_ids(&vec![room(1, 0), room(2, 0), room(3, 0)]));
    assert!(!has_distinct_ids(&vec![room(1, 0), room(2, 0), room(1, 5)]));
    assert!(!has_distinct_ids(&vec![room(2, 0), room(2, 0)]));

    let mut all = HashMap::new();
    assert!(is_keyed_by_id(&all));
    all.insert(1, room(1, 0));
    all.insert(2, room(2, 0));
    assert!(is_keyed_by_id(&all));
    all.insert(3, room(4, 0));
    assert!(!is_keyed_by_id(&all));

    let mut chats = Chats::default();
    assert!(chats.is_well_formed());
    chats.in_sidebar.push(room(1, 0));
    chats.favorites.push(room(1, 0));
    chats.all.insert(1, room(1, 0));
    assert!(chats.is_well_formed());
    chats.favorites.push(room(1, 2));
    assert!(!chats.is_well_formed());
}
