use uplink_state::action::Action;
use uplink_state::chat::Chat;
use uplink_state::records::{Identity, Message};
use uplink_state::state::{Hook, Snapshot, State};

fn person(name: &str) -> Identity {
    Identity { did_key: format!("did:key:{name}"), username: name.to_string() }
}

fn note(id: u128, text: &str) -> Message {
    Message { id, sender: "did:key:alice".to_string(), date: 1_700_000_000_000, lines: vec![text.to_string()] }
}

fn chat(id: u128, unreads: u32) -> Chat {
    Chat {
        id,
        participants: vec![person("alice"), person("bob")],
        messages: vec![note(1, "hello")],
        unreads,
        replying_to: None,
    }
}

#[test]
fn favorite_then_chat_with_clears_unreads_everywhere() {
    let mut state = State::new();
    state.mutate(Action::AddToSidebar(chat(7, 5)));
    state.mutate(Action::Favorite(chat(7, 5)));
    state.mutate(Action::ChatWith(chat(7, 5)));

    assert_eq!(state.chats.active, Some(chat(7, 0)));
    assert_eq!(state.get_active_chat().unreads, 0);
    assert_eq!(state.chats.in_sidebar, vec![chat(7, 0)]);
    assert_eq!(state.chats.favorites, vec![chat(7, 0)]);
    assert!(state.chats.all.is_empty());
}

#[test]
fn remove_active_from_sidebar_clears_active() {
    let mut state = State::new();
    state.mutate(Action::AddToSidebar(chat(7, 0)));
    state.mutate(Action::AddToSidebar(chat(8, 0)));
    state.mutate(Action::ChatWith(chat(7, 0)));
    assert_eq!(state.chats.active, Some(chat(7, 0)));

    state.mutate(Action::RemoveFromSidebar(chat(7, 0)));

    assert_eq!(state.chats.in_sidebar, vec![chat(8, 0)]);
    assert_eq!(state.chats.active, None);
}

#[test]
fn remove_other_chat_from_sidebar_keeps_active() {
    let mut state = State::new();
    state.mutate(Action::AddToSidebar(chat(7, 0)));
    state.mutate(Action::AddToSidebar(chat(8, 0)));
    state.mutate(Action::ChatWith(chat(7, 0)));

    state.mutate(Action::RemoveFromSidebar(chat(8, 0)));

    assert_eq!(state.chats.in_sidebar, vec![chat(7, 0)]);
    assert_eq!(state.chats.active, Some(chat(7, 0)));
}

#[test]
fn remove_active_chat_that_is_not_in_sidebar_clears_active() {
    let mut state = State::new();
    state.mutate(Action::AddToSidebar(chat(8, 0)));
    state.mutate(Action::ChatWith(chat(7, 0)));

    state.mutate(Action::RemoveFromSidebar(chat(7, 0)));

    assert_eq!(state.chats.in_sidebar, vec![chat(8, 0)]);
    assert_eq!(state.chats.active, None);
}

#[test]
fn reply_then_cancel_leaves_no_reply_anywhere() {
    let mut state = State::new();
    state.chats.all.insert(7, chat(7, 2));
    state.mutate(Action::ChatWith(chat(7, 2)));
    state.mutate(Action::Favorite(chat(7, 0)));

    state.mutate(Action::StartReplying(chat(7, 0), note(42, "what?")));

    assert_eq!(state.chats.all[&7].replying_to, Some(note(42, "what?")));
    assert_eq!(state.get_active_chat().replying_to, Some(note(42, "what?")));
    assert_eq!(state.chats.favorites[0].replying_to, Some(note(42, "what?")));

    state.mutate(Action::CancelReply(chat(7, 0)));

    assert_eq!(state.chats.all[&7].replying_to, None);
    assert_eq!(state.get_active_chat().replying_to, None);
    assert_eq!(state.chats.favorites[0].replying_to, None);
    assert_eq!(state.chats.all[&7], chat(7, 0));
}

#[test]
fn load_without_saved_state_gives_default() {
    let state = State::load(None);
    let fresh = State::new();

    assert_eq!(state.account, fresh.account);
    assert_eq!(state.route, fresh.route);
    assert_eq!(state.chats, fresh.chats);
    assert_eq!(state.friends, fresh.friends);
    assert_eq!(state.files, fresh.files);
    assert!(state.hooks.is_empty());
    assert!(state.chats.is_well_formed());
}

#[test]
fn load_keeps_a_saved_state() {
    let mut saved = State::new();
    saved.mutate(Action::SetId(person("carol")));
    saved.mutate(Action::Navigate("/friends".to_string()));
    saved.chats.all.insert(7, chat(7, 3));
    saved.mutate(Action::AddToSidebar(chat(7, 3)));
    saved.mutate(Action::Favorite(chat(7, 3)));
    saved.mutate(Action::ChatWith(chat(7, 3)));
    let copy = saved.clone();

    let state = State::load(Some(saved));

    assert_eq!(state.account, copy.account);
    assert_eq!(state.route, copy.route);
    assert_eq!(state.chats, copy.chats);
    assert_eq!(state.friends, copy.friends);
    assert_eq!(state.files, copy.files);
    assert_eq!(state.account.identity, person("carol"));
    assert_eq!(state.route.active, "/friends");
    assert_eq!(state.chats.active, Some(chat(7, 0)));
}

#[test]
fn load_replaces_a_damaged_state_by_default() {
    let mut twice_in_sidebar = State::new();
    twice_in_sidebar.route.active = "/chat".to_string();
    twice_in_sidebar.chats.in_sidebar.push(chat(7, 1));
    twice_in_sidebar.chats.in_sidebar.push(chat(7, 2));
    let state = State::load(Some(twice_in_sidebar));
    assert_eq!(state.chats, State::new().chats);
    assert_eq!(state.route.active, "");

    let mut twice_in_favorites = State::new();
    twice_in_favorites.chats.favorites.push(chat(9, 0));
    twice_in_favorites.chats.favorites.push(chat(8, 0));
    twice_in_favorites.chats.favorites.push(chat(9, 0));
    let state = State::load(Some(twice_in_favorites));
    assert_eq!(state.chats, State::new().chats);

    let mut under_wrong_id = State::new();
    under_wrong_id.chats.all.insert(1, chat(2, 0));
    let state = State::load(Some(under_wrong_id));
    assert_eq!(state.chats, State::new().chats);
}

struct Silent;

impl Hook for Silent {
    fn state_changed(&self, _snapshot: &Snapshot<'_>) {}
}

#[test]
fn load_drops_hooks() {
    let mut saved = State::new();
    saved.add_hook(Box::new(Silent));
    assert_eq!(saved.hooks.len(), 1);

    let state = State::load(Some(saved));

    assert!(state.hooks.is_empty());
}
