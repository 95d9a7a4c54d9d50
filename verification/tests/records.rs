use uplink_state::chat::Chat;
use uplink_state::chats::Chats;
use uplink_state::records::{
    Account, Files, Friends, Identity, Item, Message, Reaction, Route, ScopeIds,
};

#[test]
fn defaults_are_empty() {
    assert_eq!(Identity::default(), Identity { did_key: String::new(), username: String::new() });
    assert_eq!(
        Message::default(),
        Message { id: 0, sender: String::new(), date: 0, lines: vec![] }
    );
    assert_eq!(Account::default().identity, Identity::default());
    assert_eq!(Route::default().active, "");
    assert_eq!(
        Chat::default(),
        Chat { id: 0, participants: vec![], messages: vec![], unreads: 0, replying_to: None }
    );
    let chats = Chats::default();
    assert!(chats.all.is_empty() && chats.in_sidebar.is_empty() && chats.favorites.is_empty());
    assert_eq!(chats.active, None);
    let friends = Friends::default();
    assert!(friends.all.is_empty() && friends.blocked.is_empty());
    assert!(friends.incoming_requests.is_empty() && friends.outgoing_requests.is_empty());
    let files = Files::default();
    assert!(files.all.is_empty());
    assert_eq!(files.active_folder, None);
    assert_eq!(
        ScopeIds::default(),
        ScopeIds {
            chatbar: None,
            file_transfer: None,
            file_transfer_icon: None,
            pending_message_component: None
        }
    );
}

#[test]
fn clones_are_equal_and_independent() {
    let identity = Identity { did_key: "did:key:z6Mk".to_string(), username: "ann".to_string() };
    assert_eq!(identity.clone(), identity);

    let message = Message {
        id: 3,
        sender: "did:key:z6Mk".to_string(),
        date: -5,
        lines: vec!["one".to_string(), "two".to_string()],
    };
    assert_eq!(message.clone(), message);

    let reaction = Reaction { emoji: "+1".to_string(), users: vec!["did:key:z6Mk".to_string()] };
    assert_eq!(reaction.clone(), reaction);

    let item = Item { name: "notes".to_string(), size: 12, directory: true };
    assert_eq!(item.clone(), item);

    let chat = Chat {
        id: u128::MAX,
        participants: vec![identity.clone(), Identity::default()],
        messages: vec![message.clone()],
        unreads: u32::MAX,
        replying_to: Some(message.clone()),
    };
    let mut copy = chat.clone();
    assert_eq!(copy, chat);
    copy.unreads = 0;
    copy.messages.clear();
    assert_eq!(chat.unreads, u32::MAX);
    assert_eq!(chat.messages.len(), 1);

    let mut chats = Chats::default();
    chats.all.insert(chat.id, chat.clone());
    chats.active = Some(chat.clone());
    chats.in_sidebar.push(chat.clone());
    chats.favorites.push(chat.clone());
    assert_eq!(chats.clone(), chats);

    let mut friends = Friends::default();
    friends.all.insert(identity.did_key.clone(), identity.clone());
    friends.blocked.push(identity.clone());
    friends.incoming_requests.push(Identity::default());
    friends.outgoing_requests.push(identity.clone());
    assert_eq!(friends.clone(), friends);

    let files = Files { all: vec![item.clone()], active_folder: Some(item.clone()) };
    assert_eq!(files.clone(), files);

    let account = Account { identity: identity.clone() };
    assert_eq!(account.clone(), account);
    let route = Route { active: "/chat".to_string() };
    assert_eq!(route.clone(), route);
}
