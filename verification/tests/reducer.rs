use chat_session::{avatar_url, ChatMessage, ChatState, DecodeError, Roster, UserProfile, WireEnvelope};

fn profile(name: &str) -> UserProfile {
    UserProfile {
        name: name.to_string(),
        avatar_url: format!("https://api.dicebear.com/8.x/identicon/svg?seed={}", name),
    }
}

fn message(from: &str, body: &str) -> ChatMessage {
    ChatMessage { from: from.to_string(), body: body.to_string() }
}

fn strings(names: &[&str]) -> Vec<String> {
    names.iter().map(|n| n.to_string()).collect()
}

fn users(names: &[&str]) -> WireEnvelope {
    WireEnvelope::Users { names: strings(names) }
}

fn payload(from: &str, body: &str) -> WireEnvelope {
    WireEnvelope::Message { payload: chat_session::encode_payload(&message(from, body)) }
}

#[test]
fn avatar_url_is_the_fixed_address_with_the_name_as_seed() {
    assert_eq!(avatar_url("alice"), "https://api.dicebear.com/8.x/identicon/svg?seed=alice");
    assert_eq!(avatar_url(""), "https://api.dicebear.com/8.x/identicon/svg?seed=");
    assert_eq!(avatar_url("a b&c"), "https://api.dicebear.com/8.x/identicon/svg?seed=a b&c");
}

#[test]
fn profile_is_derived_from_the_name() {
    assert_eq!(UserProfile::new("bob"), profile("bob"));
}

#[test]
fn new_state_is_empty() {
    let state = ChatState::new();
    assert!(state.roster().profiles().is_empty());
    assert!(state.messages().is_empty());
    assert!(Roster::new().profiles().is_empty());
}

#[test]
fn scenario_users_then_message() {
    let mut state = ChatState::new();
    let refresh =
        state.receive("{\"messageType\":\"users\",\"dataArray\":[\"alice\",\"bob\"],\"data\":null}");
    assert!(refresh);
    assert_eq!(state.roster().profiles(), &vec![profile("alice"), profile("bob")]);
    assert_eq!(
        state.roster().profiles()[0].avatar_url,
        "https://api.dicebear.com/8.x/identicon/svg?seed=alice"
    );
    assert_eq!(
        state.roster().profiles()[1].avatar_url,
        "https://api.dicebear.com/8.x/identicon/svg?seed=bob"
    );
    assert!(state.messages().is_empty());
    let refresh = state.receive(
        "{\"messageType\":\"message\",\"data\":\"{\\\"from\\\":\\\"alice\\\",\\\"message\\\":\\\"hi\\\"}\",\"dataArray\":null}",
    );
    assert!(refresh);
    assert_eq!(state.messages(), &vec![message("alice", "hi")]);
    assert_eq!(state.roster().profiles(), &vec![profile("alice"), profile("bob")]);
}

#[test]
fn users_replaces_the_roster_wholesale() {
    let mut state = ChatState::new();
    assert!(state.apply(&users(&["alice", "bob", "carol"])));
    assert!(state.apply(&users(&["dave", "bob"])));
    assert_eq!(state.roster().profiles(), &vec![profile("dave"), profile("bob")]);
    assert!(state.apply(&users(&[])));
    assert!(state.roster().profiles().is_empty());
}

#[test]
fn users_twice_gives_the_same_roster() {
    let mut state = ChatState::new();
    let envelope = users(&["alice", "bob"]);
    assert!(state.apply(&envelope));
    let once: Vec<UserProfile> = state.roster().profiles().clone();
    assert!(state.apply(&envelope));
    assert_eq!(state.roster().profiles(), &once);
    assert_eq!(once, vec![profile("alice"), profile("bob")]);
}

#[test]
fn roster_keeps_each_name_once() {
    let mut state = ChatState::new();
    assert!(state.apply(&users(&["bob", "alice", "bob", "carol", "alice", "bob"])));
    assert_eq!(state.roster().profiles(), &vec![profile("bob"), profile("alice"), profile("carol")]);
    let roster = Roster::from_names(&strings(&["x", "x"]));
    assert_eq!(roster.profiles(), &vec![profile("x")]);
    let roster = Roster::from_names(&strings(&["x", "X", ""]));
    assert_eq!(roster.profiles(), &vec![profile("x"), profile("X"), profile("")]);
}

#[test]
fn messages_are_appended_in_order() {
    let mut state = ChatState::new();
    state.append(message("zed", "first"));
    let bodies = ["one", "two", "three", "four", "five"];
    for body in bodies.iter() {
        assert!(state.apply(&payload("alice", body)));
    }
    assert_eq!(state.messages().len(), 1 + bodies.len());
    assert_eq!(
        state.messages(),
        &vec![
            message("zed", "first"),
            message("alice", "one"),
            message("alice", "two"),
            message("alice", "three"),
            message("alice", "four"),
            message("alice", "five"),
        ]
    );
}

#[test]
fn equal_messages_are_all_kept() {
    let mut state = ChatState::new();
    assert!(state.apply(&payload("alice", "same")));
    assert!(state.apply(&payload("alice", "same")));
    assert_eq!(state.messages(), &vec![message("alice", "same"), message("alice", "same")]);
}

#[test]
fn message_from_an_unknown_sender_is_kept() {
    let mut state = ChatState::new();
    assert!(state.apply(&users(&["alice"])));
    assert!(state.apply(&payload("mallory", "hi")));
    assert_eq!(state.messages(), &vec![message("mallory", "hi")]);
}

#[test]
fn users_leaves_the_feed_alone() {
    let mut state = ChatState::new();
    assert!(state.apply(&payload("alice", "hi")));
    assert!(state.apply(&users(&["bob"])));
    assert_eq!(state.messages(), &vec![message("alice", "hi")]);
}

#[test]
fn register_inbound_changes_nothing() {
    let mut state = ChatState::new();
    assert!(state.apply(&users(&["alice"])));
    assert!(state.apply(&payload("alice", "hi")));
    let refresh = state.apply(&WireEnvelope::Register { username: "mallory".to_string() });
    assert!(!refresh);
    assert_eq!(state.roster().profiles(), &vec![profile("alice")]);
    assert_eq!(state.messages(), &vec![message("alice", "hi")]);
    let refresh =
        state.receive("{\"messageType\":\"register\",\"data\":\"mallory\",\"dataArray\":null}");
    assert!(!refresh);
    assert_eq!(state.roster().profiles(), &vec![profile("alice")]);
    assert_eq!(state.messages(), &vec![message("alice", "hi")]);
    assert_eq!(
        state.try_receive("{\"messageType\":\"register\",\"data\":\"mallory\",\"dataArray\":null}"),
        Ok(false)
    );
}

#[test]
fn message_with_a_malformed_payload_changes_nothing() {
    let mut state = ChatState::new();
    assert!(state.apply(&users(&["alice"])));
    assert!(state.apply(&payload("alice", "hi")));
    let bad = WireEnvelope::Message { payload: "plain text".to_string() };
    assert!(!state.apply(&bad));
    assert_eq!(state.try_apply(&bad), Err(DecodeError::Malformed));
    let bad = WireEnvelope::Message { payload: "{\"from\":\"alice\"}".to_string() };
    assert!(!state.apply(&bad));
    assert_eq!(state.try_apply(&bad), Err(DecodeError::Malformed));
    assert_eq!(state.roster().profiles(), &vec![profile("alice")]);
    assert_eq!(state.messages(), &vec![message("alice", "hi")]);
}

#[test]
fn malformed_text_changes_nothing() {
    let mut state = ChatState::new();
    assert!(state.apply(&users(&["alice"])));
    assert!(state.apply(&payload("alice", "hi")));
    let texts = [
        "",
        "garbage",
        "{\"messageType\":\"message\",\"data\":null,\"dataArray\":null}",
        "{\"messageType\":\"users\",\"data\":null,\"dataArray\":null}",
        "{\"messageType\":\"message\",\"data\":\"no payload\",\"dataArray\":null}",
        "{\"messageType\":\"gone\",\"data\":\"x\",\"dataArray\":[]}",
    ];
    for text in texts.iter() {
        assert!(!state.receive(text));
        assert_eq!(state.try_receive(text), Err(DecodeError::Malformed));
        assert_eq!(state.roster().profiles(), &vec![profile("alice")]);
        assert_eq!(state.messages(), &vec![message("alice", "hi")]);
    }
}

#[test]
fn try_receive_says_whether_to_refresh() {
    let mut state = ChatState::new();
    assert_eq!(
        state.try_receive("{\"messageType\":\"users\",\"dataArray\":[\"a\"],\"data\":null}"),
        Ok(true)
    );
    assert_eq!(
        state.try_receive(
            "{\"messageType\":\"message\",\"data\":\"{\\\"from\\\":\\\"a\\\",\\\"message\\\":\\\"m\\\"}\"}"
        ),
        Ok(true)
    );
    assert_eq!(state.roster().profiles(), &vec![profile("a")]);
    assert_eq!(state.messages(), &vec![message("a", "m")]);
}

#[test]
fn avatar_of_a_known_and_an_unknown_name() {
    let roster = Roster::from_names(&strings(&["alice", "bob"]));
    assert_eq!(
        roster.avatar_of("bob"),
        Some("https://api.dicebear.com/8.x/identicon/svg?seed=bob".to_string())
    );
    assert_eq!(roster.avatar_of("Bob"), None);
    assert_eq!(roster.avatar_of(""), None);
    assert_eq!(Roster::new().avatar_of("alice"), None);
}
