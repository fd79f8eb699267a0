use purple_icq::chat_info::{
    ChatBuddyFlags, ChatInfo, ChatInfoVersion, ChatMember, MemberRole, PartialChatInfo,
    StrHashTable,
};
use purple_icq::client::GetChatInfoResponseData;
use purple_icq::reconciler::{
    chat_info_defaults, get_chat_name, ChatJoined, ConversationJoined, HistoryInfo, JoinRequest,
    MsgInfo, Reconciler,
};
use purple_icq::system::{get_chat_info, join_chat, join_chat_stamp};
use purple_icq::messages::{JoinChatMessageData, PurpleMessage};

fn partial(sn: &str, title: &str, group: Option<&str>) -> PartialChatInfo {
    PartialChatInfo {
        sn: sn.to_string(),
        title: title.to_string(),
        group: group.map(|g| g.to_string()),
    }
}

fn message(chat: &str, id: &str, time: i64) -> MsgInfo {
    MsgInfo {
        chat_sn: chat.to_string(),
        author_sn: "100".to_string(),
        author_friendly: "Alice".to_string(),
        text: "hi".to_string(),
        time,
        message_id: id.to_string(),
    }
}

fn full(sn: &str, members_version: &str, info_version: &str) -> ChatInfo {
    ChatInfo {
        stamp: Some("S".to_string()),
        group: None,
        sn: sn.to_string(),
        title: "Room".to_string(),
        about: None,
        members_version: members_version.to_string(),
        info_version: info_version.to_string(),
        members: vec![
            ChatMember {
                sn: "100".to_string(),
                friendly_name: None,
                role: MemberRole("admin".to_string()),
                last_seen: None,
                first_name: None,
                last_name: None,
            },
            ChatMember {
                sn: "100".to_string(),
                friendly_name: Some("Alice".to_string()),
                role: MemberRole("readonly".to_string()),
                last_seen: None,
                first_name: None,
                last_name: None,
            },
            ChatMember {
                sn: "200".to_string(),
                friendly_name: Some("Bob".to_string()),
                role: MemberRole("member".to_string()),
                last_seen: Some(5),
                first_name: None,
                last_name: None,
            },
        ],
    }
}

#[test]
fn cursor_only_moves_backward() {
    let mut cursor = HistoryInfo::new();
    assert!(cursor.observe("m5", 50));
    assert_eq!(cursor.oldest_message_id, Some("m5".to_string()));
    assert_eq!(cursor.oldest_message_timestamp, Some(50));
    assert!(!cursor.observe("m6", 60));
    assert_eq!(cursor.oldest_message_id, Some("m5".to_string()));
    assert_eq!(cursor.oldest_message_timestamp, Some(50));
    assert!(!cursor.observe("m5b", 50));
    assert_eq!(cursor.oldest_message_id, Some("m5".to_string()));
    assert!(cursor.observe("m4", 49));
    assert_eq!(cursor.oldest_message_id, Some("m4".to_string()));
    assert_eq!(cursor.oldest_message_timestamp, Some(49));
    assert!(cursor.observe("neg", -1));
    assert_eq!(cursor.oldest_message_timestamp, Some(-1));
}

#[test]
fn chat_join_creates_entry_in_default_group() {
    let mut state = Reconciler::new();
    let outcome = state.chat_joined(&partial("1@chat.agent", "Room", None));
    assert_eq!(outcome, Some(ChatJoined::Created));
    assert_eq!(state.chats().len(), 1);
    assert_eq!(state.chats()[0].sn, "1@chat.agent");
    assert_eq!(state.chats()[0].alias, "Room");
    assert_eq!(state.chats()[0].group, Some("ICQ".to_string()));
    assert_eq!(state.chats()[0].last_seen_timestamp, 0);
    assert_eq!(state.chats()[0].components.lookup("state"), Some("joined".to_string()));
    assert_eq!(state.chats()[0].components.lookup("sn"), Some("1@chat.agent".to_string()));
    assert_eq!(state.groups(), &vec!["ICQ".to_string()]);
}

#[test]
fn chat_join_is_idempotent() {
    let mut state = Reconciler::new();
    let info = partial("1@chat.agent", "Room", Some("Conferences"));
    assert_eq!(state.chat_joined(&info), Some(ChatJoined::Created));
    assert_eq!(state.chat_joined(&info), Some(ChatJoined::Updated { moved: false }));
    assert_eq!(state.chat_joined(&info), Some(ChatJoined::Updated { moved: false }));
    assert_eq!(state.chats().len(), 1);
    assert_eq!(state.groups(), &vec!["Conferences".to_string()]);
    assert_eq!(state.chats()[0].group, Some("Conferences".to_string()));
}

#[test]
fn chat_join_moves_group_and_sets_alias_when_they_differ() {
    let mut state = Reconciler::new();
    state.chat_joined(&partial("1@chat.agent", "Room", Some("A")));
    let outcome = state.chat_joined(&partial("1@chat.agent", "New title", Some("B")));
    assert_eq!(outcome, Some(ChatJoined::Updated { moved: true }));
    assert_eq!(state.chats().len(), 1);
    assert_eq!(state.chats()[0].alias, "New title");
    assert_eq!(state.chats()[0].group, Some("B".to_string()));
    assert_eq!(state.groups(), &vec!["A".to_string(), "B".to_string()]);
    // Without a group in the descriptor the entry stays where it is.
    let outcome = state.chat_joined(&partial("1@chat.agent", "Third", None));
    assert_eq!(outcome, Some(ChatJoined::Updated { moved: false }));
    assert_eq!(state.chats()[0].group, Some("B".to_string()));
    assert_eq!(state.chats()[0].alias, "Third");
}

#[test]
fn direct_conversations_get_no_entry() {
    let mut state = Reconciler::new();
    assert_eq!(state.chat_joined(&partial("123456", "Bob", None)), None);
    assert!(state.chats().is_empty());
    assert!(state.groups().is_empty());
}

#[test]
fn groups_are_made_once() {
    let mut state = Reconciler::new();
    assert_eq!(state.get_or_create_group(None), "ICQ");
    assert_eq!(state.get_or_create_group(Some("X")), "X");
    assert_eq!(state.get_or_create_group(Some("ICQ")), "ICQ");
    assert_eq!(state.get_or_create_group(None), "ICQ");
    assert_eq!(state.groups(), &vec!["ICQ".to_string(), "X".to_string()]);
}

#[test]
fn conversation_is_joined_once() {
    let mut state = Reconciler::new();
    let info = partial("1@chat.agent", "Room", None);
    assert_eq!(state.conversation_joined(&info), ConversationJoined::Created);
    assert_eq!(state.conversation_joined(&info), ConversationJoined::Presented);
    assert_eq!(state.conversations().len(), 1);
    assert_eq!(state.conversations()[0].title, "Room");
    assert_eq!(state.find_conversation("1@chat.agent"), Some(0));
    assert_eq!(state.find_conversation("2@chat.agent"), None);
}

#[test]
fn message_for_unknown_chat_changes_nothing() {
    let mut state = Reconciler::new();
    let outcome = state.serv_got_chat_in(&message("1@chat.agent", "m1", 10));
    assert!(!outcome.chat_known);
    assert_eq!(outcome.joined, None);
    assert!(!outcome.cursor_moved);
    assert!(state.conversations().is_empty());
}

#[test]
fn new_message_joins_conversation_and_sets_cursor() {
    let mut state = Reconciler::new();
    state.chat_joined(&partial("1@chat.agent", "Room", None));
    let outcome = state.serv_got_chat_in(&message("1@chat.agent", "m2", 20));
    assert!(outcome.chat_known);
    assert_eq!(outcome.joined, Some(ConversationJoined::Created));
    assert!(outcome.cursor_moved);
    assert_eq!(state.chats()[0].last_seen_timestamp, 20);
    let history = state.conversations()[0].history.clone().unwrap();
    assert_eq!(history.oldest_message_id, Some("m2".to_string()));
    assert_eq!(history.oldest_message_timestamp, Some(20));
    assert_eq!(state.conversations()[0].title, "Alice");

    // A newer message presents the conversation and leaves the cursor.
    let outcome = state.serv_got_chat_in(&message("1@chat.agent", "m3", 30));
    assert_eq!(outcome.joined, Some(ConversationJoined::Presented));
    assert!(!outcome.cursor_moved);
    assert_eq!(state.chats()[0].last_seen_timestamp, 30);
    let history = state.conversations()[0].history.clone().unwrap();
    assert_eq!(history.oldest_message_id, Some("m2".to_string()));

    // An older message does not rejoin, but moves the cursor back.
    let outcome = state.serv_got_chat_in(&message("1@chat.agent", "m1", 10));
    assert_eq!(outcome.joined, None);
    assert!(outcome.cursor_moved);
    assert_eq!(state.chats()[0].last_seen_timestamp, 30);
    let history = state.conversations()[0].history.clone().unwrap();
    assert_eq!(history.oldest_message_id, Some("m1".to_string()));
    assert_eq!(history.oldest_message_timestamp, Some(10));

    // The same timestamp as the last one seen is not newer.
    let outcome = state.serv_got_chat_in(&message("1@chat.agent", "m3b", 30));
    assert_eq!(outcome.joined, None);
    assert!(!outcome.cursor_moved);
}

#[test]
fn sender_label() {
    let mut msg = message("1@chat.agent", "m", 1);
    assert_eq!(msg.who(), "100!Alice");
    msg.author_friendly = "100".to_string();
    assert_eq!(msg.who(), "100");
}

#[test]
fn chat_info_is_checked_and_loaded() {
    let mut state = Reconciler::new();
    let version = ChatInfoVersion {
        members_version: "5".to_string(),
        info_version: "5".to_string(),
    };
    // No conversation: nothing to fetch, nothing to load.
    assert!(state.check_chat_info("1@chat.agent", &version).is_none());
    assert!(!state.load_chat_info(&full("1@chat.agent", "5", "5")));

    state.conversation_joined(&partial("1@chat.agent", "Room", None));
    // No description yet: fetch.
    let request = state.check_chat_info("1@chat.agent", &version).unwrap();
    assert_eq!(request.sn, "1@chat.agent");

    assert!(state.load_chat_info(&full("1@chat.agent", "5", "5")));
    assert!(state.check_chat_info("1@chat.agent", &version).is_none());
    let newer = ChatInfoVersion {
        members_version: "5".to_string(),
        info_version: "6".to_string(),
    };
    assert!(state.check_chat_info("1@chat.agent", &newer).is_some());

    let users = &state.conversations()[0].users;
    assert_eq!(users.len(), 3);
    assert_eq!(users[0].sn, "100");
    assert_eq!(users[0].flags, ChatBuddyFlags::Operator);
    assert_eq!(users[1].flags, ChatBuddyFlags::NoFlags);
    assert_eq!(users[2].sn, "200");
    assert_eq!(users[2].flags, ChatBuddyFlags::Voice);

    // A second load replaces the member list, it does not add to it.
    let mut smaller = full("1@chat.agent", "6", "6");
    smaller.members.truncate(1);
    assert!(state.load_chat_info(&smaller));
    assert_eq!(state.conversations()[0].users.len(), 1);
    assert_eq!(state.conversations()[0].chat_info.as_ref().unwrap().members_version, "6");
}

#[test]
fn buddy_alias_comes_from_the_description() {
    let mut state = Reconciler::new();
    state.conversation_joined(&partial("1@chat.agent", "Room", None));
    assert_eq!(state.get_cb_alias("1@chat.agent", "100"), None);
    state.load_chat_info(&full("1@chat.agent", "5", "5"));
    // The first member called 100 has no display name; the second has.
    assert_eq!(state.get_cb_alias("1@chat.agent", "100"), Some("Alice".to_string()));
    assert_eq!(state.get_cb_alias("1@chat.agent", "200"), Some("Bob".to_string()));
    assert_eq!(state.get_cb_alias("1@chat.agent", "300"), None);
    assert_eq!(state.get_cb_alias("2@chat.agent", "100"), None);
}

#[test]
fn chat_send_needs_a_description() {
    let mut state = Reconciler::new();
    assert_eq!(state.chat_send("1@chat.agent", "hello").0, -1);
    state.conversation_joined(&partial("1@chat.agent", "Room", None));
    let (code, request) = state.chat_send("1@chat.agent", "hello");
    assert_eq!(code, -1);
    assert!(request.is_none());
    state.load_chat_info(&full("1@chat.agent", "5", "5"));
    let (code, request) = state.chat_send("1@chat.agent", "hello");
    assert_eq!(code, 1);
    let request = request.unwrap();
    assert_eq!(request.to_sn, "1@chat.agent");
    assert_eq!(request.message, "hello");
}

#[test]
fn chat_leave_detaches_the_description() {
    let mut state = Reconciler::new();
    assert!(!state.chat_leave("1@chat.agent"));
    state.conversation_joined(&partial("1@chat.agent", "Room", None));
    state.load_chat_info(&full("1@chat.agent", "5", "5"));
    assert!(state.chat_leave("1@chat.agent"));
    assert!(state.conversations()[0].chat_info.is_none());
    assert_eq!(state.chat_send("1@chat.agent", "x").0, -1);
}

#[test]
fn history_command() {
    let mut state = Reconciler::new();
    let args = vec!["20".to_string()];
    // No conversation.
    assert!(state.command_history("1@chat.agent", &args).is_none());
    state.chat_joined(&partial("1@chat.agent", "Room", None));
    state.conversation_joined(&partial("1@chat.agent", "Room", None));
    // No oldest message known.
    assert!(state.command_history("1@chat.agent", &args).is_none());
    state.serv_got_chat_in(&message("1@chat.agent", "m7", 70));
    let request = state.command_history("1@chat.agent", &args).unwrap();
    assert_eq!(request.sn, "1@chat.agent");
    assert_eq!(request.from_msg_id, "m7");
    assert_eq!(request.count, -20);
    assert_eq!(state.command_history("1@chat.agent", &vec!["0".to_string()]).unwrap().count, 0);
    assert_eq!(
        state.command_history("1@chat.agent", &vec!["2147483647".to_string()]).unwrap().count,
        -2147483647
    );
    // Wrong number of arguments, or no count.
    assert!(state.command_history("1@chat.agent", &vec![]).is_none());
    assert!(state
        .command_history("1@chat.agent", &vec!["1".to_string(), "2".to_string()])
        .is_none());
    assert!(state.command_history("1@chat.agent", &vec!["many".to_string()]).is_none());
    assert!(state.command_history("1@chat.agent", &vec!["-5".to_string()]).is_none());
    assert!(state.command_history("1@chat.agent", &vec!["2147483648".to_string()]).is_none());
}

#[test]
fn join_chat_requests() {
    let mut state = Reconciler::new();
    assert!(matches!(state.join_chat(None), JoinRequest::Ignored));
    let empty = StrHashTable::new();
    assert!(matches!(state.join_chat(Some(&empty)), JoinRequest::Ignored));

    let defaults = chat_info_defaults(Some("STAMP"));
    match state.join_chat(Some(&defaults)) {
        JoinRequest::Join { join_request } => assert_eq!(join_request.stamp, "STAMP"),
        other => panic!("{:?}", other),
    }
    assert!(state.conversations().is_empty());

    // The components of a chat that was joined before open the conversation.
    state.chat_joined(&partial("1@chat.agent", "Room", Some("G")));
    let components = state.chats()[0].components.clone();
    match state.join_chat(Some(&components)) {
        JoinRequest::Rejoined { joined, info_request } => {
            assert_eq!(joined, ConversationJoined::Created);
            assert_eq!(info_request.sn, "1@chat.agent");
        }
        other => panic!("{:?}", other),
    }
    assert_eq!(state.conversations().len(), 1);
    assert_eq!(state.conversations()[0].title, "Room");

    // Marked as joined but without a title: joined on the service instead.
    let mut broken = StrHashTable::new();
    broken.insert("sn", "2@chat.agent");
    broken.insert("state", "joined");
    match state.join_chat(Some(&broken)) {
        JoinRequest::Join { join_request } => assert_eq!(join_request.stamp, "2@chat.agent"),
        other => panic!("{:?}", other),
    }
}

#[test]
fn chat_name_and_defaults() {
    assert_eq!(get_chat_name(None), None);
    let defaults = chat_info_defaults(None);
    assert_eq!(get_chat_name(Some(&defaults)), Some("".to_string()));
    let defaults = chat_info_defaults(Some("abc"));
    assert_eq!(get_chat_name(Some(&defaults)), Some("abc".to_string()));
}

#[test]
fn joined_on_service() {
    let mut state = Reconciler::new();
    let response = GetChatInfoResponseData {
        name: "Room".to_string(),
        stamp: "STAMP".to_string(),
        sn: "1@chat.agent".to_string(),
        about: None,
        members_version: "1".to_string(),
        info_version: "1".to_string(),
        members: vec![],
    };
    let out = join_chat(&mut state, response.clone());
    assert_eq!(out.chat, Some(ChatJoined::Created));
    assert_eq!(out.conversation, ConversationJoined::Created);
    assert_eq!(out.info.sn, "1@chat.agent");
    assert_eq!(state.chats().len(), 1);
    assert_eq!(state.conversations().len(), 1);
    assert!(state.conversations()[0].chat_info.is_some());
    assert!(get_chat_info(&mut state, response.clone()));
    let mut other = response;
    other.sn = "2@chat.agent".to_string();
    assert!(!get_chat_info(&mut state, other));
    assert_eq!(
        join_chat_stamp(JoinChatMessageData { stamp: "https://icq.im/abc123".to_string() }),
        "abc123"
    );
}

#[test]
fn commands_are_built() {
    match PurpleMessage::join_chat("s".to_string()) {
        PurpleMessage::JoinChat(data) => assert_eq!(data.stamp, "s"),
        other => panic!("{:?}", other),
    }
    match PurpleMessage::fetch_history("sn".to_string(), "m".to_string(), -3) {
        PurpleMessage::GetHistory(data) => {
            assert_eq!(data.sn, "sn");
            assert_eq!(data.from_msg_id, "m");
            assert_eq!(data.count, -3);
        }
        other => panic!("{:?}", other),
    }
    match PurpleMessage::send_msg("to".to_string(), "text".to_string()) {
        PurpleMessage::SendMsg(data) => {
            assert_eq!(data.to_sn, "to");
            assert_eq!(data.message, "text");
        }
        other => panic!("{:?}", other),
    }
    match PurpleMessage::get_chat_info("sn".to_string()) {
        PurpleMessage::GetChatInfo(data) => assert_eq!(data.sn, "sn"),
        other => panic!("{:?}", other),
    }
}
