use purple_icq::chat_info::{
    ChatBuddyFlags, ChatInfo, ChatInfoVersion, MemberRole, PartialChatInfo, StrHashTable, GROUP,
    SN, TITLE,
};
use purple_icq::client::{ChatInfoResponsePerson, GetChatInfoResponseData};

fn info(members_version: &str, info_version: &str) -> ChatInfo {
    ChatInfo {
        stamp: None,
        group: None,
        sn: "1@chat.agent".to_string(),
        title: "room".to_string(),
        about: None,
        members_version: members_version.to_string(),
        info_version: info_version.to_string(),
        members: vec![],
    }
}

fn version(members_version: &str, info_version: &str) -> ChatInfoVersion {
    ChatInfoVersion {
        members_version: members_version.to_string(),
        info_version: info_version.to_string(),
    }
}

#[test]
fn roles_map_to_flags() {
    assert_eq!(MemberRole("admin".to_string()).as_flags(), ChatBuddyFlags::Operator);
    assert_eq!(MemberRole("readonly".to_string()).as_flags(), ChatBuddyFlags::NoFlags);
    assert_eq!(MemberRole("member".to_string()).as_flags(), ChatBuddyFlags::Voice);
    assert_eq!(MemberRole("".to_string()).as_flags(), ChatBuddyFlags::Voice);
    assert_eq!(MemberRole("Admin".to_string()).as_flags(), ChatBuddyFlags::Voice);
}

#[test]
fn equal_versions_need_no_update() {
    assert!(!info("5", "7").need_update(&version("5", "7")));
    assert!(!info("", "").need_update(&version("", "")));
}

#[test]
fn greater_members_version_needs_update() {
    assert!(info("5", "7").need_update(&version("6", "7")));
}

#[test]
fn greater_info_version_needs_update() {
    assert!(info("5", "7").need_update(&version("5", "8")));
}

#[test]
fn smaller_versions_need_no_update() {
    assert!(!info("5", "7").need_update(&version("4", "6")));
    assert!(info("5", "7").need_update(&version("4", "8")));
}

#[test]
fn versions_compare_as_strings() {
    // "10" comes before "9" in dictionary order, and a prefix before the longer string.
    assert!(!info("9", "1").need_update(&version("10", "1")));
    assert!(info("10", "1").need_update(&version("9", "1")));
    assert!(info("1", "1").need_update(&version("10", "1")));
    assert!(info("a", "1").need_update(&version("\u{e9}", "1")));
}

#[test]
fn hashtable_keeps_last_value() {
    let mut table = StrHashTable::new();
    assert_eq!(table.lookup("sn"), None);
    table.insert("sn", "a");
    table.insert("title", "t");
    table.insert("sn", "b");
    assert_eq!(table.lookup("sn"), Some("b".to_string()));
    assert_eq!(table.lookup("title"), Some("t".to_string()));
    assert_eq!(table.lookup("group"), None);
}

#[test]
fn partial_info_round_trips_through_hashtable() {
    let partial = PartialChatInfo {
        sn: "1@chat.agent".to_string(),
        title: "room".to_string(),
        group: Some("Conferences".to_string()),
    };
    let table = partial.as_hashtable();
    assert_eq!(table.lookup(SN), Some("1@chat.agent".to_string()));
    assert_eq!(table.lookup(TITLE), Some("room".to_string()));
    assert_eq!(table.lookup(GROUP), Some("Conferences".to_string()));
    let back = PartialChatInfo::from_hashtable(&table).unwrap();
    assert_eq!(back.sn, partial.sn);
    assert_eq!(back.title, partial.title);
    assert_eq!(back.group, partial.group);
}

#[test]
fn partial_info_without_group() {
    let partial =
        PartialChatInfo { sn: "x".to_string(), title: "y".to_string(), group: None };
    let table = partial.as_hashtable();
    assert_eq!(table.lookup(GROUP), None);
    let back = PartialChatInfo::from_hashtable(&table).unwrap();
    assert_eq!(back.group, None);
}

#[test]
fn from_hashtable_needs_sn_and_title() {
    let mut table = StrHashTable::new();
    table.insert("sn", "a");
    assert!(PartialChatInfo::from_hashtable(&table).is_none());
    let mut table = StrHashTable::new();
    table.insert("title", "a");
    assert!(PartialChatInfo::from_hashtable(&table).is_none());
    table.insert("sn", "b");
    assert!(PartialChatInfo::from_hashtable(&table).is_some());
}

#[test]
fn as_partial_keeps_essentials() {
    let mut full = info("1", "1");
    full.group = Some("g".to_string());
    let partial = full.as_partial();
    assert_eq!(partial.sn, "1@chat.agent");
    assert_eq!(partial.title, "room");
    assert_eq!(partial.group, Some("g".to_string()));
}

#[test]
fn chat_info_from_response() {
    let response = GetChatInfoResponseData {
        name: "Room".to_string(),
        stamp: "STAMP".to_string(),
        sn: "1@chat.agent".to_string(),
        about: Some("about".to_string()),
        members_version: "3".to_string(),
        info_version: "4".to_string(),
        members: vec![
            ChatInfoResponsePerson {
                sn: "100".to_string(),
                role: "admin".to_string(),
                last_seen: Some(0),
                first_name: Some("A".to_string()),
                last_name: None,
                friendly: Some("Alice".to_string()),
            },
            ChatInfoResponsePerson {
                sn: "200".to_string(),
                role: "member".to_string(),
                last_seen: Some(17),
                first_name: None,
                last_name: Some("B".to_string()),
                friendly: None,
            },
        ],
    };
    let info = ChatInfo::from(response);
    assert_eq!(info.sn, "1@chat.agent");
    assert_eq!(info.title, "Room");
    assert_eq!(info.stamp, Some("STAMP".to_string()));
    assert_eq!(info.group, None);
    assert_eq!(info.about, Some("about".to_string()));
    assert_eq!(info.members_version, "3");
    assert_eq!(info.info_version, "4");
    assert_eq!(info.members.len(), 2);
    assert_eq!(info.members[0].sn, "100");
    assert_eq!(info.members[0].last_seen, None);
    assert_eq!(info.members[0].friendly_name, Some("Alice".to_string()));
    assert_eq!(info.members[0].first_name, Some("A".to_string()));
    assert_eq!(info.members[0].role.as_flags(), ChatBuddyFlags::Operator);
    assert_eq!(info.members[1].last_seen, Some(17));
    assert_eq!(info.members[1].last_name, Some("B".to_string()));
    assert_eq!(info.members[1].role.as_flags(), ChatBuddyFlags::Voice);
}
