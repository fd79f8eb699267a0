use purple_icq::client::{
    decode_response, read_fetch_events, read_response, Error, FilesInfoResponseData,
    GetChatInfoResponseData, LoginWithPhoneNumberResponseData, RapiResponse, ResultResponse,
    EmptyResponse, SendCodeResponse, SendIMResponseData, StartSessionResponseData, WebIcqResponse,
};
use purple_icq::events::{decode_event, EventData, UserType};
use purple_icq::files::{format_file_info, FileInfoEntry};
use purple_icq::json::Json;
use purple_icq::poller::{
    event_file_ids, events_file_ids, find_author_friendly, process_events, EventOutcome,
    PollAction, PollInput, PollPhase, Poller,
};
use purple_icq::events::HistDlgStatePerson;
use purple_icq::reconciler::{ChatJoined, ConversationJoined, Reconciler};

const POLL: &str = r#"{"response": {"statusCode": 200, "data": {
  "pollTime": "8", "ts": "1595534375", "fetchBaseURL": "https://bos.icq.net/next?seq=2",
  "fetchTimeout": 500, "timeToNextFetch": 1,
  "events": [
    {"type": "somethingNew", "eventData": {"a": [1, 2.5, null, true]}, "seqNum": 1},
    {"type": "buddylist", "seqNum": 2, "eventData": {"groups": [
      {"name": "General", "id": 1, "buddies": [
        {"aimId": "111", "displayId": "111", "friendly": "ICQ", "state": "online", "userType": "icq", "official": 1},
        {"aimId": "9@chat.agent", "displayId": "9@chat.agent", "state": "online", "userType": "chat", "chatType": "group"},
        {"aimId": "222", "displayId": "222", "state": "online", "userType": "robot"}
      ]},
      {"name": "Conferences", "id": 2, "buddies": [
        {"aimId": "1@chat.agent", "displayId": "1@chat.agent", "friendly": "Room", "state": "online", "userType": "chat"}
      ]}
    ]}},
    {"type": "histDlgState", "seqNum": 3, "eventData": {
      "sn": "1@chat.agent", "lastMsgId": "m2", "patchVersion": "p", "unreadCnt": 2,
      "mchatState": {"membersVersion": "3", "infoVersion": "4"},
      "persons": [{"sn": "1@chat.agent", "friendly": "Room"}, {"sn": "100", "friendly": "Alice"}],
      "messages": [
        {"msgId": "m1", "time": 100, "text": "look <b> https://files.icq.net/get/F1 ok", "chat": {"sender": "100", "name": "Room"}},
        {"msgId": "m0", "time": 90, "mediaType": "sticker", "chat": {"sender": "100", "name": "Room"}},
        {"msgId": "m2", "time": 110, "text": "plain", "chat": {"sender": "200", "name": "Room", "live": true}}
      ]}},
    {"type": "myInfo", "seqNum": 4, "eventData": {"aimId": "1", "displayId": "1", "state": "online", "userType": "icq", "attachedPhoneNumber": "1", "globalFlags": "32"}},
    {"type": "presence", "seqNum": 5, "eventData": {"aimId": "1", "displayId": "1", "friendly": "x", "state": "offline", "userType": "icq", "statusTime": 1, "statusMsg": "", "autoAddition": "a", "lastseen": 3}},
    {"type": "permitDeny", "seqNum": 6, "eventData": {"allows": []}},
    {"type": "galleryNotify", "seqNum": 7, "eventData": {}},
    {"type": "histDlgState", "seqNum": 8, "eventData": {"sn": "1@chat.agent"}},
    "not even an object"
  ]}}}"#;

fn file() -> FilesInfoResponseData {
    read_response::<ResultResponse<FilesInfoResponseData>>(
        r#"{"result": {"info": {"file_size": 2048, "file_name": "cat.png", "md5": "d41d", "dlink": "https://dl/cat", "mime": "image/png"}, "previews": {"192": "https://p/192", "600": "x"}}}"#,
    )
    .unwrap()
    .result
}

#[test]
fn poll_response_is_decoded() {
    let data = read_fetch_events(POLL).unwrap();
    assert_eq!(data.poll_time, "8");
    assert_eq!(data.ts, "1595534375");
    assert_eq!(data.fetch_base_url, "https://bos.icq.net/next?seq=2");
    assert_eq!(data.fetch_timeout, 500);
    assert_eq!(data.time_to_next_fetch, 1);
    assert_eq!(data.events.len(), 9);
    assert!(data.events[0].0.is_err());
    let kinds: Vec<bool> = data.events.iter().map(|e| e.0.is_ok()).collect();
    assert_eq!(kinds, vec![false, true, true, true, true, true, true, false, false]);
    match &data.events[1].0.as_ref().unwrap().event_data {
        EventData::BuddyList(list) => {
            assert_eq!(list.groups.len(), 2);
            assert_eq!(list.groups[0].name, "General");
            assert_eq!(list.groups[0].buddies[0].user_type, UserType::ICQ);
            assert_eq!(list.groups[0].buddies[0].official, Some(1));
            assert_eq!(list.groups[0].buddies[1].user_type, UserType::Chat);
            assert_eq!(list.groups[0].buddies[1].friendly, None);
            assert_eq!(list.groups[0].buddies[2].user_type, UserType::Unknown);
        }
        other => panic!("{:?}", other),
    }
    let event = data.events[2].0.as_ref().unwrap();
    assert_eq!(event.seq_num, 3);
    match &event.event_data {
        EventData::HistDlgState(state) => {
            assert_eq!(state.sn, "1@chat.agent");
            assert_eq!(state.unread_cnt, 2);
            assert_eq!(state.starting, None);
            assert_eq!(state.mchat_state.as_ref().unwrap().info_version, "4");
            assert_eq!(state.messages.len(), 3);
            assert_eq!(state.messages[1].text, None);
            assert_eq!(state.messages[1].media_type, Some("sticker".to_string()));
            assert_eq!(state.messages[2].chat.as_ref().unwrap().live, Some(true));
            assert_eq!(state.persons.len(), 2);
        }
        other => panic!("{:?}", other),
    }
    assert!(matches!(data.events[3].0.as_ref().unwrap().event_data, EventData::MyInfo(_)));
    assert!(matches!(data.events[4].0.as_ref().unwrap().event_data, EventData::Presence(_)));
    assert!(matches!(data.events[5].0.as_ref().unwrap().event_data, EventData::PermitDeny(_)));
    assert!(matches!(data.events[6].0.as_ref().unwrap().event_data, EventData::GalleryNotify(_)));
}

#[test]
fn unknown_event_is_kept_as_it_is() {
    let data = read_fetch_events(POLL).unwrap();
    match &data.events[0].0 {
        Err(Json::Object(entries)) => {
            let names: Vec<&str> = entries.iter().map(|e| e.0.as_str()).collect();
            assert_eq!(names, vec!["eventData", "seqNum", "type"]);
            match &entries[0].1 {
                Json::Object(inner) => match &inner[0].1 {
                    Json::Array(items) => {
                        assert!(matches!(&items[0], Json::Number(n) if n == "1"));
                        assert!(matches!(&items[1], Json::Number(n) if n == "2.5"));
                        assert!(matches!(&items[2], Json::Null));
                        assert!(matches!(&items[3], Json::Bool(true)));
                    }
                    other => panic!("{:?}", other),
                },
                other => panic!("{:?}", other),
            }
            assert!(matches!(&entries[2].1, Json::Str(s) if s == "somethingNew"));
        }
        other => panic!("{:?}", other),
    }
    assert!(matches!(&data.events[8].0, Err(Json::Str(s)) if s == "not even an object"));
}

#[test]
fn event_with_unknown_tag_is_unrecognized() {
    let event = decode_event(Json::Object(vec![
        ("type".to_string(), Json::Str("typing".to_string())),
        ("seqNum".to_string(), Json::Number("1".to_string())),
        ("eventData".to_string(), Json::Object(vec![])),
    ]));
    assert!(event.0.is_err());
    let event = decode_event(Json::Object(vec![
        ("type".to_string(), Json::Str("galleryNotify".to_string())),
        ("seqNum".to_string(), Json::Number("1".to_string())),
        ("eventData".to_string(), Json::Object(vec![])),
    ]));
    assert!(event.0.is_ok());
    // A sequence number that is no 32-bit unsigned number.
    for bad in ["-1", "1.0", "4294967296", "", "x"] {
        let event = decode_event(Json::Object(vec![
            ("type".to_string(), Json::Str("galleryNotify".to_string())),
            ("seqNum".to_string(), Json::Number(bad.to_string())),
            ("eventData".to_string(), Json::Object(vec![])),
        ]));
        assert!(event.0.is_err(), "{}", bad);
    }
    assert!(decode_event(Json::Null).0.is_err());
}

#[test]
fn author_is_resolved() {
    let persons = vec![
        HistDlgStatePerson { sn: "100".to_string(), friendly: "Alice".to_string() },
        HistDlgStatePerson { sn: "100".to_string(), friendly: "Second".to_string() },
    ];
    assert_eq!(find_author_friendly("100", &persons), "Alice");
    assert_eq!(find_author_friendly("200", &persons), "200");
    assert_eq!(find_author_friendly("200", &[]), "200");
}

#[test]
fn batch_is_processed_past_unknown_events() {
    let data = read_fetch_events(POLL).unwrap();
    let ids = events_file_ids(&data.events);
    assert_eq!(ids, vec!["F1"]);
    let files = vec![FileInfoEntry { file_id: "F1".to_string(), info: Some(file()) }];
    let mut state = Reconciler::new();
    let outcomes = process_events(&mut state, &data.events, &files);
    assert_eq!(outcomes.len(), 9);
    assert!(matches!(outcomes[0], EventOutcome::Unrecognized));
    assert!(matches!(outcomes[3], EventOutcome::Observed));
    assert!(matches!(outcomes[4], EventOutcome::Observed));
    assert!(matches!(outcomes[5], EventOutcome::Observed));
    assert!(matches!(outcomes[6], EventOutcome::Observed));
    assert!(matches!(outcomes[7], EventOutcome::Unrecognized));
    assert!(matches!(outcomes[8], EventOutcome::Unrecognized));

    match &outcomes[1] {
        EventOutcome::BuddyList(list) => {
            assert_eq!(list.joined.len(), 2);
            assert_eq!(list.joined[0].chat.sn, "9@chat.agent");
            assert_eq!(list.joined[0].chat.title, "9@chat.agent");
            assert_eq!(list.joined[0].chat.group, Some("General".to_string()));
            assert_eq!(list.joined[0].outcome, Some(ChatJoined::Created));
            assert_eq!(list.joined[1].chat.sn, "1@chat.agent");
            assert_eq!(list.joined[1].chat.title, "Room");
            assert_eq!(list.joined[1].chat.group, Some("Conferences".to_string()));
            assert_eq!(list.unknown_buddies, vec!["222"]);
        }
        other => panic!("{:?}", other),
    }

    match &outcomes[2] {
        EventOutcome::HistDlgState(out) => {
            assert_eq!(out.chat.sn, "1@chat.agent");
            assert_eq!(out.chat.title, "Room");
            assert_eq!(out.chat.group, None);
            assert_eq!(out.chat_joined, Some(ChatJoined::Updated { moved: false }));
            // Two messages have a text; the one without is passed over.
            assert_eq!(out.delivered.len(), 2);
            let first = &out.delivered[0];
            assert_eq!(first.message.message_id, "m1");
            assert_eq!(first.message.author_sn, "100");
            assert_eq!(first.message.author_friendly, "Alice");
            assert_eq!(first.message.time, 100);
            assert_eq!(
                first.message.text,
                format!("look &lt;b&gt; {} ok", format_file_info(&file()))
            );
            assert_eq!(first.outcome.joined, Some(ConversationJoined::Created));
            assert!(first.outcome.cursor_moved);
            let second = &out.delivered[1];
            assert_eq!(second.message.message_id, "m2");
            assert_eq!(second.message.author_sn, "200");
            assert_eq!(second.message.author_friendly, "200");
            assert_eq!(second.message.text, "plain");
            assert_eq!(second.outcome.joined, Some(ConversationJoined::Presented));
            assert!(!second.outcome.cursor_moved);
            // The conversation has no description yet: it is asked for.
            assert_eq!(out.info_request.as_ref().unwrap().sn, "1@chat.agent");
        }
        other => panic!("{:?}", other),
    }

    assert_eq!(state.chats().len(), 2);
    assert_eq!(state.groups(), &vec!["General".to_string(), "Conferences".to_string()]);
    assert_eq!(state.conversations().len(), 1);
    let history = state.conversations()[0].history.clone().unwrap();
    assert_eq!(history.oldest_message_id, Some("m1".to_string()));
    assert_eq!(history.oldest_message_timestamp, Some(100));
    assert_eq!(state.chats()[1].last_seen_timestamp, 110);
}

#[test]
fn cursor_is_the_earlier_message_in_either_order() {
    let text = r#"{"response": {"data": {"pollTime": "1", "ts": "1", "fetchBaseURL": "u", "fetchTimeout": 1, "timeToNextFetch": 1, "events": [
      {"type": "histDlgState", "seqNum": 1, "eventData": {"sn": "5@chat.agent", "lastMsgId": "b", "patchVersion": "p", "unreadCnt": 2, "persons": [],
        "messages": [
          {"msgId": "later", "time": 200, "text": "https://files.icq.net/get/ID9"},
          {"msgId": "earlier", "time": 150, "text": "no file"}
        ]}}]}}}"#;
    let data = read_fetch_events(text).unwrap();
    let event = match &data.events[0].0.as_ref().unwrap().event_data {
        EventData::HistDlgState(event) => event,
        other => panic!("{:?}", other),
    };
    assert_eq!(event_file_ids(event), vec!["ID9"]);
    let files = vec![FileInfoEntry { file_id: "ID9".to_string(), info: Some(file()) }];
    let mut state = Reconciler::new();
    let outcomes = process_events(&mut state, &data.events, &files);
    match &outcomes[0] {
        EventOutcome::HistDlgState(out) => {
            assert_eq!(out.chat_joined, Some(ChatJoined::Created));
            assert_eq!(out.delivered.len(), 2);
            assert_eq!(out.delivered[0].message.text, format_file_info(&file()));
            assert_eq!(out.delivered[0].message.author_sn, "5@chat.agent");
            assert_eq!(out.delivered[1].message.text, "no file");
            assert!(out.delivered[1].outcome.cursor_moved);
            assert!(out.info_request.is_none());
        }
        other => panic!("{:?}", other),
    }
    let history = state.conversations()[0].history.clone().unwrap();
    assert_eq!(history.oldest_message_id, Some("earlier".to_string()));
    assert_eq!(history.oldest_message_timestamp, Some(150));
}

#[test]
fn failed_file_lookup_leaves_the_reference() {
    let text = r#"{"response": {"data": {"pollTime": "1", "ts": "1", "fetchBaseURL": "u", "fetchTimeout": 1, "timeToNextFetch": 1, "events": [
      {"type": "histDlgState", "seqNum": 1, "eventData": {"sn": "5@chat.agent", "lastMsgId": "b", "patchVersion": "p", "unreadCnt": 2, "persons": [],
        "messages": [{"msgId": "a", "time": 1, "text": "https://files.icq.net/get/ID9 & more"}]}}]}}}"#;
    let data = read_fetch_events(text).unwrap();
    let files = vec![FileInfoEntry { file_id: "ID9".to_string(), info: None }];
    let mut state = Reconciler::new();
    match &process_events(&mut state, &data.events, &files)[0] {
        EventOutcome::HistDlgState(out) => {
            assert_eq!(out.delivered[0].message.text, "https://files.icq.net/get/ID9 &amp; more");
        }
        other => panic!("{:?}", other),
    }
}

#[test]
fn responses_are_read() {
    let code: SendCodeResponse =
        read_response(r#"{"results": {"codeLength": 6, "sessionId": "abc", "more": 1}}"#).unwrap();
    assert_eq!(code.results.code_length, 6);
    assert_eq!(code.results.session_id, "abc");
    let code: SendCodeResponse =
        read_response(r#"{"results": {"codeLength": -6, "sessionId": "abc"}}"#).unwrap();
    assert_eq!(code.results.code_length, -6);

    let login: WebIcqResponse<LoginWithPhoneNumberResponseData> = read_response(
        r#"{"response": {"data": {"token": {"a": "TOKEN"}, "hostTime": 1595534375, "sessionKey": "KEY"}}}"#,
    )
    .unwrap();
    assert_eq!(login.response.data.token.a, "TOKEN");
    assert_eq!(login.response.data.host_time, 1595534375);
    assert_eq!(login.response.data.session_key, "KEY");

    let session: WebIcqResponse<StartSessionResponseData> = read_response(
        r#"{"response": {"data": {"aimsid": "SID", "myInfo": {"aimId": "123"}, "fetchBaseURL": "https://f"}}}"#,
    )
    .unwrap();
    assert_eq!(session.response.data.aimsid, "SID");
    assert_eq!(session.response.data.my_info.aim_id, "123");
    assert_eq!(session.response.data.fetch_base_url, "https://f");

    let info: RapiResponse<GetChatInfoResponseData> = read_response(
        r#"{"results": {"name": "Room", "stamp": "S", "sn": "1@chat.agent", "membersVersion": "2", "infoVersion": "3",
            "members": [{"sn": "100", "role": "admin", "userState": {"lastseen": 0}, "friendly": "Alice", "anketa": {"firstName": "A"}},
                        {"sn": "200", "role": "member"}]}}"#,
    )
    .unwrap();
    assert_eq!(info.results.name, "Room");
    assert_eq!(info.results.about, None);
    assert_eq!(info.results.members.len(), 2);
    assert_eq!(info.results.members[0].last_seen, Some(0));
    assert_eq!(info.results.members[0].first_name, Some("A".to_string()));
    assert_eq!(info.results.members[0].last_name, None);
    assert_eq!(info.results.members[1].last_seen, None);
    assert_eq!(info.results.members[1].friendly, None);

    let joined: RapiResponse<EmptyResponse> = read_response(r#"{"results": {}}"#).unwrap();
    let _ = joined.results;

    let sent: WebIcqResponse<SendIMResponseData> = read_response(
        r#"{"response": {"data": {"msgId": "m", "histMsgId": 18446744073709551615, "beforeHistMsgId": 0, "ts": 5, "state": "sent"}}}"#,
    )
    .unwrap();
    assert_eq!(sent.response.data.hist_msg_id, u64::MAX);
    assert_eq!(sent.response.data.before_hist_msg_id, 0);
    assert_eq!(sent.response.data.state, "sent");

    let f = file();
    assert_eq!(f.info.file_size, 2048);
    assert_eq!(f.info.file_name, "cat.png");
    assert_eq!(f.previews.x192, "https://p/192");
}

#[test]
fn bad_responses_are_deserialization_errors() {
    let not_json = read_response::<SendCodeResponse>("{not json");
    assert!(matches!(not_json, Err(Error::DeserializationError(_))));
    let wrong_shape = read_response::<SendCodeResponse>(r#"{"results": {"codeLength": "6", "sessionId": "abc"}}"#);
    assert!(matches!(wrong_shape, Err(Error::DeserializationError(_))));
    let missing = read_response::<SendCodeResponse>(r#"{"result": {}}"#);
    assert!(matches!(missing, Err(Error::DeserializationError(_))));
    let fractional = read_response::<SendCodeResponse>(r#"{"results": {"codeLength": 6.0, "sessionId": "abc"}}"#);
    assert!(matches!(fractional, Err(Error::DeserializationError(_))));
    let too_big = read_response::<WebIcqResponse<LoginWithPhoneNumberResponseData>>(
        r#"{"response": {"data": {"token": {"a": "T"}, "hostTime": 4294967296, "sessionKey": "K"}}}"#,
    );
    assert!(matches!(too_big, Err(Error::DeserializationError(_))));
    assert!(matches!(read_fetch_events("[]"), Err(Error::DeserializationError(_))));
    assert!(matches!(read_fetch_events(""), Err(Error::DeserializationError(_))));
    let no_events = read_fetch_events(
        r#"{"response": {"data": {"pollTime": "1", "ts": "1", "fetchBaseURL": "u", "fetchTimeout": 1, "timeToNextFetch": 1}}}"#,
    );
    assert!(matches!(no_events, Err(Error::DeserializationError(_))));
    let member_not_object: Result<RapiResponse<EmptyResponse>, Error> =
        decode_response(&Json::Object(vec![("results".to_string(), Json::Null)]));
    assert!(member_not_object.is_err());
}

#[test]
fn polling_loop_decisions() {
    let mut poller = Poller::new("https://first".to_string());
    assert!(matches!(poller.pending(), PollAction::CheckClosed));
    assert!(matches!(
        poller.fetch_events_loop(PollInput::Closed(false)),
        PollAction::CheckDisconnected
    ));
    // A disconnected account: wait five seconds, then start over.
    match poller.fetch_events_loop(PollInput::Disconnected(true)) {
        PollAction::Sleep { seconds } => assert_eq!(seconds, 5),
        other => panic!("{:?}", other),
    }
    assert!(matches!(poller.fetch_events_loop(PollInput::Slept), PollAction::CheckClosed));
    poller.fetch_events_loop(PollInput::Closed(false));
    match poller.fetch_events_loop(PollInput::Disconnected(false)) {
        PollAction::Fetch { fetch_base_url } => assert_eq!(fetch_base_url, "https://first"),
        other => panic!("{:?}", other),
    }
    // A failed poll: wait, start over, and poll the same target again.
    match poller.fetch_events_loop(PollInput::FetchFailed) {
        PollAction::Sleep { seconds } => assert_eq!(seconds, 5),
        other => panic!("{:?}", other),
    }
    poller.fetch_events_loop(PollInput::Slept);
    poller.fetch_events_loop(PollInput::Closed(false));
    match poller.fetch_events_loop(PollInput::Disconnected(false)) {
        PollAction::Fetch { fetch_base_url } => assert_eq!(fetch_base_url, "https://first"),
        other => panic!("{:?}", other),
    }
    // A poll that came back rotates the target.
    assert!(matches!(
        poller.fetch_events_loop(PollInput::Fetched {
            next_fetch_base_url: "https://second".to_string()
        }),
        PollAction::CheckClosed
    ));
    assert_eq!(poller.fetch_base_url, "https://second");
    // An answer that was not asked for changes nothing.
    assert!(matches!(poller.fetch_events_loop(PollInput::Slept), PollAction::CheckClosed));
    assert_eq!(poller.phase, PollPhase::AtTop);
    // Only the closed flag ends the loop, and it stays ended.
    assert!(matches!(poller.fetch_events_loop(PollInput::Closed(true)), PollAction::Stop));
    assert!(matches!(poller.fetch_events_loop(PollInput::Closed(false)), PollAction::Stop));
    assert_eq!(poller.phase, PollPhase::Stopped);
}

#[test]
fn unknown_event_is_described() {
    let data = read_fetch_events(POLL).unwrap();
    let payload = match &data.events[0].0 {
        Err(payload) => payload,
        other => panic!("{:?}", other),
    };
    assert_eq!(
        purple_icq::poller::describe_unknown_event(payload),
        r#"Unknown event: {"eventData":{"a":[1,2.5,null,true]},"seqNum":1,"type":"somethingNew"}"#
    );
}

#[test]
fn commands_in_a_conversation() {
    let mut state = Reconciler::new();
    state.conversation_joined(&purple_icq::chat_info::PartialChatInfo {
        sn: "1@chat.agent".to_string(),
        title: "t".to_string(),
        group: None,
    });
    let args = vec!["5".to_string()];
    assert!(state.command("1@chat.agent", "history", &args).is_none());
    assert!(state.command("1@chat.agent", "other", &args).is_none());
}
