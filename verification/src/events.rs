//! The events that a long poll delivers.

use crate::chat_info::opt_view;
use crate::json::{
    field_decodes, field_list_decodes, get_list, get_member, get_opt_member, opt_field_decodes,
    opt_nat32, FromJson, Json,
};
use crate::text::str_eq;
use vstd::prelude::*;

verus! {

/// One event of a poll.
#[derive(Debug, Clone)]
pub struct Event {
    pub seq_num: u32,
    pub event_data: EventData,
}

/// What an event reports, by its type tag.
#[derive(Debug, Clone)]
pub enum EventData {
    HistDlgState(HistDlgStateData),
    BuddyList(BuddyListData),
    PermitDeny(PermitDenyData),
    MyInfo(MyInfoData),
    Presence(PresenceData),
    GalleryNotify(GalleryNotifyData),
}

/// An event as decoded, or the payload that matched no known shape.
#[derive(Debug)]
pub struct TryResult<T>(pub Result<T, Json>);

/// A snapshot of the buddy list.
#[derive(Debug, Clone)]
pub struct BuddyListData {
    pub groups: Vec<BuddyListGroup>,
}

/// A folder of the buddy list.
#[derive(Debug, Clone)]
pub struct BuddyListGroup {
    pub name: String,
    pub id: u32,
    pub buddies: Vec<Buddy>,
}

/// An entry of the buddy list.
#[derive(Debug, Clone)]
pub struct Buddy {
    pub nick: Option<String>,
    pub aim_id: String,
    pub display_id: String,
    pub friendly: Option<String>,
    pub state: String,
    pub user_type: UserType,
    pub official: Option<u32>,
    pub chat_type: Option<String>,
}

/// What kind of entry a buddy is.
#[derive(Debug, Clone, Copy, PartialEq, Eq, Structural)]
pub enum UserType {
    /// An ordinary contact.
    ICQ,
    /// A chat.
    Chat,
    /// A kind that this client does not know.
    Unknown,
}

/// A snapshot of the permit and deny lists.
#[derive(Debug, Clone)]
pub struct PermitDenyData {}

/// A snapshot of the account's own profile.
#[derive(Debug, Clone)]
pub struct MyInfoData {
    pub aim_id: String,
    pub display_id: String,
    pub friendly: Option<String>,
    pub state: String,
    pub user_type: String,
    pub attached_phone_number: String,
    pub global_flags: String,
}

/// A snapshot of a contact's presence.
#[derive(Debug, Clone)]
pub struct PresenceData {
    pub aim_id: String,
    pub display_id: String,
    pub friendly: Option<String>,
    pub state: String,
    pub user_type: String,
    pub status_time: u32,
    pub status_msg: String,
    pub auto_addition: String,
    pub lastseen: u32,
}

/// A notification about a chat's gallery.
#[derive(Debug, Clone)]
pub struct GalleryNotifyData {}

/// A change of a chat's state: new messages and the people they involve.
#[derive(Debug, Clone)]
pub struct HistDlgStateData {
    pub sn: String,
    pub starting: Option<bool>,
    pub last_msg_id: String,
    pub last_read_mention: Option<String>,
    pub patch_version: String,
    pub unread_cnt: u32,
    pub mchat_state: Option<HistDlgStateMChatState>,
    pub messages: Vec<HistDlgStateMessage>,
    pub persons: Vec<HistDlgStatePerson>,
}

/// The versions of a group chat's member list and description.
#[derive(Debug, Clone)]
pub struct HistDlgStateMChatState {
    pub members_version: String,
    pub info_version: String,
}

/// Someone involved in the messages of an event.
#[derive(Debug, Clone)]
pub struct HistDlgStatePerson {
    pub sn: String,
    pub friendly: String,
}

/// A message of a chat.
#[derive(Debug, Clone)]
pub struct HistDlgStateMessage {
    pub msg_id: String,
    pub time: u32,
    pub locale: Option<String>,
    pub text: Option<String>,
    pub media_type: Option<String>,
    pub chat: Option<HistDlgStateMessageChat>,
}

/// The group-chat part of a message.
#[derive(Debug, Clone)]
pub struct HistDlgStateMessageChat {
    pub sender: String,
    pub name: String,
    pub live: Option<bool>,
}

/// The largest value of a 32-bit member.
pub open spec fn max32() -> nat {
    u32::MAX as nat
}

impl FromJson for HistDlgStatePerson {
    open spec fn decodes(json: Json, value: Self) -> bool {
        &&& json.text_field("sn"@) == Some(value.sn@)
        &&& json.text_field("friendly"@) == Some(value.friendly@)
    }

    fn from_json(json: &Json) -> (out: Option<Self>) {
        let sn = match json.get_text("sn") {
            Some(v) => v,
            None => {
                return None;
            },
        };
        let friendly = match json.get_text("friendly") {
            Some(v) => v,
            None => {
                return None;
            },
        };
        Some(HistDlgStatePerson { sn, friendly })
    }
}

impl FromJson for HistDlgStateMChatState {
    open spec fn decodes(json: Json, value: Self) -> bool {
        &&& json.text_field("membersVersion"@) == Some(value.members_version@)
        &&& json.text_field("infoVersion"@) == Some(value.info_version@)
    }

    fn from_json(json: &Json) -> (out: Option<Self>) {
        let members_version = match json.get_text("membersVersion") {
            Some(v) => v,
            None => {
                return None;
            },
        };
        let info_version = match json.get_text("infoVersion") {
            Some(v) => v,
            None => {
                return None;
            },
        };
        Some(HistDlgStateMChatState { members_version, info_version })
    }
}

impl FromJson for HistDlgStateMessageChat {
    open spec fn decodes(json: Json, value: Self) -> bool {
        &&& json.text_field("sender"@) == Some(value.sender@)
        &&& json.text_field("name"@) == Some(value.name@)
        &&& json.opt_flag_field("live"@) == Some(value.live)
    }

    fn from_json(json: &Json) -> (out: Option<Self>) {
        let sender = match json.get_text("sender") {
            Some(v) => v,
            None => {
                return None;
            },
        };
        let name = match json.get_text("name") {
            Some(v) => v,
            None => {
                return None;
            },
        };
        let live = match json.get_opt_flag("live") {
            Some(v) => v,
            None => {
                return None;
            },
        };
        Some(HistDlgStateMessageChat { sender, name, live })
    }
}

impl FromJson for HistDlgStateMessage {
    open spec fn decodes(json: Json, value: Self) -> bool {
        &&& json.text_field("msgId"@) == Some(value.msg_id@)
        &&& json.unsigned_field("time"@, max32()) == Some(value.time as nat)
        &&& json.opt_text_field("locale"@) == Some(opt_view(value.locale))
        &&& json.opt_text_field("text"@) == Some(opt_view(value.text))
        &&& json.opt_text_field("mediaType"@) == Some(opt_view(value.media_type))
        &&& opt_field_decodes(json, "chat"@, value.chat)
    }

    fn from_json(json: &Json) -> (out: Option<Self>) {
        let msg_id = match json.get_text("msgId") {
            Some(v) => v,
            None => {
                return None;
            },
        };
        let time = match json.get_unsigned("time", 4294967295) {
            Some(v) => v as u32,
            None => {
                return None;
            },
        };
        let locale = match json.get_opt_text("locale") {
            Some(v) => v,
            None => {
                return None;
            },
        };
        let text = match json.get_opt_text("text") {
            Some(v) => v,
            None => {
                return None;
            },
        };
        let media_type = match json.get_opt_text("mediaType") {
            Some(v) => v,
            None => {
                return None;
            },
        };
        let chat = match get_opt_member::<HistDlgStateMessageChat>(json, "chat") {
            Some(v) => v,
            None => {
                return None;
            },
        };
        Some(HistDlgStateMessage { msg_id, time, locale, text, media_type, chat })
    }
}

impl FromJson for HistDlgStateData {
    open spec fn decodes(json: Json, value: Self) -> bool {
        &&& json.text_field("sn"@) == Some(value.sn@)
        &&& json.opt_flag_field("starting"@) == Some(value.starting)
        &&& json.text_field("lastMsgId"@) == Some(value.last_msg_id@)
        &&& json.opt_text_field("lastReadMention"@) == Some(opt_view(value.last_read_mention))
        &&& json.text_field("patchVersion"@) == Some(value.patch_version@)
        &&& json.unsigned_field("unreadCnt"@, max32()) == Some(value.unread_cnt as nat)
        &&& opt_field_decodes(json, "mchatState"@, value.mchat_state)
        &&& field_list_decodes(json, "messages"@, value.messages@)
        &&& field_list_decodes(json, "persons"@, value.persons@)
    }

    fn from_json(json: &Json) -> (out: Option<Self>) {
        let sn = match json.get_text("sn") {
            Some(v) => v,
            None => {
                return None;
            },
        };
        let starting = match json.get_opt_flag("starting") {
            Some(v) => v,
            None => {
                return None;
            },
        };
        let last_msg_id = match json.get_text("lastMsgId") {
            Some(v) => v,
            None => {
                return None;
            },
        };
        let last_read_mention = match json.get_opt_text("lastReadMention") {
            Some(v) => v,
            None => {
                return None;
            },
        };
        let patch_version = match json.get_text("patchVersion") {
            Some(v) => v,
            None => {
                return None;
            },
        };
        let unread_cnt = match json.get_unsigned("unreadCnt", 4294967295) {
            Some(v) => v as u32,
            None => {
                return None;
            },
        };
        let mchat_state = match get_opt_member::<HistDlgStateMChatState>(json, "mchatState") {
            Some(v) => v,
            None => {
                return None;
            },
        };
        let messages = match get_list::<HistDlgStateMessage>(json, "messages") {
            Some(v) => v,
            None => {
                return None;
            },
        };
        let persons = match get_list::<HistDlgStatePerson>(json, "persons") {
            Some(v) => v,
            None => {
                return None;
            },
        };
        Some(
            HistDlgStateData {
                sn,
                starting,
                last_msg_id,
                last_read_mention,
                patch_version,
                unread_cnt,
                mchat_state,
                messages,
                persons,
            },
        )
    }
}

/// The kind that a user-type name stands for: `icq` and `chat` are known,
/// every other name is an unknown kind.
pub open spec fn user_type_of(name: Seq<char>) -> UserType {
    if name == "icq"@ {
        UserType::ICQ
    } else if name == "chat"@ {
        UserType::Chat
    } else {
        UserType::Unknown
    }
}

impl FromJson for UserType {
    open spec fn decodes(json: Json, value: Self) -> bool {
        json.text() matches Some(name) && value == user_type_of(name)
    }

    fn from_json(json: &Json) -> (out: Option<Self>) {
        match json {
            Json::Str(name) => {
                if str_eq(name.as_str(), "icq") {
                    Some(UserType::ICQ)
                } else if str_eq(name.as_str(), "chat") {
                    Some(UserType::Chat)
                } else {
                    Some(UserType::Unknown)
                }
            },
            _ => None,
        }
    }
}

impl FromJson for Buddy {
    open spec fn decodes(json: Json, value: Self) -> bool {
        &&& json.opt_text_field("nick"@) == Some(opt_view(value.nick))
        &&& json.text_field("aimId"@) == Some(value.aim_id@)
        &&& json.text_field("displayId"@) == Some(value.display_id@)
        &&& json.opt_text_field("friendly"@) == Some(opt_view(value.friendly))
        &&& json.text_field("state"@) == Some(value.state@)
        &&& field_decodes(json, "userType"@, value.user_type)
        &&& json.opt_unsigned_field("official"@, max32()) == Some(opt_nat32(value.official))
        &&& json.opt_text_field("chatType"@) == Some(opt_view(value.chat_type))
    }

    fn from_json(json: &Json) -> (out: Option<Self>) {
        let nick = match json.get_opt_text("nick") {
            Some(v) => v,
            None => {
                return None;
            },
        };
        let aim_id = match json.get_text("aimId") {
            Some(v) => v,
            None => {
                return None;
            },
        };
        let display_id = match json.get_text("displayId") {
            Some(v) => v,
            None => {
                return None;
            },
        };
        let friendly = match json.get_opt_text("friendly") {
            Some(v) => v,
            None => {
                return None;
            },
        };
        let state = match json.get_text("state") {
            Some(v) => v,
            None => {
                return None;
            },
        };
        let user_type = match get_member::<UserType>(json, "userType") {
            Some(v) => v,
            None => {
                return None;
            },
        };
        let official = match json.get_opt_unsigned("official", 4294967295) {
            Some(Some(v)) => Some(v as u32),
            Some(None) => None,
            None => {
                return None;
            },
        };
        let chat_type = match json.get_opt_text("chatType") {
            Some(v) => v,
            None => {
                return None;
            },
        };
        Some(Buddy { nick, aim_id, display_id, friendly, state, user_type, official, chat_type })
    }
}

impl FromJson for BuddyListGroup {
    open spec fn decodes(json: Json, value: Self) -> bool {
        &&& json.text_field("name"@) == Some(value.name@)
        &&& json.unsigned_field("id"@, max32()) == Some(value.id as nat)
        &&& field_list_decodes(json, "buddies"@, value.buddies@)
    }

    fn from_json(json: &Json) -> (out: Option<Self>) {
        let name = match json.get_text("name") {
            Some(v) => v,
            None => {
                return None;
            },
        };
        let id = match json.get_unsigned("id", 4294967295) {
            Some(v) => v as u32,
            None => {
                return None;
            },
        };
        let buddies = match get_list::<Buddy>(json, "buddies") {
            Some(v) => v,
            None => {
                return None;
            },
        };
        Some(BuddyListGroup { name, id, buddies })
    }
}

impl FromJson for BuddyListData {
    open spec fn decodes(json: Json, value: Self) -> bool {
        field_list_decodes(json, "groups"@, value.groups@)
    }

    fn from_json(json: &Json) -> (out: Option<Self>) {
        match get_list::<BuddyListGroup>(json, "groups") {
            Some(groups) => Some(BuddyListData { groups }),
            None => None,
        }
    }
}

impl FromJson for MyInfoData {
    open spec fn decodes(json: Json, value: Self) -> bool {
        &&& json.text_field("aimId"@) == Some(value.aim_id@)
        &&& json.text_field("displayId"@) == Some(value.display_id@)
        &&& json.opt_text_field("friendly"@) == Some(opt_view(value.friendly))
        &&& json.text_field("state"@) == Some(value.state@)
        &&& json.text_field("userType"@) == Some(value.user_type@)
        &&& json.text_field("attachedPhoneNumber"@) == Some(value.attached_phone_number@)
        &&& json.text_field("globalFlags"@) == Some(value.global_flags@)
    }

    fn from_json(json: &Json) -> (out: Option<Self>) {
        let aim_id = match json.get_text("aimId") {
            Some(v) => v,
            None => {
                return None;
            },
        };
        let display_id = match json.get_text("displayId") {
            Some(v) => v,
            None => {
                return None;
            },
        };
        let friendly = match json.get_opt_text("friendly") {
            Some(v) => v,
            None => {
                return None;
            },
        };
        let state = match json.get_text("state") {
            Some(v) => v,
            None => {
                return None;
            },
        };
        let user_type = match json.get_text("userType") {
            Some(v) => v,
            None => {
                return None;
            },
        };
        let attached_phone_number = match json.get_text("attachedPhoneNumber") {
            Some(v) => v,
            None => {
                return None;
            },
        };
        let global_flags = match json.get_text("globalFlags") {
            Some(v) => v,
            None => {
                return None;
            },
        };
        Some(
            MyInfoData {
                aim_id,
                display_id,
                friendly,
                state,
                user_type,
                attached_phone_number,
                global_flags,
            },
        )
    }
}

impl FromJson for PresenceData {
    open spec fn decodes(json: Json, value: Self) -> bool {
        &&& json.text_field("aimId"@) == Some(value.aim_id@)
        &&& json.text_field("displayId"@) == Some(value.display_id@)
        &&& json.opt_text_field("friendly"@) == Some(opt_view(value.friendly))
        &&& json.text_field("state"@) == Some(value.state@)
        &&& json.text_field("userType"@) == Some(value.user_type@)
        &&& json.unsigned_field("statusTime"@, max32()) == Some(value.status_time as nat)
        &&& json.text_field("statusMsg"@) == Some(value.status_msg@)
        &&& json.text_field("autoAddition"@) == Some(value.auto_addition@)
        &&& json.unsigned_field("lastseen"@, max32()) == Some(value.lastseen as nat)
    }

    fn from_json(json: &Json) -> (out: Option<Self>) {
        let aim_id = match json.get_text("aimId") {
            Some(v) => v,
            None => {
                return None;
            },
        };
        let display_id = match json.get_text("displayId") {
            Some(v) => v,
            None => {
                return None;
            },
        };
        let friendly = match json.get_opt_text("friendly") {
            Some(v) => v,
            None => {
                return None;
            },
        };
        let state = match json.get_text("state") {
            Some(v) => v,
            None => {
                return None;
            },
        };
        let user_type = match json.get_text("userType") {
            Some(v) => v,
            None => {
                return None;
            },
        };
        let status_time = match json.get_unsigned("statusTime", 4294967295) {
            Some(v) => v as u32,
            None => {
                return None;
            },
        };
        let status_msg = match json.get_text("statusMsg") {
            Some(v) => v,
            None => {
                return None;
            },
        };
        let auto_addition = match json.get_text("autoAddition") {
            Some(v) => v,
            None => {
                return None;
            },
        };
        let lastseen = match json.get_unsigned("lastseen", 4294967295) {
            Some(v) => v as u32,
            None => {
                return None;
            },
        };
        Some(
            PresenceData {
                aim_id,
                display_id,
                friendly,
                state,
                user_type,
                status_time,
                status_msg,
                auto_addition,
                lastseen,
            },
        )
    }
}

impl FromJson for PermitDenyData {
    open spec fn decodes(json: Json, value: Self) -> bool {
        json is Object
    }

    fn from_json(json: &Json) -> (out: Option<Self>) {
        match json {
            Json::Object(_) => Some(PermitDenyData {  }),
            _ => None,
        }
    }
}

impl FromJson for GalleryNotifyData {
    open spec fn decodes(json: Json, value: Self) -> bool {
        json is Object
    }

    fn from_json(json: &Json) -> (out: Option<Self>) {
        match json {
            Json::Object(_) => Some(GalleryNotifyData {  }),
            _ => None,
        }
    }
}

/// The type tag under which an event's data travels.
pub open spec fn event_tag(data: EventData) -> Seq<char> {
    match data {
        EventData::HistDlgState(_) => "histDlgState"@,
        EventData::BuddyList(_) => "buddylist"@,
        EventData::PermitDeny(_) => "permitDeny"@,
        EventData::MyInfo(_) => "myInfo"@,
        EventData::Presence(_) => "presence"@,
        EventData::GalleryNotify(_) => "galleryNotify"@,
    }
}

/// The type tag is one that this client knows.
pub open spec fn known_tag(tag: Seq<char>) -> bool {
    tag == "histDlgState"@ || tag == "buddylist"@ || tag == "permitDeny"@ || tag == "myInfo"@
        || tag == "presence"@ || tag == "galleryNotify"@
}

/// The payload stands for the event data, by the data's kind.
pub open spec fn event_data_decodes(payload: Json, data: EventData) -> bool {
    match data {
        EventData::HistDlgState(d) => HistDlgStateData::decodes(payload, d),
        EventData::BuddyList(d) => BuddyListData::decodes(payload, d),
        EventData::PermitDeny(d) => PermitDenyData::decodes(payload, d),
        EventData::MyInfo(d) => MyInfoData::decodes(payload, d),
        EventData::Presence(d) => PresenceData::decodes(payload, d),
        EventData::GalleryNotify(d) => GalleryNotifyData::decodes(payload, d),
    }
}

impl FromJson for Event {
    /// An event is an object with a sequence number, a type tag, and under
    /// `eventData` the payload of the shape that the tag names.
    open spec fn decodes(json: Json, value: Self) -> bool {
        &&& json.unsigned_field("seqNum"@, max32()) == Some(value.seq_num as nat)
        &&& json.text_field("type"@) == Some(event_tag(value.event_data))
        &&& json.field("eventData"@) matches Some(payload) && event_data_decodes(
            payload,
            value.event_data,
        )
    }

    fn from_json(json: &Json) -> (out: Option<Self>) {
        proof {
            lemma_tags_differ();
        }
        let seq_num = match json.get_unsigned("seqNum", 4294967295) {
            Some(v) => v as u32,
            None => {
                return None;
            },
        };
        let tag = match json.get_text("type") {
            Some(v) => v,
            None => {
                return None;
            },
        };
        let payload = match json.get("eventData") {
            Some(v) => v,
            None => {
                return None;
            },
        };
        let event_data = if str_eq(tag.as_str(), "histDlgState") {
            match HistDlgStateData::from_json(payload) {
                Some(d) => EventData::HistDlgState(d),
                None => {
                    return None;
                },
            }
        } else if str_eq(tag.as_str(), "buddylist") {
            match BuddyListData::from_json(payload) {
                Some(d) => EventData::BuddyList(d),
                None => {
                    return None;
                },
            }
        } else if str_eq(tag.as_str(), "permitDeny") {
            match PermitDenyData::from_json(payload) {
                Some(d) => EventData::PermitDeny(d),
                None => {
                    return None;
                },
            }
        } else if str_eq(tag.as_str(), "myInfo") {
            match MyInfoData::from_json(payload) {
                Some(d) => EventData::MyInfo(d),
                None => {
                    return None;
                },
            }
        } else if str_eq(tag.as_str(), "presence") {
            match PresenceData::from_json(payload) {
                Some(d) => EventData::Presence(d),
                None => {
                    return None;
                },
            }
        } else if str_eq(tag.as_str(), "galleryNotify") {
            match GalleryNotifyData::from_json(payload) {
                Some(d) => EventData::GalleryNotify(d),
                None => {
                    return None;
                },
            }
        } else {
            return None;
        };
        Some(Event { seq_num, event_data })
    }
}

/// No two kinds of event share a type tag.
pub proof fn lemma_tags_differ()
    ensures
        "histDlgState"@ != "buddylist"@,
        "histDlgState"@ != "permitDeny"@,
        "histDlgState"@ != "myInfo"@,
        "histDlgState"@ != "presence"@,
        "histDlgState"@ != "galleryNotify"@,
        "buddylist"@ != "permitDeny"@,
        "buddylist"@ != "myInfo"@,
        "buddylist"@ != "presence"@,
        "buddylist"@ != "galleryNotify"@,
        "permitDeny"@ != "myInfo"@,
        "permitDeny"@ != "presence"@,
        "permitDeny"@ != "galleryNotify"@,
        "myInfo"@ != "presence"@,
        "myInfo"@ != "galleryNotify"@,
        "presence"@ != "galleryNotify"@,
{
    reveal_strlit("histDlgState");
    reveal_strlit("buddylist");
    reveal_strlit("permitDeny");
    reveal_strlit("myInfo");
    reveal_strlit("presence");
    reveal_strlit("galleryNotify");
    assert("histDlgState"@.len() == 12);
    assert("buddylist"@.len() == 9);
    assert("permitDeny"@.len() == 10);
    assert("myInfo"@.len() == 6);
    assert("presence"@.len() == 8);
    assert("galleryNotify"@.len() == 13);
}

/// What an event payload decodes to: the event that it stands for, or the
/// payload itself where it stands for none.
pub open spec fn try_decodes(json: Json, result: TryResult<Event>) -> bool {
    match result.0 {
        Ok(event) => Event::decodes(json, event),
        Err(unknown) => unknown == json && forall|event: Event| !Event::decodes(json, event),
    }
}

/// Decodes one event payload. A payload of unknown shape is kept as it is.
pub fn decode_event(json: Json) -> (out: TryResult<Event>)
    ensures
        try_decodes(json, out),
{
    match Event::from_json(&json) {
        Some(event) => TryResult(Ok(event)),
        None => TryResult(Err(json)),
    }
}

/// A payload whose type tag is none of the known ones stands for no event:
/// it decodes to the unrecognized variant.
pub proof fn lemma_unknown_tag_is_unrecognized(json: Json)
    requires
        match json.text_field("type"@) {
            Some(tag) => !known_tag(tag),
            None => true,
        },
    ensures
        forall|event: Event| !Event::decodes(json, event),
{
}

} // verus!
