//! The requests and responses of the service, as typed values.

use crate::chat_info::opt_view;
use crate::events::{decode_event, max32, try_decodes, Event, TryResult};
use crate::json::{
    field_decodes, field_list_decodes, get_list, get_member, json_text, opt_nat, parse_json,
    parsed_json, write_json, FromJson, Json,
};
use crate::text::{decimal, decimal_string, signed_decimal, signed_decimal_string};
use vstd::prelude::*;
use vstd::string::StringExecFns;

verus! {

pub const SEND_CODE_URL: &'static str = "https://u.icq.net/api/v14/rapi/auth/sendCode";

pub const LOGIN_WITH_PHONE_NUMBER_URL: &'static str =
    "https://u.icq.net/api/v14/smsreg/loginWithPhoneNumber.php";

pub const START_SESSION_URL: &'static str = "https://u.icq.net/api/v14/wim/aim/startSession?";

pub const SEND_IM_URL: &'static str = "https://u.icq.net/api/v14/wim/im/sendIM";

pub const GET_CHAT_INFO_URL: &'static str = "https://u.icq.net/api/v14/rapi/getChatInfo";

pub const JOIN_CHAT_URL: &'static str = "https://u.icq.net/api/v14/rapi/joinChat";

pub const GET_HISTORY_URL: &'static str = "https://u.icq.net/api/v14/rapi/getHistory";

pub const FILES_INFO_URL: &'static str = "https://u.icq.net/api/v14/files/info";

/// The parameters of a request for a verification code.
#[derive(Debug, Clone, Copy)]
pub struct SendCodeBodyParams<'a> {
    pub phone: &'a str,
    pub language: &'a str,
    pub route: &'a str,
    pub dev_id: &'a str,
    pub application: &'a str,
}

/// A request for a verification code.
#[derive(Debug, Clone, Copy)]
pub struct SendCodeBody<'a> {
    pub req_id: &'a str,
    pub params: &'a SendCodeBodyParams<'a>,
}

#[derive(Debug, Clone)]
pub struct SendCodeResponseResults {
    pub code_length: i32,
    pub session_id: String,
}

#[derive(Debug, Clone)]
pub struct SendCodeResponse {
    pub results: SendCodeResponseResults,
}

/// The exchange of a verification code for a token.
#[derive(Debug, Clone, Copy)]
pub struct LoginWithPhoneNumberBody<'a> {
    pub msisdn: &'a str,
    pub trans_id: &'a str,
    pub sms_code: &'a str,
    pub locale: &'a str,
    pub k: &'a str,
    pub platform: &'a str,
    pub create_account: &'a str,
    pub client: &'a str,
    pub r: &'a str,
}

/// A response wrapped as `response.data`.
#[derive(Debug, Clone)]
pub struct WebIcqResponse<T> {
    pub response: WebIcqData<T>,
}

#[derive(Debug, Clone)]
pub struct WebIcqData<T> {
    pub data: T,
}

/// A request of the `rapi` family: session, request id and parameters.
#[derive(Debug, Clone, Copy)]
pub struct RapiBody<'a, T> {
    pub aimsid: &'a str,
    pub req_id: &'a str,
    pub params: T,
}

/// A response wrapped as `results`.
#[derive(Debug, Clone)]
pub struct RapiResponse<T> {
    pub results: T,
}

/// A response wrapped as `result`.
#[derive(Debug, Clone)]
pub struct ResultResponse<T> {
    pub result: T,
}

/// A response that carries no data.
#[derive(Debug, Clone, Copy)]
pub struct EmptyResponse {}

#[derive(Debug, Clone)]
pub struct LoginWithPhoneNumberResponseData {
    pub token: LoginWithPhoneNumberResponseToken,
    pub host_time: u32,
    pub session_key: String,
}

#[derive(Debug, Clone)]
pub struct LoginWithPhoneNumberResponseToken {
    pub a: String,
}

/// What a long poll returns: the events, and where to poll next.
#[derive(Debug)]
pub struct FetchEventsResponseData {
    pub poll_time: String,
    pub ts: String,
    pub fetch_base_url: String,
    pub fetch_timeout: u32,
    pub time_to_next_fetch: u32,
    pub events: Vec<TryResult<Event>>,
}

/// The parameters of a session start.
#[derive(Debug, Clone, Copy)]
pub struct StartSessionBody<'a> {
    pub a: &'a str,
    pub ts: u32,
    pub k: &'a str,
    pub view: &'a str,
    pub client_name: &'a str,
    pub language: &'a str,
    pub device_id: &'a str,
    pub session_timeout: u32,
    pub assert_caps: &'a str,
    pub interest_caps: &'a str,
    pub events: &'a str,
    pub include_presence_fields: &'a str,
}

#[derive(Debug, Clone)]
pub struct StartSessionResponseData {
    pub aimsid: String,
    pub my_info: StartSessionResponseMyInfo,
    pub fetch_base_url: String,
}

#[derive(Debug, Clone)]
pub struct StartSessionResponseMyInfo {
    pub aim_id: String,
}

/// The parameters of a chat-info request: the chat by its stamp or by its
/// stable name.
#[derive(Debug, Clone, Copy)]
pub struct GetChatInfoBodyParams<'a> {
    pub member_limit: u32,
    pub stamp: Option<&'a str>,
    pub sn: Option<&'a str>,
}

#[derive(Debug, Clone, Copy)]
pub struct StampBodyParams<'a> {
    pub stamp: &'a str,
}

#[derive(Debug, Clone)]
pub struct GetChatInfoResponseData {
    pub name: String,
    pub stamp: String,
    pub sn: String,
    pub about: Option<String>,
    pub members_version: String,
    pub info_version: String,
    pub members: Vec<ChatInfoResponsePerson>,
}

/// A member in a chat-info response.
#[derive(Debug, Clone)]
pub struct ChatInfoResponsePerson {
    pub sn: String,
    pub role: String,
    pub last_seen: Option<u64>,
    pub first_name: Option<String>,
    pub last_name: Option<String>,
    pub friendly: Option<String>,
}

#[derive(Debug, Clone, Copy)]
pub struct SendIMBody<'a> {
    pub t: &'a str,
    pub r: &'a str,
    pub mentions: &'a str,
    pub message: &'a str,
    pub f: &'a str,
    pub aimsid: &'a str,
}

#[derive(Debug, Clone)]
pub struct SendIMResponseData {
    pub msg_id: String,
    pub hist_msg_id: u64,
    pub before_hist_msg_id: u64,
    pub ts: u32,
    pub state: String,
}

#[derive(Debug, Clone, Copy)]
pub struct FilesInfoBody<'a> {
    pub aimsid: &'a str,
    pub previews: &'a str,
}

#[derive(Debug, Clone)]
pub struct FilesInfoResponseData {
    pub info: FilesInfoResponseDataInfo,
    pub previews: FilesInfoResponseDataPreviews,
}

#[derive(Debug, Clone)]
pub struct FilesInfoResponseDataPreviews {
    pub x192: String,
}

#[derive(Debug, Clone)]
pub struct FilesInfoResponseDataInfo {
    pub file_size: usize,
    pub file_name: String,
    pub md5: String,
    pub dlink: String,
    pub mime: String,
}

/// The parameters of a history request.
#[derive(Debug, Clone, Copy)]
pub struct GetHistoryBodyParams<'a> {
    pub count: i32,
    pub from_msg_id: &'a str,
    pub lang: &'a str,
    pub mentions: GetHistoryBodyParamsMentions,
    pub patch_version: &'a str,
    pub sn: &'a str,
}

#[derive(Debug, Clone, Copy)]
pub struct GetHistoryBodyParamsMentions {
    pub resolve: bool,
}

impl<T: FromJson> FromJson for WebIcqData<T> {
    open spec fn decodes(json: Json, value: Self) -> bool {
        field_decodes(json, "data"@, value.data)
    }

    fn from_json(json: &Json) -> (out: Option<Self>) {
        match get_member::<T>(json, "data") {
            Some(data) => Some(WebIcqData { data }),
            None => None,
        }
    }
}

impl<T: FromJson> FromJson for WebIcqResponse<T> {
    open spec fn decodes(json: Json, value: Self) -> bool {
        field_decodes(json, "response"@, value.response)
    }

    fn from_json(json: &Json) -> (out: Option<Self>) {
        match get_member::<WebIcqData<T>>(json, "response") {
            Some(response) => Some(WebIcqResponse { response }),
            None => None,
        }
    }
}

impl<T: FromJson> FromJson for RapiResponse<T> {
    open spec fn decodes(json: Json, value: Self) -> bool {
        field_decodes(json, "results"@, value.results)
    }

    fn from_json(json: &Json) -> (out: Option<Self>) {
        match get_member::<T>(json, "results") {
            Some(results) => Some(RapiResponse { results }),
            None => None,
        }
    }
}

impl<T: FromJson> FromJson for ResultResponse<T> {
    open spec fn decodes(json: Json, value: Self) -> bool {
        field_decodes(json, "result"@, value.result)
    }

    fn from_json(json: &Json) -> (out: Option<Self>) {
        match get_member::<T>(json, "result") {
            Some(result) => Some(ResultResponse { result }),
            None => None,
        }
    }
}

impl FromJson for EmptyResponse {
    open spec fn decodes(json: Json, value: Self) -> bool {
        json is Object
    }

    fn from_json(json: &Json) -> (out: Option<Self>) {
        match json {
            Json::Object(_) => Some(EmptyResponse {  }),
            _ => None,
        }
    }
}

impl FromJson for SendCodeResponseResults {
    open spec fn decodes(json: Json, value: Self) -> bool {
        &&& json.i32_field("codeLength"@) == Some(value.code_length as int)
        &&& json.text_field("sessionId"@) == Some(value.session_id@)
    }

    fn from_json(json: &Json) -> (out: Option<Self>) {
        let code_length = match json.get_i32("codeLength") {
            Some(v) => v,
            None => {
                return None;
            },
        };
        let session_id = match json.get_text("sessionId") {
            Some(v) => v,
            None => {
                return None;
            },
        };
        Some(SendCodeResponseResults { code_length, session_id })
    }
}

impl FromJson for SendCodeResponse {
    open spec fn decodes(json: Json, value: Self) -> bool {
        field_decodes(json, "results"@, value.results)
    }

    fn from_json(json: &Json) -> (out: Option<Self>) {
        match get_member::<SendCodeResponseResults>(json, "results") {
            Some(results) => Some(SendCodeResponse { results }),
            None => None,
        }
    }
}

impl FromJson for LoginWithPhoneNumberResponseToken {
    open spec fn decodes(json: Json, value: Self) -> bool {
        json.text_field("a"@) == Some(value.a@)
    }

    fn from_json(json: &Json) -> (out: Option<Self>) {
        match json.get_text("a") {
            Some(a) => Some(LoginWithPhoneNumberResponseToken { a }),
            None => None,
        }
    }
}

impl FromJson for LoginWithPhoneNumberResponseData {
    open spec fn decodes(json: Json, value: Self) -> bool {
        &&& field_decodes(json, "token"@, value.token)
        &&& json.unsigned_field("hostTime"@, max32()) == Some(value.host_time as nat)
        &&& json.text_field("sessionKey"@) == Some(value.session_key@)
    }

    fn from_json(json: &Json) -> (out: Option<Self>) {
        let token = match get_member::<LoginWithPhoneNumberResponseToken>(json, "token") {
            Some(v) => v,
            None => {
                return None;
            },
        };
        let host_time = match json.get_unsigned("hostTime", 4294967295) {
            Some(v) => v as u32,
            None => {
                return None;
            },
        };
        let session_key = match json.get_text("sessionKey") {
            Some(v) => v,
            None => {
                return None;
            },
        };
        Some(LoginWithPhoneNumberResponseData { token, host_time, session_key })
    }
}

impl FromJson for StartSessionResponseMyInfo {
    open spec fn decodes(json: Json, value: Self) -> bool {
        json.text_field("aimId"@) == Some(value.aim_id@)
    }

    fn from_json(json: &Json) -> (out: Option<Self>) {
        match json.get_text("aimId") {
            Some(aim_id) => Some(StartSessionResponseMyInfo { aim_id }),
            None => None,
        }
    }
}

impl FromJson for StartSessionResponseData {
    open spec fn decodes(json: Json, value: Self) -> bool {
        &&& json.text_field("aimsid"@) == Some(value.aimsid@)
        &&& field_decodes(json, "myInfo"@, value.my_info)
        &&& json.text_field("fetchBaseURL"@) == Some(value.fetch_base_url@)
    }

    fn from_json(json: &Json) -> (out: Option<Self>) {
        let aimsid = match json.get_text("aimsid") {
            Some(v) => v,
            None => {
                return None;
            },
        };
        let my_info = match get_member::<StartSessionResponseMyInfo>(json, "myInfo") {
            Some(v) => v,
            None => {
                return None;
            },
        };
        let fetch_base_url = match json.get_text("fetchBaseURL") {
            Some(v) => v,
            None => {
                return None;
            },
        };
        Some(StartSessionResponseData { aimsid, my_info, fetch_base_url })
    }
}

/// The last-seen time that a member's `userState` gives: absent where the
/// state or the time in it is absent.
pub open spec fn member_last_seen(json: Json) -> Option<Option<nat>> {
    if Json::absent(json.field("userState"@)) {
        Some(None)
    } else {
        json.field("userState"@)->0.opt_unsigned_field("lastseen"@, u64::MAX as nat)
    }
}

/// A name that a member's `anketa` gives: absent where the form or the name
/// in it is absent.
pub open spec fn member_name(json: Json, name: Seq<char>) -> Option<Option<Seq<char>>> {
    if Json::absent(json.field("anketa"@)) {
        Some(None)
    } else {
        json.field("anketa"@)->0.opt_text_field(name)
    }
}

impl FromJson for ChatInfoResponsePerson {
    open spec fn decodes(json: Json, value: Self) -> bool {
        &&& json.text_field("sn"@) == Some(value.sn@)
        &&& json.text_field("role"@) == Some(value.role@)
        &&& member_last_seen(json) == Some(opt_nat(value.last_seen))
        &&& member_name(json, "firstName"@) == Some(opt_view(value.first_name))
        &&& member_name(json, "lastName"@) == Some(opt_view(value.last_name))
        &&& json.opt_text_field("friendly"@) == Some(opt_view(value.friendly))
    }

    fn from_json(json: &Json) -> (out: Option<Self>) {
        let sn = match json.get_text("sn") {
            Some(v) => v,
            None => {
                return None;
            },
        };
        let role = match json.get_text("role") {
            Some(v) => v,
            None => {
                return None;
            },
        };
        let last_seen = match json.get("userState") {
            None => None,
            Some(state) => {
                if state.is_null() {
                    None
                } else {
                    match state.get_opt_unsigned("lastseen", 18446744073709551615) {
                        Some(v) => v,
                        None => {
                            return None;
                        },
                    }
                }
            },
        };
        let mut first_name: Option<String> = None;
        let mut last_name: Option<String> = None;
        match json.get("anketa") {
            None => {},
            Some(form) => {
                if !form.is_null() {
                    first_name = match form.get_opt_text("firstName") {
                        Some(v) => v,
                        None => {
                            return None;
                        },
                    };
                    last_name = match form.get_opt_text("lastName") {
                        Some(v) => v,
                        None => {
                            return None;
                        },
                    };
                }
            },
        }
        let friendly = match json.get_opt_text("friendly") {
            Some(v) => v,
            None => {
                return None;
            },
        };
        Some(ChatInfoResponsePerson { sn, role, last_seen, first_name, last_name, friendly })
    }
}

impl FromJson for GetChatInfoResponseData {
    open spec fn decodes(json: Json, value: Self) -> bool {
        &&& json.text_field("name"@) == Some(value.name@)
        &&& json.text_field("stamp"@) == Some(value.stamp@)
        &&& json.text_field("sn"@) == Some(value.sn@)
        &&& json.opt_text_field("about"@) == Some(opt_view(value.about))
        &&& json.text_field("membersVersion"@) == Some(value.members_version@)
        &&& json.text_field("infoVersion"@) == Some(value.info_version@)
        &&& field_list_decodes(json, "members"@, value.members@)
    }

    fn from_json(json: &Json) -> (out: Option<Self>) {
        let name = match json.get_text("name") {
            Some(v) => v,
            None => {
                return None;
            },
        };
        let stamp = match json.get_text("stamp") {
            Some(v) => v,
            None => {
                return None;
            },
        };
        let sn = match json.get_text("sn") {
            Some(v) => v,
            None => {
                return None;
            },
        };
        let about = match json.get_opt_text("about") {
            Some(v) => v,
            None => {
                return None;
            },
        };
        let members_version = match json.get_text("membersVersion") {
            Some(v) => v,
            None => {
                return None;
            },
        };
        let info_version = match json.get_text("infoVersion") {
            Some(v) => v,
            None => {
                return None;
            },
        };
        let members = match get_list::<ChatInfoResponsePerson>(json, "members") {
            Some(v) => v,
            None => {
                return None;
            },
        };
        Some(
            GetChatInfoResponseData {
                name,
                stamp,
                sn,
                about,
                members_version,
                info_version,
                members,
            },
        )
    }
}

impl FromJson for SendIMResponseData {
    open spec fn decodes(json: Json, value: Self) -> bool {
        &&& json.text_field("msgId"@) == Some(value.msg_id@)
        &&& json.unsigned_field("histMsgId"@, u64::MAX as nat) == Some(value.hist_msg_id as nat)
        &&& json.unsigned_field("beforeHistMsgId"@, u64::MAX as nat) == Some(
            value.before_hist_msg_id as nat,
        )
        &&& json.unsigned_field("ts"@, max32()) == Some(value.ts as nat)
        &&& json.text_field("state"@) == Some(value.state@)
    }

    fn from_json(json: &Json) -> (out: Option<Self>) {
        let msg_id = match json.get_text("msgId") {
            Some(v) => v,
            None => {
                return None;
            },
        };
        let hist_msg_id = match json.get_unsigned("histMsgId", 18446744073709551615) {
            Some(v) => v,
            None => {
                return None;
            },
        };
        let before_hist_msg_id = match json.get_unsigned("beforeHistMsgId", 18446744073709551615) {
            Some(v) => v,
            None => {
                return None;
            },
        };
        let ts = match json.get_unsigned("ts", 4294967295) {
            Some(v) => v as u32,
            None => {
                return None;
            },
        };
        let state = match json.get_text("state") {
            Some(v) => v,
            None => {
                return None;
            },
        };
        Some(SendIMResponseData { msg_id, hist_msg_id, before_hist_msg_id, ts, state })
    }
}

impl FromJson for FilesInfoResponseDataInfo {
    open spec fn decodes(json: Json, value: Self) -> bool {
        &&& json.unsigned_field("file_size"@, usize::MAX as nat) == Some(value.file_size as nat)
        &&& json.text_field("file_name"@) == Some(value.file_name@)
        &&& json.text_field("md5"@) == Some(value.md5@)
        &&& json.text_field("dlink"@) == Some(value.dlink@)
        &&& json.text_field("mime"@) == Some(value.mime@)
    }

    fn from_json(json: &Json) -> (out: Option<Self>) {
        let file_size = match json.get_unsigned("file_size", usize::MAX as u64) {
            Some(v) => v as usize,
            None => {
                return None;
            },
        };
        let file_name = match json.get_text("file_name") {
            Some(v) => v,
            None => {
                return None;
            },
        };
        let md5 = match json.get_text("md5") {
            Some(v) => v,
            None => {
                return None;
            },
        };
        let dlink = match json.get_text("dlink") {
            Some(v) => v,
            None => {
                return None;
            },
        };
        let mime = match json.get_text("mime") {
            Some(v) => v,
            None => {
                return None;
            },
        };
        Some(FilesInfoResponseDataInfo { file_size, file_name, md5, dlink, mime })
    }
}

impl FromJson for FilesInfoResponseDataPreviews {
    open spec fn decodes(json: Json, value: Self) -> bool {
        json.text_field("192"@) == Some(value.x192@)
    }

    fn from_json(json: &Json) -> (out: Option<Self>) {
        match json.get_text("192") {
            Some(x192) => Some(FilesInfoResponseDataPreviews { x192 }),
            None => None,
        }
    }
}

impl FromJson for FilesInfoResponseData {
    open spec fn decodes(json: Json, value: Self) -> bool {
        &&& field_decodes(json, "info"@, value.info)
        &&& field_decodes(json, "previews"@, value.previews)
    }

    fn from_json(json: &Json) -> (out: Option<Self>) {
        let info = match get_member::<FilesInfoResponseDataInfo>(json, "info") {
            Some(v) => v,
            None => {
                return None;
            },
        };
        let previews = match get_member::<FilesInfoResponseDataPreviews>(json, "previews") {
            Some(v) => v,
            None => {
                return None;
            },
        };
        Some(FilesInfoResponseData { info, previews })
    }
}

/// Each payload decodes to the result at its place.
pub open spec fn events_decode(items: Seq<Json>, events: Seq<TryResult<Event>>) -> bool {
    &&& items.len() == events.len()
    &&& forall|i: int| 0 <= i < items.len() ==> #[trigger] try_decodes(items[i], events[i])
}

/// The JSON value stands for the data of a poll: the envelope
/// `response.data` holds the poll's times, the next poll target, and the
/// array of event payloads, each decoded by itself.
pub open spec fn fetch_events_decodes(json: Json, value: FetchEventsResponseData) -> bool {
    &&& json.field("response"@) matches Some(response)
    &&& response.field("data"@) matches Some(data)
    &&& data.text_field("pollTime"@) == Some(value.poll_time@)
    &&& data.text_field("ts"@) == Some(value.ts@)
    &&& data.text_field("fetchBaseURL"@) == Some(value.fetch_base_url@)
    &&& data.unsigned_field("fetchTimeout"@, max32()) == Some(value.fetch_timeout as nat)
    &&& data.unsigned_field("timeToNextFetch"@, max32()) == Some(value.time_to_next_fetch as nat)
    &&& data.field("events"@) matches Some(Json::Array(items))
    &&& events_decode(items@, value.events@)
}

/// Decodes the payloads of a poll, each by itself: one of unknown shape is
/// kept as it is and does not affect the others.
pub fn decode_events(items: Vec<Json>) -> (events: Vec<TryResult<Event>>)
    ensures
        events_decode(items@, events@),
{
    let ghost all = items@;
    let mut items = items;
    let mut reversed: Vec<TryResult<Event>> = Vec::new();
    while items.len() > 0
        invariant
            items@.len() <= all.len(),
            items@ == all.subrange(0, items@.len() as int),
            reversed@.len() == all.len() - items@.len(),
            forall|i: int|
                0 <= i < reversed@.len() ==> #[trigger] try_decodes(
                    all[all.len() - 1 - i],
                    reversed@[i],
                ),
        decreases items@.len(),
    {
        let ghost before = items@;
        let item = items.pop().unwrap();
        proof {
            assert(item == all[before.len() - 1]);
            assert(items@ =~= all.subrange(0, items@.len() as int));
        }
        reversed.push(decode_event(item));
    }
    let mut events: Vec<TryResult<Event>> = Vec::new();
    let ghost turned = reversed@;
    while reversed.len() > 0
        invariant
            turned.len() == all.len(),
            reversed@.len() <= turned.len(),
            reversed@ == turned.subrange(0, reversed@.len() as int),
            events@.len() == turned.len() - reversed@.len(),
            forall|i: int|
                0 <= i < turned.len() ==> #[trigger] try_decodes(all[all.len() - 1 - i], turned[i]),
            forall|i: int| 0 <= i < events@.len() ==> #[trigger] try_decodes(all[i], events@[i]),
        decreases reversed@.len(),
    {
        let ghost before = reversed@;
        let event = reversed.pop().unwrap();
        proof {
            let at = before.len() - 1;
            assert(event == turned[at]);
            assert(try_decodes(all[all.len() - 1 - at], turned[at]));
            assert(reversed@ =~= turned.subrange(0, reversed@.len() as int));
        }
        events.push(event);
    }
    events
}

/// Decodes the response of a poll.
pub fn decode_fetch_events(json: Json) -> (out: Option<FetchEventsResponseData>)
    ensures
        match out {
            Some(value) => fetch_events_decodes(json, value),
            None => forall|value: FetchEventsResponseData| !fetch_events_decodes(json, value),
        },
{
    let response = match json.take("response") {
        Some(v) => v,
        None => {
            return None;
        },
    };
    let data = match response.take("data") {
        Some(v) => v,
        None => {
            return None;
        },
    };
    let poll_time = match data.get_text("pollTime") {
        Some(v) => v,
        None => {
            return None;
        },
    };
    let ts = match data.get_text("ts") {
        Some(v) => v,
        None => {
            return None;
        },
    };
    let fetch_base_url = match data.get_text("fetchBaseURL") {
        Some(v) => v,
        None => {
            return None;
        },
    };
    let fetch_timeout = match data.get_unsigned("fetchTimeout", 4294967295) {
        Some(v) => v as u32,
        None => {
            return None;
        },
    };
    let time_to_next_fetch = match data.get_unsigned("timeToNextFetch", 4294967295) {
        Some(v) => v as u32,
        None => {
            return None;
        },
    };
    let events = match data.take("events") {
        Some(Json::Array(items)) => decode_events(items),
        _ => {
            return None;
        },
    };
    Some(
        FetchEventsResponseData {
            poll_time,
            ts,
            fetch_base_url,
            fetch_timeout,
            time_to_next_fetch,
            events,
        },
    )
}

/// Why a call of the service failed.
#[derive(Debug, Clone)]
pub enum Error {
    /// The request could not be written as JSON.
    JsonSerializationError(String),
    /// The request could not be written as a form.
    UrlEncodedSerializationError(String),
    /// The response was not what the call returns.
    DeserializationError(String),
    /// The exchange with the service failed.
    RequestError(String),
    /// The address of the call could not be built.
    UrlParseError(String),
}

/// How a request is sent.
#[derive(Debug, Clone, Copy, PartialEq, Eq, Structural)]
pub enum HttpMethod {
    Get,
    Post,
}

/// What a request carries.
#[derive(Debug, Clone)]
pub enum RequestBody {
    /// Nothing.
    Empty,
    /// A form, URL-encoded.
    Form(String),
    /// JSON text.
    Json(String),
}

/// A request to the service, ready to be sent.
#[derive(Debug, Clone)]
pub struct HttpRequest {
    pub method: HttpMethod,
    pub url: String,
    pub headers: Vec<(String, String)>,
    pub body: RequestBody,
}

/// What URL-encoding a list of name and value pairs gives; nothing where it
/// fails.
pub uninterp spec fn form_encoded(pairs: Seq<(Seq<char>, Seq<char>)>) -> Option<Seq<char>>;

/// What an address becomes with one more query parameter; nothing where the
/// address is no absolute URL.
pub uninterp spec fn url_with_param(base: Seq<char>, name: Seq<char>, value: Seq<char>) -> Option<
    Seq<char>,
>;

/// The names and values of a list of pairs, as plain characters.
pub open spec fn pairs_view(pairs: Seq<(String, String)>) -> Seq<(Seq<char>, Seq<char>)> {
    Seq::new(pairs.len(), |i: int| (pairs[i].0@, pairs[i].1@))
}

/// URL-encodes a list of name and value pairs.
///
/// Trusted: calls `serde_urlencoded::to_string` on the list, which writes
/// the pairs in order as `name=value`, joined by `&`, each part
/// percent-encoded. The text is a function of the pairs alone; on failure the
/// error's message is handed out.
#[verifier::external_body]
pub(crate) fn form_encode(pairs: &Vec<(String, String)>) -> (out: Result<String, String>)
    ensures
        out is Ok <==> form_encoded(pairs_view(pairs@)) is Some,
        out matches Ok(text) ==> form_encoded(pairs_view(pairs@)) == Some(text@),
{
    match serde_urlencoded::to_string(pairs) {
        Ok(text) => Ok(text),
        Err(error) => Err(error.to_string()),
    }
}

/// Adds one query parameter to an address.
///
/// Trusted: calls `url::Url::parse_with_params`, which parses the address as
/// an absolute URL and appends the pair to its query, and writes the result
/// out. The text is a function of the three arguments alone; on failure the
/// error's message is handed out.
#[verifier::external_body]
pub(crate) fn add_url_param(base: &str, name: &str, value: &str) -> (out: Result<String, String>)
    ensures
        out is Ok <==> url_with_param(base@, name@, value@) is Some,
        out matches Ok(text) ==> url_with_param(base@, name@, value@) == Some(text@),
{
    match url::Url::parse_with_params(base, &[(name, value)]) {
        Ok(url) => Ok(url.to_string()),
        Err(error) => Err(error.to_string()),
    }
}

/// The headers that every request carries.
pub open spec fn default_header_list() -> Seq<(Seq<char>, Seq<char>)> {
    seq![
        ("DNT"@, "1"@),
        (
            "User-Agent"@,
            "Mozilla/5.0 (X11; Linux x86_64) AppleWebKit/537.36 (KHTML, like Gecko) Chrome/77.0.3865.120 Safari/537.36"@,
        ),
        ("Origin"@, "https://web.icq.com"@),
        ("Referer"@, "https://web.icq.com/"@),
    ]
}

/// The headers that every request carries.
pub fn with_default_headers() -> (headers: Vec<(String, String)>)
    ensures
        pairs_view(headers@) == default_header_list(),
{
    let mut headers: Vec<(String, String)> = Vec::new();
    headers.push(("DNT".to_owned(), "1".to_owned()));
    headers.push(
        (
            "User-Agent".to_owned(),
            "Mozilla/5.0 (X11; Linux x86_64) AppleWebKit/537.36 (KHTML, like Gecko) Chrome/77.0.3865.120 Safari/537.36".to_owned(),
        ),
    );
    headers.push(("Origin".to_owned(), "https://web.icq.com".to_owned()));
    headers.push(("Referer".to_owned(), "https://web.icq.com/".to_owned()));
    assert(pairs_view(headers@) =~= default_header_list());
    headers
}

impl HttpRequest {
    /// The request is a `GET` of `url` with the default headers.
    pub open spec fn is_get(self, url: Seq<char>) -> bool {
        &&& self.method == HttpMethod::Get
        &&& self.url@ == url
        &&& pairs_view(self.headers@) == default_header_list()
        &&& self.body is Empty
    }

    /// The request is a `POST` to `url` with the default headers and the
    /// form that the pairs encode to.
    pub open spec fn is_form_post(self, url: Seq<char>, pairs: Seq<(Seq<char>, Seq<char>)>) -> bool {
        &&& self.method == HttpMethod::Post
        &&& self.url@ == url
        &&& pairs_view(self.headers@) == default_header_list()
        &&& self.body matches RequestBody::Form(text) && form_encoded(pairs) == Some(text@)
    }

    /// The request is a `POST` to `url` with the default headers and the
    /// text of the JSON value `json`.
    pub open spec fn is_json_post(self, url: Seq<char>, json: Json) -> bool {
        &&& self.method == HttpMethod::Post
        &&& self.url@ == url
        &&& pairs_view(self.headers@) == default_header_list()
        &&& self.body matches RequestBody::Json(text) && json_text(json) == Some(text@)
    }
}

/// The request that fetches `url`.
pub fn get_json(url: String) -> (request: HttpRequest)
    ensures
        request.is_get(url@),
{
    HttpRequest {
        method: HttpMethod::Get,
        url,
        headers: with_default_headers(),
        body: RequestBody::Empty,
    }
}

/// The request that posts a form to `url`: an error where the form cannot
/// be encoded.
pub fn post_form(url: String, pairs: &Vec<(String, String)>) -> (out: Result<HttpRequest, Error>)
    ensures
        out is Ok <==> form_encoded(pairs_view(pairs@)) is Some,
        out matches Ok(request) ==> request.is_form_post(url@, pairs_view(pairs@)),
        out matches Err(error) ==> error is UrlEncodedSerializationError,
{
    match form_encode(pairs) {
        Ok(text) => Ok(
            HttpRequest {
                method: HttpMethod::Post,
                url,
                headers: with_default_headers(),
                body: RequestBody::Form(text),
            },
        ),
        Err(detail) => Err(Error::UrlEncodedSerializationError(detail)),
    }
}

/// The request that posts a JSON value to `url`: an error where the value
/// cannot be written.
pub fn post_json(url: String, body: &Json) -> (out: Result<HttpRequest, Error>)
    ensures
        out is Ok <==> json_text(*body) is Some,
        out matches Ok(request) ==> request.is_json_post(url@, *body),
        out matches Err(error) ==> error is JsonSerializationError,
{
    match write_json(body) {
        Ok(text) => Ok(
            HttpRequest {
                method: HttpMethod::Post,
                url,
                headers: with_default_headers(),
                body: RequestBody::Json(text),
            },
        ),
        Err(detail) => Err(Error::JsonSerializationError(detail)),
    }
}

/// The entry is the string member `name` with the characters `value`.
pub open spec fn text_entry(entry: (String, Json), name: Seq<char>, value: Seq<char>) -> bool {
    entry.0@ == name && entry.1.text() == Some(value)
}

/// The entry is the number member `name` written as `numeral`.
pub open spec fn number_entry(entry: (String, Json), name: Seq<char>, numeral: Seq<char>) -> bool {
    &&& entry.0@ == name
    &&& entry.1 matches Json::Number(n)
    &&& n@ == numeral
}

/// The entry is the string member `name` with the characters of `value`, or
/// null where there is none.
pub open spec fn opt_text_entry(entry: (String, Json), name: Seq<char>, value: Option<&str>) -> bool {
    entry.0@ == name && match value {
        Some(value) => entry.1.text() == Some(value@),
        None => entry.1 == Json::Null,
    }
}

fn text_member(name: &str, value: &str) -> (entry: (String, Json))
    ensures
        text_entry(entry, name@, value@),
{
    (name.to_owned(), Json::Str(value.to_owned()))
}

fn opt_text_member(name: &str, value: Option<&str>) -> (entry: (String, Json))
    ensures
        opt_text_entry(entry, name@, value),
{
    match value {
        Some(value) => (name.to_owned(), Json::Str(value.to_owned())),
        None => (name.to_owned(), Json::Null),
    }
}

fn pair(name: &str, value: &str) -> (entry: (String, String))
    ensures
        entry.0@ == name@,
        entry.1@ == value@,
{
    (name.to_owned(), value.to_owned())
}

/// The JSON value is the body of a request of the `rapi` family: the
/// session, the request id, and the parameters.
pub open spec fn is_rapi_json(json: Json, aimsid: Seq<char>, req_id: Seq<char>, params: Json) -> bool {
    &&& json matches Json::Object(entries)
    &&& entries@.len() == 3
    &&& text_entry(entries@[0], "aimsid"@, aimsid)
    &&& text_entry(entries@[1], "reqId"@, req_id)
    &&& entries@[2].0@ == "params"@
    &&& entries@[2].1 == params
}

fn rapi_json(aimsid: &str, req_id: &str, params: Json) -> (json: Json)
    ensures
        is_rapi_json(json, aimsid@, req_id@, params),
{
    let mut entries: Vec<(String, Json)> = Vec::new();
    entries.push(text_member("aimsid", aimsid));
    entries.push(text_member("reqId", req_id));
    entries.push(("params".to_owned(), params));
    Json::Object(entries)
}

/// The JSON value is the body of a request for a verification code.
pub open spec fn is_send_code_json(json: Json, body: SendCodeBody) -> bool {
    &&& json matches Json::Object(entries)
    &&& entries@.len() == 2
    &&& text_entry(entries@[0], "reqId"@, body.req_id@)
    &&& entries@[1].0@ == "params"@
    &&& entries@[1].1 matches Json::Object(params)
    &&& params@.len() == 5
    &&& text_entry(params@[0], "phone"@, body.params.phone@)
    &&& text_entry(params@[1], "language"@, body.params.language@)
    &&& text_entry(params@[2], "route"@, body.params.route@)
    &&& text_entry(params@[3], "devId"@, body.params.dev_id@)
    &&& text_entry(params@[4], "application"@, body.params.application@)
}

/// The body of a request for a verification code, as JSON.
pub fn send_code_json(body: &SendCodeBody<'_>) -> (json: Json)
    ensures
        is_send_code_json(json, *body),
{
    let mut params: Vec<(String, Json)> = Vec::new();
    params.push(text_member("phone", body.params.phone));
    params.push(text_member("language", body.params.language));
    params.push(text_member("route", body.params.route));
    params.push(text_member("devId", body.params.dev_id));
    params.push(text_member("application", body.params.application));
    let mut entries: Vec<(String, Json)> = Vec::new();
    entries.push(text_member("reqId", body.req_id));
    entries.push(("params".to_owned(), Json::Object(params)));
    Json::Object(entries)
}

/// A request of the given shape was built, unless the body cannot be
/// written as JSON.
pub open spec fn json_request(out: Result<HttpRequest, Error>, url: Seq<char>, json: Json) -> bool {
    match out {
        Ok(request) => request.is_json_post(url, json),
        Err(error) => json_text(json) is None && error is JsonSerializationError,
    }
}

/// A request of the given shape was built, unless the form cannot be
/// encoded.
pub open spec fn form_request(
    out: Result<HttpRequest, Error>,
    url: Seq<char>,
    pairs: Seq<(Seq<char>, Seq<char>)>,
) -> bool {
    match out {
        Ok(request) => request.is_form_post(url, pairs),
        Err(error) => form_encoded(pairs) is None && error is UrlEncodedSerializationError,
    }
}

/// The request for a verification code.
pub fn send_code(body: &SendCodeBody<'_>) -> (out: Result<HttpRequest, Error>)
    ensures
        exists|json: Json| is_send_code_json(json, *body) && json_request(out, SEND_CODE_URL@, json),
{
    let json = send_code_json(body);
    post_json(SEND_CODE_URL.to_owned(), &json)
}

/// The form that exchanges a verification code for a token.
pub open spec fn login_pairs(body: LoginWithPhoneNumberBody) -> Seq<(Seq<char>, Seq<char>)> {
    seq![
        ("msisdn"@, body.msisdn@),
        ("trans_id"@, body.trans_id@),
        ("sms_code"@, body.sms_code@),
        ("locale"@, body.locale@),
        ("k"@, body.k@),
        ("platform"@, body.platform@),
        ("create_account"@, body.create_account@),
        ("client"@, body.client@),
        ("r"@, body.r@),
    ]
}

/// The request that exchanges a verification code for a token.
pub fn login_with_phone_number(body: &LoginWithPhoneNumberBody<'_>) -> (out: Result<
    HttpRequest,
    Error,
>)
    ensures
        form_request(out, LOGIN_WITH_PHONE_NUMBER_URL@, login_pairs(*body)),
{
    let mut pairs: Vec<(String, String)> = Vec::new();
    pairs.push(pair("msisdn", body.msisdn));
    pairs.push(pair("trans_id", body.trans_id));
    pairs.push(pair("sms_code", body.sms_code));
    pairs.push(pair("locale", body.locale));
    pairs.push(pair("k", body.k));
    pairs.push(pair("platform", body.platform));
    pairs.push(pair("create_account", body.create_account));
    pairs.push(pair("client", body.client));
    pairs.push(pair("r", body.r));
    assert(pairs_view(pairs@) =~= login_pairs(*body));
    post_form(LOGIN_WITH_PHONE_NUMBER_URL.to_owned(), &pairs)
}

/// The query of a session start.
pub open spec fn start_session_pairs(body: StartSessionBody) -> Seq<(Seq<char>, Seq<char>)> {
    seq![
        ("a"@, body.a@),
        ("ts"@, decimal(body.ts as nat)),
        ("k"@, body.k@),
        ("view"@, body.view@),
        ("clientName"@, body.client_name@),
        ("language"@, body.language@),
        ("deviceId"@, body.device_id@),
        ("sessionTimeout"@, decimal(body.session_timeout as nat)),
        ("assertCaps"@, body.assert_caps@),
        ("interestCaps"@, body.interest_caps@),
        ("events"@, body.events@),
        ("includePresenceFields"@, body.include_presence_fields@),
    ]
}

/// What a session start is: a `POST` of an empty form to the session
/// address followed by the encoded query; an error where the query cannot
/// be encoded.
pub open spec fn start_session_request(out: Result<HttpRequest, Error>, body: StartSessionBody) -> bool {
    match (out, form_encoded(start_session_pairs(body))) {
        (Ok(request), Some(query)) => request.is_form_post(
            START_SESSION_URL@ + query,
            Seq::empty(),
        ),
        (Err(error), Some(query)) => form_encoded(Seq::empty()) is None
            && error is UrlEncodedSerializationError,
        (Err(error), None) => error is UrlEncodedSerializationError,
        (Ok(_), None) => false,
    }
}

/// The request that starts a session.
pub fn start_session(body: &StartSessionBody<'_>) -> (out: Result<HttpRequest, Error>)
    ensures
        start_session_request(out, *body),
{
    let ts = decimal_string(body.ts as u64);
    let session_timeout = decimal_string(body.session_timeout as u64);
    let mut pairs: Vec<(String, String)> = Vec::new();
    pairs.push(pair("a", body.a));
    pairs.push(pair("ts", ts.as_str()));
    pairs.push(pair("k", body.k));
    pairs.push(pair("view", body.view));
    pairs.push(pair("clientName", body.client_name));
    pairs.push(pair("language", body.language));
    pairs.push(pair("deviceId", body.device_id));
    pairs.push(pair("sessionTimeout", session_timeout.as_str()));
    pairs.push(pair("assertCaps", body.assert_caps));
    pairs.push(pair("interestCaps", body.interest_caps));
    pairs.push(pair("events", body.events));
    pairs.push(pair("includePresenceFields", body.include_presence_fields));
    assert(pairs_view(pairs@) =~= start_session_pairs(*body));
    let params = match form_encode(&pairs) {
        Ok(params) => params,
        Err(detail) => {
            return Err(Error::UrlEncodedSerializationError(detail));
        },
    };
    let url = START_SESSION_URL.to_owned().concat(params.as_str());
    let none: Vec<(String, String)> = Vec::new();
    assert(pairs_view(none@) =~= Seq::empty());
    post_form(url, &none)
}

/// The form that sends a message.
pub open spec fn send_im_pairs(body: SendIMBody) -> Seq<(Seq<char>, Seq<char>)> {
    seq![
        ("t"@, body.t@),
        ("r"@, body.r@),
        ("mentions"@, body.mentions@),
        ("message"@, body.message@),
        ("f"@, body.f@),
        ("aimsid"@, body.aimsid@),
    ]
}

/// The request that sends a message.
pub fn send_im(body: &SendIMBody<'_>) -> (out: Result<HttpRequest, Error>)
    ensures
        form_request(out, SEND_IM_URL@, send_im_pairs(*body)),
{
    let mut pairs: Vec<(String, String)> = Vec::new();
    pairs.push(pair("t", body.t));
    pairs.push(pair("r", body.r));
    pairs.push(pair("mentions", body.mentions));
    pairs.push(pair("message", body.message));
    pairs.push(pair("f", body.f));
    pairs.push(pair("aimsid", body.aimsid));
    assert(pairs_view(pairs@) =~= send_im_pairs(*body));
    post_form(SEND_IM_URL.to_owned(), &pairs)
}

/// Milliseconds that the service may hold a poll open.
pub const FETCH_TIMEOUT: &'static str = "30000";

/// The request of a long poll: a `GET` of the poll target with the timeout
/// added to its query; an error where the target is no absolute URL.
pub fn fetch_events(fetch_base_url: &str) -> (out: Result<HttpRequest, Error>)
    ensures
        match out {
            Ok(request) => url_with_param(fetch_base_url@, "timeout"@, FETCH_TIMEOUT@) matches Some(
                url,
            ) && request.is_get(url),
            Err(error) => url_with_param(fetch_base_url@, "timeout"@, FETCH_TIMEOUT@) is None
                && error is UrlParseError,
        },
{
    match add_url_param(fetch_base_url, "timeout", FETCH_TIMEOUT) {
        Ok(url) => Ok(get_json(url)),
        Err(detail) => Err(Error::UrlParseError(detail)),
    }
}

/// The JSON value is the parameters of a chat-info request.
pub open spec fn is_chat_info_params(json: Json, params: GetChatInfoBodyParams) -> bool {
    &&& json matches Json::Object(entries)
    &&& entries@.len() == 3
    &&& number_entry(entries@[0], "memberLimit"@, decimal(params.member_limit as nat))
    &&& opt_text_entry(entries@[1], "stamp"@, params.stamp)
    &&& opt_text_entry(entries@[2], "sn"@, params.sn)
}

/// The request for the description of a chat.
pub fn get_chat_info(body: &RapiBody<'_, GetChatInfoBodyParams<'_>>) -> (out: Result<
    HttpRequest,
    Error,
>)
    ensures
        exists|json: Json, params: Json|
            is_chat_info_params(params, body.params) && is_rapi_json(
                json,
                body.aimsid@,
                body.req_id@,
                params,
            ) && json_request(out, GET_CHAT_INFO_URL@, json),
{
    let mut entries: Vec<(String, Json)> = Vec::new();
    entries.push(
        ("memberLimit".to_owned(), Json::Number(decimal_string(body.params.member_limit as u64))),
    );
    entries.push(opt_text_member("stamp", body.params.stamp));
    entries.push(opt_text_member("sn", body.params.sn));
    let params = Json::Object(entries);
    assert(is_chat_info_params(params, body.params));
    let json = rapi_json(body.aimsid, body.req_id, params);
    post_json(GET_CHAT_INFO_URL.to_owned(), &json)
}

/// The JSON value is the parameters of a join request.
pub open spec fn is_stamp_params(json: Json, params: StampBodyParams) -> bool {
    &&& json matches Json::Object(entries)
    &&& entries@.len() == 1
    &&& text_entry(entries@[0], "stamp"@, params.stamp@)
}

/// The request that joins a chat.
pub fn join_chat(body: &RapiBody<'_, StampBodyParams<'_>>) -> (out: Result<HttpRequest, Error>)
    ensures
        exists|json: Json, params: Json|
            is_stamp_params(params, body.params) && is_rapi_json(
                json,
                body.aimsid@,
                body.req_id@,
                params,
            ) && json_request(out, JOIN_CHAT_URL@, json),
{
    let mut entries: Vec<(String, Json)> = Vec::new();
    entries.push(text_member("stamp", body.params.stamp));
    let params = Json::Object(entries);
    assert(is_stamp_params(params, body.params));
    let json = rapi_json(body.aimsid, body.req_id, params);
    post_json(JOIN_CHAT_URL.to_owned(), &json)
}

/// The JSON value is the parameters of a history request.
pub open spec fn is_history_params(json: Json, params: GetHistoryBodyParams) -> bool {
    &&& json matches Json::Object(entries)
    &&& entries@.len() == 6
    &&& number_entry(entries@[0], "count"@, signed_decimal(params.count as int))
    &&& text_entry(entries@[1], "fromMsgId"@, params.from_msg_id@)
    &&& text_entry(entries@[2], "lang"@, params.lang@)
    &&& entries@[3].0@ == "mentions"@
    &&& entries@[3].1 matches Json::Object(mentions)
    &&& mentions@.len() == 1
    &&& mentions@[0].0@ == "resolve"@
    &&& mentions@[0].1 == Json::Bool(params.mentions.resolve)
    &&& text_entry(entries@[4], "patchVersion"@, params.patch_version@)
    &&& text_entry(entries@[5], "sn"@, params.sn@)
}

/// The request for a page of a chat's history.
pub fn get_history(body: &RapiBody<'_, GetHistoryBodyParams<'_>>) -> (out: Result<
    HttpRequest,
    Error,
>)
    ensures
        exists|json: Json, params: Json|
            is_history_params(params, body.params) && is_rapi_json(
                json,
                body.aimsid@,
                body.req_id@,
                params,
            ) && json_request(out, GET_HISTORY_URL@, json),
{
    let mut mentions: Vec<(String, Json)> = Vec::new();
    mentions.push(("resolve".to_owned(), Json::Bool(body.params.mentions.resolve)));
    let mut entries: Vec<(String, Json)> = Vec::new();
    entries.push(
        ("count".to_owned(), Json::Number(signed_decimal_string(body.params.count as i64))),
    );
    entries.push(text_member("fromMsgId", body.params.from_msg_id));
    entries.push(text_member("lang", body.params.lang));
    entries.push(("mentions".to_owned(), Json::Object(mentions)));
    entries.push(text_member("patchVersion", body.params.patch_version));
    entries.push(text_member("sn", body.params.sn));
    let params = Json::Object(entries);
    assert(is_history_params(params, body.params));
    let json = rapi_json(body.aimsid, body.req_id, params);
    post_json(GET_HISTORY_URL.to_owned(), &json)
}

/// The query of a file-info request.
pub open spec fn files_info_pairs(body: FilesInfoBody) -> Seq<(Seq<char>, Seq<char>)> {
    seq![("aimsid"@, body.aimsid@), ("previews"@, body.previews@)]
}

/// The request for the description of a file: a `GET` of the file-info
/// address, a slash, the file's id, a question mark and the encoded query.
pub fn files_info(file_id: &str, body: &FilesInfoBody<'_>) -> (out: Result<HttpRequest, Error>)
    ensures
        match out {
            Ok(request) => form_encoded(files_info_pairs(*body)) matches Some(query)
                && request.is_get(FILES_INFO_URL@ + "/"@ + file_id@ + "?"@ + query),
            Err(error) => form_encoded(files_info_pairs(*body)) is None
                && error is UrlEncodedSerializationError,
        },
{
    let mut pairs: Vec<(String, String)> = Vec::new();
    pairs.push(pair("aimsid", body.aimsid));
    pairs.push(pair("previews", body.previews));
    assert(pairs_view(pairs@) =~= files_info_pairs(*body));
    let params = match form_encode(&pairs) {
        Ok(params) => params,
        Err(detail) => {
            return Err(Error::UrlEncodedSerializationError(detail));
        },
    };
    let mut url = FILES_INFO_URL.to_owned();
    url.append("/");
    url.append(file_id);
    url.append("?");
    url.append(params.as_str());
    Ok(get_json(url))
}

/// What reading a response gives: the value that the response's JSON
/// stands for, or a deserialization error where the text is no JSON or
/// stands for no value.
pub open spec fn response_read<T: FromJson>(text: Seq<char>, out: Result<T, Error>) -> bool {
    match out {
        Ok(value) => parsed_json(text) matches Some(json) && T::decodes(json, value),
        Err(error) => error is DeserializationError && match parsed_json(text) {
            Some(json) => forall|value: T| !T::decodes(json, value),
            None => true,
        },
    }
}

/// What to say of a response that stands for no value.
pub const UNEXPECTED_SHAPE: &'static str = "the response does not have the expected shape";

/// Reads the response of a call.
pub fn read_response<T: FromJson>(text: &str) -> (out: Result<T, Error>)
    ensures
        response_read(text@, out),
{
    match parse_json(text) {
        Ok(json) => decode_response(&json),
        Err(detail) => Err(Error::DeserializationError(detail)),
    }
}

/// Reads a response from its JSON value.
pub fn decode_response<T: FromJson>(json: &Json) -> (out: Result<T, Error>)
    ensures
        match out {
            Ok(value) => T::decodes(*json, value),
            Err(error) => error is DeserializationError && forall|value: T|
                !T::decodes(*json, value),
        },
{
    match T::from_json(json) {
        Some(value) => Ok(value),
        None => Err(Error::DeserializationError(UNEXPECTED_SHAPE.to_owned())),
    }
}

/// Reads the response of a poll.
pub fn read_fetch_events(text: &str) -> (out: Result<FetchEventsResponseData, Error>)
    ensures
        match out {
            Ok(value) => parsed_json(text@) matches Some(json) && fetch_events_decodes(json, value),
            Err(error) => error is DeserializationError && match parsed_json(text@) {
                Some(json) => forall|value: FetchEventsResponseData|
                    !fetch_events_decodes(json, value),
                None => true,
            },
        },
{
    match parse_json(text) {
        Ok(json) => match decode_fetch_events(json) {
            Some(value) => Ok(value),
            None => Err(Error::DeserializationError(UNEXPECTED_SHAPE.to_owned())),
        },
        Err(detail) => Err(Error::DeserializationError(detail)),
    }
}

} // verus!
