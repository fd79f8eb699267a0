//! The calls of the service as the session uses them: what each request
//! holds, and what is kept of each response.

use crate::chat_info::{ChatInfo, ChatMember, ChatMemberView, MemberRole};
use crate::client::{
    files_info_pairs, form_encoded, form_request, is_chat_info_params, is_history_params,
    is_rapi_json, is_send_code_json, is_stamp_params, json_request, login_pairs, send_im_pairs,
    start_session_request, url_with_param, ChatInfoResponsePerson, FilesInfoBody,
    GetChatInfoBodyParams, GetChatInfoResponseData, GetHistoryBodyParams,
    GetHistoryBodyParamsMentions, HttpRequest, LoginWithPhoneNumberBody,
    LoginWithPhoneNumberResponseData, RapiBody, SendCodeBody, SendCodeBodyParams,
    SendCodeResponse, SendIMBody, StampBodyParams, StartSessionBody, StartSessionResponseData,
    WebIcqResponse, FETCH_TIMEOUT, FILES_INFO_URL, GET_CHAT_INFO_URL, GET_HISTORY_URL,
    JOIN_CHAT_URL, LOGIN_WITH_PHONE_NUMBER_URL, SEND_CODE_URL, SEND_IM_URL,
};
use crate::json::Json;
use crate::text::{decimal, decimal_string, has_infix, last_segment, last_segment_of, push_char};
use vstd::prelude::*;
use vstd::string::StringExecFns;

verus! {

pub const LANGUAGE: &'static str = "en-US";

pub const KEY: &'static str = "ic1rtwz1s1Hj1O0r";

pub const LOCALE: &'static str = "en-US";

pub const CAPS: &'static str =
    "094613584C7F11D18222444553540000,0946135C4C7F11D18222444553540000,0946135b4c7f11d18222444553540000,0946135E4C7F11D18222444553540000,AABC2A1AF270424598B36993C6231952,1f99494e76cbc880215d6aeab8e42268";

pub const EVENTS: &'static str =
    "myInfo,presence,buddylist,typing,hiddenChat,hist,mchat,sentIM,imState,dataIM,offlineIM,userAddedToBuddyList,service,lifestream,apps,permitDeny,diff,webrtcMsg";

pub const PRESENCE_FIELDS: &'static str =
    "aimId,displayId,friendly,friendlyName,state,userType,statusMsg,statusTime,lastseen,ssl,mute,abContactName,abPhoneNumber,abPhones,official,quiet,autoAddition,largeIconId,nick,userState";

/// How many members a chat-info request asks for.
pub const MEMBER_LIMIT: u32 = 50;

/// Seconds after which the service may drop an idle session.
pub const SESSION_TIMEOUT: u32 = 2_592_000;

/// The preview sizes that a file-info request asks for.
pub const PREVIEWS: &'static str = "192,600,800,xlarge";

/// What marks a stamp as a shareable link.
pub const SHAREABLE_LINK_MARK: &'static str = "icq.im/";

/// Why a step of the protocol failed.
#[derive(Debug, Clone)]
pub enum Error {
    /// A call of the service failed.
    ApiError(crate::client::Error),
    /// The user gave no verification code.
    MissingCode,
}

/// An active session.
#[derive(Debug, Clone)]
pub struct SessionInfo {
    pub registration_data: RegistrationData,
    pub aim_id: String,
    pub aim_sid: String,
    pub fetch_base_url: String,
}

/// The credentials that a registration yields, kept between logins.
#[derive(Debug, Clone)]
pub struct RegistrationData {
    pub session_id: String,
    pub session_key: String,
    pub token: String,
    pub host_time: u32,
}

/// A [`RegistrationData`], as plain values.
pub struct RegistrationDataView {
    pub session_id: Seq<char>,
    pub session_key: Seq<char>,
    pub token: Seq<char>,
    pub host_time: u32,
}

/// A [`SessionInfo`], as plain values.
pub struct SessionInfoView {
    pub registration_data: RegistrationDataView,
    pub aim_id: Seq<char>,
    pub aim_sid: Seq<char>,
    pub fetch_base_url: Seq<char>,
}

impl View for RegistrationData {
    type V = RegistrationDataView;

    open spec fn view(&self) -> RegistrationDataView {
        RegistrationDataView {
            session_id: self.session_id@,
            session_key: self.session_key@,
            token: self.token@,
            host_time: self.host_time,
        }
    }
}

impl View for SessionInfo {
    type V = SessionInfoView;

    open spec fn view(&self) -> SessionInfoView {
        SessionInfoView {
            registration_data: self.registration_data@,
            aim_id: self.aim_id@,
            aim_sid: self.aim_sid@,
            fetch_base_url: self.fetch_base_url@,
        }
    }
}

impl RegistrationData {
    pub const SESSION_ID_SETTING_KEY: &'static str = "session_id";

    pub const SESSION_KEY_SETTING_KEY: &'static str = "session_key";

    pub const TOKEN_SETTING_KEY: &'static str = "token";

    pub const HOST_TIME_SETTING_KEY: &'static str = "host_time";

    /// A copy of the credentials.
    pub fn clone_data(&self) -> (out: RegistrationData)
        ensures
            out@ == self@,
    {
        RegistrationData {
            session_id: self.session_id.clone(),
            session_key: self.session_key.clone(),
            token: self.token.clone(),
            host_time: self.host_time,
        }
    }

    /// The credentials as the settings hold them: none where the token is
    /// empty.
    pub open spec fn of_settings(
        token: Seq<char>,
        session_id: Seq<char>,
        session_key: Seq<char>,
        host_time: i32,
    ) -> Option<RegistrationDataView> {
        if token.len() == 0 {
            None
        } else {
            Some(
                RegistrationDataView {
                    session_id,
                    session_key,
                    token,
                    host_time: host_time as u32,
                },
            )
        }
    }

    /// Reads the credentials from the values of the four settings. An empty
    /// token means that the account is not registered.
    pub fn from_settings(token: String, session_id: String, session_key: String, host_time: i32) -> (out:
        Option<RegistrationData>)
        ensures
            match out {
                Some(data) => Self::of_settings(token@, session_id@, session_key@, host_time)
                    == Some(data@),
                None => Self::of_settings(token@, session_id@, session_key@, host_time) is None,
            },
    {
        if token.as_str().is_empty() {
            None
        } else {
            Some(
                RegistrationData {
                    session_id,
                    session_key,
                    token,
                    host_time: #[verifier::truncate]
                    (host_time as u32),
                },
            )
        }
    }
}

/// What the settings hold of the credentials: the values of the token, the
/// session id, the session key and the host time.
pub struct StoredCredentials {
    pub token: String,
    pub session_id: String,
    pub session_key: String,
    pub host_time: i32,
}

impl RegistrationData {
    /// The values under which the credentials are stored in the settings.
    pub fn to_settings(&self) -> (stored: StoredCredentials)
        ensures
            stored.token@ == self.token@,
            stored.session_id@ == self.session_id@,
            stored.session_key@ == self.session_key@,
            stored.host_time == self.host_time as i32,
    {
        StoredCredentials {
            token: self.token.clone(),
            session_id: self.session_id.clone(),
            session_key: self.session_key.clone(),
            host_time: #[verifier::truncate]
            (self.host_time as i32),
        }
    }
}

/// Credentials that are stored and read back are the same credentials,
/// provided that their token is not empty.
pub proof fn lemma_settings_round_trip(data: RegistrationDataView)
    requires
        data.token.len() > 0,
    ensures
        RegistrationData::of_settings(
            data.token,
            data.session_id,
            data.session_key,
            data.host_time as i32,
        ) == Some(data),
{
    let time: u32 = data.host_time;
    assert((time as i32) as u32 == time) by (bit_vector);
}

/// A moment of the system clock.
#[verifier::external_type_specification]
#[verifier::external_body]
pub struct ExSystemTime(std::time::SystemTime);

/// The name-based UUID, of the DNS namespace, of a name: in the hyphenated
/// lower-case form.
pub uninterp spec fn dns_uuid_v5(name: Seq<char>) -> Seq<char>;

/// Reads the system clock.
///
/// Trusted: calls `std::time::SystemTime::now`. Nothing is said of the
/// moment.
#[verifier::external_body]
fn clock_now() -> std::time::SystemTime {
    std::time::SystemTime::now()
}

/// The time from the start of 1970 to a moment; nothing where the moment
/// lies before it.
///
/// Trusted: calls `SystemTime::duration_since` with `UNIX_EPOCH`. Nothing is
/// said of the span.
#[verifier::external_body]
fn since_epoch(moment: &std::time::SystemTime) -> Option<std::time::Duration> {
    moment.duration_since(std::time::UNIX_EPOCH).ok()
}

/// The whole seconds of a span.
///
/// Trusted: calls `Duration::as_secs`. Nothing is said of the number.
#[verifier::external_body]
fn whole_seconds(span: &std::time::Duration) -> u64 {
    span.as_secs()
}

/// A random number in a range.
///
/// Trusted: calls `gen_range` of `rand::thread_rng()`, which returns a
/// value of at least `low` and less than `high`, and panics unless `low` is
/// less than `high`.
#[verifier::external_body]
fn random_in_range(low: u32, high: u32) -> (out: u32)
    requires
        low < high,
    ensures
        low <= out < high,
{
    rand::Rng::gen_range(&mut rand::thread_rng(), low, high)
}

/// The name-based UUID of a name.
///
/// Trusted: calls `uuid::Uuid::new_v5` with the DNS namespace and the bytes
/// of the name, and writes the result in the hyphenated form. The text is a
/// function of the name alone.
#[verifier::external_body]
fn name_uuid(name: &str) -> (out: String)
    ensures
        out@ == dns_uuid_v5(name@),
{
    uuid::Uuid::new_v5(&uuid::Uuid::NAMESPACE_DNS, name.as_bytes()).to_hyphenated().to_string()
}

/// A request id: the random part, a hyphen, and the time.
pub open spec fn request_id_of(random: u32, time: u32) -> Seq<char> {
    decimal(random as nat) + seq!['-'] + decimal(time as nat)
}

/// The random part of an id is a number of five digits.
pub open spec fn is_random_id(random: u32) -> bool {
    10_000 <= random < 100_000
}

/// Writes a request id from its random part and the time.
pub fn format_request_id(random: u32, time: u32) -> (id: String)
    ensures
        id@ == request_id_of(random, time),
{
    let mut id = decimal_string(random as u64);
    push_char(&mut id, '-');
    id.append(decimal_string(time as u64).as_str());
    id
}

/// A fresh random part of an id, as a number.
pub fn random_number() -> (random: u32)
    ensures
        is_random_id(random),
{
    random_in_range(10_000, 100_000)
}

/// A fresh random id: a random number of five digits, written out.
pub fn random_id() -> (id: String)
    ensures
        exists|random: u32| is_random_id(random) && id@ == decimal(random as nat),
{
    let random = random_number();
    decimal_string(random as u64)
}

/// The seconds since the start of 1970, cut to 32 bits; 0 where the clock
/// stands before that.
pub fn timestamp() -> u32 {
    let now = clock_now();
    let elapsed = match since_epoch(&now) {
        Some(span) => Some(whole_seconds(&span)),
        None => None,
    };
    timestamp_of(elapsed)
}

/// The time that stands for a reading of the clock: the elapsed seconds
/// modulo 2 to the 32nd, or 0 where the clock stood before the start of 1970.
pub open spec fn timestamp_for(elapsed: Option<u64>) -> u32 {
    match elapsed {
        Some(seconds) => (seconds % 0x1_0000_0000) as u32,
        None => 0,
    }
}

/// Cuts a reading of the clock, in seconds since the start of 1970, to the
/// 32 bits of a timestamp.
pub fn timestamp_of(elapsed: Option<u64>) -> (time: u32)
    ensures
        time == timestamp_for(elapsed),
{
    match elapsed {
        Some(seconds) => {
            assert(seconds as u32 == (seconds % 0x1_0000_0000) as u32) by (bit_vector);
            #[verifier::truncate]
            (seconds as u32)
        },
        None => 0,
    }
}

/// A fresh request id: a random number of five digits, a hyphen, and the
/// time in seconds.
pub fn request_id() -> (id: String)
    ensures
        exists|random: u32, time: u32| is_random_id(random) && id@ == request_id_of(random, time),
{
    let random = random_number();
    let time = timestamp();
    format_request_id(random, time)
}

/// The device id that belongs to a seed.
pub fn device_id_of(seed: &str) -> (id: String)
    ensures
        id@ == dns_uuid_v5(seed@),
{
    name_uuid(seed)
}

/// A fresh device id: the name-based UUID of a random id.
pub fn device_id() -> (id: String)
    ensures
        exists|random: u32| is_random_id(random) && id@ == dns_uuid_v5(decimal(random as nat)),
{
    let seed = random_id();
    device_id_of(seed.as_str())
}

/// The stamp that a user's input names: the part behind the last slash
/// where the input is a shareable link, the input itself otherwise.
pub open spec fn normalized_stamp(stamp: Seq<char>) -> Seq<char> {
    if has_infix(stamp, SHAREABLE_LINK_MARK@) {
        last_segment(stamp, '/')
    } else {
        stamp
    }
}

/// Turns a shareable link into the stamp that it carries.
pub fn normalize_stamp(stamp: String) -> (out: String)
    ensures
        out@ == normalized_stamp(stamp@),
{
    if crate::text::contains(stamp.as_str(), SHAREABLE_LINK_MARK) {
        last_segment_of(stamp.as_str(), '/')
    } else {
        stamp
    }
}

/// The parameters of the request for a verification code.
pub open spec fn is_send_code_params(params: SendCodeBodyParams, phone_number: Seq<char>) -> bool {
    &&& params.phone@ == phone_number
    &&& params.language@ == LANGUAGE@
    &&& params.route@ == "sms"@
    &&& params.dev_id@ == KEY@
    &&& params.application@ == "icq"@
}

/// The first step of a registration: the request that has a verification
/// code sent to the phone number.
pub fn register_send_code(phone_number: &str, req_id: &str) -> (out: Result<
    HttpRequest,
    crate::client::Error,
>)
    ensures
        exists|json: Json, body: SendCodeBody|
            body.req_id@ == req_id@ && is_send_code_params(*body.params, phone_number@)
                && is_send_code_json(json, body) && json_request(out, SEND_CODE_URL@, json),
{
    let params = SendCodeBodyParams {
        phone: phone_number,
        language: LANGUAGE,
        route: "sms",
        dev_id: KEY,
        application: "icq",
    };
    let body = SendCodeBody { req_id, params: &params };
    crate::client::send_code(&body)
}

/// The form of the second step of a registration.
pub open spec fn register_login_pairs(
    phone_number: Seq<char>,
    trans_id: Seq<char>,
    code: Seq<char>,
    r: Seq<char>,
) -> Seq<(Seq<char>, Seq<char>)> {
    seq![
        ("msisdn"@, phone_number),
        ("trans_id"@, trans_id),
        ("sms_code"@, code),
        ("locale"@, LOCALE@),
        ("k"@, KEY@),
        ("platform"@, "web"@),
        ("create_account"@, "1"@),
        ("client"@, "icq"@),
        ("r"@, r),
    ]
}

/// The second step of a registration: the request that exchanges the code
/// that the user entered for a token.
pub fn register_login(phone_number: &str, trans_id: &str, code: &str, r: &str) -> (out: Result<
    HttpRequest,
    crate::client::Error,
>)
    ensures
        form_request(
            out,
            LOGIN_WITH_PHONE_NUMBER_URL@,
            register_login_pairs(phone_number@, trans_id@, code@, r@),
        ),
{
    let body = LoginWithPhoneNumberBody {
        msisdn: phone_number,
        trans_id,
        sms_code: code,
        locale: LOCALE,
        k: KEY,
        platform: "web",
        create_account: "1",
        client: "icq",
        r,
    };
    assert(login_pairs(body) =~= register_login_pairs(phone_number@, trans_id@, code@, r@));
    crate::client::login_with_phone_number(&body)
}

/// The credentials that a registration yields: the session id of the code
/// request, and the key, time and token of the login.
pub fn register(
    code_response: SendCodeResponse,
    login_response: WebIcqResponse<LoginWithPhoneNumberResponseData>,
) -> (data: RegistrationData)
    ensures
        data@ == (RegistrationDataView {
            session_id: code_response.results.session_id@,
            session_key: login_response.response.data.session_key@,
            token: login_response.response.data.token.a@,
            host_time: login_response.response.data.host_time,
        }),
{
    RegistrationData {
        session_id: code_response.results.session_id,
        session_key: login_response.response.data.session_key,
        host_time: login_response.response.data.host_time,
        token: login_response.response.data.token.a,
    }
}

/// The parameters of a session start are the fixed ones of this client.
pub open spec fn is_start_session_body(
    body: StartSessionBody,
    token: Seq<char>,
    ts: u32,
    device_id: Seq<char>,
) -> bool {
    &&& body.a@ == token
    &&& body.ts == ts
    &&& body.k@ == KEY@
    &&& body.view@ == "online"@
    &&& body.client_name@ == "webicq"@
    &&& body.language@ == LANGUAGE@
    &&& body.device_id@ == device_id
    &&& body.session_timeout == SESSION_TIMEOUT
    &&& body.assert_caps@ == CAPS@
    &&& body.interest_caps@ == ""@
    &&& body.events@ == EVENTS@
    &&& body.include_presence_fields@ == PRESENCE_FIELDS@
}

/// The request that exchanges the token of a registration for a session.
pub fn start_session(registration_data: &RegistrationData, ts: u32, device_id: &str) -> (out: Result<
    HttpRequest,
    crate::client::Error,
>)
    ensures
        exists|body: StartSessionBody|
            is_start_session_body(body, registration_data.token@, ts, device_id@)
                && start_session_request(out, body),
{
    let body = StartSessionBody {
        a: registration_data.token.as_str(),
        ts,
        k: KEY,
        view: "online",
        client_name: "webicq",
        language: LANGUAGE,
        device_id,
        session_timeout: SESSION_TIMEOUT,
        assert_caps: CAPS,
        interest_caps: "",
        events: EVENTS,
        include_presence_fields: PRESENCE_FIELDS,
    };
    crate::client::start_session(&body)
}

/// The session that a session start yields.
pub fn session_of(
    registration_data: &RegistrationData,
    response: WebIcqResponse<StartSessionResponseData>,
) -> (session: SessionInfo)
    ensures
        session@ == (SessionInfoView {
            registration_data: registration_data@,
            aim_id: response.response.data.my_info.aim_id@,
            aim_sid: response.response.data.aimsid@,
            fetch_base_url: response.response.data.fetch_base_url@,
        }),
{
    SessionInfo {
        registration_data: registration_data.clone_data(),
        aim_id: response.response.data.my_info.aim_id,
        aim_sid: response.response.data.aimsid,
        fetch_base_url: response.response.data.fetch_base_url,
    }
}

/// The request of a long poll of the given target.
pub fn fetch_events(fetch_base_url: &str) -> (out: Result<HttpRequest, crate::client::Error>)
    ensures
        match out {
            Ok(request) => url_with_param(fetch_base_url@, "timeout"@, FETCH_TIMEOUT@) matches Some(
                url,
            ) && request.is_get(url),
            Err(error) => url_with_param(fetch_base_url@, "timeout"@, FETCH_TIMEOUT@) is None
                && error is UrlParseError,
        },
{
    crate::client::fetch_events(fetch_base_url)
}

/// The query of a file-info request of a session.
pub open spec fn session_files_pairs(aim_sid: Seq<char>) -> Seq<(Seq<char>, Seq<char>)> {
    seq![("aimsid"@, aim_sid), ("previews"@, PREVIEWS@)]
}

/// The request for the description of a file.
pub fn files_info(session: &SessionInfo, file_id: &str) -> (out: Result<
    HttpRequest,
    crate::client::Error,
>)
    ensures
        match out {
            Ok(request) => form_encoded(session_files_pairs(session.aim_sid@)) matches Some(query)
                && request.is_get(FILES_INFO_URL@ + "/"@ + file_id@ + "?"@ + query),
            Err(error) => form_encoded(session_files_pairs(session.aim_sid@)) is None
                && error is UrlEncodedSerializationError,
        },
{
    let body = FilesInfoBody { aimsid: session.aim_sid.as_str(), previews: PREVIEWS };
    assert(files_info_pairs(body) =~= session_files_pairs(session.aim_sid@));
    crate::client::files_info(file_id, &body)
}

/// The parameters ask for the chat by the given stamp or stable name, with
/// the fixed member limit.
pub open spec fn is_chat_info_query(
    params: GetChatInfoBodyParams,
    stamp: Option<Seq<char>>,
    sn: Option<Seq<char>>,
) -> bool {
    &&& params.member_limit == MEMBER_LIMIT
    &&& match (params.stamp, stamp) {
        (Some(a), Some(b)) => a@ == b,
        (None, None) => true,
        _ => false,
    }
    &&& match (params.sn, sn) {
        (Some(a), Some(b)) => a@ == b,
        (None, None) => true,
        _ => false,
    }
}

/// The request for the description of a chat, by its stable name.
pub fn get_chat_info_by_sn(session: &SessionInfo, sn: &str, req_id: &str) -> (out: Result<
    HttpRequest,
    crate::client::Error,
>)
    ensures
        exists|json: Json, params: Json, query: GetChatInfoBodyParams|
            is_chat_info_query(query, None, Some(sn@)) && is_chat_info_params(params, query)
                && is_rapi_json(json, session.aim_sid@, req_id@, params) && json_request(
                out,
                GET_CHAT_INFO_URL@,
                json,
            ),
{
    let body = RapiBody {
        aimsid: session.aim_sid.as_str(),
        req_id,
        params: GetChatInfoBodyParams { member_limit: MEMBER_LIMIT, stamp: None, sn: Some(sn) },
    };
    let out = crate::client::get_chat_info(&body);
    assert(is_chat_info_query(body.params, None, Some(sn@)));
    out
}

/// The request for the description of a chat, by its stamp.
pub fn get_chat_info(session: &SessionInfo, stamp: &str, req_id: &str) -> (out: Result<
    HttpRequest,
    crate::client::Error,
>)
    ensures
        exists|json: Json, params: Json, query: GetChatInfoBodyParams|
            is_chat_info_query(query, Some(stamp@), None) && is_chat_info_params(params, query)
                && is_rapi_json(json, session.aim_sid@, req_id@, params) && json_request(
                out,
                GET_CHAT_INFO_URL@,
                json,
            ),
{
    let body = RapiBody {
        aimsid: session.aim_sid.as_str(),
        req_id,
        params: GetChatInfoBodyParams { member_limit: MEMBER_LIMIT, stamp: Some(stamp), sn: None },
    };
    let out = crate::client::get_chat_info(&body);
    assert(is_chat_info_query(body.params, Some(stamp@), None));
    out
}

/// The parameters ask for `count` messages of the chat from the given
/// message, with the fixed language and patch version and unresolved
/// mentions.
pub open spec fn is_history_query(
    params: GetHistoryBodyParams,
    chat_sn: Seq<char>,
    from_msg_id: Seq<char>,
    count: i32,
) -> bool {
    &&& params.count == count
    &&& params.from_msg_id@ == from_msg_id
    &&& params.lang@ == "en"@
    &&& params.mentions.resolve == false
    &&& params.patch_version@ == "1"@
    &&& params.sn@ == chat_sn
}

/// The request for a page of a chat's history.
pub fn get_history(
    session: &SessionInfo,
    chat_sn: &str,
    from_msg_id: &str,
    count: i32,
    req_id: &str,
) -> (out: Result<HttpRequest, crate::client::Error>)
    ensures
        exists|json: Json, params: Json, query: GetHistoryBodyParams|
            is_history_query(query, chat_sn@, from_msg_id@, count) && is_history_params(
                params,
                query,
            ) && is_rapi_json(json, session.aim_sid@, req_id@, params) && json_request(
                out,
                GET_HISTORY_URL@,
                json,
            ),
{
    let body = RapiBody {
        aimsid: session.aim_sid.as_str(),
        req_id,
        params: GetHistoryBodyParams {
            count,
            from_msg_id,
            lang: "en",
            mentions: GetHistoryBodyParamsMentions { resolve: false },
            patch_version: "1",
            sn: chat_sn,
        },
    };
    let out = crate::client::get_history(&body);
    assert(is_history_query(body.params, chat_sn@, from_msg_id@, count));
    out
}

/// The request that joins the chat behind a stamp.
pub fn join_chat(session: &SessionInfo, stamp: &str, req_id: &str) -> (out: Result<
    HttpRequest,
    crate::client::Error,
>)
    ensures
        exists|json: Json, params: Json, query: StampBodyParams|
            query.stamp@ == stamp@ && is_stamp_params(params, query) && is_rapi_json(
                json,
                session.aim_sid@,
                req_id@,
                params,
            ) && json_request(out, JOIN_CHAT_URL@, json),
{
    let body = RapiBody {
        aimsid: session.aim_sid.as_str(),
        req_id,
        params: StampBodyParams { stamp },
    };
    crate::client::join_chat(&body)
}

/// The form that sends a message of a session.
pub open spec fn session_im_pairs(
    aim_sid: Seq<char>,
    to_sn: Seq<char>,
    message: Seq<char>,
    r: Seq<char>,
) -> Seq<(Seq<char>, Seq<char>)> {
    seq![
        ("t"@, to_sn),
        ("r"@, r),
        ("mentions"@, ""@),
        ("message"@, message),
        ("f"@, "json"@),
        ("aimsid"@, aim_sid),
    ]
}

/// The request that sends a message to a chat or contact.
pub fn send_im(session: &SessionInfo, to_sn: &str, message: &str, req_id: &str) -> (out: Result<
    HttpRequest,
    crate::client::Error,
>)
    ensures
        form_request(
            out,
            SEND_IM_URL@,
            session_im_pairs(session.aim_sid@, to_sn@, message@, req_id@),
        ),
{
    let body = SendIMBody {
        t: to_sn,
        r: req_id,
        mentions: "",
        message,
        f: "json",
        aimsid: session.aim_sid.as_str(),
    };
    assert(send_im_pairs(body) =~= session_im_pairs(
        session.aim_sid@,
        to_sn@,
        message@,
        req_id@,
    ));
    crate::client::send_im(&body)
}

/// The last-seen time of a member: none where the service gives none, or 0.
pub open spec fn seen(last_seen: Option<u64>) -> Option<u64> {
    match last_seen {
        Some(t) => if t == 0 {
            None
        } else {
            Some(t)
        },
        None => None,
    }
}

/// The member that a member of a chat-info response describes.
pub open spec fn member_of(person: ChatInfoResponsePerson) -> ChatMemberView {
    ChatMemberView {
        sn: person.sn@,
        friendly_name: crate::chat_info::opt_view(person.friendly),
        role: person.role@,
        last_seen: seen(person.last_seen),
        first_name: crate::chat_info::opt_view(person.first_name),
        last_name: crate::chat_info::opt_view(person.last_name),
    }
}

impl ChatInfo {
    /// The description that a chat-info response gives: never filed under a
    /// folder, with the response's stamp, and with its members in order.
    pub open spec fn of_response(info: GetChatInfoResponseData) -> crate::chat_info::ChatInfoView {
        crate::chat_info::ChatInfoView {
            stamp: Some(info.stamp@),
            group: None,
            sn: info.sn@,
            title: info.name@,
            about: crate::chat_info::opt_view(info.about),
            members_version: info.members_version@,
            info_version: info.info_version@,
            members: Seq::new(info.members@.len(), |i: int| member_of(info.members@[i])),
        }
    }

    /// Turns a chat-info response into the description of the chat.
    pub fn from(info: GetChatInfoResponseData) -> (out: ChatInfo)
        ensures
            out@ == Self::of_response(info),
    {
        let mut members: Vec<ChatMember> = Vec::new();
        let mut k: usize = 0;
        while k < info.members.len()
            invariant
                k <= info.members@.len(),
                members@.len() == k,
                forall|i: int| 0 <= i < k ==> (#[trigger] members@[i])@ == member_of(info.members@[i]),
            decreases info.members@.len() - k,
        {
            let person = &info.members[k];
            let last_seen = match person.last_seen {
                Some(t) => if t == 0 {
                    None
                } else {
                    Some(t)
                },
                None => None,
            };
            members.push(
                ChatMember {
                    sn: person.sn.clone(),
                    friendly_name: crate::chat_info::clone_opt(&person.friendly),
                    role: MemberRole(person.role.clone()),
                    last_seen,
                    first_name: crate::chat_info::clone_opt(&person.first_name),
                    last_name: crate::chat_info::clone_opt(&person.last_name),
                },
            );
            k += 1;
        }
        let out = ChatInfo {
            stamp: Some(info.stamp),
            group: None,
            sn: info.sn,
            title: info.name,
            about: info.about,
            members_version: info.members_version,
            info_version: info.info_version,
            members,
        };
        assert(out@.members =~= Self::of_response(info).members);
        out
    }
}

} // verus!
