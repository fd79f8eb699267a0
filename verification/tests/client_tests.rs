use purple_icq::client::{
    fetch_events, files_info, get_chat_info, get_history, join_chat, login_with_phone_number,
    send_code, send_im, start_session, with_default_headers, Error, FilesInfoBody,
    GetChatInfoBodyParams, GetHistoryBodyParams, GetHistoryBodyParamsMentions, HttpMethod,
    HttpRequest, LoginWithPhoneNumberBody, LoginWithPhoneNumberResponseData,
    LoginWithPhoneNumberResponseToken, RapiBody, RequestBody, SendCodeBody, SendCodeBodyParams,
    SendCodeResponse, SendCodeResponseResults, SendIMBody, StampBodyParams, StartSessionBody,
    StartSessionResponseData, StartSessionResponseMyInfo, WebIcqData, WebIcqResponse,
};
use purple_icq::logging::{
    flush, init, set_thread_logger, Flushed, Level, LogBuffer, Logged, Logger, PurpleDebugLevel,
    PurpleDebugLogger, RemoteLogger, record_target,
};
use purple_icq::protocol;
use purple_icq::protocol::{RegistrationData, SessionInfo};
use purple_icq::session::{describe_error, LoginAction, LoginEvent, SessionState};

fn json_body(request: &HttpRequest) -> String {
    match &request.body {
        RequestBody::Json(text) => text.clone(),
        other => panic!("{:?}", other),
    }
}

fn form_body(request: &HttpRequest) -> String {
    match &request.body {
        RequestBody::Form(text) => text.clone(),
        other => panic!("{:?}", other),
    }
}

fn session() -> SessionInfo {
    SessionInfo {
        registration_data: credentials(),
        aim_id: "123".to_string(),
        aim_sid: "SID 1".to_string(),
        fetch_base_url: "https://f".to_string(),
    }
}

fn credentials() -> RegistrationData {
    RegistrationData {
        session_id: "S".to_string(),
        session_key: "K".to_string(),
        token: "T&1".to_string(),
        host_time: 9,
    }
}

#[test]
fn default_headers_are_attached() {
    let headers = with_default_headers();
    assert_eq!(headers.len(), 4);
    assert_eq!(headers[0], ("DNT".to_string(), "1".to_string()));
    assert_eq!(headers[1].0, "User-Agent");
    assert!(headers[1].1.starts_with("Mozilla/5.0"));
    assert_eq!(headers[2], ("Origin".to_string(), "https://web.icq.com".to_string()));
    assert_eq!(headers[3], ("Referer".to_string(), "https://web.icq.com/".to_string()));
}

#[test]
fn send_code_request() {
    let params = SendCodeBodyParams {
        phone: "+15551234",
        language: "en-US",
        route: "sms",
        dev_id: "dev",
        application: "icq",
    };
    let request = send_code(&SendCodeBody { req_id: "12345-1", params: &params }).unwrap();
    assert_eq!(request.method, HttpMethod::Post);
    assert_eq!(request.url, "https://u.icq.net/api/v14/rapi/auth/sendCode");
    assert_eq!(request.headers, with_default_headers());
    assert_eq!(
        json_body(&request),
        r#"{"params":{"application":"icq","devId":"dev","language":"en-US","phone":"+15551234","route":"sms"},"reqId":"12345-1"}"#
    );
    let request = protocol::register_send_code("+1 \"2\"", "7-8").unwrap();
    assert_eq!(
        json_body(&request),
        r#"{"params":{"application":"icq","devId":"ic1rtwz1s1Hj1O0r","language":"en-US","phone":"+1 \"2\"","route":"sms"},"reqId":"7-8"}"#
    );
}

#[test]
fn login_with_phone_number_request() {
    let body = LoginWithPhoneNumberBody {
        msisdn: "+15551234",
        trans_id: "abc",
        sms_code: "1234",
        locale: "en-US",
        k: "key",
        platform: "web",
        create_account: "1",
        client: "icq",
        r: "12345",
    };
    let request = login_with_phone_number(&body).unwrap();
    assert_eq!(request.method, HttpMethod::Post);
    assert_eq!(request.url, "https://u.icq.net/api/v14/smsreg/loginWithPhoneNumber.php");
    assert_eq!(
        form_body(&request),
        "msisdn=%2B15551234&trans_id=abc&sms_code=1234&locale=en-US&k=key&platform=web&create_account=1&client=icq&r=12345"
    );
    let request = protocol::register_login("1", "t", "c d", "r").unwrap();
    assert_eq!(
        form_body(&request),
        "msisdn=1&trans_id=t&sms_code=c+d&locale=en-US&k=ic1rtwz1s1Hj1O0r&platform=web&create_account=1&client=icq&r=r"
    );
}

#[test]
fn start_session_request() {
    let body = StartSessionBody {
        a: "tok en",
        ts: 1595534375,
        k: "key",
        view: "online",
        client_name: "webicq",
        language: "en-US",
        device_id: "dev",
        session_timeout: 2_592_000,
        assert_caps: "a,b",
        interest_caps: "",
        events: "e",
        include_presence_fields: "p",
    };
    let request = start_session(&body).unwrap();
    assert_eq!(request.method, HttpMethod::Post);
    assert_eq!(
        request.url,
        "https://u.icq.net/api/v14/wim/aim/startSession?a=tok+en&ts=1595534375&k=key&view=online&clientName=webicq&language=en-US&deviceId=dev&sessionTimeout=2592000&assertCaps=a%2Cb&interestCaps=&events=e&includePresenceFields=p"
    );
    assert_eq!(form_body(&request), "");
    let request = protocol::start_session(&credentials(), 5, "device").unwrap();
    assert!(request.url.starts_with(
        "https://u.icq.net/api/v14/wim/aim/startSession?a=T%261&ts=5&k=ic1rtwz1s1Hj1O0r&view=online&clientName=webicq&language=en-US&deviceId=device&sessionTimeout=2592000&assertCaps=094613584C7F11D18222444553540000%2C"
    ));
    assert!(request.url.contains("&interestCaps=&events=myInfo%2Cpresence%2Cbuddylist%2C"));
    assert!(request.url.ends_with("%2Cnick%2CuserState"));
}

#[test]
fn send_im_request() {
    let body = SendIMBody {
        t: "1@chat.agent",
        r: "1-2",
        mentions: "",
        message: "h\u{e9}llo & bye",
        f: "json",
        aimsid: "SID",
    };
    let request = send_im(&body).unwrap();
    assert_eq!(request.url, "https://u.icq.net/api/v14/wim/im/sendIM");
    assert_eq!(
        form_body(&request),
        "t=1%40chat.agent&r=1-2&mentions=&message=h%C3%A9llo+%26+bye&f=json&aimsid=SID"
    );
    let request = protocol::send_im(&session(), "to", "m", "9-9").unwrap();
    assert_eq!(form_body(&request), "t=to&r=9-9&mentions=&message=m&f=json&aimsid=SID+1");
}

#[test]
fn fetch_events_request() {
    let request = fetch_events("https://bos.icq.net/fetch?aimsid=1&seq=2").unwrap();
    assert_eq!(request.method, HttpMethod::Get);
    assert_eq!(request.url, "https://bos.icq.net/fetch?aimsid=1&seq=2&timeout=30000");
    assert!(matches!(request.body, RequestBody::Empty));
    assert_eq!(request.headers, with_default_headers());
    let request = protocol::fetch_events("https://bos.icq.net/fetch").unwrap();
    assert_eq!(request.url, "https://bos.icq.net/fetch?timeout=30000");
    assert!(matches!(fetch_events("not a url"), Err(Error::UrlParseError(_))));
    assert!(matches!(fetch_events(""), Err(Error::UrlParseError(_))));
}

#[test]
fn chat_info_and_join_requests() {
    let body = RapiBody {
        aimsid: "SID",
        req_id: "1-2",
        params: GetChatInfoBodyParams { member_limit: 50, stamp: Some("ST"), sn: None },
    };
    let request = get_chat_info(&body).unwrap();
    assert_eq!(request.url, "https://u.icq.net/api/v14/rapi/getChatInfo");
    assert_eq!(
        json_body(&request),
        r#"{"aimsid":"SID","params":{"memberLimit":50,"sn":null,"stamp":"ST"},"reqId":"1-2"}"#
    );
    let request = protocol::get_chat_info_by_sn(&session(), "1@chat.agent", "3-4").unwrap();
    assert_eq!(
        json_body(&request),
        r#"{"aimsid":"SID 1","params":{"memberLimit":50,"sn":"1@chat.agent","stamp":null},"reqId":"3-4"}"#
    );
    let request = protocol::get_chat_info(&session(), "ST", "3-4").unwrap();
    assert_eq!(
        json_body(&request),
        r#"{"aimsid":"SID 1","params":{"memberLimit":50,"sn":null,"stamp":"ST"},"reqId":"3-4"}"#
    );
    let body = RapiBody { aimsid: "SID", req_id: "1-2", params: StampBodyParams { stamp: "ST" } };
    let request = join_chat(&body).unwrap();
    assert_eq!(request.url, "https://u.icq.net/api/v14/rapi/joinChat");
    assert_eq!(json_body(&request), r#"{"aimsid":"SID","params":{"stamp":"ST"},"reqId":"1-2"}"#);
    let request = protocol::join_chat(&session(), "X", "5-6").unwrap();
    assert_eq!(json_body(&request), r#"{"aimsid":"SID 1","params":{"stamp":"X"},"reqId":"5-6"}"#);
}

#[test]
fn history_request() {
    let body = RapiBody {
        aimsid: "SID",
        req_id: "1-2",
        params: GetHistoryBodyParams {
            count: -20,
            from_msg_id: "m7",
            lang: "en",
            mentions: GetHistoryBodyParamsMentions { resolve: false },
            patch_version: "1",
            sn: "1@chat.agent",
        },
    };
    let request = get_history(&body).unwrap();
    assert_eq!(request.url, "https://u.icq.net/api/v14/rapi/getHistory");
    assert_eq!(
        json_body(&request),
        r#"{"aimsid":"SID","params":{"count":-20,"fromMsgId":"m7","lang":"en","mentions":{"resolve":false},"patchVersion":"1","sn":"1@chat.agent"},"reqId":"1-2"}"#
    );
    let request = protocol::get_history(&session(), "c", "m", 3, "1-1").unwrap();
    assert!(json_body(&request).contains(r#""count":3,"fromMsgId":"m""#));
}

#[test]
fn files_info_request() {
    let request =
        files_info("FILE1", &FilesInfoBody { aimsid: "S D", previews: "192,600" }).unwrap();
    assert_eq!(request.method, HttpMethod::Get);
    assert_eq!(
        request.url,
        "https://u.icq.net/api/v14/files/info/FILE1?aimsid=S+D&previews=192%2C600"
    );
    let request = protocol::files_info(&session(), "F").unwrap();
    assert_eq!(
        request.url,
        "https://u.icq.net/api/v14/files/info/F?aimsid=SID+1&previews=192%2C600%2C800%2Cxlarge"
    );
}

#[test]
fn credentials_from_settings() {
    assert!(RegistrationData::from_settings("".into(), "s".into(), "k".into(), 1).is_none());
    let data = RegistrationData::from_settings("t".into(), "s".into(), "k".into(), 7).unwrap();
    assert_eq!(data.token, "t");
    assert_eq!(data.session_id, "s");
    assert_eq!(data.session_key, "k");
    assert_eq!(data.host_time, 7);
    let data = RegistrationData::from_settings("t".into(), "".into(), "".into(), -1).unwrap();
    assert_eq!(data.host_time, u32::MAX);
    assert_eq!(RegistrationData::TOKEN_SETTING_KEY, "token");
    assert_eq!(RegistrationData::SESSION_ID_SETTING_KEY, "session_id");
    assert_eq!(RegistrationData::SESSION_KEY_SETTING_KEY, "session_key");
    assert_eq!(RegistrationData::HOST_TIME_SETTING_KEY, "host_time");
}

fn code_response() -> SendCodeResponse {
    SendCodeResponse {
        results: SendCodeResponseResults { code_length: 6, session_id: "TRANS".to_string() },
    }
}

fn login_response() -> WebIcqResponse<LoginWithPhoneNumberResponseData> {
    WebIcqResponse {
        response: WebIcqData {
            data: LoginWithPhoneNumberResponseData {
                token: LoginWithPhoneNumberResponseToken { a: "TOKEN".to_string() },
                host_time: 77,
                session_key: "KEY".to_string(),
            },
        },
    }
}

fn session_response() -> WebIcqResponse<StartSessionResponseData> {
    WebIcqResponse {
        response: WebIcqData {
            data: StartSessionResponseData {
                aimsid: "SID".to_string(),
                my_info: StartSessionResponseMyInfo { aim_id: "123".to_string() },
                fetch_base_url: "https://first".to_string(),
            },
        },
    }
}

#[test]
fn login_with_stored_credentials() {
    let state = SessionState::new();
    let (state, action) = state.login(LoginEvent::SettingsRead(Some(credentials())));
    assert!(matches!(state, SessionState::Registered(_)));
    match action {
        LoginAction::StartSession(data) => assert_eq!(data.token, "T&1"),
        other => panic!("{:?}", other),
    }
    let (state, action) = state.login(LoginEvent::SessionStarted(Ok(session_response())));
    match (&state, action) {
        (SessionState::SessionActive(active), LoginAction::Connected(session)) => {
            assert_eq!(active.aim_sid, "SID");
            assert_eq!(session.aim_id, "123");
            assert_eq!(session.fetch_base_url, "https://first");
            assert_eq!(session.registration_data.token, "T&1");
        }
        other => panic!("{:?}", other),
    }
    // An active session stays active.
    let (state, action) = state.login(LoginEvent::SettingsRead(None));
    assert!(matches!(state, SessionState::SessionActive(_)));
    assert!(matches!(action, LoginAction::Ignore));
}

#[test]
fn login_through_registration() {
    let state = SessionState::new();
    let (state, action) = state.login(LoginEvent::SettingsRead(None));
    assert!(matches!(action, LoginAction::SendCode));
    let (state, action) = state.login(LoginEvent::CodeSent(Ok(code_response())));
    assert!(matches!(action, LoginAction::RequestCode));
    // An answer that was not asked for changes nothing.
    let (state, action) = state.login(LoginEvent::CredentialsStored(true));
    assert!(matches!(action, LoginAction::Ignore));
    let (state, action) = state.login(LoginEvent::CodeEntered(Some("1234".to_string())));
    match action {
        LoginAction::ExchangeCode { trans_id, code } => {
            assert_eq!(trans_id, "TRANS");
            assert_eq!(code, "1234");
        }
        other => panic!("{:?}", other),
    }
    let (state, action) = state.login(LoginEvent::LoggedIn(Ok(login_response())));
    match action {
        LoginAction::StoreCredentials(data) => {
            assert_eq!(data.session_id, "TRANS");
            assert_eq!(data.session_key, "KEY");
            assert_eq!(data.token, "TOKEN");
            assert_eq!(data.host_time, 77);
        }
        other => panic!("{:?}", other),
    }
    let (state, action) = state.login(LoginEvent::CredentialsStored(true));
    match action {
        LoginAction::StartSession(data) => assert_eq!(data.token, "TOKEN"),
        other => panic!("{:?}", other),
    }
    let (state, action) = state.login(LoginEvent::SessionStarted(Ok(session_response())));
    assert!(matches!(state, SessionState::SessionActive(_)));
    assert!(matches!(action, LoginAction::Connected(_)));
}

#[test]
fn login_failures_are_terminal() {
    let (state, action) = SessionState::new().login(LoginEvent::SettingsUnreadable);
    assert!(matches!(state, SessionState::Failed));
    match action {
        LoginAction::Fail { message, auth_failure } => {
            assert_eq!(message, "Failed to read settings");
            assert!(!auth_failure);
        }
        other => panic!("{:?}", other),
    }
    let (state, action) = state.login(LoginEvent::SettingsRead(None));
    assert!(matches!(state, SessionState::Failed));
    assert!(matches!(action, LoginAction::Ignore));

    let (state, _) = SessionState::new().login(LoginEvent::SettingsRead(None));
    let (state, action) =
        state.login(LoginEvent::CodeSent(Err(Error::RequestError("timed out".to_string()))));
    assert!(matches!(state, SessionState::Failed));
    match action {
        LoginAction::Fail { message, auth_failure } => {
            assert_eq!(message, "Failed to register account: RequestError(timed out)");
            assert!(auth_failure);
        }
        other => panic!("{:?}", other),
    }

    // No code is a failure, not a retry.
    let (state, _) = SessionState::new().login(LoginEvent::SettingsRead(None));
    let (state, _) = state.login(LoginEvent::CodeSent(Ok(code_response())));
    let (state, action) = state.login(LoginEvent::CodeEntered(None));
    assert!(matches!(state, SessionState::Failed));
    match action {
        LoginAction::Fail { message, auth_failure } => {
            assert_eq!(message, "Failed to register account: MissingCode()");
            assert!(auth_failure);
        }
        other => panic!("{:?}", other),
    }

    let (state, _) = SessionState::new().login(LoginEvent::SettingsRead(None));
    let (state, _) = state.login(LoginEvent::CodeSent(Ok(code_response())));
    let (state, _) = state.login(LoginEvent::CodeEntered(Some("1".to_string())));
    let (state, action) = state.login(LoginEvent::LoggedIn(Err(Error::DeserializationError(
        "bad".to_string(),
    ))));
    assert!(matches!(state, SessionState::Failed));
    assert!(matches!(action, LoginAction::Fail { auth_failure: true, .. }));

    let (state, _) = SessionState::new().login(LoginEvent::SettingsRead(None));
    let (state, _) = state.login(LoginEvent::CodeSent(Ok(code_response())));
    let (state, _) = state.login(LoginEvent::CodeEntered(Some("1".to_string())));
    let (state, _) = state.login(LoginEvent::LoggedIn(Ok(login_response())));
    let (state, action) = state.login(LoginEvent::CredentialsStored(false));
    assert!(matches!(state, SessionState::Failed));
    match action {
        LoginAction::Fail { message, auth_failure } => {
            assert_eq!(message, "Failed to write settings");
            assert!(!auth_failure);
        }
        other => panic!("{:?}", other),
    }

    let (state, _) = SessionState::new().login(LoginEvent::SettingsRead(Some(credentials())));
    let (state, action) = state.login(LoginEvent::SessionStarted(Err(Error::UrlParseError(
        "x".to_string(),
    ))));
    assert!(matches!(state, SessionState::Failed));
    match action {
        LoginAction::Fail { message, auth_failure } => {
            assert_eq!(message, "Failed to start session: UrlParseError(x)");
            assert!(auth_failure);
        }
        other => panic!("{:?}", other),
    }
}

#[test]
fn errors_are_described() {
    assert_eq!(describe_error(&protocol::Error::MissingCode), "MissingCode()");
    assert_eq!(
        describe_error(&protocol::Error::ApiError(Error::JsonSerializationError("a".into()))),
        "JsonSerializationError(a)"
    );
    assert_eq!(
        describe_error(&protocol::Error::ApiError(Error::UrlEncodedSerializationError("b".into()))),
        "UrlEncodedSerializationError(b)"
    );
    assert_eq!(
        describe_error(&protocol::Error::ApiError(Error::DeserializationError("".into()))),
        "DeserializationError()"
    );
}

#[test]
fn records_are_buffered_and_flushed() {
    let mut buffer = LogBuffer::new();
    let mut remote = init(Level::Debug);
    // No logger set: dropped.
    assert!(matches!(remote.log(&mut buffer, Level::Error, "t", "m"), Logged::Dropped));
    assert!(matches!(flush(&remote, &mut buffer), Flushed::Nothing));
    set_thread_logger(&mut remote, Logger::Remote);
    assert!(matches!(remote.log(&mut buffer, Level::Error, "icq", "first"), Logged::Buffered));
    assert!(matches!(remote.log(&mut buffer, Level::Debug, "", "second"), Logged::Buffered));
    assert!(matches!(remote.log(&mut buffer, Level::Trace, "icq", "third"), Logged::Dropped));
    assert_eq!(buffer.len(), 2);
    assert!(matches!(flush(&remote, &mut buffer), Flushed::Signal));
    assert_eq!(buffer.len(), 2);

    let mut host = init(Level::Debug);
    set_thread_logger(&mut host, Logger::Purple);
    match host.log(&mut buffer, Level::Warn, "purple", "direct") {
        Logged::Line(line) => {
            assert_eq!(line.level, PurpleDebugLevel::Warning);
            assert_eq!(line.line, "[purple] direct\n");
        }
        other => panic!("{:?}", other),
    }
    match flush(&host, &mut buffer) {
        Flushed::Lines(lines) => {
            assert_eq!(lines.len(), 2);
            assert_eq!(lines[0].level, PurpleDebugLevel::Error);
            assert_eq!(lines[0].line, "[icq] first\n");
            assert_eq!(lines[1].level, PurpleDebugLevel::Misc);
            assert_eq!(lines[1].line, "[] second\n");
        }
        other => panic!("{:?}", other),
    }
    assert_eq!(buffer.len(), 0);
    match flush(&host, &mut buffer) {
        Flushed::Lines(lines) => assert!(lines.is_empty()),
        other => panic!("{:?}", other),
    }
}

#[test]
fn levels_and_targets() {
    assert!(PurpleDebugLogger.enabled(Level::Error));
    assert!(PurpleDebugLogger.enabled(Level::Warn));
    assert!(PurpleDebugLogger.enabled(Level::Info));
    assert!(!PurpleDebugLogger.enabled(Level::Debug));
    assert!(!RemoteLogger.enabled(Level::Trace));
    assert!(RemoteLogger.enabled(Level::Info));
    assert_eq!(PurpleDebugLogger.log(Level::Info, "a", "b").level, PurpleDebugLevel::Info);
    assert_eq!(PurpleDebugLogger.log(Level::Trace, "a", "b").level, PurpleDebugLevel::Misc);
    assert_eq!(record_target("t", Some("m")), "t");
    assert_eq!(record_target("", Some("m")), "m");
    assert_eq!(record_target("", None), "");
    assert!(init(Level::Info).enabled(Level::Trace));
}

#[test]
fn plugin_describes_itself() {
    let info = purple_icq::plugin::register();
    assert_eq!(info.id, "prpl-flare-icq");
    assert_eq!(info.name, "ICQ (Web)");
    assert_eq!(info.version, "0.1");
    assert_eq!(purple_icq::plugin::PrplInfo::default().id, "");
    let types = purple_icq::plugin::status_types();
    assert_eq!(types.len(), 2);
    assert_eq!(types[0].id, "online");
    assert_eq!(types[1].name, "Offline");
    assert_eq!(purple_icq::plugin::list_icon(), "icq");
    let entries = purple_icq::plugin::chat_info();
    assert_eq!(entries.len(), 1);
    assert_eq!(entries[0].label, "Chat ID");
    assert_eq!(entries[0].identifier, "sn");
    assert!(entries[0].required);
}

#[test]
fn json_text_round_trips() {
    let value = purple_icq::json::parse_json(r#" {"b": [1, -2, 3.5, "x\ny", null, false], "a": {}} "#).unwrap();
    assert_eq!(
        purple_icq::json::write_json(&value).unwrap(),
        r#"{"a":{},"b":[1,-2,3.5,"x\ny",null,false]}"#
    );
    assert!(purple_icq::json::parse_json("{").is_err());
    assert!(purple_icq::json::parse_json("1 2").is_err());
    // A numeral that is no JSON number is written as null.
    let odd = purple_icq::json::Json::Array(vec![purple_icq::json::Json::Number("1x".to_string())]);
    assert_eq!(purple_icq::json::write_json(&odd).unwrap(), "[null]");
    assert_eq!(value.get("a").map(|a| a.is_null()), Some(false));
    assert!(value.get("c").is_none());
    assert!(matches!(value.take("b"), Some(purple_icq::json::Json::Array(items)) if items.len() == 6));
}

#[test]
fn credentials_are_stored_as_settings() {
    let stored = credentials().to_settings();
    assert_eq!(stored.token, "T&1");
    assert_eq!(stored.session_id, "S");
    assert_eq!(stored.session_key, "K");
    assert_eq!(stored.host_time, 9);
    let mut late = credentials();
    late.host_time = u32::MAX;
    let stored = late.to_settings();
    assert_eq!(stored.host_time, -1);
    let back = RegistrationData::from_settings(
        stored.token,
        stored.session_id,
        stored.session_key,
        stored.host_time,
    )
    .unwrap();
    assert_eq!(back.host_time, u32::MAX);
}
