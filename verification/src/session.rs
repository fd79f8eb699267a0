//! The login of an account: from persisted or freshly registered
//! credentials to an active session, one step per answer from outside.

use crate::client::{
    LoginWithPhoneNumberResponseData, SendCodeResponse, StartSessionResponseData, WebIcqResponse,
};
use crate::protocol::{
    register, session_of, Error, RegistrationData, RegistrationDataView, SessionInfo,
    SessionInfoView,
};
use vstd::prelude::*;
use vstd::string::StringExecFns;

verus! {

/// What is said when the registration fails.
pub const REGISTER_FAILED: &'static str = "Failed to register account: ";

/// What is said when the settings cannot be read.
pub const SETTINGS_UNREADABLE: &'static str = "Failed to read settings";

/// What is said when the credentials cannot be stored.
pub const SETTINGS_UNWRITABLE: &'static str = "Failed to write settings";

/// What is said when the session cannot be started.
pub const SESSION_FAILED: &'static str = "Failed to start session: ";

/// The name of a kind of error.
pub open spec fn error_kind(error: Error) -> Seq<char> {
    match error {
        Error::MissingCode => "MissingCode"@,
        Error::ApiError(crate::client::Error::JsonSerializationError(_)) => "JsonSerializationError"@,
        Error::ApiError(crate::client::Error::UrlEncodedSerializationError(_)) =>
            "UrlEncodedSerializationError"@,
        Error::ApiError(crate::client::Error::DeserializationError(_)) => "DeserializationError"@,
        Error::ApiError(crate::client::Error::RequestError(_)) => "RequestError"@,
        Error::ApiError(crate::client::Error::UrlParseError(_)) => "UrlParseError"@,
    }
}

/// The detail that an error carries.
pub open spec fn error_detail(error: Error) -> Seq<char> {
    match error {
        Error::MissingCode => Seq::empty(),
        Error::ApiError(crate::client::Error::JsonSerializationError(d)) => d@,
        Error::ApiError(crate::client::Error::UrlEncodedSerializationError(d)) => d@,
        Error::ApiError(crate::client::Error::DeserializationError(d)) => d@,
        Error::ApiError(crate::client::Error::RequestError(d)) => d@,
        Error::ApiError(crate::client::Error::UrlParseError(d)) => d@,
    }
}

/// An error for a reader: its kind, and its detail in round brackets.
pub open spec fn error_text(error: Error) -> Seq<char> {
    error_kind(error) + "("@ + error_detail(error) + ")"@
}

/// Writes an error for a reader.
pub fn describe_error(error: &Error) -> (text: String)
    ensures
        text@ == error_text(*error),
{
    let (kind, detail): (&str, &str) = match error {
        Error::MissingCode => ("MissingCode", ""),
        Error::ApiError(crate::client::Error::JsonSerializationError(d)) => (
            "JsonSerializationError",
            d.as_str(),
        ),
        Error::ApiError(crate::client::Error::UrlEncodedSerializationError(d)) => (
            "UrlEncodedSerializationError",
            d.as_str(),
        ),
        Error::ApiError(crate::client::Error::DeserializationError(d)) => (
            "DeserializationError",
            d.as_str(),
        ),
        Error::ApiError(crate::client::Error::RequestError(d)) => ("RequestError", d.as_str()),
        Error::ApiError(crate::client::Error::UrlParseError(d)) => ("UrlParseError", d.as_str()),
    };
    proof {
        reveal_strlit("");
        assert(""@ =~= Seq::<char>::empty());
    }
    let mut text = kind.to_owned();
    text.append("(");
    text.append(detail);
    text.append(")");
    text
}

/// Where a registration stands.
#[derive(Debug, Clone)]
pub enum Registering {
    /// The verification code is being sent to the phone.
    SendingCode,
    /// The user is being asked for the code.
    AwaitingCode { code_response: SendCodeResponse },
    /// The code is being exchanged for a token.
    ExchangingCode { code_response: SendCodeResponse },
    /// The credentials are being stored.
    StoringCredentials { credentials: RegistrationData },
}

/// Where the login of an account stands.
#[derive(Debug, Clone)]
pub enum SessionState {
    /// No credentials are known yet.
    Unregistered,
    /// A registration is under way.
    Registering(Registering),
    /// The credentials are known, and a session is being started with them.
    Registered(RegistrationData),
    /// The session is active.
    SessionActive(SessionInfo),
    /// The login attempt has failed, for good.
    Failed,
}

/// What the login is told.
#[derive(Debug)]
pub enum LoginEvent {
    /// The settings were read: the credentials in them, if any.
    SettingsRead(Option<RegistrationData>),
    /// The settings could not be read.
    SettingsUnreadable,
    /// The answer to the code request.
    CodeSent(Result<SendCodeResponse, crate::client::Error>),
    /// What the user entered when asked for the code, if anything.
    CodeEntered(Option<String>),
    /// The answer to the exchange of the code.
    LoggedIn(Result<WebIcqResponse<LoginWithPhoneNumberResponseData>, crate::client::Error>),
    /// Whether the credentials were stored.
    CredentialsStored(bool),
    /// The answer to the session start.
    SessionStarted(Result<WebIcqResponse<StartSessionResponseData>, crate::client::Error>),
}

/// What the login asks for.
#[derive(Debug, Clone)]
pub enum LoginAction {
    /// Have a verification code sent to the account's phone.
    SendCode,
    /// Ask the user for the code.
    RequestCode,
    /// Exchange the code for a token.
    ExchangeCode { trans_id: String, code: String },
    /// Store the credentials in the settings.
    StoreCredentials(RegistrationData),
    /// Show the connection as connecting, and start a session.
    StartSession(RegistrationData),
    /// Show the connection as connected, install the session, and start
    /// polling.
    Connected(SessionInfo),
    /// Give the attempt up. Where `auth_failure` is set, the host shows the
    /// message as an authentication failure.
    Fail { message: String, auth_failure: bool },
    /// Nothing: the answer was not asked for.
    Ignore,
}

/// A [`SessionState`], as plain values.
pub enum SessionStateView {
    Unregistered,
    SendingCode,
    AwaitingCode { trans_id: Seq<char> },
    ExchangingCode { trans_id: Seq<char> },
    StoringCredentials { credentials: RegistrationDataView },
    Registered(RegistrationDataView),
    SessionActive(SessionInfoView),
    Failed,
}

/// A [`LoginAction`], as plain values.
pub enum LoginActionView {
    SendCode,
    RequestCode,
    ExchangeCode { trans_id: Seq<char>, code: Seq<char> },
    StoreCredentials(RegistrationDataView),
    StartSession(RegistrationDataView),
    Connected(SessionInfoView),
    Fail { message: Seq<char>, auth_failure: bool },
    Ignore,
}

impl View for SessionState {
    type V = SessionStateView;

    open spec fn view(&self) -> SessionStateView {
        match self {
            SessionState::Unregistered => SessionStateView::Unregistered,
            SessionState::Registering(Registering::SendingCode) => SessionStateView::SendingCode,
            SessionState::Registering(Registering::AwaitingCode { code_response }) =>
                SessionStateView::AwaitingCode { trans_id: code_response.results.session_id@ },
            SessionState::Registering(Registering::ExchangingCode { code_response }) =>
                SessionStateView::ExchangingCode { trans_id: code_response.results.session_id@ },
            SessionState::Registering(Registering::StoringCredentials { credentials }) =>
                SessionStateView::StoringCredentials { credentials: credentials@ },
            SessionState::Registered(credentials) => SessionStateView::Registered(credentials@),
            SessionState::SessionActive(session) => SessionStateView::SessionActive(session@),
            SessionState::Failed => SessionStateView::Failed,
        }
    }
}

impl View for LoginAction {
    type V = LoginActionView;

    open spec fn view(&self) -> LoginActionView {
        match self {
            LoginAction::SendCode => LoginActionView::SendCode,
            LoginAction::RequestCode => LoginActionView::RequestCode,
            LoginAction::ExchangeCode { trans_id, code } => LoginActionView::ExchangeCode {
                trans_id: trans_id@,
                code: code@,
            },
            LoginAction::StoreCredentials(credentials) => LoginActionView::StoreCredentials(
                credentials@,
            ),
            LoginAction::StartSession(credentials) => LoginActionView::StartSession(credentials@),
            LoginAction::Connected(session) => LoginActionView::Connected(session@),
            LoginAction::Fail { message, auth_failure } => LoginActionView::Fail {
                message: message@,
                auth_failure: *auth_failure,
            },
            LoginAction::Ignore => LoginActionView::Ignore,
        }
    }
}

/// The failure of a registration for the given reason.
pub open spec fn register_failure(error: Error) -> (SessionStateView, LoginActionView) {
    (
        SessionStateView::Failed,
        LoginActionView::Fail { message: REGISTER_FAILED@ + error_text(error), auth_failure: true },
    )
}

/// One step of the login. Without credentials in the settings a code is
/// sent, the user is asked for it, it is exchanged for a token, and the
/// credentials are stored; with credentials a session is started at once.
/// Every failure on the way ends the attempt for good: a failed call, a
/// missing code, settings that cannot be read or written. An answer that was
/// not asked for changes nothing.
pub open spec fn login_step(state: SessionStateView, event: LoginEvent) -> (
    SessionStateView,
    LoginActionView,
) {
    match (state, event) {
        (SessionStateView::Unregistered, LoginEvent::SettingsRead(Some(credentials))) => (
            SessionStateView::Registered(credentials@),
            LoginActionView::StartSession(credentials@),
        ),
        (SessionStateView::Unregistered, LoginEvent::SettingsRead(None)) => (
            SessionStateView::SendingCode,
            LoginActionView::SendCode,
        ),
        (SessionStateView::Unregistered, LoginEvent::SettingsUnreadable) => (
            SessionStateView::Failed,
            LoginActionView::Fail { message: SETTINGS_UNREADABLE@, auth_failure: false },
        ),
        (SessionStateView::SendingCode, LoginEvent::CodeSent(Ok(response))) => (
            SessionStateView::AwaitingCode { trans_id: response.results.session_id@ },
            LoginActionView::RequestCode,
        ),
        (SessionStateView::SendingCode, LoginEvent::CodeSent(Err(error))) => register_failure(
            Error::ApiError(error),
        ),
        (SessionStateView::AwaitingCode { trans_id }, LoginEvent::CodeEntered(Some(code))) => (
            SessionStateView::ExchangingCode { trans_id },
            LoginActionView::ExchangeCode { trans_id, code: code@ },
        ),
        (SessionStateView::AwaitingCode { trans_id }, LoginEvent::CodeEntered(None)) =>
            register_failure(Error::MissingCode),
        (SessionStateView::ExchangingCode { trans_id }, LoginEvent::LoggedIn(Ok(response))) => {
            let credentials = RegistrationDataView {
                session_id: trans_id,
                session_key: response.response.data.session_key@,
                token: response.response.data.token.a@,
                host_time: response.response.data.host_time,
            };
            (
                SessionStateView::StoringCredentials { credentials },
                LoginActionView::StoreCredentials(credentials),
            )
        },
        (SessionStateView::ExchangingCode { trans_id }, LoginEvent::LoggedIn(Err(error))) =>
            register_failure(Error::ApiError(error)),
        (
            SessionStateView::StoringCredentials { credentials },
            LoginEvent::CredentialsStored(true),
        ) => (SessionStateView::Registered(credentials), LoginActionView::StartSession(credentials)),
        (
            SessionStateView::StoringCredentials { credentials },
            LoginEvent::CredentialsStored(false),
        ) => (
            SessionStateView::Failed,
            LoginActionView::Fail { message: SETTINGS_UNWRITABLE@, auth_failure: false },
        ),
        (SessionStateView::Registered(credentials), LoginEvent::SessionStarted(Ok(response))) => {
            let session = SessionInfoView {
                registration_data: credentials,
                aim_id: response.response.data.my_info.aim_id@,
                aim_sid: response.response.data.aimsid@,
                fetch_base_url: response.response.data.fetch_base_url@,
            };
            (SessionStateView::SessionActive(session), LoginActionView::Connected(session))
        },
        (SessionStateView::Registered(credentials), LoginEvent::SessionStarted(Err(error))) => (
            SessionStateView::Failed,
            LoginActionView::Fail {
                message: SESSION_FAILED@ + error_text(Error::ApiError(error)),
                auth_failure: true,
            },
        ),
        _ => (state, LoginActionView::Ignore),
    }
}

fn fail_with(prefix: &str, error: &Error) -> (action: LoginAction)
    ensures
        action@ == (LoginActionView::Fail {
            message: prefix@ + error_text(*error),
            auth_failure: true,
        }),
{
    let message = prefix.to_owned().concat(describe_error(error).as_str());
    LoginAction::Fail { message, auth_failure: true }
}

impl SessionState {
    /// The state before a login: nothing is known.
    pub fn new() -> (state: SessionState)
        ensures
            state@ == SessionStateView::Unregistered,
    {
        SessionState::Unregistered
    }

    /// Takes the answer to what the login last asked for, and returns what
    /// it asks for next: see [`login_step`].
    pub fn login(self, event: LoginEvent) -> (out: (SessionState, LoginAction))
        ensures
            out.0@ == login_step(self@, event).0,
            out.1@ == login_step(self@, event).1,
    {
        match (self, event) {
            (SessionState::Unregistered, LoginEvent::SettingsRead(Some(credentials))) => {
                let action = LoginAction::StartSession(credentials.clone_data());
                (SessionState::Registered(credentials), action)
            },
            (SessionState::Unregistered, LoginEvent::SettingsRead(None)) => (
                SessionState::Registering(Registering::SendingCode),
                LoginAction::SendCode,
            ),
            (SessionState::Unregistered, LoginEvent::SettingsUnreadable) => (
                SessionState::Failed,
                LoginAction::Fail { message: SETTINGS_UNREADABLE.to_owned(), auth_failure: false },
            ),
            (SessionState::Registering(Registering::SendingCode), LoginEvent::CodeSent(answer)) => {
                match answer {
                    Ok(response) => (
                        SessionState::Registering(
                            Registering::AwaitingCode { code_response: response },
                        ),
                        LoginAction::RequestCode,
                    ),
                    Err(error) => (
                        SessionState::Failed,
                        fail_with(REGISTER_FAILED, &Error::ApiError(error)),
                    ),
                }
            },
            (
                SessionState::Registering(Registering::AwaitingCode { code_response }),
                LoginEvent::CodeEntered(answer),
            ) => {
                match answer {
                    Some(code) => {
                        let action = LoginAction::ExchangeCode {
                            trans_id: code_response.results.session_id.clone(),
                            code,
                        };
                        (
                            SessionState::Registering(Registering::ExchangingCode { code_response }),
                            action,
                        )
                    },
                    None => (SessionState::Failed, fail_with(REGISTER_FAILED, &Error::MissingCode)),
                }
            },
            (
                SessionState::Registering(Registering::ExchangingCode { code_response }),
                LoginEvent::LoggedIn(answer),
            ) => {
                match answer {
                    Ok(response) => {
                        let credentials = register(code_response, response);
                        let action = LoginAction::StoreCredentials(credentials.clone_data());
                        (
                            SessionState::Registering(
                                Registering::StoringCredentials { credentials },
                            ),
                            action,
                        )
                    },
                    Err(error) => (
                        SessionState::Failed,
                        fail_with(REGISTER_FAILED, &Error::ApiError(error)),
                    ),
                }
            },
            (
                SessionState::Registering(Registering::StoringCredentials { credentials }),
                LoginEvent::CredentialsStored(stored),
            ) => {
                if stored {
                    let action = LoginAction::StartSession(credentials.clone_data());
                    (SessionState::Registered(credentials), action)
                } else {
                    (
                        SessionState::Failed,
                        LoginAction::Fail {
                            message: SETTINGS_UNWRITABLE.to_owned(),
                            auth_failure: false,
                        },
                    )
                }
            },
            (SessionState::Registered(credentials), LoginEvent::SessionStarted(answer)) => {
                match answer {
                    Ok(response) => {
                        let session = session_of(&credentials, response);
                        let action = LoginAction::Connected(clone_session(&session));
                        (SessionState::SessionActive(session), action)
                    },
                    Err(error) => (
                        SessionState::Failed,
                        fail_with(SESSION_FAILED, &Error::ApiError(error)),
                    ),
                }
            },
            (state, _) => (state, LoginAction::Ignore),
        }
    }
}

/// A copy of a session.
pub fn clone_session(session: &SessionInfo) -> (out: SessionInfo)
    ensures
        out@ == session@,
{
    SessionInfo {
        registration_data: session.registration_data.clone_data(),
        aim_id: session.aim_id.clone(),
        aim_sid: session.aim_sid.clone(),
        fetch_base_url: session.fetch_base_url.clone(),
    }
}

/// A session only becomes active through a session start that succeeded
/// with known credentials, and it carries those credentials.
pub proof fn lemma_session_needs_credentials(state: SessionStateView, event: LoginEvent)
    requires
        !(state is SessionActive),
        login_step(state, event).0 is SessionActive,
    ensures
        state is Registered,
        event matches LoginEvent::SessionStarted(Ok(_)),
        login_step(state, event).0->SessionActive_0.registration_data == state->Registered_0,
{
}

/// A failed attempt stays failed, and an active session stays active: no
/// answer changes either.
pub proof fn lemma_login_ends(state: SessionStateView, event: LoginEvent)
    requires
        state is Failed || state is SessionActive,
    ensures
        login_step(state, event) == (state, LoginActionView::Ignore),
{
}

/// A missing code is a failure, never a retry.
pub proof fn lemma_missing_code_fails(trans_id: Seq<char>)
    ensures
        login_step(
            SessionStateView::AwaitingCode { trans_id },
            LoginEvent::CodeEntered(None),
        ).0 is Failed,
{
}

} // verus!
