use vstd::prelude::*;
use crate::collaborator_errors::{CredentialVerifierError, SessionStoreError, TokenIssuerError};
use crate::text::{opt_sstr_view, opt_str_view, opt_to_string, opt_ref_view, pairs_view, strings_view};

verus! {
#[derive(Debug, Clone, Copy, PartialEq, Eq, Structural)]
pub struct AuthSessionPolicy {
    session_ttl_seconds: u32,
}

impl View for AuthSessionPolicy {
    type V = u32;

    closed spec fn view(&self) -> u32 {
        self.session_ttl_seconds
    }
}

impl AuthSessionPolicy {
    pub fn new(session_ttl_seconds: u32) -> (result: Result<Self, AuthPolicyError>)
        ensures
            session_ttl_seconds == 0 ==> result == Err::<Self, AuthPolicyError>(AuthPolicyError::InvalidSessionTtl),
            session_ttl_seconds != 0 ==> result is Ok && result->Ok_0@ == session_ttl_seconds,
    {
        if session_ttl_seconds == 0 {
            return Err(AuthPolicyError::InvalidSessionTtl);
        }
        Ok(Self { session_ttl_seconds })
    }

    pub fn session_ttl_seconds(self) -> (result: u32)
        ensures
            result == self@,
    {
        self.session_ttl_seconds
    }
}

#[derive(Debug, Clone, Copy, PartialEq, Eq, Structural)]
pub enum AuthPolicyError {
    InvalidSessionTtl,
}

#[derive(Debug, Clone, PartialEq, Eq)]
pub struct AuthenticatedActor {
    user_id: String,
}

impl View for AuthenticatedActor {
    type V = Seq<char>;

    closed spec fn view(&self) -> Seq<char> {
        self.user_id@
    }
}

impl AuthenticatedActor {
    pub fn new(user_id: &str) -> (result: Self)
        ensures
            result@ == user_id@,
    {
        Self {
            user_id: user_id.to_string(),
        }
    }

    pub fn user_id(&self) -> (result: &str)
        ensures
            result@ == self@,
    {
        self.user_id.as_str()
    }

}

#[derive(Debug, Clone, Copy, PartialEq, Eq, Structural)]
pub struct AuthenticateUserUsecase {
    policy: AuthSessionPolicy,
}

impl View for AuthenticateUserUsecase {
    type V = AuthSessionPolicy;

    closed spec fn view(&self) -> AuthSessionPolicy {
        self.policy
    }
}

impl AuthenticateUserUsecase {
    pub fn new(policy: AuthSessionPolicy) -> (result: Self)
        ensures
            result@ == policy,
    {
        Self { policy }
    }
}

#[derive(Debug, Clone, Copy, PartialEq, Eq, Structural)]
pub struct ValidateSessionUsecase;

impl ValidateSessionUsecase {
    pub fn new() -> (result: Self)
        ensures
            result == (ValidateSessionUsecase),
    {
        ValidateSessionUsecase
    }
}

impl Default for ValidateSessionUsecase {
    fn default() -> (result: Self)
        ensures
            result == (ValidateSessionUsecase),
    {
        Self::new()
    }
}

#[derive(Debug, Clone, Copy, PartialEq, Eq, Structural)]
pub enum AuthError {
    InvalidCredential,
    UserNotActive,
    SessionMissing,
    SessionExpired,
    SessionRevoked,
    SessionStoreUnavailable,
    TokenUnavailable,
    InvalidToken,
    InvalidSession,
}

impl AuthError {
    pub fn code(self) -> (result: &'static str)
        ensures
            result@ == match self {
                Self::InvalidCredential => "AUTH_INVALID_CREDENTIAL"@,
                Self::UserNotActive => "AUTH_USER_NOT_ACTIVE"@,
                Self::SessionMissing => "AUTH_SESSION_MISSING"@,
                Self::SessionExpired => "AUTH_SESSION_EXPIRED"@,
                Self::SessionRevoked => "AUTH_SESSION_REVOKED"@,
                Self::SessionStoreUnavailable => "AUTH_SESSION_STORE_UNAVAILABLE"@,
                Self::TokenUnavailable => "AUTH_TOKEN_UNAVAILABLE"@,
                Self::InvalidToken => "AUTH_INVALID_TOKEN"@,
                Self::InvalidSession => "AUTH_INVALID_SESSION"@,
            },
    {
        match self {
            Self::InvalidCredential => "AUTH_INVALID_CREDENTIAL",
            Self::UserNotActive => "AUTH_USER_NOT_ACTIVE",
            Self::SessionMissing => "AUTH_SESSION_MISSING",
            Self::SessionExpired => "AUTH_SESSION_EXPIRED",
            Self::SessionRevoked => "AUTH_SESSION_REVOKED",
            Self::SessionStoreUnavailable => "AUTH_SESSION_STORE_UNAVAILABLE",
            Self::TokenUnavailable => "AUTH_TOKEN_UNAVAILABLE",
            Self::InvalidToken => "AUTH_INVALID_TOKEN",
            Self::InvalidSession => "AUTH_INVALID_SESSION",
        }
    }

    pub fn failure_category(self) -> (result: &'static str)
        ensures
            result@ == match self {
                Self::InvalidCredential => "invalid_credential"@,
                Self::UserNotActive => "user_not_active"@,
                Self::SessionMissing => "session_missing"@,
                Self::SessionExpired => "session_expired"@,
                Self::SessionRevoked => "session_revoked"@,
                Self::SessionStoreUnavailable => "session_store_unavailable"@,
                Self::TokenUnavailable => "token_unavailable"@,
                Self::InvalidToken => "invalid_token"@,
                Self::InvalidSession => "invalid_session"@,
            },
    {
        match self {
            Self::InvalidCredential => "invalid_credential",
            Self::UserNotActive => "user_not_active",
            Self::SessionMissing => "session_missing",
            Self::SessionExpired => "session_expired",
            Self::SessionRevoked => "session_revoked",
            Self::SessionStoreUnavailable => "session_store_unavailable",
            Self::TokenUnavailable => "token_unavailable",
            Self::InvalidToken => "invalid_token",
            Self::InvalidSession => "invalid_session",
        }
    }

}

/// Why a stored session failed validation.
#[derive(Debug, Clone, Copy, PartialEq, Eq, Structural)]
pub enum SessionCheckFailure {
    Expired,
    Revoked,
    NotActive,
}

/// The error a session that failed validation is refused with.
pub fn session_check_error(failure: SessionCheckFailure) -> (result: AuthError)
    ensures
        result == match failure {
            SessionCheckFailure::Expired => AuthError::SessionExpired,
            SessionCheckFailure::Revoked => AuthError::SessionRevoked,
            SessionCheckFailure::NotActive => AuthError::InvalidSession,
        },
{
    match failure {
        SessionCheckFailure::Expired => AuthError::SessionExpired,
        SessionCheckFailure::Revoked => AuthError::SessionRevoked,
        SessionCheckFailure::NotActive => AuthError::InvalidSession,
    }
}

/// Whether a login may proceed to a session, given whether the login name
/// is well formed and what verifying the credential found: `None` for no
/// matching user, else whether that user is active.
pub fn check_login(login_valid: bool, verified_user_active: Option<bool>) -> (result: Result<(), AuthError>)
    ensures
        !login_valid ==> result == Err::<(), AuthError>(AuthError::InvalidCredential),
        login_valid && verified_user_active is None ==> result == Err::<(), AuthError>(AuthError::InvalidCredential),
        login_valid && verified_user_active == Some(false) ==> result == Err::<(), AuthError>(AuthError::UserNotActive),
        login_valid && verified_user_active == Some(true) ==> result is Ok,
{
    if !login_valid {
        return Err(AuthError::InvalidCredential);
    }
    match verified_user_active {
        None => Err(AuthError::InvalidCredential),
        Some(false) => Err(AuthError::UserNotActive),
        Some(true) => Ok(()),
    }
}

/// A user id as authentication events show it.
pub fn mask_user_id(user_id: &str) -> (result: String)
    ensures
        result@ == "masked:"@ + user_id@,
{
    "masked:".to_string().concat(user_id)
}





impl AuthError {
    /// What `from_credential_error` gives for each value.
    pub open spec fn from_credential_error_spec(error: CredentialVerifierError) -> Self {
        match error {
            CredentialVerifierError::Unavailable => Self::SessionStoreUnavailable,
        }
    }

    /// How this usecase reports each credential verifier failure.
    #[verifier::when_used_as_spec(from_credential_error_spec)]
    pub fn from_credential_error(error: CredentialVerifierError) -> (result: Self)
        ensures
            result == Self::from_credential_error_spec(error),
    {
        match error {
            CredentialVerifierError::Unavailable => Self::SessionStoreUnavailable,
        }
    }
}

impl AuthError {
    /// What `from_token_error` gives for each value.
    pub open spec fn from_token_error_spec(error: TokenIssuerError) -> Self {
        match error {
            TokenIssuerError::Unavailable => Self::TokenUnavailable,
            TokenIssuerError::InvalidToken => Self::InvalidToken,
        }
    }

    /// How this usecase reports each token issuer failure.
    #[verifier::when_used_as_spec(from_token_error_spec)]
    pub fn from_token_error(error: TokenIssuerError) -> (result: Self)
        ensures
            result == Self::from_token_error_spec(error),
    {
        match error {
            TokenIssuerError::Unavailable => Self::TokenUnavailable,
            TokenIssuerError::InvalidToken => Self::InvalidToken,
        }
    }
}

impl AuthError {
    /// What `from_session_store_error` gives for each value.
    pub open spec fn from_session_store_error_spec(error: SessionStoreError) -> Self {
        match error {
            SessionStoreError::Conflict | SessionStoreError::NotFound | SessionStoreError::Unavailable => Self::SessionStoreUnavailable,
        }
    }

    /// How this usecase reports each session store failure.
    #[verifier::when_used_as_spec(from_session_store_error_spec)]
    pub fn from_session_store_error(error: SessionStoreError) -> (result: Self)
        ensures
            result == Self::from_session_store_error_spec(error),
    {
        match error {
            SessionStoreError::Conflict | SessionStoreError::NotFound | SessionStoreError::Unavailable => Self::SessionStoreUnavailable,
        }
    }
}


/// A call a login makes to the outside world.
#[derive(Debug, Clone, Copy, PartialEq, Eq, Structural)]
pub enum LoginCall {
    /// Verify the credential of the login.
    VerifyCredential,
    /// Issue a token.
    IssueToken,
    /// Generate a session id and build the session of the user in hand,
    /// created now and activated, expiring after the policy's time to live.
    BuildSession,
    /// Store the session in hand under the lookup key of the token in hand.
    CreateSession,
}

/// What came back from the last call of a login; `U` is a user id, `T` an
/// issued token and `S` a session, as the collaborators give them.
#[derive(Debug, Clone, Copy, PartialEq, Eq)]
pub enum LoginReply<U, T, S> {
    Done,
    /// The credential matched no user.
    NoUser,
    /// The credential matched a user, active or not, with this id.
    User(bool, U),
    /// The token issued.
    Token(T),
    /// The session built.
    Session(S),
    CredentialFailed(CredentialVerifierError),
    TokenFailed(TokenIssuerError),
    /// The session could not be built (a bad id, an expiry out of range, or
    /// a refused activation).
    SessionRefused,
    StoreFailed(SessionStoreError),
}

/// What a login writes to the product log when it ends.
#[derive(Debug, Clone, Copy, PartialEq, Eq, Structural)]
pub enum LoginLog {
    /// `auth.login.failed` with the error's category and code.
    Failed(AuthError),
    /// `auth.session.created` with the session's status and then
    /// `auth.login.succeeded`, both with the masked user id of the session
    /// returned.
    Succeeded,
}

/// Where a login stands: the call whose reply is awaited, and what is in
/// hand: the verified user's id, the issued token, the built session.
#[derive(Debug, Clone, Copy, PartialEq, Eq)]
pub enum LoginStep<U, T, S> {
    Verifying,
    IssuingToken(U),
    BuildingSession(U, T),
    StoringSession(U, T, S),
}

/// What a successful login returns: the verified user's id, the issued
/// token, and the stored session (whose status the output reports).
#[derive(Debug, Clone, Copy, PartialEq, Eq)]
pub struct LoginOutcome<U, T, S> {
    pub user_id: U,
    pub token: T,
    pub session: S,
}

/// What a login does next.
#[derive(Debug, PartialEq, Eq)]
pub enum LoginAction<U, T, S> {
    Call(LoginCall),
    Finish(LoginLog, Result<LoginOutcome<U, T, S>, AuthError>),
}

/// The end of a login that fails with the error: the failure is logged.
pub open spec fn login_failure<U, T, S>(error: AuthError) -> LoginAction<U, T, S> {
    LoginAction::Finish(LoginLog::Failed(error), Err(error))
}

/// How a login starts: a malformed login name is an invalid credential,
/// else the credential is verified.
pub open spec fn login_start<U, T, S>(login_valid: bool) -> (LoginStep<U, T, S>, LoginAction<U, T, S>) {
    if login_valid {
        (LoginStep::Verifying, LoginAction::Call(LoginCall::VerifyCredential))
    } else {
        (LoginStep::Verifying, login_failure(AuthError::InvalidCredential))
    }
}

/// One step of a login: no matching user is an invalid credential, an
/// inactive one is refused; for an active user a token is issued, the
/// session built and stored, the success logged, and the user's id, the
/// token and the session returned; every failure is logged with its error
/// and ends the login, collaborator failures mapped by
/// `from_credential_error`, `from_token_error` and
/// `from_session_store_error`, a session that cannot be built as an invalid
/// session.
pub open spec fn login_transition<U, T, S>(step: LoginStep<U, T, S>, reply: LoginReply<U, T, S>) -> (LoginStep<U, T, S>, LoginAction<U, T, S>) {
    match reply {
        LoginReply::NoUser => (LoginStep::Verifying, login_failure(AuthError::InvalidCredential)),
        LoginReply::User(active, user_id) => if active {
            (LoginStep::IssuingToken(user_id), LoginAction::Call(LoginCall::IssueToken))
        } else {
            (LoginStep::Verifying, login_failure(AuthError::UserNotActive))
        },
        LoginReply::CredentialFailed(error) => (LoginStep::Verifying, login_failure(AuthError::from_credential_error(error))),
        LoginReply::TokenFailed(error) => (LoginStep::Verifying, login_failure(AuthError::from_token_error(error))),
        LoginReply::SessionRefused => (LoginStep::Verifying, login_failure(AuthError::InvalidSession)),
        LoginReply::StoreFailed(error) => (LoginStep::Verifying, login_failure(AuthError::from_session_store_error(error))),
        LoginReply::Token(token) => match step {
            LoginStep::IssuingToken(user_id) => (LoginStep::BuildingSession(user_id, token), LoginAction::Call(LoginCall::BuildSession)),
            _ => (LoginStep::Verifying, login_failure(AuthError::InvalidSession)),
        },
        LoginReply::Session(session) => match step {
            LoginStep::BuildingSession(user_id, token) => (
                LoginStep::StoringSession(user_id, token, session),
                LoginAction::Call(LoginCall::CreateSession),
            ),
            _ => (LoginStep::Verifying, login_failure(AuthError::InvalidSession)),
        },
        LoginReply::Done => match step {
            LoginStep::StoringSession(user_id, token, session) => (
                LoginStep::Verifying,
                LoginAction::Finish(LoginLog::Succeeded, Ok(LoginOutcome { user_id, token, session })),
            ),
            _ => (LoginStep::Verifying, login_failure(AuthError::InvalidSession)),
        },
    }
}

/// Which replies answer the call a login awaits at a step.
pub open spec fn login_reply_fits<U, T, S>(step: LoginStep<U, T, S>, reply: LoginReply<U, T, S>) -> bool {
    match reply {
        LoginReply::NoUser | LoginReply::User(_, _) => step is Verifying,
        LoginReply::Token(_) => step is IssuingToken,
        LoginReply::Session(_) => step is BuildingSession,
        LoginReply::Done => step is StoringSession,
        _ => true,
    }
}

/// Starts a login, as `login_start` describes.
pub fn login_begin<U, T, S>(login_valid: bool) -> (result: (LoginStep<U, T, S>, LoginAction<U, T, S>))
    ensures
        result == login_start::<U, T, S>(login_valid),
{
    if login_valid {
        (LoginStep::Verifying, LoginAction::Call(LoginCall::VerifyCredential))
    } else {
        (LoginStep::Verifying, LoginAction::Finish(LoginLog::Failed(AuthError::InvalidCredential), Err(AuthError::InvalidCredential)))
    }
}

/// The end of a login that fails with the error.
fn fail_login<U, T, S>(error: AuthError) -> (result: LoginAction<U, T, S>)
    ensures
        result == login_failure::<U, T, S>(error),
{
    LoginAction::Finish(LoginLog::Failed(error), Err(error))
}

/// Takes the reply to the last call of a login and says what comes next, as
/// `login_transition` describes.
pub fn login_next<U, T, S>(step: LoginStep<U, T, S>, reply: LoginReply<U, T, S>) -> (result: (LoginStep<U, T, S>, LoginAction<U, T, S>))
    requires
        login_reply_fits(step, reply),
    ensures
        result == login_transition(step, reply),
{
    match reply {
        LoginReply::NoUser => (LoginStep::Verifying, fail_login(AuthError::InvalidCredential)),
        LoginReply::User(active, user_id) => if active {
            (LoginStep::IssuingToken(user_id), LoginAction::Call(LoginCall::IssueToken))
        } else {
            (LoginStep::Verifying, fail_login(AuthError::UserNotActive))
        },
        LoginReply::CredentialFailed(error) => (LoginStep::Verifying, fail_login(AuthError::from_credential_error(error))),
        LoginReply::TokenFailed(error) => (LoginStep::Verifying, fail_login(AuthError::from_token_error(error))),
        LoginReply::SessionRefused => (LoginStep::Verifying, fail_login(AuthError::InvalidSession)),
        LoginReply::StoreFailed(error) => (LoginStep::Verifying, fail_login(AuthError::from_session_store_error(error))),
        LoginReply::Token(token) => match step {
            LoginStep::IssuingToken(user_id) => (LoginStep::BuildingSession(user_id, token), LoginAction::Call(LoginCall::BuildSession)),
            _ => (LoginStep::Verifying, fail_login(AuthError::InvalidSession)),
        },
        LoginReply::Session(session) => match step {
            LoginStep::BuildingSession(user_id, token) => (
                LoginStep::StoringSession(user_id, token, session),
                LoginAction::Call(LoginCall::CreateSession),
            ),
            _ => (LoginStep::Verifying, fail_login(AuthError::InvalidSession)),
        },
        LoginReply::Done => match step {
            LoginStep::StoringSession(user_id, token, session) => (
                LoginStep::Verifying,
                LoginAction::Finish(LoginLog::Succeeded, Ok(LoginOutcome { user_id, token, session })),
            ),
            _ => (LoginStep::Verifying, fail_login(AuthError::InvalidSession)),
        },
    }
}

/// A call a session validation makes to the outside world.
#[derive(Debug, Clone, Copy, PartialEq, Eq, Structural)]
pub enum SessionCall {
    /// Derive the lookup key of the token.
    LookupKey,
    /// Read the session stored under the key and validate it now.
    GetSession,
    /// Expire the session in hand now.
    ExpireSession,
    /// Store the session in hand under the key; whatever the store
    /// answers, the validation goes on.
    UpdateSession,
}

/// What came back from the last call of a session validation; `S` is a
/// session as the store and the session rules give it.
#[derive(Debug, Clone, Copy, PartialEq, Eq)]
pub enum SessionReply<S> {
    Done,
    TokenFailed(TokenIssuerError),
    StoreFailed(SessionStoreError),
    /// No session is stored under the key.
    Missing,
    /// The session was found: whether it is valid (`None`) or how it failed
    /// validation, the session itself, and whether its status is already
    /// expired.
    Checked(Option<SessionCheckFailure>, S, bool),
    /// The session as expired now.
    Expired(S),
    /// The session rules refused to expire the session.
    ExpireRefused,
}

/// What a session validation writes to the product log when it ends.
#[derive(Debug, Clone, Copy, PartialEq, Eq)]
pub enum SessionLog<S> {
    /// `auth.session.validation_failed` with the error's category and code.
    ValidationFailed(AuthError),
    /// `session.expired` with the masked user id of this session.
    Expired(S),
    /// `session.revoked` with the masked user id of this session.
    Revoked(S),
}

/// Where a session validation stands: the call whose reply is awaited,
/// and the session in hand once there is one.
#[derive(Debug, Clone, Copy, PartialEq, Eq)]
pub enum SessionStep<S> {
    LookingUp,
    Reading,
    /// Expiring the session read.
    Expiring(S),
    /// Storing this expired copy.
    MarkingExpired(S),
}

/// What a session validation does next: make a call, or log (if at all)
/// and end with the valid session, whose user is the actor, or an error.
#[derive(Debug, PartialEq, Eq)]
pub enum SessionAction<S> {
    Call(SessionCall),
    Finish(Option<SessionLog<S>>, Result<S, AuthError>),
}

/// A session validation starts by deriving the token's lookup key.
pub open spec fn session_start<S>() -> (SessionStep<S>, SessionAction<S>) {
    (SessionStep::LookingUp, SessionAction::Call(SessionCall::LookupKey))
}

/// One step of a session validation: a token or store failure, or a
/// missing session, is logged as a failed validation and ends it with the
/// mapped error (or `SessionMissing`); a valid session is returned
/// unlogged; for an expired one the copy stored is the session itself if
/// its status is already expired, else the session expired now (or the
/// session itself where expiring it is refused), and after the store the
/// copy is logged and the validation refused as expired; a revoked one is
/// logged and refused; one not active is logged as a failed validation and
/// refused as an invalid session.
pub open spec fn session_transition<S>(step: SessionStep<S>, reply: SessionReply<S>) -> (SessionStep<S>, SessionAction<S>) {
    match step {
        SessionStep::MarkingExpired(expired) => (SessionStep::LookingUp, SessionAction::Finish(
            Some(SessionLog::Expired(expired)),
            Err(AuthError::SessionExpired),
        )),
        SessionStep::Expiring(session) => match reply {
            SessionReply::Expired(expired) => (SessionStep::MarkingExpired(expired), SessionAction::Call(SessionCall::UpdateSession)),
            _ => (SessionStep::MarkingExpired(session), SessionAction::Call(SessionCall::UpdateSession)),
        },
        _ => match reply {
            SessionReply::TokenFailed(error) => (SessionStep::LookingUp, SessionAction::Finish(
                Some(SessionLog::ValidationFailed(AuthError::from_token_error(error))),
                Err(AuthError::from_token_error(error)),
            )),
            SessionReply::StoreFailed(error) => (SessionStep::LookingUp, SessionAction::Finish(
                Some(SessionLog::ValidationFailed(AuthError::from_session_store_error(error))),
                Err(AuthError::from_session_store_error(error)),
            )),
            SessionReply::Missing => (SessionStep::LookingUp, SessionAction::Finish(
                Some(SessionLog::ValidationFailed(AuthError::SessionMissing)),
                Err(AuthError::SessionMissing),
            )),
            SessionReply::Checked(None, session, _) => (SessionStep::LookingUp, SessionAction::Finish(None, Ok(session))),
            SessionReply::Checked(Some(SessionCheckFailure::Expired), session, already_expired) => if already_expired {
                (SessionStep::MarkingExpired(session), SessionAction::Call(SessionCall::UpdateSession))
            } else {
                (SessionStep::Expiring(session), SessionAction::Call(SessionCall::ExpireSession))
            },
            SessionReply::Checked(Some(SessionCheckFailure::Revoked), session, _) => (SessionStep::LookingUp, SessionAction::Finish(
                Some(SessionLog::Revoked(session)),
                Err(AuthError::SessionRevoked),
            )),
            SessionReply::Checked(Some(SessionCheckFailure::NotActive), _, _) => (SessionStep::LookingUp, SessionAction::Finish(
                Some(SessionLog::ValidationFailed(AuthError::InvalidSession)),
                Err(AuthError::InvalidSession),
            )),
            _ => (SessionStep::Reading, SessionAction::Call(SessionCall::GetSession)),
        },
    }
}

/// Which replies answer the call a session validation awaits at a step.
pub open spec fn session_reply_fits<S>(step: SessionStep<S>, reply: SessionReply<S>) -> bool {
    match reply {
        SessionReply::Done => step is LookingUp || step is MarkingExpired,
        SessionReply::Checked(_, _, _) | SessionReply::Missing => step is Reading,
        SessionReply::Expired(_) | SessionReply::ExpireRefused => step is Expiring,
        _ => !(step is Expiring),
    }
}

/// Starts a session validation, as `session_start` describes.
pub fn session_begin<S>() -> (result: (SessionStep<S>, SessionAction<S>))
    ensures
        result == session_start::<S>(),
{
    (SessionStep::LookingUp, SessionAction::Call(SessionCall::LookupKey))
}

/// Takes the reply to the last call of a session validation and says what
/// comes next, as `session_transition` describes.
pub fn session_next<S>(step: SessionStep<S>, reply: SessionReply<S>) -> (result: (SessionStep<S>, SessionAction<S>))
    requires
        session_reply_fits(step, reply),
    ensures
        result == session_transition(step, reply),
{
    match step {
        SessionStep::MarkingExpired(expired) => (SessionStep::LookingUp, SessionAction::Finish(
            Some(SessionLog::Expired(expired)),
            Err(AuthError::SessionExpired),
        )),
        SessionStep::Expiring(session) => match reply {
            SessionReply::Expired(expired) => (SessionStep::MarkingExpired(expired), SessionAction::Call(SessionCall::UpdateSession)),
            _ => (SessionStep::MarkingExpired(session), SessionAction::Call(SessionCall::UpdateSession)),
        },
        _ => match reply {
            SessionReply::TokenFailed(error) => {
                let mapped = AuthError::from_token_error(error);
                (SessionStep::LookingUp, SessionAction::Finish(Some(SessionLog::ValidationFailed(mapped)), Err(mapped)))
            },
            SessionReply::StoreFailed(error) => {
                let mapped = AuthError::from_session_store_error(error);
                (SessionStep::LookingUp, SessionAction::Finish(Some(SessionLog::ValidationFailed(mapped)), Err(mapped)))
            },
            SessionReply::Missing => (SessionStep::LookingUp, SessionAction::Finish(
                Some(SessionLog::ValidationFailed(AuthError::SessionMissing)),
                Err(AuthError::SessionMissing),
            )),
            SessionReply::Checked(check, session, already_expired) => match check {
                None => (SessionStep::LookingUp, SessionAction::Finish(None, Ok(session))),
                Some(SessionCheckFailure::Expired) => if already_expired {
                    (SessionStep::MarkingExpired(session), SessionAction::Call(SessionCall::UpdateSession))
                } else {
                    (SessionStep::Expiring(session), SessionAction::Call(SessionCall::ExpireSession))
                },
                Some(SessionCheckFailure::Revoked) => (SessionStep::LookingUp, SessionAction::Finish(
                    Some(SessionLog::Revoked(session)),
                    Err(AuthError::SessionRevoked),
                )),
                Some(SessionCheckFailure::NotActive) => (SessionStep::LookingUp, SessionAction::Finish(
                    Some(SessionLog::ValidationFailed(AuthError::InvalidSession)),
                    Err(AuthError::InvalidSession),
                )),
            },
            _ => (SessionStep::Reading, SessionAction::Call(SessionCall::GetSession)),
        },
    }
}

/// Whether the reply can answer the call of the step, as
/// `login_reply_fits` says; a runner checks this before it hands the reply
/// on.
pub fn check_login_reply<U, T, S>(step: &LoginStep<U, T, S>, reply: &LoginReply<U, T, S>) -> (result: bool)
    ensures
        result == login_reply_fits(*step, *reply),
{
    match reply {
        LoginReply::NoUser | LoginReply::User(_, _) => match step {
            LoginStep::Verifying => true,
            _ => false,
        },
        LoginReply::Token(_) => match step {
            LoginStep::IssuingToken(_) => true,
            _ => false,
        },
        LoginReply::Session(_) => match step {
            LoginStep::BuildingSession(_, _) => true,
            _ => false,
        },
        LoginReply::Done => match step {
            LoginStep::StoringSession(_, _, _) => true,
            _ => false,
        },
        _ => true,
    }
}

/// Whether the reply can answer the call of the step, as
/// `session_reply_fits` says; a runner checks this before it hands the
/// reply on.
pub fn check_session_reply<S>(step: &SessionStep<S>, reply: &SessionReply<S>) -> (result: bool)
    ensures
        result == session_reply_fits(*step, *reply),
{
    let expiring = match step {
        SessionStep::Expiring(_) => true,
        _ => false,
    };
    match reply {
        SessionReply::Done => match step {
            SessionStep::LookingUp | SessionStep::MarkingExpired(_) => true,
            _ => false,
        },
        SessionReply::Checked(_, _, _) | SessionReply::Missing => match step {
            SessionStep::Reading => true,
            _ => false,
        },
        SessionReply::Expired(_) | SessionReply::ExpireRefused => expiring,
        _ => !expiring,
    }
}

} // verus!
