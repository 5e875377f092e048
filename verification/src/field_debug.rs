use vstd::prelude::*;
use crate::domain_errors::{FieldDebugError, FieldDebugSessionState};
use crate::collaborator_errors::{FieldDebugPermissionCheckError, FieldDebugSessionRepositoryError};
use vstd::string::StringSliceAdditionalSpecFns;
use crate::text::{ascii_lowercase, ascii_lowercase_chars, chars_contain, contains_control, contains_text, has_control_char, mask_id, masked_id, trim_text, trimmed};
use crate::text::{opt_sstr_view, opt_str_view, opt_to_string, opt_ref_view, pairs_view, strings_view};

verus! {
#[derive(Debug, Clone, Copy, PartialEq, Eq, Structural)]
pub struct FieldDebugSessionPolicy {
    max_ttl_seconds: u32,
}

impl View for FieldDebugSessionPolicy {
    type V = u32;

    closed spec fn view(&self) -> u32 {
        self.max_ttl_seconds
    }
}

impl FieldDebugSessionPolicy {
    pub fn new(max_ttl_seconds: u32) -> (result: Result<Self, FieldDebugUsecaseError>)
        ensures
            max_ttl_seconds == 0 ==> result == Err::<Self, FieldDebugUsecaseError>(FieldDebugUsecaseError::InvalidInput),
            max_ttl_seconds != 0 ==> result is Ok && result->Ok_0@ == max_ttl_seconds,
    {
        if max_ttl_seconds == 0 {
            return Err(FieldDebugUsecaseError::InvalidInput);
        }
        Ok(Self { max_ttl_seconds })
    }

    pub fn max_ttl_seconds(self) -> (result: u32)
        ensures
            result == self@,
    {
        self.max_ttl_seconds
    }
}

impl Default for FieldDebugSessionPolicy {
    fn default() -> (result: Self)
        ensures
            result@ == 900,
    {
        Self { max_ttl_seconds: 900 }
    }
}

#[derive(Debug, Clone, PartialEq, Eq)]
pub struct RequestFieldDebugSessionInput {
    actor_user_id: String,
    workspace_id: String,
    session_id: String,
    scope: Option<String>,
    ttl_seconds: Option<u32>,
}

impl View for RequestFieldDebugSessionInput {
    type V = (Seq<char>, Seq<char>, Seq<char>, Option<Seq<char>>, Option<u32>);

    closed spec fn view(&self) -> (Seq<char>, Seq<char>, Seq<char>, Option<Seq<char>>, Option<u32>) {
        (self.actor_user_id@, self.workspace_id@, self.session_id@, opt_str_view(self.scope), self.ttl_seconds)
    }
}

impl RequestFieldDebugSessionInput {
    pub fn new(actor_user_id: &str, workspace_id: &str, session_id: &str, scope: Option<&str>, ttl_seconds: Option<u32>) -> (result: Self)
        ensures
            result@ == (actor_user_id@, workspace_id@, session_id@, opt_ref_view(scope), ttl_seconds),
    {
        Self {
            actor_user_id: actor_user_id.to_string(),
            workspace_id: workspace_id.to_string(),
            session_id: session_id.to_string(),
            scope: opt_to_string(scope),
            ttl_seconds: ttl_seconds,
        }
    }

}

#[derive(Debug, Clone, PartialEq, Eq)]
pub struct ApproveFieldDebugSessionInput {
    admin_user_id: String,
    workspace_id: String,
    session_id: String,
}

impl View for ApproveFieldDebugSessionInput {
    type V = (Seq<char>, Seq<char>, Seq<char>);

    closed spec fn view(&self) -> (Seq<char>, Seq<char>, Seq<char>) {
        (self.admin_user_id@, self.workspace_id@, self.session_id@)
    }
}

impl ApproveFieldDebugSessionInput {
    pub fn new(admin_user_id: &str, workspace_id: &str, session_id: &str) -> (result: Self)
        ensures
            result@ == (admin_user_id@, workspace_id@, session_id@),
    {
        Self {
            admin_user_id: admin_user_id.to_string(),
            workspace_id: workspace_id.to_string(),
            session_id: session_id.to_string(),
        }
    }

}

#[derive(Debug, Clone, PartialEq, Eq)]
pub struct ExpireFieldDebugSessionInput {
    admin_user_id: String,
    workspace_id: String,
    session_id: String,
}

impl View for ExpireFieldDebugSessionInput {
    type V = (Seq<char>, Seq<char>, Seq<char>);

    closed spec fn view(&self) -> (Seq<char>, Seq<char>, Seq<char>) {
        (self.admin_user_id@, self.workspace_id@, self.session_id@)
    }
}

impl ExpireFieldDebugSessionInput {
    pub fn new(admin_user_id: &str, workspace_id: &str, session_id: &str) -> (result: Self)
        ensures
            result@ == (admin_user_id@, workspace_id@, session_id@),
    {
        Self {
            admin_user_id: admin_user_id.to_string(),
            workspace_id: workspace_id.to_string(),
            session_id: session_id.to_string(),
        }
    }

}

#[derive(Debug, Clone, PartialEq, Eq)]
pub struct RevokeFieldDebugSessionInput {
    admin_user_id: String,
    workspace_id: String,
    session_id: String,
}

impl View for RevokeFieldDebugSessionInput {
    type V = (Seq<char>, Seq<char>, Seq<char>);

    closed spec fn view(&self) -> (Seq<char>, Seq<char>, Seq<char>) {
        (self.admin_user_id@, self.workspace_id@, self.session_id@)
    }
}

impl RevokeFieldDebugSessionInput {
    pub fn new(admin_user_id: &str, workspace_id: &str, session_id: &str) -> (result: Self)
        ensures
            result@ == (admin_user_id@, workspace_id@, session_id@),
    {
        Self {
            admin_user_id: admin_user_id.to_string(),
            workspace_id: workspace_id.to_string(),
            session_id: session_id.to_string(),
        }
    }

}

#[derive(Debug, Clone, PartialEq, Eq)]
pub struct FieldDebugDiagnosticInput {
    workspace_id: String,
    session_id: String,
    event_name: String,
    fields: Vec<(String, String)>,
}

impl View for FieldDebugDiagnosticInput {
    type V = (Seq<char>, Seq<char>, Seq<char>, Seq<(Seq<char>, Seq<char>)>);

    closed spec fn view(&self) -> (Seq<char>, Seq<char>, Seq<char>, Seq<(Seq<char>, Seq<char>)>) {
        (self.workspace_id@, self.session_id@, self.event_name@, pairs_view(self.fields@))
    }
}

#[derive(Debug, Clone, PartialEq, Eq)]
pub struct FieldDebugSessionOutput {
    status: FieldDebugSessionOutputStatus,
    session_id: String,
    scope: Option<String>,
    expires_at_millis: Option<u64>,
}

impl View for FieldDebugSessionOutput {
    type V = (FieldDebugSessionOutputStatus, Seq<char>, Option<Seq<char>>, Option<u64>);

    closed spec fn view(&self) -> (FieldDebugSessionOutputStatus, Seq<char>, Option<Seq<char>>, Option<u64>) {
        (self.status, self.session_id@, opt_str_view(self.scope), self.expires_at_millis)
    }
}

impl FieldDebugSessionOutput {
    pub fn new(status: FieldDebugSessionOutputStatus, session_id: &str, scope: Option<&str>, expires_at_millis: Option<u64>) -> (result: Self)
        ensures
            result@ == (status, session_id@, opt_ref_view(scope), expires_at_millis),
    {
        Self {
            status: status,
            session_id: session_id.to_string(),
            scope: opt_to_string(scope),
            expires_at_millis: expires_at_millis,
        }
    }

    pub fn status(&self) -> (result: FieldDebugSessionOutputStatus)
        ensures
            result == self@.0,
    {
        self.status
    }

    pub fn session_id(&self) -> (result: &str)
        ensures
            result@ == self@.1,
    {
        self.session_id.as_str()
    }

    pub fn scope(&self) -> (result: Option<&str>)
        ensures
            match result { Some(s) => Some(s@), None => None::<Seq<char>> } == self@.2,
    {
        match &self.scope {
            Some(s) => Some(s.as_str()),
            None => None,
        }
    }

    pub fn expires_at_millis(&self) -> (result: Option<u64>)
        ensures
            result == self@.3,
    {
        self.expires_at_millis
    }

}

#[derive(Debug, Clone, Copy, PartialEq, Eq, Structural)]
pub enum FieldDebugSessionOutputStatus {
    Requested,
    Approved,
    Denied,
    Active,
    Expired,
    Revoked,
}

#[derive(Debug, Clone, Copy, PartialEq, Eq, Structural)]
pub enum FieldDebugUsecaseError {
    InvalidInput,
    MissingScope,
    MissingTtl,
    TtlExceedsPolicy,
    Unauthorized,
    SessionNotFound,
    InactiveSession,
    ExpiredSession,
    NotExpired,
    SensitiveField,
    StoreUnavailable,
    Conflict,
}

impl FieldDebugUsecaseError {
    pub fn code(self) -> (result: &'static str)
        ensures
            result@ == match self {
                Self::InvalidInput => "FIELD_DEBUG_INVALID_INPUT"@,
                Self::MissingScope => "FIELD_DEBUG_MISSING_SCOPE"@,
                Self::MissingTtl => "FIELD_DEBUG_MISSING_TTL"@,
                Self::TtlExceedsPolicy => "FIELD_DEBUG_TTL_EXCEEDS_POLICY"@,
                Self::Unauthorized => "FIELD_DEBUG_UNAUTHORIZED"@,
                Self::SessionNotFound => "FIELD_DEBUG_SESSION_NOT_FOUND"@,
                Self::InactiveSession => "FIELD_DEBUG_INACTIVE_SESSION"@,
                Self::ExpiredSession => "FIELD_DEBUG_EXPIRED_SESSION"@,
                Self::NotExpired => "FIELD_DEBUG_NOT_EXPIRED"@,
                Self::SensitiveField => "FIELD_DEBUG_SENSITIVE_FIELD"@,
                Self::StoreUnavailable => "FIELD_DEBUG_STORE_UNAVAILABLE"@,
                Self::Conflict => "FIELD_DEBUG_CONFLICT"@,
            },
    {
        match self {
            Self::InvalidInput => "FIELD_DEBUG_INVALID_INPUT",
            Self::MissingScope => "FIELD_DEBUG_MISSING_SCOPE",
            Self::MissingTtl => "FIELD_DEBUG_MISSING_TTL",
            Self::TtlExceedsPolicy => "FIELD_DEBUG_TTL_EXCEEDS_POLICY",
            Self::Unauthorized => "FIELD_DEBUG_UNAUTHORIZED",
            Self::SessionNotFound => "FIELD_DEBUG_SESSION_NOT_FOUND",
            Self::InactiveSession => "FIELD_DEBUG_INACTIVE_SESSION",
            Self::ExpiredSession => "FIELD_DEBUG_EXPIRED_SESSION",
            Self::NotExpired => "FIELD_DEBUG_NOT_EXPIRED",
            Self::SensitiveField => "FIELD_DEBUG_SENSITIVE_FIELD",
            Self::StoreUnavailable => "FIELD_DEBUG_STORE_UNAVAILABLE",
            Self::Conflict => "FIELD_DEBUG_CONFLICT",
        }
    }
}

#[derive(Debug, Clone, PartialEq, Eq)]
pub struct FieldDebugProductEvent {
    event_name: &'static str,
    masked_admin_id: String,
    scope_id: String,
    ttl_bucket: &'static str,
    error_code: Option<&'static str>,
}

impl View for FieldDebugProductEvent {
    type V = (Seq<char>, Seq<char>, Seq<char>, Seq<char>, Option<Seq<char>>);

    closed spec fn view(&self) -> (Seq<char>, Seq<char>, Seq<char>, Seq<char>, Option<Seq<char>>) {
        (self.event_name@, self.masked_admin_id@, self.scope_id@, self.ttl_bucket@, opt_sstr_view(self.error_code))
    }
}

impl FieldDebugProductEvent {
    pub fn event_name(&self) -> (result: &'static str)
        ensures
            result@ == self@.0,
    {
        self.event_name
    }

    pub fn masked_admin_id(&self) -> (result: &str)
        ensures
            result@ == self@.1,
    {
        self.masked_admin_id.as_str()
    }

    pub fn scope_id(&self) -> (result: &str)
        ensures
            result@ == self@.2,
    {
        self.scope_id.as_str()
    }

    pub fn ttl_bucket(&self) -> (result: &'static str)
        ensures
            result@ == self@.3,
    {
        self.ttl_bucket
    }

    pub fn error_code(&self) -> (result: Option<&'static str>)
        ensures
            opt_sstr_view(result) == self@.4,
    {
        self.error_code
    }

}

#[derive(Debug, Clone, PartialEq, Eq)]
pub struct FieldDebugLogEvent {
    event_name: &'static str,
    scope: String,
    fields: Vec<(String, String)>,
}

impl View for FieldDebugLogEvent {
    type V = (Seq<char>, Seq<char>, Seq<(Seq<char>, Seq<char>)>);

    closed spec fn view(&self) -> (Seq<char>, Seq<char>, Seq<(Seq<char>, Seq<char>)>) {
        (self.event_name@, self.scope@, pairs_view(self.fields@))
    }
}

impl FieldDebugLogEvent {
    pub fn event_name(&self) -> (result: &'static str)
        ensures
            result@ == self@.0,
    {
        self.event_name
    }

    pub fn scope(&self) -> (result: &str)
        ensures
            result@ == self@.1,
    {
        self.scope.as_str()
    }

}

#[derive(Debug, Clone, PartialEq, Eq)]
pub struct FieldDebugDevelopmentEvent {
    event_name: &'static str,
}

impl View for FieldDebugDevelopmentEvent {
    type V = Seq<char>;

    closed spec fn view(&self) -> Seq<char> {
        self.event_name@
    }
}

impl FieldDebugDevelopmentEvent {
    pub fn new(event_name: &'static str) -> (result: Self)
        ensures
            result@ == event_name@,
    {
        Self {
            event_name: event_name,
        }
    }

    pub fn event_name(&self) -> (result: &'static str)
        ensures
            result@ == self@,
    {
        self.event_name
    }

}

pub trait FieldDebugUsecaseLogger {
    fn write_product(&mut self, event: FieldDebugProductEvent);
    fn write_field_debug(&mut self, event: FieldDebugLogEvent);
    fn write_development(&mut self, event: FieldDebugDevelopmentEvent);
}

#[derive(Debug, Clone, Copy, PartialEq, Eq, Structural)]
pub struct RequestFieldDebugSessionUsecase {
    policy: FieldDebugSessionPolicy,
}

impl View for RequestFieldDebugSessionUsecase {
    type V = FieldDebugSessionPolicy;

    closed spec fn view(&self) -> FieldDebugSessionPolicy {
        self.policy
    }
}

impl RequestFieldDebugSessionUsecase {
    pub fn new(policy: FieldDebugSessionPolicy) -> (result: Self)
        ensures
            result@ == policy,
    {
        Self { policy }
    }
}

#[derive(Debug, Clone, Copy, PartialEq, Eq, Structural)]
pub struct ApproveFieldDebugSessionUsecase {
    policy: FieldDebugSessionPolicy,
}

impl View for ApproveFieldDebugSessionUsecase {
    type V = FieldDebugSessionPolicy;

    closed spec fn view(&self) -> FieldDebugSessionPolicy {
        self.policy
    }
}

impl ApproveFieldDebugSessionUsecase {
    pub fn new(policy: FieldDebugSessionPolicy) -> (result: Self)
        ensures
            result@ == policy,
    {
        Self { policy }
    }
}

#[derive(Debug, Clone, Copy, PartialEq, Eq, Structural)]
pub struct ExpireFieldDebugSessionUsecase {
    policy: FieldDebugSessionPolicy,
}

impl View for ExpireFieldDebugSessionUsecase {
    type V = FieldDebugSessionPolicy;

    closed spec fn view(&self) -> FieldDebugSessionPolicy {
        self.policy
    }
}

impl ExpireFieldDebugSessionUsecase {
    pub fn new(policy: FieldDebugSessionPolicy) -> (result: Self)
        ensures
            result@ == policy,
    {
        Self { policy }
    }
}

#[derive(Debug, Clone, Copy, PartialEq, Eq, Structural)]
pub struct RevokeFieldDebugSessionUsecase {
    policy: FieldDebugSessionPolicy,
}

impl View for RevokeFieldDebugSessionUsecase {
    type V = FieldDebugSessionPolicy;

    closed spec fn view(&self) -> FieldDebugSessionPolicy {
        self.policy
    }
}

impl RevokeFieldDebugSessionUsecase {
    pub fn new(policy: FieldDebugSessionPolicy) -> (result: Self)
        ensures
            result@ == policy,
    {
        Self { policy }
    }
}

#[derive(Debug, Clone, Copy, PartialEq, Eq, Structural)]
pub struct FieldDebugDiagnosticUsecase;

impl FieldDebugDiagnosticUsecase {
    pub fn new() -> (result: Self)
        ensures
            result == (FieldDebugDiagnosticUsecase),
    {
        FieldDebugDiagnosticUsecase
    }
}

impl FieldDebugDiagnosticInput {
    pub fn new(workspace_id: &str, session_id: &str, event_name: &str, fields: Vec<(&str, &str)>) -> (result: Self)
        ensures
            result@ == (workspace_id@, session_id@, event_name@, fields@.map_values(|p: (&str, &str)| (p.0@, p.1@))),
    {
        let mut owned: Vec<(String, String)> = Vec::new();
        let mut i: usize = 0;
        while i < fields.len()
            invariant
                i <= fields.len(),
                pairs_view(owned@) =~= fields@.subrange(0, i as int).map_values(|p: (&str, &str)| (p.0@, p.1@)),
            decreases fields.len() - i,
        {
            let (key, value) = fields[i];
            let ghost before = owned@;
            owned.push((key.to_string(), value.to_string()));
            assert(fields@.subrange(0, i + 1) =~= fields@.subrange(0, i as int).push(fields@[i as int]));
            assert(pairs_view(owned@) =~= pairs_view(before).push((key@, value@)));
            i = i + 1;
        }
        assert(fields@.subrange(0, fields.len() as int) =~= fields@);
        Self {
            workspace_id: workspace_id.to_string(),
            session_id: session_id.to_string(),
            event_name: event_name.to_string(),
            fields: owned,
        }
    }
}

/// The texts that no diagnostic may carry, matched in ASCII lower case.
pub open spec fn has_sensitive_fragment(text: Seq<char>) -> bool {
    let lower = ascii_lowercase(text);
    ||| contains_text(lower, "password"@)
    ||| contains_text(lower, "token"@)
    ||| contains_text(lower, "secret"@)
    ||| contains_text(lower, "credential"@)
    ||| contains_text(lower, "document_body"@)
    ||| contains_text(lower, "comment_body"@)
    ||| contains_text(lower, "document body"@)
    ||| contains_text(lower, "comment body"@)
    ||| contains_text(lower, "asset content"@)
    ||| contains_text(lower, "asset bytes"@)
    ||| contains_text(lower, "request body"@)
    ||| contains_text(lower, "response body"@)
    ||| contains_text(lower, "raw body"@)
    ||| contains_text(lower, "content"@)
}

/// Whether a text names something sensitive.
pub fn contains_sensitive_fragment(value: &str) -> (result: bool)
    ensures
        result == has_sensitive_fragment(value@),
{
    let lower = ascii_lowercase_chars(value);
    chars_contain(&lower, "password")
        || chars_contain(&lower, "token")
        || chars_contain(&lower, "secret")
        || chars_contain(&lower, "credential")
        || chars_contain(&lower, "document_body")
        || chars_contain(&lower, "comment_body")
        || chars_contain(&lower, "document body")
        || chars_contain(&lower, "comment body")
        || chars_contain(&lower, "asset content")
        || chars_contain(&lower, "asset bytes")
        || chars_contain(&lower, "request body")
        || chars_contain(&lower, "response body")
        || chars_contain(&lower, "raw body")
        || chars_contain(&lower, "content")
}

/// What a diagnostic field is checked to: both sides trimmed and non-empty,
/// no control character in the key, nothing sensitive on either side.
pub open spec fn diagnostic_field_outcome(key: Seq<char>, value: Seq<char>) -> Result<(Seq<char>, Seq<char>), FieldDebugUsecaseError> {
    let key = trimmed(key);
    let value = trimmed(value);
    if key.len() == 0 || value.len() == 0 || has_control_char(key) {
        Err(FieldDebugUsecaseError::InvalidInput)
    } else if has_sensitive_fragment(key) || has_sensitive_fragment(value) {
        Err(FieldDebugUsecaseError::SensitiveField)
    } else {
        Ok((key, value))
    }
}

pub fn validate_diagnostic_field(key: &str, value: &str) -> (result: Result<(String, String), FieldDebugUsecaseError>)
    ensures
        match result {
            Ok(field) => diagnostic_field_outcome(key@, value@) == Ok::<(Seq<char>, Seq<char>), FieldDebugUsecaseError>((field.0@, field.1@)),
            Err(error) => diagnostic_field_outcome(key@, value@) == Err::<(Seq<char>, Seq<char>), FieldDebugUsecaseError>(error),
        },
{
    let key = trim_text(key);
    let value = trim_text(value);
    if key.is_empty() || value.is_empty() || contains_control(key) {
        return Err(FieldDebugUsecaseError::InvalidInput);
    }
    if contains_sensitive_fragment(key) || contains_sensitive_fragment(value) {
        return Err(FieldDebugUsecaseError::SensitiveField);
    }
    Ok((key.to_string(), value.to_string()))
}

/// What a log event name is checked to: trimmed and non-empty, with no
/// control character and nothing sensitive.
pub open spec fn log_token_is_valid(value: Seq<char>) -> bool {
    let value = trimmed(value);
    value.len() != 0 && !has_control_char(value) && !has_sensitive_fragment(value)
}

pub fn validate_log_token(value: &str) -> (result: Result<(), FieldDebugUsecaseError>)
    ensures
        result is Ok <==> log_token_is_valid(value@),
        result is Err ==> result == Err::<(), FieldDebugUsecaseError>(FieldDebugUsecaseError::InvalidInput),
{
    let value = trim_text(value);
    if value.is_empty() || contains_control(value) || contains_sensitive_fragment(value) {
        return Err(FieldDebugUsecaseError::InvalidInput);
    }
    Ok(())
}

/// The fields of a diagnostic, each checked in turn; the first refusal is
/// the answer.
pub open spec fn diagnostic_fields_outcome(fields: Seq<(Seq<char>, Seq<char>)>) -> Result<Seq<(Seq<char>, Seq<char>)>, FieldDebugUsecaseError>
    decreases fields.len(),
{
    if fields.len() == 0 {
        Ok(Seq::empty())
    } else {
        match diagnostic_fields_outcome(fields.drop_last()) {
            Err(error) => Err(error),
            Ok(done) => match diagnostic_field_outcome(fields.last().0, fields.last().1) {
                Err(error) => Err(error),
                Ok(field) => Ok(done.push(field)),
            },
        }
    }
}

/// What a diagnostic's event name and fields are checked to: the event name
/// first, then the fields in order.
pub open spec fn diagnostic_input_outcome(event_name: Seq<char>, fields: Seq<(Seq<char>, Seq<char>)>) -> Result<Seq<(Seq<char>, Seq<char>)>, FieldDebugUsecaseError> {
    if !log_token_is_valid(event_name) {
        Err(FieldDebugUsecaseError::InvalidInput)
    } else {
        diagnostic_fields_outcome(fields)
    }
}

/// Checks a diagnostic's event name and fields and gives the fields as they
/// are logged.
pub fn validate_diagnostic_input(input: &FieldDebugDiagnosticInput) -> (result: Result<Vec<(String, String)>, FieldDebugUsecaseError>)
    ensures
        match result {
            Ok(fields) => diagnostic_input_outcome(input@.2, input@.3) == Ok::<Seq<(Seq<char>, Seq<char>)>, FieldDebugUsecaseError>(pairs_view(fields@)),
            Err(error) => diagnostic_input_outcome(input@.2, input@.3) == Err::<Seq<(Seq<char>, Seq<char>)>, FieldDebugUsecaseError>(error),
        },
{
    validate_log_token(input.event_name.as_str())?;
    let mut fields: Vec<(String, String)> = Vec::new();
    assert(input@.3.subrange(0, 0) =~= Seq::<(Seq<char>, Seq<char>)>::empty());
    assert(pairs_view(fields@) =~= Seq::<(Seq<char>, Seq<char>)>::empty());
    let mut i: usize = 0;
    while i < input.fields.len()
        invariant
            i <= input.fields.len(),
            input@.3 == pairs_view(input.fields@),
            log_token_is_valid(input@.2),
            diagnostic_fields_outcome(input@.3.subrange(0, i as int)) == Ok::<Seq<(Seq<char>, Seq<char>)>, FieldDebugUsecaseError>(pairs_view(fields@)),
        decreases input.fields.len() - i,
    {
        let (key, value) = &input.fields[i];
        assert(input@.3.subrange(0, i + 1).drop_last() =~= input@.3.subrange(0, i as int));
        assert(input@.3.subrange(0, i + 1).last() == (key@, value@));
        match validate_diagnostic_field(key.as_str(), value.as_str()) {
            Ok(field) => {
                let ghost before = fields@;
                let ghost field_view = (field.0@, field.1@);
                fields.push(field);
                assert(pairs_view(fields@) =~= pairs_view(before).push(field_view));
            },
            Err(error) => {
                proof {
                    lemma_first_refusal_stays(input@.3, i as int + 1);
                }
                return Err(error);
            },
        }
        i = i + 1;
    }
    assert(input@.3.subrange(0, input.fields.len() as int) =~= input@.3);
    Ok(fields)
}

/// A refusal among the first `k` fields is the refusal of all of them.
proof fn lemma_first_refusal_stays(fields: Seq<(Seq<char>, Seq<char>)>, k: int)
    requires
        0 <= k <= fields.len(),
        diagnostic_fields_outcome(fields.subrange(0, k)) is Err,
    ensures
        diagnostic_fields_outcome(fields) == diagnostic_fields_outcome(fields.subrange(0, k)),
    decreases fields.len() - k,
{
    if k < fields.len() {
        assert(fields.subrange(0, k + 1).drop_last() =~= fields.subrange(0, k));
        lemma_first_refusal_stays(fields, k + 1);
    } else {
        assert(fields.subrange(0, k) =~= fields);
    }
}

/// The bucket a session's time to live is reported in.
pub open spec fn ttl_bucket_text(ttl_seconds: Option<u32>) -> Seq<char> {
    match ttl_seconds {
        None => "missing"@,
        Some(seconds) => if seconds <= 300 {
            "0_300s"@
        } else if seconds <= 900 {
            "301_900s"@
        } else {
            "over_900s"@
        },
    }
}

pub fn ttl_bucket(ttl_seconds: Option<u32>) -> (result: &'static str)
    ensures
        result@ == ttl_bucket_text(ttl_seconds),
{
    match ttl_seconds {
        None => "missing",
        Some(seconds) => if seconds <= 300 {
            "0_300s"
        } else if seconds <= 900 {
            "301_900s"
        } else {
            "over_900s"
        },
    }
}

impl FieldDebugProductEvent {
    /// A product event with the admin masked, a missing scope written as
    /// "missing" and the time to live given by its bucket.
    pub fn new(event_name: &'static str, admin_id: &str, scope_id: Option<&str>, ttl_seconds: Option<u32>, error_code: Option<&'static str>) -> (result: Self)
        requires
            admin_id.len() > 4 ==> vstd::utf8::is_char_boundary(admin_id.spec_bytes(), admin_id.len() - 4),
        ensures
            result@ == (
                event_name@,
                masked_id(admin_id),
                match scope_id { Some(scope) => scope@, None => "missing"@ },
                ttl_bucket_text(ttl_seconds),
                opt_sstr_view(error_code),
            ),
    {
        let scope = match scope_id {
            Some(scope) => scope.to_string(),
            None => "missing".to_string(),
        };
        Self {
            event_name,
            masked_admin_id: mask_id(admin_id),
            scope_id: scope,
            ttl_bucket: ttl_bucket(ttl_seconds),
            error_code,
        }
    }
}

impl FieldDebugLogEvent {
    /// The diagnostic event logged for a session's scope.
    pub fn new(scope: &str, fields: Vec<(String, String)>) -> (result: Self)
        ensures
            result@ == ("field_debug.diagnostic"@, scope@, pairs_view(fields@)),
    {
        Self { event_name: "field_debug.diagnostic", scope: scope.to_string(), fields }
    }

    pub fn fields(&self) -> (result: Vec<(&str, &str)>)
        ensures
            result@.map_values(|p: (&str, &str)| (p.0@, p.1@)) == self@.2,
    {
        let mut result: Vec<(&str, &str)> = Vec::new();
        let mut i: usize = 0;
        while i < self.fields.len()
            invariant
                i <= self.fields.len(),
                self@.2 == pairs_view(self.fields@),
                result@.map_values(|p: (&str, &str)| (p.0@, p.1@)) =~= pairs_view(self.fields@.subrange(0, i as int)),
            decreases self.fields.len() - i,
        {
            let (key, value) = &self.fields[i];
            let ghost before = result@;
            result.push((key.as_str(), value.as_str()));
            assert(self.fields@.subrange(0, i + 1) =~= self.fields@.subrange(0, i as int).push(self.fields@[i as int]));
            assert(result@.map_values(|p: (&str, &str)| (p.0@, p.1@)) =~= before.map_values(|p: (&str, &str)| (p.0@, p.1@)).push((key@, value@)));
            i = i + 1;
        }
        assert(self.fields@.subrange(0, self.fields.len() as int) =~= self.fields@);
        result
    }
}

/// A requested time to live is refused when it exceeds the policy's maximum.
pub fn check_requested_ttl(ttl_seconds: Option<u32>, policy: FieldDebugSessionPolicy) -> (result: Result<(), FieldDebugUsecaseError>)
    ensures
        match ttl_seconds {
            Some(seconds) if seconds > policy@ => result == Err::<(), FieldDebugUsecaseError>(FieldDebugUsecaseError::TtlExceedsPolicy),
            _ => result is Ok,
        },
{
    match ttl_seconds {
        Some(seconds) => if seconds > policy.max_ttl_seconds() {
            Err(FieldDebugUsecaseError::TtlExceedsPolicy)
        } else {
            Ok(())
        },
        None => Ok(()),
    }
}

/// A stored session must have a time to live within the policy before an
/// admin acts on it.
pub fn validate_session_ttl(ttl_seconds: Option<u32>, policy: FieldDebugSessionPolicy) -> (result: Result<(), FieldDebugUsecaseError>)
    ensures
        match ttl_seconds {
            None => result == Err::<(), FieldDebugUsecaseError>(FieldDebugUsecaseError::MissingTtl),
            Some(seconds) => if seconds > policy@ {
                result == Err::<(), FieldDebugUsecaseError>(FieldDebugUsecaseError::TtlExceedsPolicy)
            } else {
                result is Ok
            },
        },
{
    match ttl_seconds {
        None => Err(FieldDebugUsecaseError::MissingTtl),
        Some(seconds) => if seconds > policy.max_ttl_seconds() {
            Err(FieldDebugUsecaseError::TtlExceedsPolicy)
        } else {
            Ok(())
        },
    }
}

/// A diagnostic is logged only for a session that is active, still within
/// its time to live, and scoped; the first failing condition is the answer.
pub fn check_diagnostic_session(status: FieldDebugSessionOutputStatus, active_now: bool, has_scope: bool) -> (result: Result<(), FieldDebugUsecaseError>)
    ensures
        status != FieldDebugSessionOutputStatus::Active ==> result == Err::<(), FieldDebugUsecaseError>(FieldDebugUsecaseError::InactiveSession),
        status == FieldDebugSessionOutputStatus::Active && !active_now ==> result == Err::<(), FieldDebugUsecaseError>(FieldDebugUsecaseError::ExpiredSession),
        status == FieldDebugSessionOutputStatus::Active && active_now && !has_scope ==> result == Err::<(), FieldDebugUsecaseError>(FieldDebugUsecaseError::MissingScope),
        status == FieldDebugSessionOutputStatus::Active && active_now && has_scope ==> result is Ok,
{
    if status != FieldDebugSessionOutputStatus::Active {
        return Err(FieldDebugUsecaseError::InactiveSession);
    }
    if !active_now {
        return Err(FieldDebugUsecaseError::ExpiredSession);
    }
    if !has_scope {
        return Err(FieldDebugUsecaseError::MissingScope);
    }
    Ok(())
}

/// Whether a logged diagnostic field is safe to log: both sides non-empty,
/// no control character in the key, nothing sensitive on either side.
pub open spec fn field_is_safe(field: (Seq<char>, Seq<char>)) -> bool {
    &&& field.0.len() > 0
    &&& field.1.len() > 0
    &&& !has_control_char(field.0)
    &&& !has_sensitive_fragment(field.0)
    &&& !has_sensitive_fragment(field.1)
}

proof fn lemma_fields_outcome_safe(fields: Seq<(Seq<char>, Seq<char>)>)
    ensures
        diagnostic_fields_outcome(fields) matches Ok(logged) ==> logged.len() == fields.len()
            && forall|k: int| 0 <= k < logged.len() ==> #[trigger] logged[k] == (trimmed(fields[k].0), trimmed(fields[k].1))
                && field_is_safe(logged[k]),
    decreases fields.len(),
{
    if fields.len() > 0 {
        lemma_fields_outcome_safe(fields.drop_last());
        if let Ok(logged) = diagnostic_fields_outcome(fields) {
            let done = diagnostic_fields_outcome(fields.drop_last())->Ok_0;
            assert forall|k: int| 0 <= k < logged.len() implies #[trigger] logged[k] == (trimmed(fields[k].0), trimmed(fields[k].1))
                && field_is_safe(logged[k]) by {
                if k < done.len() {
                    assert(logged[k] == done[k]);
                    assert(fields.drop_last()[k] == fields[k]);
                }
            }
        }
    }
}

/// What a diagnostic logs is safe: when its event name and fields are
/// accepted, each field is logged trimmed, in order, with both sides
/// non-empty, no control character in its key and nothing sensitive.
pub proof fn lemma_logged_fields_are_safe(event_name: Seq<char>, fields: Seq<(Seq<char>, Seq<char>)>)
    ensures
        diagnostic_input_outcome(event_name, fields) matches Ok(logged) ==> {
            &&& log_token_is_valid(event_name)
            &&& logged.len() == fields.len()
            &&& forall|k: int| 0 <= k < logged.len() ==> #[trigger] logged[k] == (trimmed(fields[k].0), trimmed(fields[k].1))
                && field_is_safe(logged[k])
        },
{
    lemma_fields_outcome_safe(fields);
}

impl FieldDebugSessionOutputStatus {
    /// How this usecase reports each field debug session state.
    pub fn from_state(state: FieldDebugSessionState) -> (result: Self)
        ensures
            result == match state {
                FieldDebugSessionState::Requested => Self::Requested,
                FieldDebugSessionState::Approved => Self::Approved,
                FieldDebugSessionState::Denied => Self::Denied,
                FieldDebugSessionState::Active => Self::Active,
                FieldDebugSessionState::Expired => Self::Expired,
                FieldDebugSessionState::Revoked => Self::Revoked,
            },
    {
        match state {
            FieldDebugSessionState::Requested => Self::Requested,
            FieldDebugSessionState::Approved => Self::Approved,
            FieldDebugSessionState::Denied => Self::Denied,
            FieldDebugSessionState::Active => Self::Active,
            FieldDebugSessionState::Expired => Self::Expired,
            FieldDebugSessionState::Revoked => Self::Revoked,
        }
    }
}

impl FieldDebugUsecaseError {
    /// How this usecase reports each field debug session repository failure.
    pub fn from_repository_error(error: FieldDebugSessionRepositoryError) -> (result: Self)
        ensures
            result == match error {
                FieldDebugSessionRepositoryError::StorageUnavailable | FieldDebugSessionRepositoryError::CorruptedState => Self::StoreUnavailable,
                FieldDebugSessionRepositoryError::Conflict => Self::Conflict,
            },
    {
        match error {
            FieldDebugSessionRepositoryError::StorageUnavailable | FieldDebugSessionRepositoryError::CorruptedState => Self::StoreUnavailable,
            FieldDebugSessionRepositoryError::Conflict => Self::Conflict,
        }
    }
}

impl FieldDebugUsecaseError {
    /// How this usecase reports each field debug permission check failure.
    pub fn from_permission_error(error: FieldDebugPermissionCheckError) -> (result: Self)
        ensures
            result == match error {
                FieldDebugPermissionCheckError::StorageUnavailable => Self::StoreUnavailable,
            },
    {
        match error {
            FieldDebugPermissionCheckError::StorageUnavailable => Self::StoreUnavailable,
        }
    }
}

/// How this usecase reports each field debug failure.
pub fn map_domain_error(error: FieldDebugError) -> (result: FieldDebugUsecaseError)
    ensures
        result == match error {
            FieldDebugError::EmptySessionId | FieldDebugError::EmptyScope => FieldDebugUsecaseError::InvalidInput,
            FieldDebugError::SensitiveScope => FieldDebugUsecaseError::SensitiveField,
            FieldDebugError::MissingScope => FieldDebugUsecaseError::MissingScope,
            FieldDebugError::MissingTtl => FieldDebugUsecaseError::MissingTtl,
            FieldDebugError::InvalidTransition => FieldDebugUsecaseError::InactiveSession,
            FieldDebugError::NotExpired => FieldDebugUsecaseError::NotExpired,
        },
{
    match error {
        FieldDebugError::EmptySessionId | FieldDebugError::EmptyScope => FieldDebugUsecaseError::InvalidInput,
        FieldDebugError::SensitiveScope => FieldDebugUsecaseError::SensitiveField,
        FieldDebugError::MissingScope => FieldDebugUsecaseError::MissingScope,
        FieldDebugError::MissingTtl => FieldDebugUsecaseError::MissingTtl,
        FieldDebugError::InvalidTransition => FieldDebugUsecaseError::InactiveSession,
        FieldDebugError::NotExpired => FieldDebugUsecaseError::NotExpired,
    }
}

} // verus!
