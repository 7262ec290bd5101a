//! The error taxonomy: every internal failure is mapped to a stable,
//! structured, client-safe payload with an HTTP status.

use vstd::prelude::*;
use vstd::string::StringExecFns;
use crate::clock::now_unix_seconds;
use crate::ids::{fresh_trace_id, is_lower_hex_digit};
use crate::validator::{FieldErrors, ValidationError};

verus! {

/// Stable machine-readable error codes carried in responses.
#[derive(Debug, Clone, Copy, PartialEq, Eq, Structural)]
pub enum ApiErrorCode {
    AuthenticationWrongCredentials,
    AuthenticationMissingCredentials,
    AuthenticationTokenCreationError,
    AuthenticationHashingPasswordError,
    AuthenticationInvalidToken,
    AuthenticationForbidden,
    UserNotFound,
    ResourceNotFound,
    ApiVersionError,
    DatabaseError,
    RedisError,
}

impl ApiErrorCode {
    /// The snake_case wire form of this code.
    pub open spec fn spec_str(&self) -> Seq<char> {
        match self {
            ApiErrorCode::AuthenticationWrongCredentials => "authentication_wrong_credentials"@,
            ApiErrorCode::AuthenticationMissingCredentials => "authentication_missing_credentials"@,
            ApiErrorCode::AuthenticationTokenCreationError => "authentication_token_creation_error"@,
            ApiErrorCode::AuthenticationHashingPasswordError => "authentication_hashing_password_error"@,
            ApiErrorCode::AuthenticationInvalidToken => "authentication_invalid_token"@,
            ApiErrorCode::AuthenticationForbidden => "authentication_forbidden"@,
            ApiErrorCode::UserNotFound => "user_not_found"@,
            ApiErrorCode::ResourceNotFound => "resource_not_found"@,
            ApiErrorCode::ApiVersionError => "api_version_error"@,
            ApiErrorCode::DatabaseError => "database_error"@,
            ApiErrorCode::RedisError => "redis_error"@,
        }
    }

    /// Renders the code for the wire.
    pub fn as_str(&self) -> (r: &'static str)
        ensures
            r@ == self.spec_str(),
    {
        match self {
            ApiErrorCode::AuthenticationWrongCredentials => "authentication_wrong_credentials",
            ApiErrorCode::AuthenticationMissingCredentials => "authentication_missing_credentials",
            ApiErrorCode::AuthenticationTokenCreationError => "authentication_token_creation_error",
            ApiErrorCode::AuthenticationHashingPasswordError => "authentication_hashing_password_error",
            ApiErrorCode::AuthenticationInvalidToken => "authentication_invalid_token",
            ApiErrorCode::AuthenticationForbidden => "authentication_forbidden",
            ApiErrorCode::UserNotFound => "user_not_found",
            ApiErrorCode::ResourceNotFound => "resource_not_found",
            ApiErrorCode::ApiVersionError => "api_version_error",
            ApiErrorCode::DatabaseError => "database_error",
            ApiErrorCode::RedisError => "redis_error",
        }
    }
}

/// Category of a failure, carried beside the code.
#[derive(Debug, Clone, Copy, PartialEq, Eq, Structural)]
pub enum ApiErrorKind {
    AuthenticationError,
    ValidationError,
    ResourceNotFound,
    DatabaseError,
}

impl ApiErrorKind {
    /// The snake_case wire form of this kind.
    pub open spec fn spec_str(&self) -> Seq<char> {
        match self {
            ApiErrorKind::AuthenticationError => "authentication_error"@,
            ApiErrorKind::ValidationError => "validation_error"@,
            ApiErrorKind::ResourceNotFound => "resource_not_found"@,
            ApiErrorKind::DatabaseError => "database_error"@,
        }
    }

    /// Renders the kind for the wire.
    pub fn as_str(&self) -> (r: &'static str)
        ensures
            r@ == self.spec_str(),
    {
        match self {
            ApiErrorKind::AuthenticationError => "authentication_error",
            ApiErrorKind::ValidationError => "validation_error",
            ApiErrorKind::ResourceNotFound => "resource_not_found",
            ApiErrorKind::DatabaseError => "database_error",
        }
    }
}

/// One structured entry of an error response body.
///
/// `timestamp` is the construction time as Unix seconds; `detail`, when
/// present, holds a pre-rendered JSON fragment.
#[derive(Debug)]
pub struct ApiErrorResponse {
    pub code: Option<String>,
    pub kind: Option<String>,
    pub message: String,
    pub description: Option<String>,
    pub detail: Option<String>,
    pub reason: Option<String>,
    pub instance: Option<String>,
    pub trace_id: Option<String>,
    pub timestamp: i64,
    pub help: Option<String>,
}

/// An HTTP status together with the ordered error entries of the body.
#[derive(Debug)]
pub struct ApiError {
    pub status: u16,
    pub errors: Vec<ApiErrorResponse>,
}

impl ApiErrorResponse {
    /// A bare entry carrying only a message and the current time.
    pub fn new(message: &str) -> (r: Self)
        ensures
            r.message@ == message@,
            r.code is None,
            r.kind is None,
            r.description is None,
            r.detail is None,
            r.reason is None,
            r.instance is None,
            r.trace_id is None,
            r.help is None,
    {
        ApiErrorResponse {
            code: None,
            kind: None,
            message: message.to_owned(),
            description: None,
            detail: None,
            reason: None,
            instance: None,
            trace_id: None,
            timestamp: now_unix_seconds(),
            help: None,
        }
    }
}

/// That the descriptive fields of an entry — description, detail, reason,
/// instance and help — are all unset, so no failure detail rides in any of
/// them.
pub open spec fn spec_no_detail(e: ApiErrorResponse) -> bool {
    &&& e.description is None
    &&& e.detail is None
    &&& e.reason is None
    &&& e.instance is None
    &&& e.help is None
}

/// That every optional annotation field of an entry, the trace id included,
/// is unset.
pub open spec fn spec_bare_annotations(e: ApiErrorResponse) -> bool {
    spec_no_detail(e) && e.trace_id is None
}

impl ApiErrorResponse {
    /// Sets the stable code, keeping every other field.
    pub fn code(self, value: &str) -> (r: Self)
        ensures
            r.code matches Some(c) && c@ == value@,
            r == (Self { code: r.code, ..self }),
    {
        Self { code: Some(value.to_owned()), ..self }
    }

    /// Sets the kind, keeping every other field.
    pub fn kind(self, value: &str) -> (r: Self)
        ensures
            r.kind matches Some(k) && k@ == value@,
            r == (Self { kind: r.kind, ..self }),
    {
        Self { kind: Some(value.to_owned()), ..self }
    }

    /// Sets the description, keeping every other field.
    pub fn description(self, value: &str) -> (r: Self)
        ensures
            r.description matches Some(d) && d@ == value@,
            r == (Self { description: r.description, ..self }),
    {
        Self { description: Some(value.to_owned()), ..self }
    }

    /// Sets the detail JSON fragment, keeping every other field.
    pub fn detail(self, value: &str) -> (r: Self)
        ensures
            r.detail matches Some(d) && d@ == value@,
            r == (Self { detail: r.detail, ..self }),
    {
        Self { detail: Some(value.to_owned()), ..self }
    }

    /// Sets the reason, keeping every other field.
    pub fn reason(self, value: &str) -> (r: Self)
        ensures
            r.reason matches Some(v) && v@ == value@,
            r == (Self { reason: r.reason, ..self }),
    {
        Self { reason: Some(value.to_owned()), ..self }
    }

    /// Sets the instance, keeping every other field.
    pub fn instance(self, value: &str) -> (r: Self)
        ensures
            r.instance matches Some(v) && v@ == value@,
            r == (Self { instance: r.instance, ..self }),
    {
        Self { instance: Some(value.to_owned()), ..self }
    }

    /// Sets the help text, keeping every other field.
    pub fn help(self, value: &str) -> (r: Self)
        ensures
            r.help matches Some(v) && v@ == value@,
            r == (Self { help: r.help, ..self }),
    {
        Self { help: Some(value.to_owned()), ..self }
    }

    /// Attaches a freshly drawn trace id — 32 lowercase hexadecimal
    /// characters — keeping every other field.
    pub fn trace_id(self) -> (r: Self)
        ensures
            r.trace_id matches Some(t) && t@.len() == 32 && forall|i: int|
                0 <= i < t@.len() ==> is_lower_hex_digit(#[trigger] t@[i]),
            r == (Self { trace_id: r.trace_id, ..self }),
    {
        Self { trace_id: Some(fresh_trace_id()), ..self }
    }
}

/// The rendering of an HTTP status this crate reports: its number followed
/// by the canonical reason phrase.
pub open spec fn spec_status_message(status: u16) -> Seq<char> {
    if status == 400 {
        "400 Bad Request"@
    } else if status == 401 {
        "401 Unauthorized"@
    } else if status == 404 {
        "404 Not Found"@
    } else if status == 422 {
        "422 Unprocessable Entity"@
    } else if status == 500 {
        "500 Internal Server Error"@
    } else {
        "Unknown Status"@
    }
}

/// The snake_case code derived from the rendered status.
pub open spec fn spec_status_code_str(status: u16) -> Seq<char> {
    if status == 400 {
        "400_bad_request"@
    } else if status == 401 {
        "401_unauthorized"@
    } else if status == 404 {
        "404_not_found"@
    } else if status == 422 {
        "422_unprocessable_entity"@
    } else if status == 500 {
        "500_internal_server_error"@
    } else {
        "unknown_status"@
    }
}

impl ApiErrorResponse {
    /// The bare entry an HTTP status yields: its reason phrase as the
    /// message and its snake_case form as the code. Statuses this crate
    /// never reports fall back to an unknown-status entry.
    pub fn from_status(status: u16) -> (r: Self)
        ensures
            r.message@ == spec_status_message(status),
            r.code matches Some(c) && c@ == spec_status_code_str(status),
            r.kind is None,
            r.description is None,
            r.detail is None,
            r.reason is None,
            r.instance is None,
            r.trace_id is None,
            r.help is None,
    {
        let (message, code): (&str, &str) = if status == 400 {
            ("400 Bad Request", "400_bad_request")
        } else if status == 401 {
            ("401 Unauthorized", "401_unauthorized")
        } else if status == 404 {
            ("404 Not Found", "404_not_found")
        } else if status == 422 {
            ("422 Unprocessable Entity", "422_unprocessable_entity")
        } else if status == 500 {
            ("500 Internal Server Error", "500_internal_server_error")
        } else {
            ("Unknown Status", "unknown_status")
        };
        Self::new(message).code(code)
    }
}

/// A storage failure, as this core models what the persistence layer
/// reports: the one lookup miss it distinguishes, or any other failure with
/// its text.
#[derive(Debug)]
pub enum DbError {
    RowNotFound,
    Other(String),
}

impl DbError {
    /// The failure's own text.
    pub open spec fn spec_message(&self) -> Seq<char> {
        match self {
            DbError::RowNotFound => "no rows returned by a query that expected to return at least one row"@,
            DbError::Other(s) => s@,
        }
    }
}

impl ApiErrorResponse {
    /// The entry a storage failure yields. In the operational debug mode the
    /// failure's own text and category are disclosed; outside it the client
    /// sees only a generic internal-error entry. Either way a fresh trace id
    /// correlates the response with the server-side record of the failure.
    pub fn from_db(e: &DbError, debug: bool) -> (r: Self)
        ensures
            debug ==> r.message@ == e.spec_message(),
            debug ==> (r.code matches Some(c) && c@ == (match e {
                DbError::RowNotFound => ApiErrorCode::ResourceNotFound,
                DbError::Other(_) => ApiErrorCode::DatabaseError,
            }).spec_str()),
            debug ==> (r.kind matches Some(k) && k@ == (match e {
                DbError::RowNotFound => ApiErrorKind::ResourceNotFound,
                DbError::Other(_) => ApiErrorKind::DatabaseError,
            }).spec_str()),
            !debug ==> r.message@ == "500 Internal Server Error"@,
            !debug ==> (r.code matches Some(c) && c@ == "500_internal_server_error"@),
            !debug ==> r.kind is None,
            spec_no_detail(r),
            r.trace_id matches Some(t) && t@.len() == 32,
    {
        if debug {
            let message = match e {
                DbError::RowNotFound => "no rows returned by a query that expected to return at least one row".to_owned(),
                DbError::Other(s) => s.clone(),
            };
            let (code, kind): (ApiErrorCode, ApiErrorKind) = match e {
                DbError::RowNotFound => (ApiErrorCode::ResourceNotFound, ApiErrorKind::ResourceNotFound),
                DbError::Other(_) => (ApiErrorCode::DatabaseError, ApiErrorKind::DatabaseError),
            };
            Self::new(message.as_str()).code(code.as_str()).kind(kind.as_str()).trace_id()
        } else {
            Self::from_status(500).trace_id()
        }
    }
}

impl ApiError {
    /// The response a storage failure yields: the one lookup miss is a 404,
    /// anything else an internal error, with the entry of
    /// `ApiErrorResponse::from_db`.
    pub fn from_db(e: &DbError, debug: bool) -> (r: Self)
        ensures
            e is RowNotFound ==> r.status == 404,
            !(e is RowNotFound) ==> r.status == 500,
            r.errors@.len() == 1,
            r.errors@[0].trace_id matches Some(t) && t@.len() == 32,
            debug ==> r.errors@[0].message@ == e.spec_message(),
            debug ==> (r.errors@[0].code matches Some(c) && c@ == (match e {
                DbError::RowNotFound => ApiErrorCode::ResourceNotFound,
                DbError::Other(_) => ApiErrorCode::DatabaseError,
            }).spec_str()),
            debug ==> (r.errors@[0].kind matches Some(k) && k@ == (match e {
                DbError::RowNotFound => ApiErrorKind::ResourceNotFound,
                DbError::Other(_) => ApiErrorKind::DatabaseError,
            }).spec_str()),
            !debug ==> r.errors@[0].message@ == "500 Internal Server Error"@,
            !debug ==> (r.errors@[0].code matches Some(c) && c@ == "500_internal_server_error"@),
            !debug ==> r.errors@[0].kind is None,
            spec_no_detail(r.errors@[0]),
    {
        let status: u16 = match e {
            DbError::RowNotFound => 404,
            DbError::Other(_) => 500,
        };
        let mut errors: Vec<ApiErrorResponse> = Vec::new();
        errors.push(ApiErrorResponse::from_db(e, debug));
        ApiError { status, errors }
    }
}

/// The message a field failure carries: its own text, or a generic one.
pub open spec fn spec_msg_of(e: ValidationError) -> Seq<char> {
    match e.message {
        Some(m) => m@,
        None => "invalid value"@,
    }
}

/// The messages of a field's failures, in order.
pub open spec fn msgs_of(errors: Seq<ValidationError>) -> Seq<Seq<char>> {
    errors.map_values(|e: ValidationError| spec_msg_of(e))
}

/// The strings of `msgs`, joined by `sep`.
pub open spec fn spec_join(msgs: Seq<Seq<char>>, sep: Seq<char>) -> Seq<char>
    decreases msgs.len(),
{
    if msgs.len() == 0 {
        Seq::empty()
    } else if msgs.len() == 1 {
        msgs[0]
    } else {
        spec_join(msgs.drop_last(), sep) + sep + msgs.last()
    }
}

/// The message line one offending field yields: the field name, a colon,
/// and its failure messages joined by commas.
pub open spec fn spec_field_message(f: FieldErrors) -> Seq<char> {
    f.field@ + ": "@ + spec_join(msgs_of(f.errors@), ", "@)
}

fn joined_messages(errors: &Vec<ValidationError>) -> (r: String)
    ensures
        r@ == spec_join(msgs_of(errors@), ", "@),
{
    let mut out = String::new();
    let mut i: usize = 0;
    while i < errors.len()
        invariant
            i <= errors@.len(),
            out@ == spec_join(msgs_of(errors@.subrange(0, i as int)), ", "@),
        decreases errors@.len() - i,
    {
        if i > 0 {
            out.append(", ");
        }
        match &errors[i].message {
            Some(m) => out.append(m.as_str()),
            None => out.append("invalid value"),
        }
        proof {
            let pre = msgs_of(errors@.subrange(0, i as int));
            let post = msgs_of(errors@.subrange(0, i as int + 1));
            assert(post.drop_last() =~= pre);
            assert(post.last() == spec_msg_of(errors@[i as int]));
        }
        i = i + 1;
    }
    proof {
        assert(errors@.subrange(0, errors@.len() as int) =~= errors@);
    }
    out
}

fn field_entry(f: &FieldErrors) -> (r: ApiErrorResponse)
    ensures
        r.message@ == spec_field_message(*f),
        f.errors@.len() > 0 ==> (r.code matches Some(c) && c@ == f.errors@[0].code@),
        f.errors@.len() == 0 ==> r.code is None,
        r.kind is None,
        spec_bare_annotations(r),
{
    let mut message = f.field.clone();
    message.append(": ");
    let joined = joined_messages(&f.errors);
    message.append(joined.as_str());
    proof {
        assert(message@ =~= f.field@ + ": "@ + spec_join(msgs_of(f.errors@), ", "@));
    }
    let entry = ApiErrorResponse::new(message.as_str());
    if f.errors.len() > 0 {
        entry.code(f.errors[0].code.as_str())
    } else {
        entry
    }
}

impl ApiError {
    /// The 422 response a failed payload validation yields: one entry per
    /// offending field, in order, each carrying the field's message line and
    /// its first failure's code.
    pub fn validation_error(field_errors: &Vec<FieldErrors>) -> (r: Self)
        ensures
            r.status == 422,
            r.errors@.len() == field_errors@.len(),
            forall|i: int|
                0 <= i < field_errors@.len() ==> (#[trigger] r.errors@[i]).message@
                    == spec_field_message(field_errors@[i]),
            forall|i: int|
                0 <= i < field_errors@.len() && field_errors@[i].errors@.len() > 0 ==> ((
                #[trigger] r.errors@[i]).code matches Some(c) && c@
                    == field_errors@[i].errors@[0].code@),
            forall|i: int|
                0 <= i < field_errors@.len() ==> (#[trigger] r.errors@[i]).kind is None
                    && spec_bare_annotations(r.errors@[i]),
    {
        let mut errors: Vec<ApiErrorResponse> = Vec::new();
        let mut i: usize = 0;
        while i < field_errors.len()
            invariant
                i <= field_errors@.len(),
                errors@.len() == i,
                forall|k: int|
                    0 <= k < i ==> (#[trigger] errors@[k]).message@ == spec_field_message(
                        field_errors@[k],
                    ),
                forall|k: int|
                    0 <= k < i && field_errors@[k].errors@.len() > 0 ==> ((
                    #[trigger] errors@[k]).code matches Some(c) && c@
                        == field_errors@[k].errors@[0].code@),
                forall|k: int|
                    0 <= k < i ==> (#[trigger] errors@[k]).kind is None && spec_bare_annotations(
                        errors@[k],
                    ),
            decreases field_errors@.len() - i,
        {
            errors.push(field_entry(&field_errors[i]));
            i = i + 1;
        }
        ApiError { status: 422, errors }
    }
}

/// A failure on the authentication path.
///
/// The storage and cache variants carry the collaborator's own error text.
#[derive(Debug)]
pub enum AuthError {
    WrongCredentials,
    MissingCredentials,
    TokenCreationError,
    InvalidToken,
    EmptyPassword,
    InvalidHashFormat,
    HashingError,
    InvalidBearerToken,
    InvalidAuthorizationHeader,
    SQLxError(String),
    RedisError(String),
}

impl AuthError {
    /// The human-readable message of this failure.
    pub open spec fn spec_message(&self) -> Seq<char> {
        match self {
            AuthError::WrongCredentials => "invalid credential combination"@,
            AuthError::MissingCredentials => "missing credentials"@,
            AuthError::TokenCreationError => "token creation error"@,
            AuthError::InvalidToken => "invalid token"@,
            AuthError::EmptyPassword => "password cannot be empty"@,
            AuthError::InvalidHashFormat => "invalid password hash format"@,
            AuthError::HashingError => "error while hashing password"@,
            AuthError::InvalidBearerToken => "invalid bearer token"@,
            AuthError::InvalidAuthorizationHeader => "invalid authorization header"@,
            AuthError::SQLxError(e) => e@,
            AuthError::RedisError(e) => e@,
        }
    }

    /// Renders the message.
    pub fn message(&self) -> (r: String)
        ensures
            r@ == self.spec_message(),
    {
        match self {
            AuthError::WrongCredentials => "invalid credential combination".to_owned(),
            AuthError::MissingCredentials => "missing credentials".to_owned(),
            AuthError::TokenCreationError => "token creation error".to_owned(),
            AuthError::InvalidToken => "invalid token".to_owned(),
            AuthError::EmptyPassword => "password cannot be empty".to_owned(),
            AuthError::InvalidHashFormat => "invalid password hash format".to_owned(),
            AuthError::HashingError => "error while hashing password".to_owned(),
            AuthError::InvalidBearerToken => "invalid bearer token".to_owned(),
            AuthError::InvalidAuthorizationHeader => "invalid authorization header".to_owned(),
            AuthError::SQLxError(e) => e.clone(),
            AuthError::RedisError(e) => e.clone(),
        }
    }

    /// The HTTP status this failure is reported with.
    pub open spec fn spec_status(&self) -> u16 {
        match self {
            AuthError::WrongCredentials => 401,
            AuthError::MissingCredentials => 400,
            AuthError::TokenCreationError => 500,
            AuthError::InvalidToken => 400,
            AuthError::EmptyPassword => 400,
            AuthError::InvalidHashFormat => 400,
            AuthError::HashingError => 400,
            AuthError::InvalidBearerToken => 401,
            AuthError::InvalidAuthorizationHeader => 400,
            AuthError::SQLxError(_) => 500,
            AuthError::RedisError(_) => 500,
        }
    }

    /// The stable code this failure is reported with.
    pub open spec fn spec_code(&self) -> ApiErrorCode {
        match self {
            AuthError::WrongCredentials => ApiErrorCode::AuthenticationWrongCredentials,
            AuthError::MissingCredentials => ApiErrorCode::AuthenticationMissingCredentials,
            AuthError::TokenCreationError => ApiErrorCode::AuthenticationTokenCreationError,
            AuthError::InvalidToken => ApiErrorCode::AuthenticationInvalidToken,
            AuthError::EmptyPassword => ApiErrorCode::AuthenticationMissingCredentials,
            AuthError::InvalidHashFormat => ApiErrorCode::AuthenticationHashingPasswordError,
            AuthError::HashingError => ApiErrorCode::AuthenticationHashingPasswordError,
            AuthError::InvalidBearerToken => ApiErrorCode::AuthenticationForbidden,
            AuthError::InvalidAuthorizationHeader => ApiErrorCode::AuthenticationMissingCredentials,
            AuthError::SQLxError(_) => ApiErrorCode::DatabaseError,
            AuthError::RedisError(_) => ApiErrorCode::RedisError,
        }
    }

    /// The code, as an executable value.
    pub fn code(&self) -> (r: ApiErrorCode)
        ensures
            r == self.spec_code(),
    {
        match self {
            AuthError::WrongCredentials => ApiErrorCode::AuthenticationWrongCredentials,
            AuthError::MissingCredentials => ApiErrorCode::AuthenticationMissingCredentials,
            AuthError::TokenCreationError => ApiErrorCode::AuthenticationTokenCreationError,
            AuthError::InvalidToken => ApiErrorCode::AuthenticationInvalidToken,
            AuthError::EmptyPassword => ApiErrorCode::AuthenticationMissingCredentials,
            AuthError::InvalidHashFormat => ApiErrorCode::AuthenticationHashingPasswordError,
            AuthError::HashingError => ApiErrorCode::AuthenticationHashingPasswordError,
            AuthError::InvalidBearerToken => ApiErrorCode::AuthenticationForbidden,
            AuthError::InvalidAuthorizationHeader => ApiErrorCode::AuthenticationMissingCredentials,
            AuthError::SQLxError(_) => ApiErrorCode::DatabaseError,
            AuthError::RedisError(_) => ApiErrorCode::RedisError,
        }
    }

    /// The status, as an executable value.
    pub fn status(&self) -> (r: u16)
        ensures
            r == self.spec_status(),
    {
        match self {
            AuthError::WrongCredentials => 401,
            AuthError::MissingCredentials => 400,
            AuthError::TokenCreationError => 500,
            AuthError::InvalidToken => 400,
            AuthError::EmptyPassword => 400,
            AuthError::InvalidHashFormat => 400,
            AuthError::HashingError => 400,
            AuthError::InvalidBearerToken => 401,
            AuthError::InvalidAuthorizationHeader => 400,
            AuthError::SQLxError(_) => 500,
            AuthError::RedisError(_) => 500,
        }
    }

    /// Whether this failure is an infrastructure failure of a collaborator
    /// (storage or cache), whose detail is suppressed outside debug mode.
    pub open spec fn spec_is_infrastructure(&self) -> bool {
        self is SQLxError || self is RedisError
    }

    /// The infrastructure test, as an executable value.
    pub fn is_infrastructure(&self) -> (r: bool)
        ensures
            r == self.spec_is_infrastructure(),
    {
        match self {
            AuthError::SQLxError(_) => true,
            AuthError::RedisError(_) => true,
            _ => false,
        }
    }
}

impl ApiError {
    /// The response for a request body that was not even JSON.
    pub fn invalid_json() -> (r: Self)
        ensures
            r.status == 400,
            r.errors@.len() == 1,
            r.errors@[0].message@ == "invalid json request"@,
            r.errors@[0].code is None,
            r.errors@[0].kind is None,
            spec_bare_annotations(r.errors@[0]),
    {
        let mut errors: Vec<ApiErrorResponse> = Vec::new();
        errors.push(ApiErrorResponse::new("invalid json request"));
        ApiError { status: 400, errors }
    }

    /// Translates an authentication failure into its client-safe payload:
    /// one entry whose status and code follow the fixed taxonomy.
    /// Credential and token failures carry their own message under the
    /// authentication kind. Storage and cache failures are infrastructure
    /// failures, so their detail is suppressed outside the operational
    /// debug mode — the client sees the generic internal-error entry — and
    /// either way a fresh trace id correlates the response with the
    /// server-side record.
    pub fn from_auth(auth_error: &AuthError, debug: bool) -> (r: Self)
        ensures
            r.status == auth_error.spec_status(),
            r.errors@.len() == 1,
            !auth_error.spec_is_infrastructure() ==> {
                &&& r.errors@[0].message@ == auth_error.spec_message()
                &&& r.errors@[0].code matches Some(c) && c@ == auth_error.spec_code().spec_str()
                &&& r.errors@[0].kind matches Some(k) && k@
                    == ApiErrorKind::AuthenticationError.spec_str()
                &&& spec_bare_annotations(r.errors@[0])
            },
            auth_error.spec_is_infrastructure() ==> {
                &&& (debug ==> r.errors@[0].message@ == auth_error.spec_message())
                &&& (debug ==> (r.errors@[0].code matches Some(c) && c@
                    == auth_error.spec_code().spec_str()))
                &&& (debug ==> (r.errors@[0].kind matches Some(k) && k@
                    == ApiErrorKind::DatabaseError.spec_str()))
                &&& (!debug ==> r.errors@[0].message@ == "500 Internal Server Error"@)
                &&& (!debug ==> (r.errors@[0].code matches Some(c) && c@
                    == "500_internal_server_error"@))
                &&& (!debug ==> r.errors@[0].kind is None)
                &&& spec_no_detail(r.errors@[0])
                &&& r.errors@[0].trace_id matches Some(t) && t@.len() == 32
            },
    {
        let entry = if auth_error.is_infrastructure() {
            if debug {
                let message = auth_error.message();
                ApiErrorResponse::new(message.as_str()).code(auth_error.code().as_str()).kind(
                    ApiErrorKind::DatabaseError.as_str(),
                ).trace_id()
            } else {
                ApiErrorResponse::from_status(500).trace_id()
            }
        } else {
            let message = auth_error.message();
            ApiErrorResponse::new(message.as_str()).code(auth_error.code().as_str()).kind(
                ApiErrorKind::AuthenticationError.as_str(),
            )
        };
        let mut errors: Vec<ApiErrorResponse> = Vec::new();
        errors.push(entry);
        ApiError { status: auth_error.status(), errors }
    }
}

} // verus!
