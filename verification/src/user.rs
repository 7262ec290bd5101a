//! The user entity, as this crate reads it from the persistence layer.

use vstd::prelude::*;
use vstd::string::StringExecFns;
use crate::errors::{spec_no_detail, ApiError, ApiErrorCode, ApiErrorKind, ApiErrorResponse, DbError};

verus! {

/// A user row. The identifier is carried as its canonical string form, and
/// the timestamps as Unix seconds; the surrounding process converts at its
/// edge.
#[derive(Debug)]
pub struct User {
    pub id: String,
    pub name: String,
    pub username: String,
    pub email: String,
    pub password_hash: String,
    pub active: bool,
    pub roles: String,
    pub created_at: Option<i64>,
    pub updated_at: Option<i64>,
}

/// The client-facing projection of a user: no password hash, no flags.
#[derive(Debug)]
pub struct FilterUserDto {
    pub id: String,
    pub name: String,
    pub username: String,
    pub email: String,
    pub created_at: i64,
    pub updated_at: i64,
}

impl FilterUserDto {
    /// Projects a user row onto its client-facing fields: the identifying
    /// fields verbatim and the row's own creation and update times; the
    /// password hash and flags are left behind.
    pub fn filter(user: &User) -> (r: Self)
        requires
            user.created_at is Some,
            user.updated_at is Some,
        ensures
            r.id@ == user.id@,
            r.name@ == user.name@,
            r.username@ == user.username@,
            r.email@ == user.email@,
            r.created_at == user.created_at.unwrap(),
            r.updated_at == user.updated_at.unwrap(),
    {
        let created_at = match &user.created_at {
            Some(t) => *t,
            None => 0,
        };
        let updated_at = match &user.updated_at {
            Some(t) => *t,
            None => 0,
        };
        FilterUserDto {
            id: user.id.clone(),
            name: user.name.clone(),
            username: user.username.clone(),
            email: user.email.clone(),
            created_at,
            updated_at,
        }
    }
}

/// Why a user read on behalf of an authenticated request failed.
#[derive(Debug)]
pub enum UserError {
    /// No user row carries the id, which is held for the message.
    UserNotFound(String),
}

impl UserError {
    /// The HTTP status this failure is reported with.
    pub fn status_code(&self) -> (r: u16)
        ensures
            r == 404,
    {
        match self {
            UserError::UserNotFound(_) => 404,
        }
    }

    /// The human-readable message of this failure.
    pub open spec fn spec_message(&self) -> Seq<char> {
        match self {
            UserError::UserNotFound(id) => "user not found: "@ + id@,
        }
    }

    /// The full error entry this failure yields: message, stable code and
    /// kind, a description, the offending id as a JSON detail, the rule that
    /// was broken, the resource instance, and a fresh trace id.
    pub fn to_response(&self) -> (r: ApiErrorResponse)
        ensures
            r.message@ == self.spec_message(),
            r.code matches Some(c) && c@ == ApiErrorCode::UserNotFound.spec_str(),
            r.kind matches Some(k) && k@ == ApiErrorKind::ResourceNotFound.spec_str(),
            self matches UserError::UserNotFound(id) ==> {
                &&& r.description matches Some(d) && d@ == "user with the ID '"@ + id@
                    + "' does not exists"@
                &&& r.detail matches Some(d) && d@ == "{\"user_id\":\""@ + id@ + "\"}"@
                &&& r.reason matches Some(v) && v@ == "must be an existing user in the database"@
                &&& r.instance matches Some(v) && v@ == "/api/v1/users/"@ + id@
            },
            r.trace_id matches Some(t) && t@.len() == 32,
    {
        match self {
            UserError::UserNotFound(id) => {
                let mut message = "user not found: ".to_owned();
                message.append(id.as_str());
                let mut description = "user with the ID '".to_owned();
                description.append(id.as_str());
                description.append("' does not exists");
                let mut detail = "{\"user_id\":\"".to_owned();
                detail.append(id.as_str());
                detail.append("\"}");
                let mut instance = "/api/v1/users/".to_owned();
                instance.append(id.as_str());
                proof {
                    assert(description@ =~= "user with the ID '"@ + id@ + "' does not exists"@);
                    assert(detail@ =~= "{\"user_id\":\""@ + id@ + "\"}"@);
                }
                ApiErrorResponse::new(message.as_str()).code(
                    ApiErrorCode::UserNotFound.as_str(),
                ).kind(ApiErrorKind::ResourceNotFound.as_str()).description(
                    description.as_str(),
                ).detail(detail.as_str()).reason("must be an existing user in the database").instance(
                    instance.as_str(),
                ).trace_id()
            },
        }
    }
}

/// The response when reading the authenticated user's own row failed: a
/// missed lookup is the full user-not-found entry under a 404, and any other
/// storage failure follows the storage taxonomy, detail-suppressed outside
/// debug mode.
pub fn user_fetch_failure(user_id: &str, e: &DbError, debug: bool) -> (r: ApiError)
    ensures
        e is RowNotFound ==> {
            &&& r.status == 404
            &&& r.errors@.len() == 1
            &&& r.errors@[0].message@ == "user not found: "@ + user_id@
            &&& r.errors@[0].code matches Some(c) && c@ == ApiErrorCode::UserNotFound.spec_str()
            &&& r.errors@[0].kind matches Some(k) && k@
                == ApiErrorKind::ResourceNotFound.spec_str()
            &&& r.errors@[0].description matches Some(d) && d@ == "user with the ID '"@ + user_id@
                + "' does not exists"@
            &&& r.errors@[0].detail matches Some(d) && d@ == "{\"user_id\":\""@ + user_id@
                + "\"}"@
            &&& r.errors@[0].reason matches Some(v) && v@
                == "must be an existing user in the database"@
            &&& r.errors@[0].instance matches Some(v) && v@ == "/api/v1/users/"@ + user_id@
            &&& r.errors@[0].trace_id matches Some(t) && t@.len() == 32
        },
        !(e is RowNotFound) ==> {
            &&& r.status == 500
            &&& r.errors@.len() == 1
            &&& (debug ==> r.errors@[0].message@ == e.spec_message())
            &&& (debug ==> (r.errors@[0].code matches Some(c) && c@
                == ApiErrorCode::DatabaseError.spec_str()))
            &&& (debug ==> (r.errors@[0].kind matches Some(k) && k@
                == ApiErrorKind::DatabaseError.spec_str()))
            &&& (!debug ==> r.errors@[0].message@ == "500 Internal Server Error"@)
            &&& (!debug ==> (r.errors@[0].code matches Some(c) && c@
                == "500_internal_server_error"@))
            &&& spec_no_detail(r.errors@[0])
            &&& r.errors@[0].trace_id matches Some(t) && t@.len() == 32
        },
{
    match e {
        DbError::RowNotFound => {
            let user_error = UserError::UserNotFound(user_id.to_owned());
            let status = user_error.status_code();
            let mut errors: Vec<ApiErrorResponse> = Vec::new();
            errors.push(user_error.to_response());
            ApiError { status, errors }
        },
        DbError::Other(_) => ApiError::from_db(e, debug),
    }
}

} // verus!
