//! Version prefix of the HTTP API a request addressed.

use vstd::prelude::*;
use vstd::string::StringExecFns;
use crate::errors::{ApiError, ApiErrorCode, ApiErrorKind, ApiErrorResponse};

verus! {

/// A supported API version, taken from the `{version}` path segment.
#[derive(Debug, Clone, Copy, PartialEq, Eq, Structural)]
pub enum ApiVersion {
    V1,
    V2,
}

impl ApiVersion {
    /// The path segment that names this version.
    pub fn as_str(&self) -> (r: &'static str)
        ensures
            *self == ApiVersion::V1 ==> r@ == "v1"@,
            *self == ApiVersion::V2 ==> r@ == "v2"@,
    {
        match self {
            ApiVersion::V1 => "v1",
            ApiVersion::V2 => "v2",
        }
    }
}

/// Why a request's version segment was rejected.
#[derive(Debug)]
pub enum ApiVersionError {
    /// The segment named a version this API does not serve.
    InvalidVersion(String),
    /// The route carried no `version` parameter at all.
    ParameterMissing,
    /// The parameters could not be read from the request.
    VersionExtractError,
}

/// True on exactly the strings that name a supported version.
pub open spec fn is_known_version(s: Seq<char>) -> bool {
    s == "v1"@ || s == "v2"@
}

/// Equality of two string slices, decided by contents.
pub fn str_eq(a: &str, b: &str) -> (r: bool)
    ensures
        r == (a@ == b@),
{
    let sa = a.to_owned();
    let sb = b.to_owned();
    sa == sb
}

impl ApiVersionError {
    /// The human-readable message of this failure.
    pub open spec fn spec_message(&self) -> Seq<char> {
        match self {
            ApiVersionError::InvalidVersion(v) => "unknown version: "@ + v@,
            ApiVersionError::ParameterMissing => "parameter is missing: version"@,
            ApiVersionError::VersionExtractError => "could not extract api version"@,
        }
    }

    /// Renders the message.
    pub fn message(&self) -> (r: String)
        ensures
            r@ == self.spec_message(),
    {
        match self {
            ApiVersionError::InvalidVersion(v) => {
                let mut m = "unknown version: ".to_owned();
                m.append(v.as_str());
                m
            },
            ApiVersionError::ParameterMissing => "parameter is missing: version".to_owned(),
            ApiVersionError::VersionExtractError => "could not extract api version".to_owned(),
        }
    }
}

impl ApiError {
    /// The 400 response a version failure yields: one entry with the
    /// failure's message, the version error code and the validation kind.
    pub fn from_version(err: &ApiVersionError) -> (r: Self)
        ensures
            r.status == 400,
            r.errors@.len() == 1,
            r.errors@[0].message@ == err.spec_message(),
            r.errors@[0].code matches Some(c) && c@ == ApiErrorCode::ApiVersionError.spec_str(),
            r.errors@[0].kind matches Some(k) && k@ == ApiErrorKind::ValidationError.spec_str(),
            crate::errors::spec_bare_annotations(r.errors@[0]),
    {
        let message = err.message();
        let entry = ApiErrorResponse::new(message.as_str()).code(
            ApiErrorCode::ApiVersionError.as_str(),
        ).kind(ApiErrorKind::ValidationError.as_str());
        let mut errors: Vec<ApiErrorResponse> = Vec::new();
        errors.push(entry);
        ApiError { status: 400, errors }
    }
}

/// Parses a `{version}` path segment. Exactly the known version names are
/// accepted; anything else yields the structured 400 response, its message
/// naming the offending segment.
pub fn parse_version(version: &str) -> (r: Result<ApiVersion, ApiError>)
    ensures
        version@ == "v1"@ ==> (r matches Ok(v) && v == ApiVersion::V1),
        version@ == "v2"@ ==> (r matches Ok(v) && v == ApiVersion::V2),
        !is_known_version(version@) ==> (r matches Err(e) && {
            &&& e.status == 400
            &&& e.errors@.len() == 1
            &&& e.errors@[0].message@ == "unknown version: "@ + version@
            &&& e.errors@[0].code matches Some(c) && c@ == ApiErrorCode::ApiVersionError.spec_str()
            &&& e.errors@[0].kind matches Some(k) && k@ == ApiErrorKind::ValidationError.spec_str()
        }),
{
    proof {
        reveal_strlit("v1");
        reveal_strlit("v2");
        assert("v1"@[1] != "v2"@[1]);
        assert("v1"@ != "v2"@);
    }
    if str_eq(version, "v1") {
        Ok(ApiVersion::V1)
    } else if str_eq(version, "v2") {
        Ok(ApiVersion::V2)
    } else {
        Err(ApiError::from_version(&ApiVersionError::InvalidVersion(version.to_owned())))
    }
}

} // verus!
