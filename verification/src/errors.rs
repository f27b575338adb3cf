//! Failure taxonomy of the service core: lookups that found nothing,
//! rejected credentials, and unexpected internal failures — plus the
//! translation of each into a transport status code and a contextual message.
use vstd::prelude::*;

use crate::decimal::{dec_of, i64_to_string};
use vstd::string::StringExecFns;

verus! {

/// The kind of resource a failed lookup was after.
#[derive(Clone, Copy, Debug, PartialEq, Eq, Structural)]
pub enum ResourceKind {
    Post,
    User,
}

/// The key by which a failed lookup searched.
#[derive(Clone, Debug)]
pub enum LookupKey {
    Id(i64),
    Name(String),
}

/// A failure reported by the resource service. `NotFound` and `Internal` are
/// returned to the caller, never panicked on.
#[derive(Clone, Debug)]
pub enum ServiceError {
    NotFound(ResourceKind, LookupKey),
    Internal(String),
}

/// A failure reported by the authentication gate. All verification failures
/// (bad signature, malformed token, expired token) collapse into
/// `InvalidToken`, so a caller cannot tell which check failed.
#[derive(Clone, Copy, Debug, PartialEq, Eq, Structural)]
pub enum AuthError {
    MissingToken,
    InvalidToken,
}

/// The label a resource kind carries in failure messages.
pub open spec fn kind_label(k: ResourceKind) -> Seq<char> {
    match k {
        ResourceKind::Post => "Post"@,
        ResourceKind::User => "User"@,
    }
}

/// The text a lookup key carries in failure messages: identifiers in decimal,
/// names as themselves.
pub open spec fn key_text(key: LookupKey) -> Seq<char> {
    match key {
        LookupKey::Id(id) => dec_of(id as int),
        LookupKey::Name(s) => s@,
    }
}

impl ServiceError {
    /// The contextual message of a failure, e.g. `Post not found: 42`.
    pub open spec fn message_view(&self) -> Seq<char> {
        match self {
            ServiceError::NotFound(kind, key) => kind_label(*kind) + " not found: "@ + key_text(
                *key,
            ),
            ServiceError::Internal(cause) => cause@,
        }
    }

    /// Renders the contextual message of this failure.
    pub fn message(&self) -> (r: String)
        ensures
            r@ == self.message_view(),
    {
        match self {
            ServiceError::NotFound(kind, key) => {
                let mut s = match kind {
                    ResourceKind::Post => String::from_str("Post"),
                    ResourceKind::User => String::from_str("User"),
                };
                s.append(" not found: ");
                match key {
                    LookupKey::Id(id) => {
                        let digits = i64_to_string(*id);
                        s.append(digits.as_str());
                    },
                    LookupKey::Name(name) => {
                        s.append(name.as_str());
                    },
                }
                s
            },
            ServiceError::Internal(cause) => cause.clone(),
        }
    }
}

impl AuthError {
    /// The message of an authentication failure. All verification failures
    /// share one message, so nothing leaks about which check failed.
    pub open spec fn message_view(&self) -> Seq<char> {
        match self {
            AuthError::MissingToken => "Missing bearer token"@,
            AuthError::InvalidToken => "Invalid bearer token"@,
        }
    }

    /// Renders the message of this failure.
    pub fn message(&self) -> (r: String)
        ensures
            r@ == self.message_view(),
    {
        match self {
            AuthError::MissingToken => String::from_str("Missing bearer token"),
            AuthError::InvalidToken => String::from_str("Invalid bearer token"),
        }
    }
}

/// A boundary-facing failure: a transport status code and the detailed
/// message.
#[derive(Debug)]
pub struct AppError {
    pub status: u16,
    pub message: String,
}

/// The transport status a service failure translates to: lookups that found
/// nothing are 404, anything unexpected is 500.
pub open spec fn service_error_status(e: ServiceError) -> u16 {
    match e {
        ServiceError::NotFound(_, _) => 404,
        ServiceError::Internal(_) => 500,
    }
}

impl AppError {
    /// Translates a service failure: the matching status code, the detailed
    /// message kept.
    pub fn of_service(e: &ServiceError) -> (r: AppError)
        ensures
            r.status == service_error_status(*e),
            r.message@ == e.message_view(),
    {
        let status: u16 = match e {
            ServiceError::NotFound(_, _) => 404,
            ServiceError::Internal(_) => 500,
        };
        AppError { status, message: e.message() }
    }

    /// Translates an authentication failure: always 401.
    pub fn of_auth(e: &AuthError) -> (r: AppError)
        ensures
            r.status == 401,
            r.message@ == e.message_view(),
    {
        AppError { status: 401, message: e.message() }
    }
}

} // verus!
