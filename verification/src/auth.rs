//! The auth stage: a request moves from unauthenticated to validated, or
//! short-circuits to rejected, first on the shape of its `Authorization`
//! header, then on the verdict of the credential validator collaborator.
use vstd::prelude::*;
use vstd::string::{StrSliceExecFns, StringExecFns};
use crate::strutil::starts_with_exact;

verus! {

/// Identity claims, produced once per request by the credential validator.
#[derive(Debug, Clone)]
pub struct Claims {
    pub sub: String,
    pub email: String,
}

/// The claims as they are carried with an authenticated request.
#[derive(Debug, Clone)]
pub struct UserClaims(pub Claims);

/// The view of an optional header value.
pub open spec fn header_view(header: Option<&str>) -> Option<Seq<char>> {
    match header {
        Some(h) => Some(h@),
        None => None,
    }
}

/// What token extraction yields for a given header: the bearer token, or
/// the reason the request is rejected. Exactly the headers of the shape
/// `Bearer <token>`, with a non-empty token, are accepted.
pub open spec fn extract_token_spec(header: Option<Seq<char>>) -> Result<Seq<char>, Seq<char>> {
    match header {
        None => Err("Missing Authorization header"@),
        Some(h) => if !(7 <= h.len() && h.subrange(0, 7) == "Bearer "@) {
            Err("Invalid Authorization header format. Expected: Bearer <token>"@)
        } else if h.len() == 7 {
            Err("Empty Bearer token"@)
        } else {
            Ok(h.subrange(7, h.len() as int))
        },
    }
}

/// Extract the bearer token from an `Authorization` header.
pub fn extract_token(header: Option<&str>) -> (r: Result<String, String>)
    ensures
        match r {
            Ok(t) => extract_token_spec(header_view(header)) == Ok::<Seq<char>, Seq<char>>(t@),
            Err(e) => extract_token_spec(header_view(header)) == Err::<Seq<char>, Seq<char>>(e@),
        },
{
    proof {
        reveal_strlit("Bearer ");
    }
    match header {
        None => Err(String::from_str("Missing Authorization header")),
        Some(h) => {
            if !starts_with_exact(h, "Bearer ") {
                Err(String::from_str("Invalid Authorization header format. Expected: Bearer <token>"))
            } else {
                let n = h.unicode_len();
                if n == 7 {
                    Err(String::from_str("Empty Bearer token"))
                } else {
                    Ok(String::from_str(h.substring_char(7, n)))
                }
            }
        },
    }
}

/// Where a request stands in the auth stage.
pub enum AuthState {
    Unauthenticated,
    TokenExtracted(String),
    Validated(Claims),
    Rejected(String),
}

impl AuthState {
    /// Every request starts unauthenticated.
    pub fn start() -> (s: AuthState)
        ensures
            s is Unauthenticated,
    {
        AuthState::Unauthenticated
    }

    /// The extract step: the header either yields a token or rejects the
    /// request with the reason extraction gave.
    pub fn extract(self, header: Option<&str>) -> (s: AuthState)
        requires
            self is Unauthenticated,
        ensures
            match extract_token_spec(header_view(header)) {
                Ok(t) => s matches AuthState::TokenExtracted(tok) && tok@ == t,
                Err(e) => s matches AuthState::Rejected(reason) && reason@ == e,
            },
    {
        match extract_token(header) {
            Ok(t) => AuthState::TokenExtracted(t),
            Err(e) => AuthState::Rejected(e),
        }
    }

    /// The validate step: the collaborator's verdict either attaches the
    /// claims or rejects the request, naming the validation failure.
    pub fn validate(self, verdict: Result<Claims, String>) -> (s: AuthState)
        requires
            self is TokenExtracted,
        ensures
            match verdict {
                Ok(c) => s == AuthState::Validated(c),
                Err(e) => s matches AuthState::Rejected(reason) && reason@ == "Invalid token: "@
                    + e@,
            },
    {
        match verdict {
            Ok(c) => AuthState::Validated(c),
            Err(e) => {
                let mut reason = String::from_str("Invalid token: ");
                reason.append(e.as_str());
                AuthState::Rejected(reason)
            },
        }
    }
}

} // verus!
