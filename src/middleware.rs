//! Request authenticator: from an `Authorization` header value to an identity
//! context, through the token codec only (the account store is not consulted).

use vstd::prelude::*;
use crate::clock::now_timestamp;
use crate::error::{is_invalid_token, AppError, AppResult};
use crate::ids::uuid_parsed;
use crate::clock::CLOCK_BOUND;
use crate::jwt::{decode_token_at, token_claims, token_decodes, token_valid_at, Claims};

verus! {

/// Identity of the caller of one request.
#[derive(Debug, Clone)]
pub struct AuthenticatedUser {
    pub id: u128,
    pub username: String,
    pub is_admin: bool,
}

/// Identity of the caller where authentication is advisory.
#[derive(Debug, Clone)]
pub struct OptionalUser(pub Option<AuthenticatedUser>);

pub open spec fn missing_header_message() -> Seq<char> {
    "Missing Authorization header"@
}

pub open spec fn header_format_message() -> Seq<char> {
    "Invalid Authorization header format. Expected: Bearer <token>"@
}

/// The scheme word and its space, in lower case.
pub open spec fn bearer_prefix() -> Seq<char> {
    seq!['b', 'e', 'a', 'r', 'e', 'r', ' ']
}

/// Equal up to ASCII case, `lower` being the lower-case form.
pub open spec fn same_letter(c: char, lower: char) -> bool {
    c == lower || ('a' <= lower && lower <= 'z' && c as u32 + 32 == lower as u32)
}

/// The header starts with `Bearer ` in any mix of case.
pub open spec fn has_bearer_prefix(h: Seq<char>) -> bool {
    h.len() >= 7 && forall|i: int| 0 <= i < 7 ==> same_letter(#[trigger] h[i], bearer_prefix()[i])
}

/// The token part of a header that has the prefix.
pub open spec fn bearer_token(h: Seq<char>) -> Seq<char> {
    h.subrange(7, h.len() as int)
}

/// The token in the header carries this identity (whatever its expiry).
pub open spec fn carries_identity(secret: Seq<char>, h: Seq<char>, u: AuthenticatedUser) -> bool {
    has_bearer_prefix(h) && (token_claims(secret, bearer_token(h)) matches Some(t) && uuid_parsed(t.0)
        == Some(u.id) && t.1 == u.username@ && t.2 == u.is_admin)
}

/// The identity the header yields at time `now`.
pub open spec fn identifies(secret: Seq<char>, h: Seq<char>, now: i64, u: AuthenticatedUser) -> bool {
    carries_identity(secret, h, u) && token_valid_at(secret, bearer_token(h), now)
}

fn prefix_char(i: usize) -> (c: char)
    requires
        i < 7,
    ensures
        c == bearer_prefix()[i as int],
{
    if i == 0 {
        'b'
    } else if i == 1 {
        'e'
    } else if i == 2 {
        'a'
    } else if i == 3 {
        'r'
    } else if i == 4 {
        'e'
    } else if i == 5 {
        'r'
    } else {
        ' '
    }
}

/// Splits off a case-insensitive `Bearer ` prefix.
pub fn strip_bearer(header: &str) -> (r: Option<&str>)
    ensures
        r is Some <==> has_bearer_prefix(header@),
        r matches Some(t) ==> t@ == bearer_token(header@),
{
    let n = header.unicode_len();
    if n < 7 {
        return None;
    }
    let mut i: usize = 0;
    while i < 7
        invariant
            n == header@.len(),
            n >= 7,
            i <= 7,
            forall|j: int| 0 <= j < i ==> same_letter(#[trigger] header@[j], bearer_prefix()[j]),
        decreases 7 - i,
    {
        let c = header.get_char(i);
        let l = prefix_char(i);
        if !(c == l || ('a' <= l && l <= 'z' && (c as u32) + 32 == l as u32)) {
            return None;
        }
        i = i + 1;
    }
    Some(header.substring_char(7, n))
}

impl AuthenticatedUser {
    pub fn from_claims(claims: Claims) -> (r: AuthenticatedUser)
        ensures
            r.id == claims.sub,
            r.username == claims.username,
            r.is_admin == claims.is_admin,
    {
        AuthenticatedUser { id: claims.sub, username: claims.username, is_admin: claims.is_admin }
    }

    /// Admits admins only.
    pub fn require_admin(&self) -> (r: Result<(), AppError>)
        ensures
            r is Ok <==> self.is_admin,
            r matches Err(e) ==> (e matches AppError::Forbidden(m) && m@ == "Admin privileges required"@),
    {
        if self.is_admin {
            Ok(())
        } else {
            Err(AppError::Forbidden(String::from_str("Admin privileges required")))
        }
    }
}

/// Authenticates a request by its `Authorization` header value at time `now`.
///
/// A missing header and a header without the `Bearer ` scheme are both
/// `Unauthorized`, with different messages; any token failure is the codec's
/// one generic token error, unchanged.
pub fn extract_user_at(header: Option<&str>, secret: &str, now: i64) -> (r: AppResult<AuthenticatedUser>)
    ensures
        header is None ==> (r matches Err(AppError::Unauthorized(m)) && m@ == missing_header_message()),
        header matches Some(h) && !has_bearer_prefix(h@) ==> (r matches Err(AppError::Unauthorized(m))
            && m@ == header_format_message()),
        match header {
            Some(h) => has_bearer_prefix(h@) ==> ((r is Ok <==> token_valid_at(
                secret@,
                bearer_token(h@),
                now,
            )) && (r is Err ==> is_invalid_token(r->Err_0))),
            None => true,
        },
        r matches Ok(u) ==> (header matches Some(h) && identifies(secret@, h@, now, u)),
{
    let h = match header {
        Some(h) => h,
        None => {
            return Err(AppError::Unauthorized(String::from_str("Missing Authorization header")));
        },
    };
    let token = match strip_bearer(h) {
        Some(t) => t,
        None => {
            return Err(
                AppError::Unauthorized(
                    String::from_str("Invalid Authorization header format. Expected: Bearer <token>"),
                ),
            );
        },
    };
    let claims = decode_token_at(secret, token, now)?;
    Ok(AuthenticatedUser::from_claims(claims))
}

/// Authenticates a request by its `Authorization` header value against the clock.
pub fn extract_user(header: Option<&str>, secret: &str) -> (r: AppResult<AuthenticatedUser>)
    ensures
        header is None ==> (r matches Err(AppError::Unauthorized(m)) && m@ == missing_header_message()),
        header matches Some(h) && !has_bearer_prefix(h@) ==> (r matches Err(AppError::Unauthorized(m))
            && m@ == header_format_message()),
        match header {
            Some(h) => has_bearer_prefix(h@) ==> {
                &&& !token_decodes(secret@, bearer_token(h@)) ==> r is Err
                &&& token_valid_at(secret@, bearer_token(h@), CLOCK_BOUND) ==> r is Ok
                &&& r is Err ==> is_invalid_token(r->Err_0)
            },
            None => true,
        },
        r matches Ok(u) ==> (header matches Some(h) && carries_identity(secret@, h@, u)),
{
    extract_user_at(header, secret, now_timestamp())
}

impl OptionalUser {
    /// Like [`extract_user_at`], with every failure turned into an absent identity.
    pub fn from_header_at(header: Option<&str>, secret: &str, now: i64) -> (r: OptionalUser)
        ensures
            r.0 is Some <==> (header matches Some(h) && has_bearer_prefix(h@) && token_valid_at(
                secret@,
                bearer_token(h@),
                now,
            )),
            r.0 matches Some(u) ==> (header matches Some(h) && identifies(secret@, h@, now, u)),
    {
        match extract_user_at(header, secret, now) {
            Ok(u) => OptionalUser(Some(u)),
            Err(_) => OptionalUser(None),
        }
    }

    /// Like [`extract_user`], with every failure turned into an absent identity.
    pub fn from_header(header: Option<&str>, secret: &str) -> (r: OptionalUser)
        ensures
            header is None ==> r.0 is None,
            (header matches Some(h) && !has_bearer_prefix(h@)) ==> r.0 is None,
            match header {
                Some(h) => has_bearer_prefix(h@) ==> {
                    &&& !token_decodes(secret@, bearer_token(h@)) ==> r.0 is None
                    &&& token_valid_at(secret@, bearer_token(h@), CLOCK_BOUND) ==> r.0 is Some
                },
                None => true,
            },
            r.0 matches Some(u) ==> (header matches Some(h) && carries_identity(secret@, h@, u)),
    {
        OptionalUser::from_header_at(header, secret, now_timestamp())
    }
}

} // verus!
