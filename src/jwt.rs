//! Token codec: signed, time-bounded identity assertions.
//!
//! A token carries a snapshot of the account (`sub`, `username`, `is_admin`)
//! taken at issuance; it is never re-checked against the account store, so a
//! change of name or privilege takes effect only once older tokens expire.

use vstd::prelude::*;
use crate::clock::{now_timestamp, CLOCK_BOUND};
use crate::error::{is_invalid_token, AppError, AppResult};
use crate::ids::{parse_uuid, uuid_parsed, uuid_text};

verus! {

pub const SECONDS_PER_DAY: i64 = 86400;

/// Largest lifetime, in days, a token may be issued with: beyond it the expiry
/// leaves the range of calendar time.
pub const MAX_TTL_DAYS: i64 = 100_000_000;

/// What `jsonwebtoken::decode` (HS256, expiry left to the caller) finds in a token
/// under a secret: `sub`, `username`, `is_admin`, `exp`, `iat`; none if the
/// signature, structure or any of these fields is wrong.
pub uninterp spec fn token_claims(secret: Seq<char>, token: Seq<char>) -> Option<(Seq<char>, Seq<char>, bool, i64, i64)>;

/// Relies on `jsonwebtoken::encode` with the default HS256 header: for an HMAC key
/// it does not fail (serialising the header and a map of plain values cannot fail,
/// nor can HMAC signing), and the token it signs decodes under the same secret to
/// exactly the claim set it was given, provided `exp` is not negative (decoding
/// reads `exp` as an unsigned number).
#[verifier::external_body]
fn sign_claims(secret: &str, sub: &str, username: &str, is_admin: bool, exp: i64, iat: i64) -> (r: String)
    ensures
        exp >= 0 ==> token_claims(secret@, r@) == Some((sub@, username@, is_admin, exp, iat)),
{
    let mut m = serde_json::Map::new();
    m.insert("sub".to_string(), sub.into());
    m.insert("username".to_string(), username.into());
    m.insert("is_admin".to_string(), is_admin.into());
    m.insert("exp".to_string(), exp.into());
    m.insert("iat".to_string(), iat.into());
    let key = jsonwebtoken::EncodingKey::from_secret(secret.as_bytes());
    jsonwebtoken::encode(&jsonwebtoken::Header::default(), &m, &key).expect("HMAC signing does not fail")
}

/// Relies on `jsonwebtoken::decode` with HS256, its own expiry check switched off:
/// signature first, then the claim set, read field by field.
#[verifier::external_body]
fn open_token(secret: &str, token: &str) -> (r: Option<(String, String, bool, i64, i64)>)
    ensures
        r is Some <==> token_claims(secret@, token@) is Some,
        r matches Some(c) ==> token_claims(secret@, token@) == Some((c.0@, c.1@, c.2, c.3, c.4)),
{
    let mut v = jsonwebtoken::Validation::default();
    v.validate_exp = false;
    let key = jsonwebtoken::DecodingKey::from_secret(secret.as_bytes());
    let c = jsonwebtoken::decode::<serde_json::Map<String, serde_json::Value>>(token, &key, &v).ok()?.claims;
    let s = |k: &str| c.get(k).and_then(|x| x.as_str()).map(|x| x.to_string());
    let n = |k: &str| c.get(k).and_then(|x| x.as_i64());
    Some((s("sub")?, s("username")?, c.get("is_admin")?.as_bool()?, n("exp")?, n("iat")?))
}

/// Payload of a token.
#[derive(Debug, Clone)]
pub struct Claims {
    /// Account id.
    pub sub: u128,
    pub username: String,
    pub is_admin: bool,
    /// Expiry, Unix seconds.
    pub exp: i64,
    /// Issuance, Unix seconds.
    pub iat: i64,
}

/// Reply to a successful authentication: the token, its type and its lifetime.
#[derive(Debug, Clone)]
pub struct TokenPair {
    pub access_token: String,
    pub token_type: String,
    pub expires_in: i64,
}

/// The token, read under the secret, carries exactly these claims.
pub open spec fn token_carries(secret: Seq<char>, token: Seq<char>, c: Claims) -> bool {
    token_claims(secret, token) matches Some(t) && uuid_parsed(t.0) == Some(c.sub) && t.1
        == c.username@ && t.2 == c.is_admin && t.3 == c.exp && t.4 == c.iat
}

/// The token has a valid signature and a well-formed claim set.
pub open spec fn token_decodes(secret: Seq<char>, token: Seq<char>) -> bool {
    token_claims(secret, token) matches Some(t) && uuid_parsed(t.0) is Some
}

pub open spec fn ttl_in_range(days: int) -> bool {
    -MAX_TTL_DAYS <= days <= MAX_TTL_DAYS
}

/// A token can be issued for this lifetime at this time: the expiry is
/// representable and not before the epoch.
pub open spec fn issuable(days: i64, now: i64) -> bool {
    ttl_in_range(days as int) && -CLOCK_BOUND <= now <= CLOCK_BOUND && now + days * SECONDS_PER_DAY >= 0
}

pub open spec fn is_token_failure(e: AppError) -> bool {
    e matches AppError::Internal(m) && m@ == "Failed to generate token"@
}

impl Claims {
    /// Claims issued at `now`, valid for `expiry_days` days.
    pub fn new_at(user_id: u128, username: String, is_admin: bool, expiry_days: i64, now: i64) -> (r: Claims)
        requires
            ttl_in_range(expiry_days as int),
            -CLOCK_BOUND <= now <= CLOCK_BOUND,
        ensures
            r.sub == user_id,
            r.username@ == username@,
            r.is_admin == is_admin,
            r.iat == now,
            r.exp == now + expiry_days * SECONDS_PER_DAY,
    {
        Claims { sub: user_id, username, is_admin, exp: now + expiry_days * SECONDS_PER_DAY, iat: now }
    }

    /// Claims issued now, valid for `expiry_days` days.
    pub fn new(user_id: u128, username: String, is_admin: bool, expiry_days: i64) -> (r: Claims)
        requires
            ttl_in_range(expiry_days as int),
        ensures
            r.sub == user_id,
            r.username@ == username@,
            r.is_admin == is_admin,
            0 <= r.iat <= CLOCK_BOUND,
            r.exp == r.iat + expiry_days * SECONDS_PER_DAY,
    {
        let now = now_timestamp();
        Claims::new_at(user_id, username, is_admin, expiry_days, now)
    }

    /// Expired from the second `exp` on: a token issued for zero days is never valid.
    pub fn is_expired_at(&self, now: i64) -> (r: bool)
        ensures
            r == (now >= self.exp),
    {
        now >= self.exp
    }

    /// Whether the claims have expired by the clock.
    pub fn is_expired(&self) -> (r: bool)
        ensures
            self.exp > CLOCK_BOUND ==> !r,
            self.exp <= 0 ==> r,
    {
        self.is_expired_at(now_timestamp())
    }
}

/// Signs the claims into a token; one whose expiry is before the epoch cannot be
/// read back.
pub fn encode_token(secret: &str, claims: &Claims) -> (r: AppResult<String>)
    ensures
        r is Ok,
        r matches Ok(t) ==> (claims.exp >= 0 ==> token_carries(secret@, t@, *claims)),
{
    let sub = uuid_text(claims.sub);
    Ok(sign_claims(secret, sub.as_str(), claims.username.as_str(), claims.is_admin, claims.exp, claims.iat))
}

/// Checks the signature and the shape of a token and returns its claims,
/// whatever their expiry.
fn read_token(secret: &str, token: &str) -> (r: AppResult<Claims>)
    ensures
        r is Ok <==> token_decodes(secret@, token@),
        r matches Ok(c) ==> token_carries(secret@, token@, c),
        r matches Err(e) ==> is_invalid_token(e),
{
    match open_token(secret, token) {
        Some((sub, username, is_admin, exp, iat)) => match parse_uuid(sub.as_str()) {
            Some(id) => Ok(Claims { sub: id, username, is_admin, exp, iat }),
            None => Err(AppError::invalid_token()),
        },
        None => Err(AppError::invalid_token()),
    }
}

/// The token is accepted at time `now`: it decodes and its expiry lies after `now`.
pub open spec fn token_valid_at(secret: Seq<char>, token: Seq<char>, now: i64) -> bool {
    token_decodes(secret, token) && (token_claims(secret, token) matches Some(t) && now < t.3)
}

/// Validates a token at time `now`: the signature and shape are checked first,
/// then the expiry, independently of anything the encoding enforces. Malformed,
/// tampered, foreign and expired tokens all give the one generic token error.
pub fn decode_token_at(secret: &str, token: &str, now: i64) -> (r: AppResult<Claims>)
    ensures
        r is Ok <==> token_valid_at(secret@, token@, now),
        r matches Ok(c) ==> token_carries(secret@, token@, c) && now < c.exp,
        r matches Err(e) ==> is_invalid_token(e),
{
    let claims = read_token(secret, token)?;
    if claims.is_expired_at(now) {
        return Err(AppError::invalid_token());
    }
    Ok(claims)
}

/// Validates a token against the clock.
pub fn decode_token(secret: &str, token: &str) -> (r: AppResult<Claims>)
    ensures
        !token_valid_at(secret@, token@, 0) ==> r is Err,
        token_valid_at(secret@, token@, CLOCK_BOUND) ==> r is Ok,
        r matches Ok(c) ==> token_carries(secret@, token@, c) && c.exp > 0,
        r matches Err(e) ==> is_invalid_token(e),
{
    decode_token_at(secret, token, now_timestamp())
}

/// Issues a token at time `now` for `expiry_days` days.
pub fn create_token_pair_at(
    secret: &str,
    expiry_days: i64,
    user_id: u128,
    username: String,
    is_admin: bool,
    now: i64,
) -> (r: AppResult<TokenPair>)
    ensures
        r is Ok <==> issuable(expiry_days, now),
        r matches Ok(p) ==> {
            &&& p.token_type@ == "Bearer"@
            &&& p.expires_in == expiry_days * SECONDS_PER_DAY
            &&& token_claims(secret@, p.access_token@) matches Some(t)
            &&& uuid_parsed(t.0) == Some(user_id)
            &&& t.1 == username@
            &&& t.2 == is_admin
            &&& t.3 == now + expiry_days * SECONDS_PER_DAY
            &&& t.4 == now
        },
        r matches Err(e) ==> is_token_failure(e),
{
    if expiry_days < -MAX_TTL_DAYS || expiry_days > MAX_TTL_DAYS || now < -CLOCK_BOUND || now > CLOCK_BOUND {
        return Err(AppError::Internal(String::from_str("Failed to generate token")));
    }
    if now + expiry_days * SECONDS_PER_DAY < 0 {
        return Err(AppError::Internal(String::from_str("Failed to generate token")));
    }
    let claims = Claims::new_at(user_id, username, is_admin, expiry_days, now);
    let access_token = encode_token(secret, &claims)?;
    Ok(TokenPair {
        access_token,
        token_type: String::from_str("Bearer"),
        expires_in: expiry_days * SECONDS_PER_DAY,
    })
}

/// Issues a token now for `expiry_days` days.
pub fn create_token_pair(secret: &str, expiry_days: i64, user_id: u128, username: String, is_admin: bool) -> (r:
    AppResult<TokenPair>)
    ensures
        0 <= expiry_days <= MAX_TTL_DAYS ==> r is Ok,
        !ttl_in_range(expiry_days as int) ==> r is Err,
        r matches Ok(p) ==> {
            &&& p.token_type@ == "Bearer"@
            &&& p.expires_in == expiry_days * SECONDS_PER_DAY
            &&& token_claims(secret@, p.access_token@) matches Some(t)
            &&& uuid_parsed(t.0) == Some(user_id)
            &&& t.1 == username@
            &&& t.2 == is_admin
            &&& 0 <= t.4 <= CLOCK_BOUND
            &&& t.3 == t.4 + expiry_days * SECONDS_PER_DAY
        },
        r matches Err(e) ==> is_token_failure(e),
{
    create_token_pair_at(secret, expiry_days, user_id, username, is_admin, now_timestamp())
}

/// Round trip: a token that carries some claims is accepted at any time before
/// their expiry, and yields claims with the same account id, username, admin flag
/// and expiry.
pub proof fn lemma_issue_validate_round_trip(secret: Seq<char>, token: Seq<char>, issued: Claims, now: i64)
    requires
        token_carries(secret, token, issued),
        now < issued.exp,
    ensures
        token_valid_at(secret, token, now),
        forall|c: Claims| #[trigger] token_carries(secret, token, c) ==> c.sub == issued.sub
            && c.username@ == issued.username@ && c.is_admin == issued.is_admin && c.exp == issued.exp,
{
}

/// A token is rejected from the second its claims expire; in particular one
/// issued with a lifetime of zero days is rejected already at its issuing second.
pub proof fn lemma_expired_token_rejected(secret: Seq<char>, token: Seq<char>, issued: Claims, now: i64)
    requires
        token_carries(secret, token, issued),
        now >= issued.exp,
    ensures
        !token_valid_at(secret, token, now),
{
}

/// A token issued at `now` for zero days is rejected at `now` and at any later time.
pub proof fn lemma_zero_ttl_rejected(secret: Seq<char>, token: Seq<char>, issued: Claims, now: i64)
    requires
        token_carries(secret, token, issued),
        issued.exp == issued.iat + 0 * SECONDS_PER_DAY,
        now >= issued.iat,
    ensures
        !token_valid_at(secret, token, now),
{
}

} // verus!
