//! Authentication service: registration and login, one call per request, over an
//! account index held exclusively for the duration of the call.

use vstd::prelude::*;
use crate::clock::now_timestamp;
use crate::credentials::{
    argon2_accepts, hash_password, hashes_to, is_verify_failure, phc_parses, verify_password,
};
use crate::error::{is_invalid_credentials, AppError, AppResult};
use crate::ids::{new_account_id, uuid_parsed};
use crate::jwt::{
    create_token_pair_at, is_token_failure, issuable, token_claims, ttl_in_range, TokenPair, MAX_TTL_DAYS,
    SECONDS_PER_DAY,
};
use crate::middleware::AuthenticatedUser;
use crate::user_repository::{
    id_taken, is_conflict, lower_of, name_taken, name_taken_by_other, with_login, User, UserIndex,
};

verus! {

/// Registration form.
#[derive(Debug, Clone)]
pub struct RegisterRequest {
    pub username: String,
    pub password: String,
}

/// Login form.
#[derive(Debug, Clone)]
pub struct LoginRequest {
    pub username: String,
    pub password: String,
}

/// Public account information in replies.
#[derive(Debug, Clone)]
pub struct UserResponse {
    pub id: u128,
    pub username: String,
    pub is_admin: bool,
    pub created_at: i64,
}

/// Reply to a successful registration or login.
#[derive(Debug, Clone)]
pub struct AuthResponse {
    pub user: UserResponse,
    pub token: TokenPair,
}

pub open spec fn is_username_char(c: char) -> bool {
    ('a' <= c && c <= 'z') || ('A' <= c && c <= 'Z') || ('0' <= c && c <= '9') || c == '_'
}

/// 3 to 32 characters, each a letter, a digit or an underscore.
pub open spec fn valid_username(s: Seq<char>) -> bool {
    3 <= s.len() <= 32 && forall|i: int| 0 <= i < s.len() ==> is_username_char(#[trigger] s[i])
}

/// 8 to 128 characters.
pub open spec fn valid_password(s: Seq<char>) -> bool {
    8 <= s.len() <= 128
}

pub open spec fn describes(r: UserResponse, u: User) -> bool {
    r.id == u.id && r.username@ == u.username@ && r.is_admin == u.is_admin && r.created_at == u.created_at
}

/// The token pair was issued at `now` for `days` days to the account `u`.
pub open spec fn issued_for(secret: Seq<char>, days: i64, now: i64, p: TokenPair, u: User) -> bool {
    &&& p.token_type@ == "Bearer"@
    &&& p.expires_in == days * SECONDS_PER_DAY
    &&& token_claims(secret, p.access_token@) matches Some(t)
    &&& uuid_parsed(t.0) == Some(u.id)
    &&& t.1 == u.username@
    &&& t.2 == u.is_admin
    &&& t.3 == now + days * SECONDS_PER_DAY
    &&& t.4 == now
}

/// The index after a registration: one new record at the end, first ever one admin.
pub open spec fn registered(
    before: Seq<User>,
    after: Seq<User>,
    req: RegisterRequest,
    id: u128,
    now: i64,
    secret: Seq<char>,
    days: i64,
    resp: AuthResponse,
) -> bool {
    &&& after.len() == before.len() + 1
    &&& after.drop_last() == before
    &&& after.last().id == id
    &&& after.last().username@ == req.username@
    &&& after.last().is_admin == (before.len() == 0)
    &&& hashes_to(req.password@, after.last().password_hash@)
    &&& after.last().created_at == now
    &&& after.last().last_login is None
    &&& describes(resp.user, after.last())
    &&& issued_for(secret, days, now, resp.token, after.last())
}

/// The record a login is for: its name folds like `username`.
pub open spec fn login_target(s: Seq<User>, k: int, username: Seq<char>) -> bool {
    0 <= k < s.len() && lower_of(s[k].username@) == lower_of(username)
}

/// The index after a login of record `k`, and the reply.
pub open spec fn logged_in(
    before: Seq<User>,
    after: Seq<User>,
    k: int,
    req: LoginRequest,
    now: i64,
    secret: Seq<char>,
    days: i64,
    resp: AuthResponse,
) -> bool {
    &&& login_target(before, k, req.username@)
    &&& hashes_to(req.password@, before[k].password_hash@)
    &&& after == before.update(k, with_login(before[k], now))
    &&& describes(resp.user, before[k])
    &&& issued_for(secret, days, now, resp.token, before[k])
}

fn is_username_char_exec(c: char) -> (r: bool)
    ensures
        r == is_username_char(c),
{
    ('a' <= c && c <= 'z') || ('A' <= c && c <= 'Z') || ('0' <= c && c <= '9') || c == '_'
}

/// Checks the shape of a registration form.
pub fn validate_registration(req: &RegisterRequest) -> (r: AppResult<()>)
    ensures
        r is Ok <==> valid_username(req.username@) && valid_password(req.password@),
        r matches Err(e) ==> e is Validation,
{
    let name = req.username.as_str();
    let n = name.unicode_len();
    if n < 3 || n > 32 {
        return Err(AppError::Validation(String::from_str("Username must be 3-32 characters")));
    }
    let mut i: usize = 0;
    while i < n
        invariant
            n == req.username@.len(),
            name@ == req.username@,
            i <= n,
            forall|j: int| 0 <= j < i ==> is_username_char(#[trigger] req.username@[j]),
        decreases n - i,
    {
        if !is_username_char_exec(name.get_char(i)) {
            return Err(
                AppError::Validation(
                    String::from_str("Username can only contain letters, numbers, and underscores"),
                ),
            );
        }
        i = i + 1;
    }
    let m = req.password.as_str().unicode_len();
    if m < 8 || m > 128 {
        return Err(AppError::Validation(String::from_str("Password must be 8-128 characters")));
    }
    Ok(())
}

impl UserResponse {
    pub fn from_user(user: &User) -> (r: UserResponse)
        ensures
            describes(r, *user),
    {
        UserResponse {
            id: user.id,
            username: user.username.clone(),
            is_admin: user.is_admin,
            created_at: user.created_at,
        }
    }
}

/// Registers an account with id `id` at time `now`.
///
/// The form is checked first; then, in one step over the index, the name is
/// checked free, the first account ever is made admin, and the record is added
/// with a freshly hashed password once its token is issued. Any failure leaves
/// the index as it was.
pub fn register_at(
    index: &mut UserIndex,
    secret: &str,
    expiry_days: i64,
    req: &RegisterRequest,
    id: u128,
    now: i64,
) -> (r: AppResult<AuthResponse>)
    ensures
        !(valid_username(req.username@) && valid_password(req.password@)) ==> (r matches Err(e) && e is Validation),
        valid_username(req.username@) && valid_password(req.password@) && (name_taken(old(index)@, req.username@)
            || id_taken(old(index)@, id)) ==> (r matches Err(e) && is_conflict(e)),
        r is Ok <==> valid_username(req.username@) && valid_password(req.password@) && !name_taken(
            old(index)@,
            req.username@,
        ) && !id_taken(old(index)@, id) && issuable(expiry_days, now),
        r is Err ==> final(index)@ == old(index)@,
        r matches Err(e) ==> e is Validation || is_conflict(e) || is_token_failure(e),
        valid_username(req.username@) && valid_password(req.password@) && r is Err ==> is_conflict(r->Err_0)
            || is_token_failure(r->Err_0),
        r matches Ok(resp) ==> registered(old(index)@, final(index)@, *req, id, now, secret@, expiry_days, resp),
{
    validate_registration(req)?;
    if index.username_exists(req.username.as_str()) {
        let msg = String::from_str("Username '").concat(req.username.as_str()).concat("' is already taken");
        return Err(AppError::Conflict(msg));
    }
    if index.find_by_id(id).is_some() {
        return Err(AppError::Conflict(String::from_str("Account id is already in use")));
    }
    let password_hash = hash_password(req.password.as_str())?;
    let is_admin = index.count() == 0;
    let token = create_token_pair_at(secret, expiry_days, id, req.username.clone(), is_admin, now)?;
    let user = User::new_with(id, req.username.clone(), password_hash, is_admin, now);
    let ghost before = index@;
    let created = index.create(user);
    match created {
        Ok(u) => {
            let resp = AuthResponse { user: UserResponse::from_user(&u), token };
            proof {
                assert(index@.drop_last() =~= before);
            }
            Ok(resp)
        },
        Err(e) => Err(e),
    }
}

/// Registers an account with a fresh random id, now.
pub fn register(index: &mut UserIndex, secret: &str, expiry_days: i64, req: &RegisterRequest) -> (r: AppResult<
    AuthResponse,
>)
    ensures
        !(valid_username(req.username@) && valid_password(req.password@)) ==> (r matches Err(e) && e is Validation),
        valid_username(req.username@) && valid_password(req.password@) && name_taken(old(index)@, req.username@)
            ==> (r matches Err(e) && is_conflict(e)),
        valid_username(req.username@) && valid_password(req.password@) && r is Err ==> is_conflict(r->Err_0)
            || is_token_failure(r->Err_0),
        old(index)@.len() == 0 && valid_username(req.username@) && valid_password(req.password@) && 0 <= expiry_days
            <= MAX_TTL_DAYS ==> r is Ok,
        r is Err ==> final(index)@ == old(index)@,
        r matches Ok(resp) ==> exists|id: u128, now: i64| #[trigger]
            registered(old(index)@, final(index)@, *req, id, now, secret@, expiry_days, resp),
{
    let id = new_account_id();
    let now = now_timestamp();
    register_at(index, secret, expiry_days, req, id, now)
}

/// Logs in at time `now`.
///
/// An unknown username and a wrong password give the same error. On success the
/// record's last login becomes `now`; the reply is built from the record as it
/// was found. Any failure leaves the index as it was.
pub fn login_at(
    index: &mut UserIndex,
    secret: &str,
    expiry_days: i64,
    req: &LoginRequest,
    now: i64,
) -> (r: AppResult<AuthResponse>)
    ensures
        !name_taken(old(index)@, req.username@) ==> (r matches Err(e) && is_invalid_credentials(e)),
        forall|k: int| #[trigger]
            login_target(old(index)@, k, req.username@) ==> {
                &&& phc_parses(old(index)@[k].password_hash@) && !argon2_accepts(
                    req.password@,
                    old(index)@[k].password_hash@,
                ) ==> (r matches Err(e) && is_invalid_credentials(e))
                &&& !phc_parses(old(index)@[k].password_hash@) ==> (r matches Err(e) && is_verify_failure(e))
                &&& hashes_to(req.password@, old(index)@[k].password_hash@) ==> (r is Ok <==> issuable(
                    expiry_days,
                    now,
                ))
                &&& hashes_to(req.password@, old(index)@[k].password_hash@) && r is Err ==> is_token_failure(
                    r->Err_0,
                )
            },
        r is Err ==> final(index)@ == old(index)@,
        r matches Err(e) ==> is_invalid_credentials(e) || is_verify_failure(e) || is_token_failure(e),
        r matches Ok(resp) ==> exists|k: int| #[trigger]
            logged_in(old(index)@, final(index)@, k, *req, now, secret@, expiry_days, resp),
{
    let user = match index.find_by_username(req.username.as_str()) {
        Some(u) => u,
        None => {
            return Err(AppError::invalid_credentials());
        },
    };
    let ghost k = choose|k: int|
        0 <= k < index@.len() && index@[k] == user && lower_of(user.username@) == lower_of(req.username@);
    proof {
        assert forall|j: int|
            login_target(index@, j, req.username@) implies #[trigger] index@[j] == index@[k] by {
            if j != k {
                assert(index@[j].id != index@[k].id);
            }
        }
    }
    if !verify_password(req.password.as_str(), user.password_hash.as_str())? {
        return Err(AppError::invalid_credentials());
    }
    let token = create_token_pair_at(secret, expiry_days, user.id, user.username.clone(), user.is_admin, now)?;
    let mut updated = user.snapshot();
    updated.last_login = Some(now);
    let ghost before = index@;
    proof {
        assert(id_taken(before, updated.id));
        assert(!name_taken_by_other(before, updated.username@, updated.id));
    }
    let res = index.update(updated);
    proof {
        assert(res is Ok);
        let k2 = choose|k2: int|
            0 <= k2 < before.len() && before[k2].id == with_login(before[k], now).id && index@ == before.update(
                k2,
                with_login(before[k], now),
            );
        if k2 != k {
            assert(before[k2].id != before[k].id);
        }
    }
    let resp = AuthResponse { user: UserResponse::from_user(&user), token };
    let out: AppResult<AuthResponse> = Ok(resp);
    proof {
        assert(logged_in(old(index)@, index@, k, *req, now, secret@, expiry_days, out->Ok_0));
    }
    out
}

/// Logs in now.
pub fn login(index: &mut UserIndex, secret: &str, expiry_days: i64, req: &LoginRequest) -> (r: AppResult<
    AuthResponse,
>)
    ensures
        !name_taken(old(index)@, req.username@) ==> (r matches Err(e) && is_invalid_credentials(e)),
        forall|k: int| #[trigger]
            login_target(old(index)@, k, req.username@) ==> {
                &&& phc_parses(old(index)@[k].password_hash@) && !argon2_accepts(
                    req.password@,
                    old(index)@[k].password_hash@,
                ) ==> (r matches Err(e) && is_invalid_credentials(e))
                &&& !phc_parses(old(index)@[k].password_hash@) ==> (r matches Err(e) && is_verify_failure(e))
                &&& hashes_to(req.password@, old(index)@[k].password_hash@) && r is Err ==> is_token_failure(
                    r->Err_0,
                )
                &&& hashes_to(req.password@, old(index)@[k].password_hash@) && 0 <= expiry_days <= MAX_TTL_DAYS
                    ==> r is Ok
            },
        !ttl_in_range(expiry_days as int) ==> r is Err,
        r is Err ==> final(index)@ == old(index)@,
        r matches Ok(resp) ==> exists|k: int, now: i64| #[trigger]
            logged_in(old(index)@, final(index)@, k, *req, now, secret@, expiry_days, resp),
{
    login_at(index, secret, expiry_days, req, now_timestamp())
}

/// The account of the authenticated caller, as it is now in the index.
pub fn me(index: &UserIndex, caller: &AuthenticatedUser) -> (r: AppResult<UserResponse>)
    ensures
        r is Err <==> !id_taken(index@, caller.id),
        r matches Err(e) ==> (e matches AppError::NotFound(m) && m@ == "User not found"@),
        r matches Ok(resp) ==> exists|k: int| 0 <= k < index@.len() && #[trigger] index@[k].id == caller.id
            && describes(resp, index@[k]),
{
    match index.find_by_id(caller.id) {
        Some(u) => Ok(UserResponse::from_user(&u)),
        None => Err(AppError::NotFound(String::from_str("User not found"))),
    }
}

/// The first account registered in an empty index is an admin; the one
/// registered after it is not.
pub proof fn lemma_first_account_is_admin(
    s0: Seq<User>,
    s1: Seq<User>,
    s2: Seq<User>,
    req1: RegisterRequest,
    req2: RegisterRequest,
    id1: u128,
    id2: u128,
    now1: i64,
    now2: i64,
    secret: Seq<char>,
    days: i64,
    resp1: AuthResponse,
    resp2: AuthResponse,
)
    requires
        s0.len() == 0,
        registered(s0, s1, req1, id1, now1, secret, days, resp1),
        registered(s1, s2, req2, id2, now2, secret, days, resp2),
    ensures
        s1.last().is_admin && resp1.user.is_admin,
        !s2.last().is_admin && !resp2.user.is_admin,
{
}

/// A login for an unknown name and a login with a wrong password fail with the
/// same error code and the same message.
pub proof fn lemma_login_failures_indistinguishable(unknown_name: AppError, wrong_password: AppError)
    requires
        is_invalid_credentials(unknown_name),
        is_invalid_credentials(wrong_password),
    ensures
        unknown_name matches AppError::Unauthorized(m1) && wrong_password matches AppError::Unauthorized(m2)
            && m1@ == m2@,
{
}

/// Once a registration is in, a second one whose username folds the same way
/// finds the name taken, so it is refused with a conflict whatever its id.
pub proof fn lemma_second_registration_conflicts(
    s0: Seq<User>,
    s1: Seq<User>,
    req1: RegisterRequest,
    req2: RegisterRequest,
    id1: u128,
    now1: i64,
    secret: Seq<char>,
    days: i64,
    resp1: AuthResponse,
)
    requires
        registered(s0, s1, req1, id1, now1, secret, days, resp1),
        lower_of(req2.username@) == lower_of(req1.username@),
    ensures
        name_taken(s1, req2.username@),
{
    assert(s1[s1.len() - 1] == s1.last());
}

} // verus!
