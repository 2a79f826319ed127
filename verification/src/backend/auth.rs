//! Authentication: the answers of the login and signup routes, the session
//! guard's decisions, and session tokens.

use rand::Rng;
use sha2::{Digest, Sha256};
use vstd::prelude::*;
use vstd::string::*;
use vstd::utf8::encode_utf8;

use crate::backend::error::BackendError;
use crate::backend::record::RecordId;
use crate::backend::user::User;
use crate::text::{decimal, hex_lower, hex_lower_string, lemma_hex_lower_len, push_decimal};

verus! {

/// An HTTP status code.
#[derive(Debug)]
pub struct HttpStatus {
    pub code: u16,
}

impl HttpStatus {
    /// 200 OK.
    pub fn ok() -> (s: HttpStatus)
        ensures
            s.code == 200,
    {
        HttpStatus { code: 200 }
    }

    /// 401 Unauthorized.
    pub fn unauthorized() -> (s: HttpStatus)
        ensures
            s.code == 401,
    {
        HttpStatus { code: 401 }
    }

    /// 409 Conflict.
    pub fn conflict() -> (s: HttpStatus)
        ensures
            s.code == 409,
    {
        HttpStatus { code: 409 }
    }
}

/// The credentials that a login request carries.
pub struct UserLoginForm {
    pub username: String,
    pub password: String,
}

/// What a signup request carries.
pub struct UserSignupForm {
    pub username: String,
    pub password: String,
    pub token: String,
}

/// A private cookie that the server sets on the client.
pub struct AuthCookie {
    pub name: String,
    pub value: String,
}

/// The answer to a login or signup request: its status and the session
/// cookie to set, if any.
pub struct AuthReply {
    pub status: HttpStatus,
    pub cookie: Option<AuthCookie>,
}

/// The name of the cookie that holds the session token.
pub open spec fn auth_cookie_name() -> Seq<char> {
    "auth-token"@
}

/// Whether `reply` sets the session cookie to `token` with status `code`.
pub open spec fn grants(reply: AuthReply, code: u16, token: Seq<char>) -> bool {
    &&& reply.status.code == code
    &&& reply.cookie matches Some(c)
    &&& c.name@ == auth_cookie_name()
    &&& c.value@ == token
}

/// Whether `reply` has status `code` and sets no cookie.
pub open spec fn refuses(reply: AuthReply, code: u16) -> bool {
    reply.status.code == code && reply.cookie is None
}

/// The answer to the preflight request of the login route: 200.
pub fn login_options() -> (s: HttpStatus)
    ensures
        s.code == 200,
{
    HttpStatus::ok()
}

/// The answer to the preflight request of the signup route: 200.
pub fn signup_options() -> (s: HttpStatus)
    ensures
        s.code == 200,
{
    HttpStatus::ok()
}

fn session_cookie(token: String) -> (c: AuthCookie)
    ensures
        c.name@ == auth_cookie_name(),
        c.value == token,
{
    AuthCookie { name: String::from_str("auth-token"), value: token }
}

/// The answer to a login request, given the outcome of the login: 200 with
/// the session cookie holding the token, or 401 without a cookie.
pub fn login_reply(outcome: Result<String, BackendError>) -> (r: AuthReply)
    ensures
        r.cookie matches Some(c) ==> c.name@ == "auth-token"@ && r.status.code == 200,
        outcome matches Ok(token) ==> (r.cookie matches Some(c) && c.value@ == token@),
        match outcome {
            Ok(token) => grants(r, 200, token@),
            Err(_) => refuses(r, 401),
        },
{
    match outcome {
        Ok(token) => AuthReply { status: HttpStatus::ok(), cookie: Some(session_cookie(token)) },
        Err(_) => AuthReply { status: HttpStatus::unauthorized(), cookie: None },
    }
}

/// The arguments with which a signup request signs the user up: the
/// username serves as username, email and display name; the access token is
/// not passed on.
pub struct SignupArguments {
    pub username: String,
    pub email: String,
    pub password: String,
    pub displayname: String,
}

/// The arguments with which the signup route signs up the user of `form`.
pub fn signup_arguments(form: &UserSignupForm) -> (a: SignupArguments)
    ensures
        a.username@ == form.username@,
        a.email@ == form.username@,
        a.password@ == form.password@,
        a.displayname@ == form.username@,
{
    SignupArguments {
        username: form.username.clone(),
        email: form.username.clone(),
        password: form.password.clone(),
        displayname: form.username.clone(),
    }
}

/// The answer to a signup request, given the outcome of the signup: 200 with
/// the session cookie holding the token, or 409 without a cookie.
pub fn signup_reply(outcome: Result<String, BackendError>) -> (r: AuthReply)
    ensures
        r.cookie matches Some(c) ==> c.name@ == "auth-token"@ && r.status.code == 200,
        outcome matches Ok(token) ==> (r.cookie matches Some(c) && c.value@ == token@),
        match outcome {
            Ok(token) => grants(r, 200, token@),
            Err(_) => refuses(r, 409),
        },
{
    match outcome {
        Ok(token) => AuthReply { status: HttpStatus::ok(), cookie: Some(session_cookie(token)) },
        Err(_) => AuthReply { status: HttpStatus::conflict(), cookie: None },
    }
}

/// The first step of the session guard: the session token to look up, from
/// the request's session cookie, or 401 when the request has none.
pub fn session_lookup(cookie_value: Option<String>) -> (r: Result<String, HttpStatus>)
    ensures
        match cookie_value {
            Some(token) => r == Ok::<String, HttpStatus>(token),
            None => r matches Err(s) && s.code == 401,
        },
{
    match cookie_value {
        Some(token) => Ok(token),
        None => Err(HttpStatus::unauthorized()),
    }
}

/// The last step of the session guard, given what the lookup of the token
/// returned: the user it found, or 401.
pub fn session_outcome(found: Result<Option<User>, BackendError>) -> (r: Result<User, HttpStatus>)
    ensures
        match found {
            Ok(Some(user)) => r == Ok::<User, HttpStatus>(user),
            _ => r matches Err(s) && s.code == 401,
        },
{
    match found {
        Ok(Some(user)) => Ok(user),
        _ => Err(HttpStatus::unauthorized()),
    }
}

/// How long a session lasts, in seconds: seven days.
pub const SESSION_LIFETIME_SECS: u64 = 7 * 24 * 60 * 60;

/// The SHA-256 digest of `data`.
pub uninterp spec fn sha256(data: Seq<u8>) -> Seq<u8>;

/// Calls `Sha256::digest` of sha2 on `data` and returns the digest's bytes.
/// Claimed: the bytes are `sha256(data)`, and there are 32 of them (the
/// output size of SHA-256).
#[verifier::external_body]
fn sha256_digest(data: &[u8]) -> (r: Vec<u8>)
    ensures
        r@ == sha256(data@),
        r@.len() == 32,
{
    Sha256::digest(data).to_vec()
}

/// Calls `gen` of rand on `thread_rng()` for a `u32`. Nothing is claimed of
/// the value: it is random.
#[verifier::external_body]
fn random_u32() -> (r: u32) {
    rand::thread_rng().gen()
}

/// The text that a session token is the hash of: the issue time in seconds
/// and the random value, in decimal, joined by a hyphen.
pub open spec fn session_seed(now_secs: u64, random_value: u32) -> Seq<char> {
    decimal(now_secs as nat) + "-"@ + decimal(random_value as nat)
}

/// A session token as it is stored: the token, when it was issued and when
/// it expires (seconds since the Unix epoch), and whose it is.
#[derive(Debug)]
pub struct SessionToken {
    pub token: String,
    pub created_at: i64,
    pub expires_at: i64,
    pub user_id: RecordId,
}

/// Whether `t` is the session token of `user_id` issued at `now_secs` with
/// random value `random_value`: its token is the lower-case hexadecimal
/// SHA-256 digest of the UTF-8 bytes of `session_seed`, and it expires
/// `SESSION_LIFETIME_SECS` after it was issued.
pub open spec fn is_session_token(
    t: SessionToken,
    now_secs: u64,
    random_value: u32,
    user_id: (Seq<char>, Seq<char>),
) -> bool {
    &&& t.token@ == hex_lower(sha256(encode_utf8(session_seed(now_secs, random_value))))
    &&& t.created_at == now_secs as i64
    &&& t.expires_at == (now_secs + SESSION_LIFETIME_SECS) as i64
    &&& t.user_id@ == user_id
}

/// A session token expires exactly `SESSION_LIFETIME_SECS` seconds after it
/// is issued, for every issue time whose expiry still fits the signed
/// timestamps.
pub proof fn lemma_session_token_shape(
    t: SessionToken,
    now_secs: u64,
    random_value: u32,
    user_id: (Seq<char>, Seq<char>),
)
    requires
        is_session_token(t, now_secs, random_value, user_id),
        now_secs + SESSION_LIFETIME_SECS <= i64::MAX,
    ensures
        t.expires_at - t.created_at == SESSION_LIFETIME_SECS,
        t.created_at == now_secs,
{
}

impl SessionToken {
    /// The session token of `user_id` issued at `now_secs` (seconds since the
    /// Unix epoch) with random value `random_value`.
    pub fn issue(now_secs: u64, random_value: u32, user_id: RecordId) -> (t: SessionToken)
        requires
            now_secs + SESSION_LIFETIME_SECS <= u64::MAX,
        ensures
            is_session_token(t, now_secs, random_value, user_id@),
            t.token@.len() == 64,
    {
        let mut seed = String::new();
        push_decimal(&mut seed, now_secs);
        seed.append("-");
        push_decimal(&mut seed, random_value as u64);
        let digest = sha256_digest(seed.as_str().as_bytes());
        let token = hex_lower_string(digest.as_slice());
        proof {
            lemma_hex_lower_len(digest@);
        }
        SessionToken {
            token,
            created_at: now_secs as i64,
            expires_at: (now_secs + SESSION_LIFETIME_SECS) as i64,
            user_id,
        }
    }

    /// A new session token of `user_id` issued at `now_secs`, with a random
    /// value drawn here.
    pub fn new(now_secs: u64, user_id: RecordId) -> (t: SessionToken)
        requires
            now_secs + SESSION_LIFETIME_SECS <= u64::MAX,
        ensures
            exists|random_value: u32| is_session_token(t, now_secs, random_value, user_id@),
            t.token@.len() == 64,
    {
        let random_value = random_u32();
        SessionToken::issue(now_secs, random_value, user_id)
    }
}

} // verus!
