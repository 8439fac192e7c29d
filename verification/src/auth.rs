use vstd::prelude::*;
use crate::access::{default_lifetime_secs, level_of, level_value, AccessLevel};
use crate::password::{is_phc_string, phc_verifies, phc_well_formed, validate_password_pbkdf2};
use crate::posting::DbError;
use regex::Regex;

verus! {

/// Access token claim set, readable by the client.
pub struct Claims {
    /// Expiration time as UTC timestamp.
    pub exp: usize,
    /// Issued at as UTC timestamp.
    pub iat: usize,
    /// Subject (session id).
    pub sub: u32,
    /// Access level.
    pub role: u8,
}

/// The user found behind a request.
pub struct UserInfo {
    pub user_id: u32,
    pub session_id: u32,
    pub access_level: u8,
}

/// A stored session.
pub struct SessionRecord {
    pub id: u32,
    pub user_id: u32,
    /// When the session ends, as UTC timestamp.
    pub ended_at: i64,
}

/// A stored user, as far as logging in needs it.
pub struct StoredUser {
    pub id: u32,
    pub access_level: u8,
    pub password_hash: Option<String>,
}

/// How a failed authentication or login is answered.
#[derive(Debug, Clone, Copy, PartialEq, Eq, Structural)]
pub enum AuthFailure {
    /// 400: the request cannot be served as it stands.
    BadRequest,
    /// 401: no valid credentials.
    Unauthorized,
    /// 404: no such user.
    NotFound,
    /// 422: the request is malformed.
    Unprocessable,
    /// 500.
    ServerError,
}

/// How the user of a session request is looked up.
pub enum UserLookup {
    ByUsername(String),
    ByEmail(String),
    /// The request names no user: it is refused.
    NotIdentifiable,
}

/// Builds the claims of a token for a session; `exp` and `now` are kept
/// as the casts `as usize` give them.
pub fn make_claims(access_level: u8, exp: i64, session_id: u32, now: i64) -> (r: Claims)
    ensures
        r.exp == exp as usize,
        r.iat == now as usize,
        r.sub == session_id,
        r.role == access_level,
{
    Claims { exp: exp as usize, iat: now as usize, sub: session_id, role: access_level }
}

/// Admits a request whose token carried `claims`, given the session the
/// token names, at time `now`: a session that has ended is refused.
pub fn authenticate(claims: &Claims, session: &SessionRecord, now: i64) -> (r: Result<UserInfo, AuthFailure>)
    ensures
        session.ended_at <= now ==> r matches Err(AuthFailure::Unauthorized),
        session.ended_at > now ==> (r matches Ok(info) && info.user_id == session.user_id
            && info.session_id == session.id && info.access_level == claims.role),
{
    if session.ended_at <= now {
        return Err(AuthFailure::Unauthorized);
    }
    Ok(UserInfo { user_id: session.user_id, session_id: session.id, access_level: claims.role })
}

/// How a session request names its user: the user name wins over the
/// e-mail address.
pub fn user_lookup(username: Option<String>, email: Option<String>) -> (r: UserLookup)
    ensures
        username matches Some(u) ==> r matches UserLookup::ByUsername(v) && v@ == u@,
        username is None && email is Some ==> (r matches UserLookup::ByEmail(v) && v@ == email->0@),
        username is None && email is None ==> r is NotIdentifiable,
{
    match username {
        Some(u) => UserLookup::ByUsername(u),
        None => match email {
            Some(e) => UserLookup::ByEmail(e),
            None => UserLookup::NotIdentifiable,
        },
    }
}

/// The answer when looking a user up fails.
pub fn lookup_failed(e: DbError) -> (r: AuthFailure)
    ensures
        e is NotFound ==> r is NotFound,
        !(e is NotFound) ==> r is ServerError,
{
    match e {
        DbError::NotFound => AuthFailure::NotFound,
        _ => AuthFailure::ServerError,
    }
}

/// Whether a user found for a session request may have it: a user with a
/// password needs the right one; a user without one is open to all.
pub fn check_session_password(stored_hash: &Option<String>, password: &Option<String>) -> (r: Result<(), AuthFailure>)
    requires
        stored_hash matches Some(h) ==> password is Some && phc_well_formed(h@),
    ensures
        stored_hash is None ==> r is Ok,
        stored_hash matches Some(h) ==> (r is Ok) == phc_verifies(h@, password->0@),
        r is Err ==> r matches Err(AuthFailure::Unauthorized),
{
    match stored_hash {
        None => Ok(()),
        Some(h) => {
            let p = password.as_ref().unwrap();
            if validate_password_pbkdf2(h.as_str(), p.as_str()) {
                Ok(())
            } else {
                Err(AuthFailure::Unauthorized)
            }
        },
    }
}

/// `check_session_password` where its conditions hold; a stored hash that
/// does not parse, or a password-protected user asked for with no
/// password at all, is a server error.
pub fn check_session_password_checked(stored_hash: &Option<String>, password: &Option<String>) -> (r: Result<(), AuthFailure>)
    ensures
        stored_hash is None ==> r is Ok,
        stored_hash matches Some(h) ==> if password is Some && phc_well_formed(h@) {
            (r is Ok) == phc_verifies(h@, password->0@) && (r is Err ==> r matches Err(
                AuthFailure::Unauthorized,
            ))
        } else {
            r matches Err(AuthFailure::ServerError)
        },
{
    match stored_hash {
        None => Ok(()),
        Some(h) => {
            if password.is_some() && is_phc_string(h.as_str()) {
                check_session_password(stored_hash, password)
            } else {
                Err(AuthFailure::ServerError)
            }
        },
    }
}

/// Logs a user in by name and password, given the result of looking the
/// name up: an unknown name is "not found", a user without a password
/// cannot log in this way, a wrong password is "unauthorized".
pub fn login_user(found: Result<StoredUser, DbError>, password: &str) -> (r: Result<StoredUser, AuthFailure>)
    requires
        found matches Ok(u) ==> (u.password_hash matches Some(h) ==> phc_well_formed(h@)),
    ensures
        found matches Err(e) ==> (e is NotFound ==> r matches Err(AuthFailure::NotFound)) && (!(
        e is NotFound) ==> r matches Err(AuthFailure::ServerError)),
        found matches Ok(u) ==> match u.password_hash {
            None => r matches Err(AuthFailure::ServerError),
            Some(h) => if phc_verifies(h@, password@) {
                r matches Ok(v) && v.id == u.id && v.access_level == u.access_level
            } else {
                r matches Err(AuthFailure::Unauthorized)
            },
        },
{
    let user = match found {
        Ok(u) => u,
        Err(e) => return Err(lookup_failed(e)),
    };
    let ok = match &user.password_hash {
        None => return Err(AuthFailure::ServerError),
        Some(h) => validate_password_pbkdf2(h.as_str(), password),
    };
    if ok {
        Ok(user)
    } else {
        Err(AuthFailure::Unauthorized)
    }
}

/// `login_user` where its condition holds; a stored hash that does not
/// parse is a server error.
pub fn login_user_checked(found: Result<StoredUser, DbError>, password: &str) -> (r: Result<StoredUser, AuthFailure>)
    ensures
        found matches Err(e) ==> (e is NotFound ==> r matches Err(AuthFailure::NotFound)) && (!(
        e is NotFound) ==> r matches Err(AuthFailure::ServerError)),
        found matches Ok(u) ==> match u.password_hash {
            None => r matches Err(AuthFailure::ServerError),
            Some(h) => if !phc_well_formed(h@) {
                r matches Err(AuthFailure::ServerError)
            } else if phc_verifies(h@, password@) {
                r matches Ok(v) && v.id == u.id && v.access_level == u.access_level
            } else {
                r matches Err(AuthFailure::Unauthorized)
            },
        },
{
    let well_formed = match &found {
        Ok(u) => match &u.password_hash {
            Some(h) => is_phc_string(h.as_str()),
            None => true,
        },
        Err(_) => true,
    };
    if !well_formed {
        return Err(AuthFailure::ServerError);
    }
    login_user(found, password)
}

/// The token that `Regex::new(r"Bearer (?<token>\w.+)")` captures in an
/// authorization header, if the pattern matches.
pub uninterp spec fn bearer_capture(header: Seq<char>) -> Option<Seq<char>>;

/// The `token` group of the first match of `Bearer (?<token>\w.+)` in
/// `header` (`Regex::captures`).
///
/// Claimed of the regex crate: the result is a function of the header;
/// the pattern compiles; a captured token is what follows an occurrence of
/// `Bearer ` (a word character and at least one more character, up to the
/// end of the line).
#[verifier::external_body]
fn capture_bearer(header: &str) -> (r: Option<String>)
    ensures
        crate::catalog::opt_text(r) == bearer_capture(header@),
        r matches Some(t) ==> t@.len() >= 2 && exists|i: int|
            0 <= i && i + 7 + t@.len() <= header@.len() && header@.subrange(i, i + 7) == "Bearer "@
                && #[trigger] header@.subrange(i + 7, i + 7 + t@.len()) == t@,
{
    let bearer_scheme = Regex::new(r"Bearer (?<token>\w.+)").unwrap();
    match bearer_scheme.captures(header) {
        Some(capture) => Some(capture["token"].to_string()),
        None => None,
    }
}

/// The access token of a request, read from its authorization header: a
/// request without the header is unauthorized, one whose header is not
/// visible ASCII (`None` inside) is unprocessable, one without a bearer
/// token is unauthorized.
pub fn access_token_of(header: Option<Option<String>>) -> (r: Result<String, AuthFailure>)
    ensures
        header is None ==> r == Err::<String, AuthFailure>(AuthFailure::Unauthorized),
        header matches Some(None) ==> r == Err::<String, AuthFailure>(AuthFailure::Unprocessable),
        header matches Some(Some(v)) ==> match bearer_capture(v@) {
            Some(t) => r matches Ok(s) && s@ == t,
            None => r == Err::<String, AuthFailure>(AuthFailure::Unauthorized),
        },
{
    match header {
        None => Err(AuthFailure::Unauthorized),
        Some(None) => Err(AuthFailure::Unprocessable),
        Some(Some(v)) => match capture_bearer(v.as_str()) {
            Some(t) => Ok(t),
            None => Err(AuthFailure::Unauthorized),
        },
    }
}

/// The first second (UTC timestamp) that chrono's `DateTime<Utc>` holds,
/// in year -262143.
pub const MIN_TIMESTAMP: i64 = -8_334_601_228_800;

/// The last second (UTC timestamp) that chrono's `DateTime<Utc>` holds, in
/// year 262142.
pub const MAX_TIMESTAMP: i64 = 8_210_266_876_799;

/// The JSON web token that `jsonwebtoken::encode` makes, with the default
/// header (HS256) and an HMAC key from `secret`, of the claims `exp`,
/// `iat`, `sub` and `role`; `None` when encoding fails.
pub uninterp spec fn jwt_token(exp: usize, iat: usize, sub: u32, role: u8, secret: Seq<u8>) -> Option<Seq<char>>;

/// The numbers `exp`, `iat`, `sub` and `role` that a JSON web token
/// carries, when its header names HS256, its HMAC signature checks under
/// `secret`, and its payload is a JSON object holding the four as unsigned
/// integers; `None` otherwise. Whether the token has expired is not part
/// of it.
pub uninterp spec fn jwt_payload(token: Seq<char>, secret: Seq<u8>) -> Option<(u64, u64, u64, u64)>;

/// Signs claims as a JSON web token (`jsonwebtoken::encode` with the
/// default header and `EncodingKey::from_secret`); the claims are written
/// as a JSON object of their four numbers.
///
/// Claimed of jsonwebtoken: encoding a map of integers under an HMAC key
/// cannot fail; the token is a function of the claims and the secret (the
/// header, the JSON text and the HMAC are fixed by them); and it carries
/// the four numbers, signed under `secret` with HS256, as its payload.
#[verifier::external_body]
fn jwt_encode(claims: Claims, secret: &[u8]) -> (r: Option<String>)
    ensures
        r is Some,
        crate::catalog::opt_text(r) == jwt_token(claims.exp, claims.iat, claims.sub, claims.role, secret@),
        r matches Some(t) ==> jwt_payload(t@, secret@) == Some(
            (claims.exp as u64, claims.iat as u64, claims.sub as u64, claims.role as u64),
        ),
{
    let mut payload: std::collections::BTreeMap<&str, u64> = std::collections::BTreeMap::new();
    payload.insert("exp", claims.exp as u64);
    payload.insert("iat", claims.iat as u64);
    payload.insert("sub", claims.sub as u64);
    payload.insert("role", claims.role as u64);
    let key = jsonwebtoken::EncodingKey::from_secret(secret);
    jsonwebtoken::encode(&jsonwebtoken::Header::default(), &payload, &key).ok()
}

/// The numeric claims `exp`, `iat`, `sub` and `role` of a JSON web token
/// signed with `secret` (`jsonwebtoken::decode` with
/// `DecodingKey::from_secret` and the default validation: HS256, a
/// signature that matches, an `exp` claim not yet past); `None` when the
/// token is refused or one of the four is missing or not an unsigned
/// integer.
///
/// Claimed of jsonwebtoken: what comes back is the signature-checked
/// payload of the token (`jwt_payload`). Whether a token comes back at all
/// also depends on the clock (the expiry check), so that is not claimed.
#[verifier::external_body]
fn jwt_decode(token: &str, secret: &[u8]) -> (r: Option<(u64, u64, u64, u64)>)
    ensures
        r matches Some(p) ==> jwt_payload(token@, secret@) == Some(p),
{
    let key = jsonwebtoken::DecodingKey::from_secret(secret);
    let validation = jsonwebtoken::Validation::default();
    let data = jsonwebtoken::decode::<std::collections::BTreeMap<String, serde_json::Value>>(
        token,
        &key,
        &validation,
    ).ok()?;
    let field = |name: &str| data.claims.get(name).and_then(|v| v.as_u64());
    Some((field("exp")?, field("iat")?, field("sub")?, field("role")?))
}

/// The claims that four decoded numbers stand for, when each fits its
/// field (as the typed claims of a token must).
pub fn claims_of_numbers(exp: u64, iat: u64, sub: u64, role: u64) -> (r: Option<Claims>)
    ensures
        (exp <= usize::MAX && iat <= usize::MAX && sub <= u32::MAX && role <= u8::MAX) ==> (r matches Some(
            c,
        ) && c.exp == exp && c.iat == iat && c.sub == sub && c.role == role),
        !(exp <= usize::MAX && iat <= usize::MAX && sub <= u32::MAX && role <= u8::MAX) ==> r is None,
{
    if exp <= usize::MAX as u64 && iat <= usize::MAX as u64 && sub <= u32::MAX as u64 && role <= u8::MAX as u64 {
        Some(Claims { exp: exp as usize, iat: iat as usize, sub: sub as u32, role: role as u8 })
    } else {
        None
    }
}

/// Signs the claims of a session as an access token with `secret`; the
/// token carries the claims, signed under the secret.
pub fn create_access_token(claims: Claims, secret: &[u8]) -> (r: Result<String, ()>)
    ensures
        r matches Ok(t) && jwt_token(claims.exp, claims.iat, claims.sub, claims.role, secret@) == Some(t@)
            && jwt_payload(t@, secret@) == Some(claim_numbers(claims)),
{
    match jwt_encode(claims, secret) {
        Some(t) => Ok(t),
        None => Err(()),
    }
}

/// Whether `c` holds the numbers `p`.
pub open spec fn claims_hold(c: Claims, p: (u64, u64, u64, u64)) -> bool {
    c.exp == p.0 && c.iat == p.1 && c.sub == p.2 && c.role == p.3
}

/// The numbers that a token signed for `claims` carries.
pub open spec fn claim_numbers(claims: Claims) -> (u64, u64, u64, u64) {
    (claims.exp as u64, claims.iat as u64, claims.sub as u64, claims.role as u64)
}

/// What `validate_claims` may answer for `header` under `secret`: no
/// header is unauthorized, a header that is not text is unprocessable, a
/// header without a bearer token is unauthorized; for a captured token the
/// answer is its signed claims or unauthorized, unauthorized whenever the
/// token does not check under `secret`, and claims only as the token's
/// signed payload.
pub open spec fn claims_outcome(header: Option<Option<String>>, secret: Seq<u8>, r: Result<Claims, AuthFailure>) -> bool {
    match header {
        None => r == Err::<Claims, AuthFailure>(AuthFailure::Unauthorized),
        Some(None) => r == Err::<Claims, AuthFailure>(AuthFailure::Unprocessable),
        Some(Some(v)) => match bearer_capture(v@) {
            None => r == Err::<Claims, AuthFailure>(AuthFailure::Unauthorized),
            Some(t) => {
                &&& (r is Ok || r == Err::<Claims, AuthFailure>(AuthFailure::Unauthorized))
                &&& (jwt_payload(t, secret) is None ==> r == Err::<Claims, AuthFailure>(
                    AuthFailure::Unauthorized,
                ))
                &&& (r matches Ok(c) ==> (jwt_payload(t, secret) matches Some(p) && claims_hold(c, p)))
            },
        },
    }
}

/// The claims of the access token in a request's authorization header,
/// checked against `secret`: the header's own errors are those of
/// `access_token_of`; a captured token gives its signed claims, or is
/// unauthorized when it does not check, does not fit the claims or has
/// expired.
pub fn validate_claims(header: Option<Option<String>>, secret: &[u8]) -> (r: Result<Claims, AuthFailure>)
    ensures
        claims_outcome(header, secret@, r),
{
    let token = match access_token_of(header) {
        Ok(t) => t,
        Err(f) => return Err(f),
    };
    match jwt_decode(token.as_str(), secret) {
        Some((exp, iat, sub, role)) => match claims_of_numbers(exp, iat, sub, role) {
            Some(c) => Ok(c),
            None => Err(AuthFailure::Unauthorized),
        },
        None => Err(AuthFailure::Unauthorized),
    }
}

/// A token that `create_access_token` issued for `claims` under `secret`
/// (so that it carries their numbers, signed under `secret`), sent as the
/// bearer token of a header, is answered by `validate_claims` with the same
/// secret either with exactly those claims or as unauthorized (the answer
/// to an expired token); never as unprocessable and never with other
/// claims.
pub proof fn law_issued_token_reads_back(
    claims: Claims,
    secret: Seq<u8>,
    token: Seq<char>,
    header: Option<Option<String>>,
    r: Result<Claims, AuthFailure>,
)
    requires
        jwt_payload(token, secret) == Some(claim_numbers(claims)),
        header matches Some(Some(v)) && bearer_capture(v@) == Some(token),
        claims_outcome(header, secret, r),
    ensures
        r is Ok || r == Err::<Claims, AuthFailure>(AuthFailure::Unauthorized),
        r matches Ok(c) ==> c == claims,
{
}

/// Whether a timestamp (seconds) is within the range of chrono's
/// `DateTime<Utc>`.
pub open spec fn chrono_timestamp_in_range(secs: i64) -> bool {
    MIN_TIMESTAMP <= secs <= MAX_TIMESTAMP
}

/// Whether `DateTime::from_timestamp(secs, 0)` gives a date-time.
///
/// Claimed of chrono: it does exactly for the seconds from
/// `DateTime::<Utc>::MIN_UTC` to `DateTime::<Utc>::MAX_UTC`, every day
/// between the first and the last date having all its seconds.
#[verifier::external_body]
pub(crate) fn timestamp_in_range(secs: i64) -> (r: bool)
    ensures
        r == chrono_timestamp_in_range(secs),
{
    chrono::DateTime::from_timestamp(secs, 0).is_some()
}

/// The end of a new session: the requested time when chrono can hold it,
/// else the default lifetime of the user's level from `now`.
pub fn session_expiry(requested: Option<i64>, level: AccessLevel, now: i64) -> (r: Result<i64, AuthFailure>)
    requires
        now + default_lifetime_secs(level) <= i64::MAX,
    ensures
        requested matches Some(e) ==> (chrono_timestamp_in_range(e) ==> (r matches Ok(t) && t == e))
            && (!chrono_timestamp_in_range(e) ==> r matches Err(AuthFailure::BadRequest)),
        requested is None ==> (r matches Ok(t) && t == now + default_lifetime_secs(level)),
{
    match requested {
        Some(e) => if timestamp_in_range(e) {
            Ok(e)
        } else {
            Err(AuthFailure::BadRequest)
        },
        None => Ok(level.default_exp(now)),
    }
}

/// The role of a stored user, read from the access level number; a
/// number outside the table is refused.
pub fn user_role(access_level: u8) -> (r: Result<AccessLevel, AuthFailure>)
    ensures
        level_of(access_level) matches Some(l) ==> r == Ok::<AccessLevel, AuthFailure>(l),
        level_of(access_level) is None ==> r matches Err(AuthFailure::ServerError),
{
    match AccessLevel::try_from(access_level) {
        Ok(l) => Ok(l),
        Err(_) => Err(AuthFailure::ServerError),
    }
}

/// Admits a request whose token carried `claims`, given the result of
/// looking up the session the token names: a failed lookup is a server
/// error, an ended session is refused.
pub fn authenticate_session(claims: &Claims, found: Result<SessionRecord, DbError>, now: i64) -> (r: Result<UserInfo, AuthFailure>)
    ensures
        found is Err ==> r == Err::<UserInfo, AuthFailure>(AuthFailure::ServerError),
        found matches Ok(session) ==> (session.ended_at <= now ==> r == Err::<UserInfo, AuthFailure>(
            AuthFailure::Unauthorized,
        )) && (session.ended_at > now ==> (r matches Ok(info) && info.user_id == session.user_id
            && info.session_id == session.id && info.access_level == claims.role)),
{
    match found {
        Err(_) => Err(AuthFailure::ServerError),
        Ok(session) => authenticate(claims, &session, now),
    }
}

/// The answer to a request to change when session `target` ends, made by
/// `info`: an unknown session is not found, a user below admin may only
/// change their own sessions, and the new end must be a date-time chrono
/// can hold. `Ok` gives the new end.
pub fn session_update_check(info: &UserInfo, target: Result<SessionRecord, DbError>, exp: i64) -> (r: Result<i64, u16>)
    ensures
        target matches Err(e) ==> (e is NotFound ==> r == Err::<i64, u16>(404)) && (!(e is NotFound)
            ==> r == Err::<i64, u16>(500)),
        target matches Ok(s) ==> if !(info.user_id == s.user_id || info.access_level >= level_value(
            AccessLevel::Admin,
        )) {
            r == Err::<i64, u16>(403)
        } else if !chrono_timestamp_in_range(exp) {
            r == Err::<i64, u16>(400)
        } else {
            r == Ok::<i64, u16>(exp)
        },
{
    let session = match target {
        Err(DbError::NotFound) => return Err(404),
        Err(_) => return Err(500),
        Ok(s) => s,
    };
    if !crate::gate::may_modify_session(info.user_id, info.access_level, session.user_id) {
        return Err(403);
    }
    if !timestamp_in_range(exp) {
        return Err(400);
    }
    Ok(exp)
}

/// A new user as it is stored.
pub struct UserModel {
    pub access_level: u8,
    pub username: Option<String>,
    pub email: Option<String>,
    pub password_hash: Option<String>,
}

impl UserModel {
    /// An anonymous user: anonymous level, nothing else known.
    pub fn anon_user() -> (r: UserModel)
        ensures
            r.access_level == level_value(AccessLevel::Anonymous),
            r.username is None,
            r.email is None,
            r.password_hash is None,
    {
        UserModel { access_level: AccessLevel::Anonymous.as_u8(), username: None, email: None, password_hash: None }
    }
}

} // verus!
