use vstd::prelude::*;
use crate::access::{level_value, AccessLevel};
use crate::access::{default_lifetime_secs, level_of};
use crate::auth::{
    chrono_timestamp_in_range, login_user_checked, lookup_failed, make_claims, timestamp_in_range,
    user_lookup, user_role, AuthFailure, Claims, SessionRecord, StoredUser, UserInfo, UserLookup, UserModel,
};
use crate::forms::{register_input_errors, session_input_errors, CreateSessionInput, RegisterUserInput};
use crate::password::{check_password, hash_password_pbkdf2, phc_verifies, phc_well_formed};
use crate::posting::DbError;
use crate::validation::texts;

verus! {

/// Whether `m` is a new anonymous user: anonymous level, without a name,
/// an address or a password.
pub open spec fn is_anonymous_model(m: UserModel) -> bool {
    &&& m.access_level == level_value(AccessLevel::Anonymous)
    &&& m.username is None
    &&& m.email is None
    &&& m.password_hash is None
}

/// Lifetime of a session made by the account API: a year, in seconds.
pub const SESSION_LIFETIME_SECS: i64 = 31_536_000;

/// An error answer of the API: a status code and, for some, a message sent
/// as a JSON string.
pub struct ApiError {
    pub status: u16,
    pub message: Option<String>,
}

/// The answer of the account API.
pub enum ApiReply {
    /// 201 with a new access token.
    Created { access_token: String },
    /// 422 with the rules that the input breaks.
    Invalid(Vec<String>),
    Failed(ApiError),
}

/// The status code that a failed authentication is answered with.
pub open spec fn auth_status(f: AuthFailure) -> u16 {
    match f {
        AuthFailure::BadRequest => 400,
        AuthFailure::Unauthorized => 401,
        AuthFailure::NotFound => 404,
        AuthFailure::Unprocessable => 422,
        AuthFailure::ServerError => 500,
    }
}

/// The message that a failed login is answered with, if any.
pub open spec fn login_message(f: AuthFailure) -> Option<Seq<char>> {
    match f {
        AuthFailure::NotFound => Some("User doesn't exist."@),
        AuthFailure::Unauthorized => Some("Invalid password."@),
        _ => None,
    }
}

/// The answer to a failed authentication: its status code and no body.
pub fn auth_error(f: AuthFailure) -> (r: ApiError)
    ensures
        r.status == auth_status(f),
        r.message is None,
{
    let status: u16 = match f {
        AuthFailure::BadRequest => 400,
        AuthFailure::Unauthorized => 401,
        AuthFailure::NotFound => 404,
        AuthFailure::Unprocessable => 422,
        AuthFailure::ServerError => 500,
    };
    ApiError { status, message: None }
}

/// The answer to a failed login: an unknown user and a wrong password are
/// told so.
pub fn login_error(f: AuthFailure) -> (r: ApiError)
    ensures
        r.status == auth_status(f),
        match login_message(f) {
            Some(m) => r.message matches Some(s) && s@ == m,
            None => r.message is None,
        },
{
    let status = auth_error(f).status;
    let message = match f {
        AuthFailure::NotFound => Some("User doesn't exist.".to_owned()),
        AuthFailure::Unauthorized => Some("Invalid password.".to_owned()),
        _ => None,
    };
    ApiError { status, message }
}

fn failure(status: u16, message: &str) -> (r: ApiReply)
    ensures
        r matches ApiReply::Failed(e) && e.status == status && (e.message matches Some(m) && m@
            == message@),
{
    ApiReply::Failed(ApiError { status, message: Some(message.to_owned()) })
}

fn bare_failure(status: u16) -> (r: ApiReply)
    ensures
        r matches ApiReply::Failed(e) && e.status == status && e.message is None,
{
    ApiReply::Failed(ApiError { status, message: None })
}

/// The answer is an error with `status` and `message`.
pub open spec fn fails_with(r: ApiReply, status: u16, message: Option<Seq<char>>) -> bool {
    r matches ApiReply::Failed(e) && e.status == status && match message {
        Some(m) => e.message matches Some(s) && s@ == m,
        None => e.message is None,
    }
}

/// The time a session made at `now` ends, unless that overflows.
pub fn session_end(now: i64) -> (r: Option<i64>)
    ensures
        now <= i64::MAX - SESSION_LIFETIME_SECS ==> r == Some((now + SESSION_LIFETIME_SECS) as i64),
        now > i64::MAX - SESSION_LIFETIME_SECS ==> r is None,
{
    now.checked_add(SESSION_LIFETIME_SECS)
}

// ---------------------------------------------------------------------------
// Registration
// ---------------------------------------------------------------------------

/// How far a registration has come.
pub enum RegisterStage {
    Start,
    Authenticating,
    Updating { user_id: u32, session_id: u32 },
    EndingSession { user_id: u32 },
    CreatingSession { user_id: u32, now: i64 },
    IssuingToken,
    Done,
}

/// What the handler reports back: the result of the last action.
pub enum RegisterEvent {
    Begin,
    Authenticated(Result<UserInfo, AuthFailure>),
    Updated(Result<(), DbError>),
    /// The anonymous session was ended (whatever the outcome) at `now`.
    SessionEnded { now: i64 },
    SessionCreated(Result<SessionRecord, DbError>),
    TokenIssued(Result<String, ()>),
}

/// What the handler does next.
pub enum RegisterAction {
    /// Authenticate the request by its access token.
    Authenticate,
    /// Give user `user_id` the input's user name and e-mail address, the
    /// password hash and the access level.
    UpdateUser { user_id: u32, access_level: u8, password_hash: String },
    /// End session `session_id` of `user_id` now.
    EndSession { session_id: u32, user_id: u32 },
    /// Open a session for `user_id` that ends at `ended_at`.
    CreateSession { user_id: u32, ended_at: i64 },
    /// Sign these claims as an access token.
    IssueToken(Claims),
    Respond(ApiReply),
}

/// A registration request on its way.
pub struct RegisterFlow {
    pub input: RegisterUserInput,
    pub stage: RegisterStage,
}

/// The request ends with `reply`.
pub open spec fn register_ends(next: RegisterStage, action: RegisterAction, status: u16, message: Option<Seq<char>>) -> bool {
    &&& next is Done
    &&& action matches RegisterAction::Respond(r)
    &&& fails_with(r, status, message)
}

/// One step of a registration: from `stage`, on `event`, the request
/// moves to `next` and the handler does `action`. An event that does not
/// answer the last action ends the request with a server error.
pub open spec fn register_transition(
    input: RegisterUserInput,
    stage: RegisterStage,
    event: RegisterEvent,
    next: RegisterStage,
    action: RegisterAction,
) -> bool {
    match (stage, event) {
        (RegisterStage::Start, RegisterEvent::Begin) => {
            let errors = register_input_errors(input.password@, input.username@, input.email@);
            if errors.len() > 0 {
                next is Done && (action matches RegisterAction::Respond(ApiReply::Invalid(v))
                    && texts(v@) == errors)
            } else {
                next is Authenticating && action is Authenticate
            }
        },
        (RegisterStage::Authenticating, RegisterEvent::Authenticated(res)) => match res {
            Err(f) => register_ends(next, action, auth_status(f), None),
            Ok(info) => if info.access_level != level_value(AccessLevel::Anonymous) {
                register_ends(next, action, 403, None)
            } else {
                &&& next == RegisterStage::Updating { user_id: info.user_id, session_id: info.session_id }
                &&& action matches RegisterAction::UpdateUser { user_id, access_level, password_hash }
                &&& user_id == info.user_id
                &&& access_level == level_value(AccessLevel::Registered)
                &&& phc_well_formed(password_hash@)
                &&& phc_verifies(password_hash@, input.password@)
            },
        },
        (RegisterStage::Updating { user_id, session_id }, RegisterEvent::Updated(res)) => match res {
            Ok(_) => next == RegisterStage::EndingSession { user_id } && action
                == RegisterAction::EndSession { session_id, user_id },
            Err(e) => if e is UniqueViolation {
                register_ends(next, action, 422, Some("Username is already taken."@))
            } else {
                register_ends(next, action, 500, Some("Failed to register user."@))
            },
        },
        (RegisterStage::EndingSession { user_id }, RegisterEvent::SessionEnded { now }) => if now
            > i64::MAX - SESSION_LIFETIME_SECS {
            register_ends(next, action, 500, Some("Failed to create a session."@))
        } else {
            &&& next == RegisterStage::CreatingSession { user_id, now }
            &&& action == RegisterAction::CreateSession { user_id, ended_at: (now + SESSION_LIFETIME_SECS) as i64 }
        },
        (RegisterStage::CreatingSession { user_id, now }, RegisterEvent::SessionCreated(res)) => match res {
            Err(_) => register_ends(next, action, 500, Some("Failed to create a session."@)),
            Ok(s) => {
                &&& next is IssuingToken
                &&& action == RegisterAction::IssueToken(
                    Claims {
                        exp: s.ended_at as usize,
                        iat: now as usize,
                        sub: s.id,
                        role: level_value(AccessLevel::Registered),
                    },
                )
            },
        },
        (RegisterStage::IssuingToken, RegisterEvent::TokenIssued(res)) => match res {
            Ok(t) => next is Done && action == RegisterAction::Respond(ApiReply::Created { access_token: t }),
            Err(_) => register_ends(next, action, 500, Some("Failed to create a session."@)),
        },
        _ => register_ends(next, action, 500, None),
    }
}

fn register_respond(r: ApiReply) -> (o: (RegisterStage, RegisterAction))
    ensures
        o.0 is Done,
        o.1 == RegisterAction::Respond(r),
{
    (RegisterStage::Done, RegisterAction::Respond(r))
}

impl RegisterFlow {
    /// A registration that has not started.
    pub fn new(input: RegisterUserInput) -> (r: RegisterFlow)
        ensures
            r.input == input,
            r.stage is Start,
    {
        RegisterFlow { input, stage: RegisterStage::Start }
    }

    /// Takes the result of the last action and says what to do next.
    pub fn step(&mut self, event: RegisterEvent) -> (action: RegisterAction)
        ensures
            final(self).input == old(self).input,
            register_transition(old(self).input, old(self).stage, event, final(self).stage, action),
    {
        let mut stage = RegisterStage::Done;
        std::mem::swap(&mut stage, &mut self.stage);
        let (next, action) = match (stage, event) {
            (RegisterStage::Start, RegisterEvent::Begin) => {
                let errors = self.input.validate();
                if errors.len() > 0 {
                    register_respond(ApiReply::Invalid(errors))
                } else {
                    (RegisterStage::Authenticating, RegisterAction::Authenticate)
                }
            },
            (RegisterStage::Authenticating, RegisterEvent::Authenticated(res)) => match res {
                Err(f) => register_respond(ApiReply::Failed(auth_error(f))),
                Ok(info) => if info.access_level != AccessLevel::Anonymous.as_u8() {
                    register_respond(bare_failure(403))
                } else {
                    let password_hash = hash_password_pbkdf2(self.input.password.as_str());
                    (
                        RegisterStage::Updating { user_id: info.user_id, session_id: info.session_id },
                        RegisterAction::UpdateUser {
                            user_id: info.user_id,
                            access_level: AccessLevel::Registered.as_u8(),
                            password_hash,
                        },
                    )
                },
            },
            (RegisterStage::Updating { user_id, session_id }, RegisterEvent::Updated(res)) => match res {
                Ok(_) => (
                    RegisterStage::EndingSession { user_id },
                    RegisterAction::EndSession { session_id, user_id },
                ),
                Err(DbError::UniqueViolation) => register_respond(failure(422, "Username is already taken.")),
                Err(_) => register_respond(failure(500, "Failed to register user.")),
            },
            (RegisterStage::EndingSession { user_id }, RegisterEvent::SessionEnded { now }) => {
                match session_end(now) {
                    Some(ended_at) => (
                        RegisterStage::CreatingSession { user_id, now },
                        RegisterAction::CreateSession { user_id, ended_at },
                    ),
                    None => register_respond(failure(500, "Failed to create a session.")),
                }
            },
            (RegisterStage::CreatingSession { user_id, now }, RegisterEvent::SessionCreated(res)) => {
                match res {
                    Err(_) => register_respond(failure(500, "Failed to create a session.")),
                    Ok(s) => (
                        RegisterStage::IssuingToken,
                        RegisterAction::IssueToken(
                            make_claims(AccessLevel::Registered.as_u8(), s.ended_at, s.id, now),
                        ),
                    ),
                }
            },
            (RegisterStage::IssuingToken, RegisterEvent::TokenIssued(res)) => match res {
                Ok(t) => register_respond(ApiReply::Created { access_token: t }),
                Err(_) => register_respond(failure(500, "Failed to create a session.")),
            },
            _ => register_respond(bare_failure(500)),
        };
        self.stage = next;
        action
    }
}

/// Only an anonymous user can complete a registration: the account is
/// changed only right after the request was authenticated as anonymous,
/// and always to a registered account whose stored hash accepts the
/// chosen password.
pub proof fn law_register_only_anonymous(
    input: RegisterUserInput,
    stage: RegisterStage,
    event: RegisterEvent,
    next: RegisterStage,
    action: RegisterAction,
)
    requires
        register_transition(input, stage, event, next, action),
        action is UpdateUser,
    ensures
        stage is Authenticating,
        event matches RegisterEvent::Authenticated(Ok(info)) && info.access_level == level_value(
            AccessLevel::Anonymous,
        ) && action->UpdateUser_user_id == info.user_id,
        action->UpdateUser_access_level == level_value(AccessLevel::Registered),
        phc_verifies(action->UpdateUser_password_hash@, input.password@),
{
}

/// A registration only hands out tokens for registered users.
pub proof fn law_register_token_is_registered(
    input: RegisterUserInput,
    stage: RegisterStage,
    event: RegisterEvent,
    next: RegisterStage,
    action: RegisterAction,
)
    requires
        register_transition(input, stage, event, next, action),
        action is IssueToken,
    ensures
        action->IssueToken_0.role == level_value(AccessLevel::Registered),
{
}

/// A run of a registration: `stages[0]` moves on `events[k]` to
/// `stages[k + 1]`, and the handler does `actions[k]`, step after step.
pub open spec fn register_run(
    input: RegisterUserInput,
    stages: Seq<RegisterStage>,
    events: Seq<RegisterEvent>,
    actions: Seq<RegisterAction>,
) -> bool {
    &&& stages.len() == events.len() + 1
    &&& actions.len() == events.len()
    &&& forall|k: int|
        #![trigger events[k]]
        0 <= k < events.len() ==> register_transition(input, stages[k], events[k], stages[k + 1], actions[k])
}

/// Whether a stage of a registration that came after the request was
/// authenticated as `info` is over or carries that user (and session).
spec fn register_stage_keeps_user(stage: RegisterStage, info: UserInfo) -> bool {
    match stage {
        RegisterStage::Done => true,
        RegisterStage::IssuingToken => true,
        RegisterStage::Updating { user_id, session_id } => user_id == info.user_id && session_id
            == info.session_id,
        RegisterStage::EndingSession { user_id } => user_id == info.user_id,
        RegisterStage::CreatingSession { user_id, .. } => user_id == info.user_id,
        _ => false,
    }
}

proof fn lemma_register_keeps_user(
    input: RegisterUserInput,
    stages: Seq<RegisterStage>,
    events: Seq<RegisterEvent>,
    actions: Seq<RegisterAction>,
    i: int,
    info: UserInfo,
    k: int,
)
    requires
        register_run(input, stages, events, actions),
        0 <= i < k <= events.len(),
        events[i] == RegisterEvent::Authenticated(Ok(info)),
    ensures
        register_stage_keeps_user(stages[k], info),
    decreases k - i,
{
    if k == i + 1 {
        assert(register_transition(input, stages[i], events[i], stages[i + 1], actions[i]));
    } else {
        lemma_register_keeps_user(input, stages, events, actions, i, info, k - 1);
        assert(register_transition(input, stages[k - 1], events[k - 1], stages[k], actions[k - 1]));
    }
}

/// A registration works on the account and session it was authenticated
/// with: once the request is authenticated as `info`, the user updated, the
/// session ended and the user the new session is opened for are those of
/// `info`; the new session lasts `SESSION_LIFETIME_SECS` from the moment
/// the old one ended.
pub proof fn law_register_keeps_account(
    input: RegisterUserInput,
    stages: Seq<RegisterStage>,
    events: Seq<RegisterEvent>,
    actions: Seq<RegisterAction>,
    i: int,
    j: int,
    info: UserInfo,
)
    requires
        register_run(input, stages, events, actions),
        0 <= i <= j < events.len(),
        events[i] == RegisterEvent::Authenticated(Ok(info)),
    ensures
        actions[j] matches RegisterAction::UpdateUser { user_id, .. } ==> user_id == info.user_id,
        actions[j] matches RegisterAction::EndSession { session_id, user_id } ==> session_id
            == info.session_id && user_id == info.user_id,
        actions[j] matches RegisterAction::CreateSession { user_id, ended_at } ==> user_id == info.user_id
            && (events[j] matches RegisterEvent::SessionEnded { now } && ended_at == now + SESSION_LIFETIME_SECS),
{
    assert(register_transition(input, stages[j], events[j], stages[j + 1], actions[j]));
    if i < j {
        lemma_register_keeps_user(input, stages, events, actions, i, info, j);
    }
}

// ---------------------------------------------------------------------------
// Sessions
// ---------------------------------------------------------------------------

/// How far a session request has come.
pub enum SessionStage {
    Start,
    /// Looking the login's user up by name.
    FindingUser { now: i64 },
    /// Creating an anonymous user.
    CreatingUser { now: i64 },
    CreatingSession { access_level: u8, ended_at: i64, now: i64 },
    IssuingToken,
    Done,
}

/// What the handler reports back: the result of the last action.
pub enum SessionEvent {
    /// The request came in at `now`.
    Begin { now: i64 },
    UserFound(Result<StoredUser, DbError>),
    UserCreated(Result<StoredUser, DbError>),
    SessionCreated(Result<SessionRecord, DbError>),
    TokenIssued(Result<String, ()>),
}

/// What the handler does next.
pub enum SessionAction {
    /// Look the user up by the login's user name.
    FindUser,
    /// Store this user, an anonymous one.
    CreateAnonymousUser(UserModel),
    /// Open a session for `user_id` that ends at `ended_at`.
    CreateSession { user_id: u32, ended_at: i64 },
    /// Sign these claims as an access token.
    IssueToken(Claims),
    Respond(ApiReply),
}

/// A session request on its way: with a login, or without one for a new
/// anonymous user.
pub struct SessionFlow {
    pub login: Option<CreateSessionInput>,
    pub stage: SessionStage,
}

/// The request ends with an error.
pub open spec fn session_ends(next: SessionStage, action: SessionAction, status: u16, message: Option<Seq<char>>) -> bool {
    &&& next is Done
    &&& action matches SessionAction::Respond(r)
    &&& fails_with(r, status, message)
}

/// The step once the user is known: the session ends when the login asks,
/// if chrono can hold that time, else a year from now.
pub open spec fn session_for_user(
    login: Option<CreateSessionInput>,
    user: StoredUser,
    now: i64,
    next: SessionStage,
    action: SessionAction,
) -> bool {
    let requested = match login {
        Some(l) => l.exp,
        None => None,
    };
    match requested {
        Some(e) => if chrono_timestamp_in_range(e) {
            &&& next == SessionStage::CreatingSession { access_level: user.access_level, ended_at: e, now }
            &&& action == SessionAction::CreateSession { user_id: user.id, ended_at: e }
        } else {
            session_ends(next, action, 422, Some("Timestamp out of range."@))
        },
        None => if now > i64::MAX - SESSION_LIFETIME_SECS {
            session_ends(next, action, 500, Some("Failed to create a session."@))
        } else {
            &&& next == SessionStage::CreatingSession {
                access_level: user.access_level,
                ended_at: (now + SESSION_LIFETIME_SECS) as i64,
                now,
            }
            &&& action == SessionAction::CreateSession {
                user_id: user.id,
                ended_at: (now + SESSION_LIFETIME_SECS) as i64,
            }
        },
    }
}

/// One step of a session request: from `stage`, on `event`, the request
/// moves to `next` and the handler does `action`. An event that does not
/// answer the last action ends the request with a server error.
pub open spec fn session_transition(
    login: Option<CreateSessionInput>,
    stage: SessionStage,
    event: SessionEvent,
    next: SessionStage,
    action: SessionAction,
) -> bool {
    match (stage, event) {
        (SessionStage::Start, SessionEvent::Begin { now }) => match login {
            Some(l) => {
                let errors = session_input_errors(l.password@, l.username@);
                if errors.len() > 0 {
                    next is Done && (action matches SessionAction::Respond(ApiReply::Invalid(v))
                        && texts(v@) == errors)
                } else {
                    next == SessionStage::FindingUser { now } && action is FindUser
                }
            },
            None => next == SessionStage::CreatingUser { now } && (action matches SessionAction::CreateAnonymousUser(
                m,
            ) && is_anonymous_model(m)),
        },
        (SessionStage::FindingUser { now }, SessionEvent::UserFound(found)) => match found {
            _ if login is None => session_ends(next, action, 500, None),
            Err(e) => if e is NotFound {
                session_ends(next, action, 404, Some("User doesn't exist."@))
            } else {
                session_ends(next, action, 500, None)
            },
            Ok(u) => match u.password_hash {
                None => session_ends(next, action, 500, None),
                Some(h) => if !phc_well_formed(h@) {
                    session_ends(next, action, 500, None)
                } else if !phc_verifies(h@, login->0.password@) {
                    session_ends(next, action, 401, Some("Invalid password."@))
                } else {
                    session_for_user(login, u, now, next, action)
                },
            },
        },
        (SessionStage::CreatingUser { now }, SessionEvent::UserCreated(res)) => match res {
            Err(_) => session_ends(next, action, 500, None),
            Ok(u) => session_for_user(login, u, now, next, action),
        },
        (
            SessionStage::CreatingSession { access_level, ended_at, now },
            SessionEvent::SessionCreated(res),
        ) => match res {
            Err(_) => session_ends(next, action, 500, Some("Failed to create a session."@)),
            Ok(s) => {
                &&& next is IssuingToken
                &&& action == SessionAction::IssueToken(
                    Claims { exp: ended_at as usize, iat: now as usize, sub: s.id, role: access_level },
                )
            },
        },
        (SessionStage::IssuingToken, SessionEvent::TokenIssued(res)) => match res {
            Ok(t) => next is Done && action == SessionAction::Respond(ApiReply::Created { access_token: t }),
            Err(_) => session_ends(next, action, 500, Some("Failed to create a session."@)),
        },
        _ => session_ends(next, action, 500, None),
    }
}

fn session_respond(r: ApiReply) -> (o: (SessionStage, SessionAction))
    ensures
        o.0 is Done,
        o.1 == SessionAction::Respond(r),
{
    (SessionStage::Done, SessionAction::Respond(r))
}

impl SessionFlow {
    /// A session request that has not started.
    pub fn new(login: Option<CreateSessionInput>) -> (r: SessionFlow)
        ensures
            r.login == login,
            r.stage is Start,
    {
        SessionFlow { login, stage: SessionStage::Start }
    }

    fn session_step_for_user(&self, user: StoredUser, now: i64) -> (r: (SessionStage, SessionAction))
        ensures
            session_for_user(self.login, user, now, r.0, r.1),
    {
        let requested = match &self.login {
            Some(l) => l.exp,
            None => None,
        };
        match requested {
            Some(e) => if timestamp_in_range(e) {
                (
                    SessionStage::CreatingSession { access_level: user.access_level, ended_at: e, now },
                    SessionAction::CreateSession { user_id: user.id, ended_at: e },
                )
            } else {
                session_respond(failure(422, "Timestamp out of range."))
            },
            None => match session_end(now) {
                Some(ended_at) => (
                    SessionStage::CreatingSession { access_level: user.access_level, ended_at, now },
                    SessionAction::CreateSession { user_id: user.id, ended_at },
                ),
                None => session_respond(failure(500, "Failed to create a session.")),
            },
        }
    }

    /// Takes the result of the last action and says what to do next.
    pub fn step(&mut self, event: SessionEvent) -> (action: SessionAction)
        ensures
            final(self).login == old(self).login,
            session_transition(old(self).login, old(self).stage, event, final(self).stage, action),
    {
        let mut stage = SessionStage::Done;
        std::mem::swap(&mut stage, &mut self.stage);
        let (next, action) = match (stage, event) {
            (SessionStage::Start, SessionEvent::Begin { now }) => match &self.login {
                Some(l) => {
                    let errors = l.validate();
                    if errors.len() > 0 {
                        session_respond(ApiReply::Invalid(errors))
                    } else {
                        (SessionStage::FindingUser { now }, SessionAction::FindUser)
                    }
                },
                None => (SessionStage::CreatingUser { now }, SessionAction::CreateAnonymousUser(UserModel::anon_user())),
            },
            (SessionStage::FindingUser { now }, SessionEvent::UserFound(found)) => match &self.login {
                Some(l) => match login_user_checked(found, l.password.as_str()) {
                    Ok(u) => self.session_step_for_user(u, now),
                    Err(f) => session_respond(ApiReply::Failed(login_error(f))),
                },
                None => session_respond(bare_failure(500)),
            },
            (SessionStage::CreatingUser { now }, SessionEvent::UserCreated(res)) => match res {
                Err(_) => session_respond(bare_failure(500)),
                Ok(u) => self.session_step_for_user(u, now),
            },
            (
                SessionStage::CreatingSession { access_level, ended_at, now },
                SessionEvent::SessionCreated(res),
            ) => match res {
                Err(_) => session_respond(failure(500, "Failed to create a session.")),
                Ok(s) => (
                    SessionStage::IssuingToken,
                    SessionAction::IssueToken(make_claims(access_level, ended_at, s.id, now)),
                ),
            },
            (SessionStage::IssuingToken, SessionEvent::TokenIssued(res)) => match res {
                Ok(t) => session_respond(ApiReply::Created { access_token: t }),
                Err(_) => session_respond(failure(500, "Failed to create a session.")),
            },
            _ => session_respond(bare_failure(500)),
        };
        self.stage = next;
        action
    }
}

/// A login opens a session only with the right password: a session for a
/// found user is asked for only when the user has a password hash that
/// accepts the login's password.
pub proof fn law_session_needs_password(
    login: Option<CreateSessionInput>,
    now: i64,
    found: Result<StoredUser, DbError>,
    next: SessionStage,
    action: SessionAction,
)
    requires
        session_transition(login, SessionStage::FindingUser { now }, SessionEvent::UserFound(found), next, action),
        action is CreateSession,
    ensures
        found matches Ok(u) && u.password_hash matches Some(h) && phc_verifies(h@, login->0.password@)
            && action->CreateSession_user_id == u.id,
{
}

/// The token of a session carries the level of the user it was made for
/// and the session's end.
pub proof fn law_session_token_matches(
    login: Option<CreateSessionInput>,
    access_level: u8,
    ended_at: i64,
    now: i64,
    event: SessionEvent,
    next: SessionStage,
    action: SessionAction,
)
    requires
        session_transition(login, SessionStage::CreatingSession { access_level, ended_at, now }, event, next, action),
        action is IssueToken,
    ensures
        action->IssueToken_0.role == access_level,
        action->IssueToken_0.exp == ended_at as usize,
{
}

/// The end a session request asks for: the login's `exp`, if any.
pub open spec fn requested_end(login: Option<CreateSessionInput>) -> Option<i64> {
    match login {
        Some(l) => l.exp,
        None => None,
    }
}

/// The time a stage of a session request keeps as the request's start.
pub open spec fn session_started_at(stage: SessionStage) -> Option<i64> {
    match stage {
        SessionStage::FindingUser { now } => Some(now),
        SessionStage::CreatingUser { now } => Some(now),
        SessionStage::CreatingSession { now, .. } => Some(now),
        _ => None,
    }
}

/// A session ends when the login asks, or, when it asks nothing (a login
/// without `exp`, or a new anonymous user), one year
/// (`SESSION_LIFETIME_SECS`) after the request came in: every session
/// that is opened, for a found or a new user, ends so.
pub proof fn law_session_default_lifetime(
    login: Option<CreateSessionInput>,
    stage: SessionStage,
    event: SessionEvent,
    next: SessionStage,
    action: SessionAction,
)
    requires
        session_transition(login, stage, event, next, action),
        action is CreateSession,
    ensures
        stage is FindingUser || stage is CreatingUser,
        session_started_at(stage) matches Some(now) && (requested_end(login) is None
            ==> action->CreateSession_ended_at == now + SESSION_LIFETIME_SECS),
        requested_end(login) matches Some(e) ==> action->CreateSession_ended_at == e,
{
}

/// A run of a session request: `stages[0]` moves on `events[k]` to
/// `stages[k + 1]`, and the handler does `actions[k]`, step after step.
pub open spec fn session_run(
    login: Option<CreateSessionInput>,
    stages: Seq<SessionStage>,
    events: Seq<SessionEvent>,
    actions: Seq<SessionAction>,
) -> bool {
    &&& stages.len() == events.len() + 1
    &&& actions.len() == events.len()
    &&& forall|k: int|
        #![trigger events[k]]
        0 <= k < events.len() ==> session_transition(login, stages[k], events[k], stages[k + 1], actions[k])
}

proof fn lemma_session_keeps_start(
    login: Option<CreateSessionInput>,
    stages: Seq<SessionStage>,
    events: Seq<SessionEvent>,
    actions: Seq<SessionAction>,
    i: int,
    now: i64,
    k: int,
)
    requires
        session_run(login, stages, events, actions),
        0 <= i < k <= events.len(),
        events[i] == (SessionEvent::Begin { now }),
    ensures
        stages[k] is Done || stages[k] is IssuingToken || session_started_at(stages[k]) == Some(now),
    decreases k - i,
{
    if k == i + 1 {
        assert(session_transition(login, stages[i], events[i], stages[i + 1], actions[i]));
    } else {
        lemma_session_keeps_start(login, stages, events, actions, i, now, k - 1);
        assert(session_transition(login, stages[k - 1], events[k - 1], stages[k], actions[k - 1]));
    }
}

/// Over a whole session request that came in at `now`: a session opened
/// without a requested end ends at `now + SESSION_LIFETIME_SECS`, one with
/// a requested end ends then, and the token is issued at `now`.
pub proof fn law_session_run_times(
    login: Option<CreateSessionInput>,
    stages: Seq<SessionStage>,
    events: Seq<SessionEvent>,
    actions: Seq<SessionAction>,
    i: int,
    j: int,
    now: i64,
)
    requires
        session_run(login, stages, events, actions),
        0 <= i < j < events.len(),
        events[i] == (SessionEvent::Begin { now }),
    ensures
        actions[j] matches SessionAction::CreateSession { ended_at, .. } ==> ended_at == match requested_end(
            login,
        ) {
            Some(e) => e as int,
            None => now + SESSION_LIFETIME_SECS,
        },
        actions[j] matches SessionAction::IssueToken(c) ==> c.iat == now as usize,
{
    lemma_session_keeps_start(login, stages, events, actions, i, now, j);
    assert(session_transition(login, stages[j], events[j], stages[j + 1], actions[j]));
}

// ---------------------------------------------------------------------------
// Sessions of the user service
// ---------------------------------------------------------------------------

/// A login of the user service: a user name or, failing that, an e-mail
/// address names the user.
pub struct ServiceLogin {
    pub email: Option<String>,
    pub exp: Option<i64>,
    pub password: String,
    pub username: Option<String>,
}

/// How far a session request of the user service has come.
pub enum ServiceSessionStage {
    Start,
    /// Looking the user up, or creating an anonymous one.
    FindingUser { now: i64 },
    CreatingSession { role: u8, ended_at: i64, now: i64 },
    IssuingToken,
    Done,
}

/// What the handler reports back: the result of the last action.
pub enum ServiceSessionEvent {
    /// The request came in at `now`.
    Begin { now: i64 },
    UserFound(Result<StoredUser, DbError>),
    SessionCreated(Result<SessionRecord, DbError>),
    TokenIssued(String),
}

/// What the handler does next.
pub enum ServiceSessionAction {
    /// Look the login's user up by name or by address.
    FindUser(UserLookup),
    /// Store this user, an anonymous one.
    CreateAnonymousUser(UserModel),
    /// Open a session for `user_id` that ends at `ended_at`.
    CreateSession { user_id: u32, ended_at: i64 },
    /// Sign these claims as an access token.
    IssueToken(Claims),
    /// Answer with this status code and no body.
    Respond(u16),
    /// Answer 201 with this access token.
    Created { access_token: String },
}

/// A session request of the user service on its way.
pub struct ServiceSessionFlow {
    pub login: Option<ServiceLogin>,
    pub stage: ServiceSessionStage,
}

/// Whether a found user may have a session: a user with a password needs
/// the right one (a stored hash that does not parse is a server error); a
/// user without one is open to all. `None` lets the request go on.
pub open spec fn service_password_check(login: Option<ServiceLogin>, u: StoredUser) -> Option<u16> {
    match u.password_hash {
        None => None,
        Some(h) => match login {
            Some(l) => if !phc_well_formed(h@) {
                Some(500u16)
            } else if phc_verifies(h@, l.password@) {
                None
            } else {
                Some(401u16)
            },
            None => Some(500u16),
        },
    }
}

/// The step once the user is known and admitted: the session ends when
/// the login asks, if chrono can hold that time, else after the default
/// lifetime of the user's level.
pub open spec fn service_session_for_user(
    login: Option<ServiceLogin>,
    u: StoredUser,
    now: i64,
    next: ServiceSessionStage,
    action: ServiceSessionAction,
) -> bool {
    let requested = match login {
        Some(l) => l.exp,
        None => None,
    };
    match level_of(u.access_level) {
        None => next is Done && action == ServiceSessionAction::Respond(500),
        Some(role) => match requested {
            Some(e) => if chrono_timestamp_in_range(e) {
                &&& next == ServiceSessionStage::CreatingSession { role: u.access_level, ended_at: e, now }
                &&& action == ServiceSessionAction::CreateSession { user_id: u.id, ended_at: e }
            } else {
                next is Done && action == ServiceSessionAction::Respond(400)
            },
            None => if now > i64::MAX - SESSION_LIFETIME_SECS {
                next is Done && action == ServiceSessionAction::Respond(500)
            } else {
                let e = (now + default_lifetime_secs(role)) as i64;
                &&& next == ServiceSessionStage::CreatingSession { role: u.access_level, ended_at: e, now }
                &&& action == ServiceSessionAction::CreateSession { user_id: u.id, ended_at: e }
            },
        },
    }
}

/// One step of a session request of the user service: from `stage`, on
/// `event`, the request moves to `next` and the handler does `action`. An
/// event that does not answer the last action ends the request with a
/// server error.
pub open spec fn service_session_transition(
    login: Option<ServiceLogin>,
    stage: ServiceSessionStage,
    event: ServiceSessionEvent,
    next: ServiceSessionStage,
    action: ServiceSessionAction,
) -> bool {
    match (stage, event) {
        (ServiceSessionStage::Start, ServiceSessionEvent::Begin { now }) => match login {
            Some(l) => match l.username {
                Some(u) => next == ServiceSessionStage::FindingUser { now } && (action matches ServiceSessionAction::FindUser(
                    UserLookup::ByUsername(v),
                ) && v@ == u@),
                None => match l.email {
                    Some(e) => next == ServiceSessionStage::FindingUser { now } && (action matches ServiceSessionAction::FindUser(
                        UserLookup::ByEmail(v),
                    ) && v@ == e@),
                    None => next is Done && action == ServiceSessionAction::Respond(400),
                },
            },
            None => next == ServiceSessionStage::FindingUser { now } && (action matches ServiceSessionAction::CreateAnonymousUser(
                m,
            ) && is_anonymous_model(m)),
        },
        (ServiceSessionStage::FindingUser { now }, ServiceSessionEvent::UserFound(found)) => match found {
            Err(e) => next is Done && action == ServiceSessionAction::Respond(
                if e is NotFound {
                    404u16
                } else {
                    500u16
                },
            ),
            Ok(u) => match service_password_check(login, u) {
                Some(status) => next is Done && action == ServiceSessionAction::Respond(status),
                None => service_session_for_user(login, u, now, next, action),
            },
        },
        (ServiceSessionStage::CreatingSession { role, ended_at, now }, ServiceSessionEvent::SessionCreated(res)) => match res {
            Err(_) => next is Done && action == ServiceSessionAction::Respond(500),
            Ok(s) => next is IssuingToken && action == ServiceSessionAction::IssueToken(
                Claims { exp: ended_at as usize, iat: now as usize, sub: s.id, role },
            ),
        },
        (ServiceSessionStage::IssuingToken, ServiceSessionEvent::TokenIssued(t)) => next is Done && action
            == ServiceSessionAction::Created { access_token: t },
        _ => next is Done && action == ServiceSessionAction::Respond(500),
    }
}

fn service_respond(status: u16) -> (r: (ServiceSessionStage, ServiceSessionAction))
    ensures
        r.0 is Done,
        r.1 == ServiceSessionAction::Respond(status),
{
    (ServiceSessionStage::Done, ServiceSessionAction::Respond(status))
}

impl ServiceSessionFlow {
    /// A session request that has not started.
    pub fn new(login: Option<ServiceLogin>) -> (r: ServiceSessionFlow)
        ensures
            r.login == login,
            r.stage is Start,
    {
        ServiceSessionFlow { login, stage: ServiceSessionStage::Start }
    }

    fn password_check(&self, u: &StoredUser) -> (r: Option<u16>)
        ensures
            r == service_password_check(self.login, *u),
    {
        match &u.password_hash {
            None => None,
            Some(h) => match &self.login {
                Some(l) => match check_password(h.as_str(), l.password.as_str()) {
                    None => Some(500),
                    Some(true) => None,
                    Some(false) => Some(401),
                },
                None => Some(500),
            },
        }
    }

    fn for_user(&self, u: StoredUser, now: i64) -> (r: (ServiceSessionStage, ServiceSessionAction))
        ensures
            service_session_for_user(self.login, u, now, r.0, r.1),
    {
        let role = match user_role(u.access_level) {
            Ok(role) => role,
            Err(_) => return service_respond(500),
        };
        let requested = match &self.login {
            Some(l) => l.exp,
            None => None,
        };
        match requested {
            Some(e) => if timestamp_in_range(e) {
                (
                    ServiceSessionStage::CreatingSession { role: u.access_level, ended_at: e, now },
                    ServiceSessionAction::CreateSession { user_id: u.id, ended_at: e },
                )
            } else {
                service_respond(400)
            },
            None => if now > i64::MAX - SESSION_LIFETIME_SECS {
                service_respond(500)
            } else {
                let ended_at = role.default_exp(now);
                (
                    ServiceSessionStage::CreatingSession { role: u.access_level, ended_at, now },
                    ServiceSessionAction::CreateSession { user_id: u.id, ended_at },
                )
            },
        }
    }

    /// Takes the result of the last action and says what to do next.
    pub fn step(&mut self, event: ServiceSessionEvent) -> (action: ServiceSessionAction)
        ensures
            final(self).login == old(self).login,
            service_session_transition(old(self).login, old(self).stage, event, final(self).stage, action),
    {
        let mut stage = ServiceSessionStage::Done;
        std::mem::swap(&mut stage, &mut self.stage);
        let (next, action) = match (stage, event) {
            (ServiceSessionStage::Start, ServiceSessionEvent::Begin { now }) => match &self.login {
                Some(l) => match user_lookup(l.username.clone(), l.email.clone()) {
                    UserLookup::NotIdentifiable => service_respond(400),
                    lookup => (ServiceSessionStage::FindingUser { now }, ServiceSessionAction::FindUser(lookup)),
                },
                None => (ServiceSessionStage::FindingUser { now }, ServiceSessionAction::CreateAnonymousUser(UserModel::anon_user())),
            },
            (ServiceSessionStage::FindingUser { now }, ServiceSessionEvent::UserFound(found)) => match found {
                Err(e) => service_respond(auth_error(lookup_failed(e)).status),
                Ok(u) => match self.password_check(&u) {
                    Some(status) => service_respond(status),
                    None => self.for_user(u, now),
                },
            },
            (
                ServiceSessionStage::CreatingSession { role, ended_at, now },
                ServiceSessionEvent::SessionCreated(res),
            ) => match res {
                Err(_) => service_respond(500),
                Ok(s) => (ServiceSessionStage::IssuingToken, ServiceSessionAction::IssueToken(make_claims(role, ended_at, s.id, now))),
            },
            (ServiceSessionStage::IssuingToken, ServiceSessionEvent::TokenIssued(t)) => (
                ServiceSessionStage::Done,
                ServiceSessionAction::Created { access_token: t },
            ),
            _ => service_respond(500),
        };
        self.stage = next;
        action
    }
}

/// A session of the user service is opened only for a user with no
/// password or with the right one.
pub proof fn law_service_session_needs_password(
    login: Option<ServiceLogin>,
    now: i64,
    found: Result<StoredUser, DbError>,
    next: ServiceSessionStage,
    action: ServiceSessionAction,
)
    requires
        service_session_transition(login, ServiceSessionStage::FindingUser { now }, ServiceSessionEvent::UserFound(found), next, action),
        action is CreateSession,
    ensures
        found matches Ok(u) && (u.password_hash matches Some(h) ==> (login matches Some(l) && phc_verifies(h@, l.password@))),
{
}

/// The end a session request of the user service asks for: the login's
/// `exp`, if any.
pub open spec fn service_requested_end(login: Option<ServiceLogin>) -> Option<i64> {
    match login {
        Some(l) => l.exp,
        None => None,
    }
}

/// A session of the user service ends when the login asks, or, when it
/// asks nothing, after the default lifetime of the found user's level,
/// counted from the time the request came in.
pub proof fn law_service_session_lifetime(
    login: Option<ServiceLogin>,
    stage: ServiceSessionStage,
    event: ServiceSessionEvent,
    next: ServiceSessionStage,
    action: ServiceSessionAction,
)
    requires
        service_session_transition(login, stage, event, next, action),
        action is CreateSession,
    ensures
        ({
            &&& stage matches ServiceSessionStage::FindingUser { now }
            &&& event matches ServiceSessionEvent::UserFound(Ok(u))
            &&& action->CreateSession_user_id == u.id
            &&& level_of(u.access_level) matches Some(role)
            &&& match service_requested_end(login) {
                Some(e) => action->CreateSession_ended_at == e,
                None => action->CreateSession_ended_at == now + default_lifetime_secs(role),
            }
        }),
{
}

// ---------------------------------------------------------------------------
// The root account
// ---------------------------------------------------------------------------

/// What to do with the root account once `root` was looked up.
pub enum RootUserPlan {
    /// Overwrite the existing root account `user_id`.
    Update { user_id: u32, model: UserModel },
    /// Create the root account.
    Insert { model: UserModel },
    /// Leave it: the lookup failed for another reason than absence.
    Skip,
}

/// Whether `m` is the root account for `password`: root level, named
/// `root`, without an e-mail address, with a hash that accepts the
/// password.
pub open spec fn is_root_model(m: UserModel, password: Seq<char>) -> bool {
    &&& m.access_level == level_value(AccessLevel::Root)
    &&& m.username matches Some(n) && n@ == "root"@
    &&& m.email is None
    &&& m.password_hash matches Some(h) && phc_well_formed(h@) && phc_verifies(h@, password)
}

/// Sets the root account to the configured password: an existing `root`
/// is updated, a missing one created.
pub fn plan_root_user(password: &str, found: Result<u32, DbError>) -> (r: RootUserPlan)
    ensures
        found matches Ok(id) ==> (r matches RootUserPlan::Update { user_id, model } && user_id == id
            && is_root_model(model, password@)),
        found matches Err(e) ==> if e is NotFound {
            r matches RootUserPlan::Insert { model } && is_root_model(model, password@)
        } else {
            r is Skip
        },
{
    let model = UserModel {
        access_level: AccessLevel::Root.as_u8(),
        username: Some("root".to_owned()),
        email: None,
        password_hash: Some(hash_password_pbkdf2(password)),
    };
    match found {
        Ok(user_id) => RootUserPlan::Update { user_id, model },
        Err(DbError::NotFound) => RootUserPlan::Insert { model },
        Err(_) => RootUserPlan::Skip,
    }
}

} // verus!
