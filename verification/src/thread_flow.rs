use vstd::prelude::*;
use crate::gate::{ban_blocks, UserData};
use crate::posting::{
    captcha_failed, captcha_step, check_board_level, check_thread_author, check_thread_message,
    refused_with, thread_store_failed, CaptchaStep, DbError, Refusal, MAX_THREAD_POST_CHARS,
};
use crate::reply_flow::{BoardInfo, Outcome};

verus! {

/// A new thread as the form sends it, for the board `board_handle`.
pub struct ThreadRequest {
    pub board_handle: String,
    pub topic: String,
    pub message: String,
    pub captcha: Option<String>,
    pub captcha_id: Option<u64>,
}

/// How far a thread request has come; each stage keeps what the checks
/// before it found.
pub enum ThreadStage {
    Start,
    ResolvingUser,
    FindingBoard { user_id: u64, user_level: u8, banned: bool, ip_addr: String },
    VerifyingCaptcha { user_id: u64, user_level: u8, banned: bool, ip_addr: String, board: BoardInfo },
    Storing { user_id: u64, user_level: u8, banned: bool, board: BoardInfo },
    Done,
}

/// What the handler reports back: the result of the last action.
pub enum ThreadEvent {
    Begin,
    User(Result<UserData, DbError>),
    Board(Result<BoardInfo, DbError>),
    Captcha(Result<(), String>),
    Stored(Result<(), DbError>),
}

/// What the handler does next.
pub enum ThreadAction {
    /// Find the user behind the request.
    ResolveUser,
    /// Look the board up by the request's handle.
    FindBoard,
    /// Check the request's captcha answer against captcha `id`.
    VerifyCaptcha { id: u64 },
    /// Open a thread on board `board_id` with the request's topic, message
    /// and attachment, by `user_id` from `ip_addr`, readable from
    /// `access_level` up, on a board that keeps `active_threads_limit`
    /// threads.
    Store { user_id: u64, board_id: u32, ip_addr: String, access_level: u8, active_threads_limit: u32 },
    /// Answer the request.
    Respond(Outcome),
}

/// A thread request on its way through the checks.
pub struct ThreadFlow {
    pub request: ThreadRequest,
    pub stage: ThreadStage,
}

/// The answer is a refusal with `text`, and the request is done.
pub open spec fn thread_refused(next: ThreadStage, action: ThreadAction, text: Seq<char>) -> bool {
    &&& next is Done
    &&& action matches ThreadAction::Respond(Outcome::Refused(f))
    &&& refused_with(f, text)
}

/// The answer is a server error, and the request is done.
pub open spec fn thread_failed(next: ThreadStage, action: ThreadAction) -> bool {
    &&& next is Done
    &&& action matches ThreadAction::Respond(Outcome::Refused(f))
    &&& f is ServerError
}

/// The request moves to storing the thread.
pub open spec fn thread_stores(
    user_id: u64,
    user_level: u8,
    banned: bool,
    ip_addr: String,
    board: BoardInfo,
    next: ThreadStage,
    action: ThreadAction,
) -> bool {
    &&& next == ThreadStage::Storing { user_id, user_level, banned, board }
    &&& action == ThreadAction::Store {
        user_id,
        board_id: board.id,
        ip_addr,
        access_level: board.access_level,
        active_threads_limit: board.active_threads_limit,
    }
}

/// One step of a thread request: from `stage`, on `event`, the request
/// moves to `next` and the handler does `action`. An event that does not
/// answer the last action ends the request with a server error.
pub open spec fn thread_transition(
    req: ThreadRequest,
    stage: ThreadStage,
    event: ThreadEvent,
    next: ThreadStage,
    action: ThreadAction,
) -> bool {
    match (stage, event) {
        (ThreadStage::Start, ThreadEvent::Begin) => if req.message@.len() == 0 {
            thread_refused(next, action, "Viesti ei voi olla tyhjä!"@)
        } else if req.message@.len() > MAX_THREAD_POST_CHARS {
            thread_refused(next, action, "Viesti on liian pitkä (yli 20 000 merkkiä)"@)
        } else {
            next == ThreadStage::ResolvingUser && action == ThreadAction::ResolveUser
        },
        (ThreadStage::ResolvingUser, ThreadEvent::User(Ok(u))) => if ban_blocks(
            u.banned is Some,
            u.access_level,
        ) {
            thread_refused(next, action, "Käyttäjätilisi on bannattu!"@)
        } else {
            &&& next == ThreadStage::FindingBoard {
                user_id: u.id,
                user_level: u.access_level,
                banned: u.banned is Some,
                ip_addr: u.ip_addr,
            }
            &&& action == ThreadAction::FindBoard
        },
        (
            ThreadStage::FindingBoard { user_id, user_level, banned, ip_addr },
            ThreadEvent::Board(Ok(board)),
        ) => if board.access_level > user_level {
            next is Done && action == ThreadAction::Respond(Outcome::Refused(Refusal::Forbidden))
        } else if board.captcha {
            if req.captcha is Some && req.captcha_id is Some {
                &&& next == ThreadStage::VerifyingCaptcha { user_id, user_level, banned, ip_addr, board }
                &&& action == ThreadAction::VerifyCaptcha { id: req.captcha_id->0 }
            } else {
                thread_refused(next, action, "Captcha epäonnistui!"@)
            }
        } else {
            thread_stores(user_id, user_level, banned, ip_addr, board, next, action)
        },
        (
            ThreadStage::VerifyingCaptcha { user_id, user_level, banned, ip_addr, board },
            ThreadEvent::Captcha(res),
        ) => match res {
            Ok(_) => thread_stores(user_id, user_level, banned, ip_addr, board, next, action),
            Err(m) => thread_refused(next, action, m@),
        },
        (ThreadStage::Storing { .. }, ThreadEvent::Stored(res)) => match res {
            Ok(_) => next is Done && action == ThreadAction::Respond(Outcome::Created),
            Err(e) => if e is NotFound {
                thread_refused(next, action, "Ongelma tiedoston käsittelyssä!"@)
            } else {
                thread_failed(next, action)
            },
        },
        _ => thread_failed(next, action),
    }
}

/// What the stages after the start have established: the message fits,
/// and each later stage adds the check that led to it.
pub open spec fn thread_stage_ok(req: ThreadRequest, stage: ThreadStage) -> bool {
    let message_ok = req.message@.len() != 0 && req.message@.len()
        <= MAX_THREAD_POST_CHARS;
    match stage {
        ThreadStage::Start => true,
        ThreadStage::Done => true,
        ThreadStage::ResolvingUser => message_ok,
        ThreadStage::FindingBoard { user_level, banned, .. } => message_ok && !ban_blocks(
            banned,
            user_level,
        ),
        ThreadStage::VerifyingCaptcha { user_level, banned, board, .. } => message_ok && !ban_blocks(
            banned,
            user_level,
        ) && board.access_level <= user_level,
        ThreadStage::Storing { user_level, banned, board, .. } => message_ok && !ban_blocks(
            banned,
            user_level,
        ) && board.access_level <= user_level,
    }
}

fn thread_respond(f: Refusal) -> (r: (ThreadStage, ThreadAction))
    ensures
        r.0 is Done,
        r.1 == ThreadAction::Respond(Outcome::Refused(f)),
{
    (ThreadStage::Done, ThreadAction::Respond(Outcome::Refused(f)))
}

fn store_step(user_id: u64, user_level: u8, banned: bool, ip_addr: String, board: BoardInfo) -> (r: (
    ThreadStage,
    ThreadAction,
))
    ensures
        thread_stores(user_id, user_level, banned, ip_addr, board, r.0, r.1),
{
    (
        ThreadStage::Storing { user_id, user_level, banned, board },
        ThreadAction::Store {
            user_id,
            board_id: board.id,
            ip_addr,
            access_level: board.access_level,
            active_threads_limit: board.active_threads_limit,
        },
    )
}

impl ThreadFlow {
    /// A request that has not started.
    pub fn new(request: ThreadRequest) -> (r: ThreadFlow)
        ensures
            r.request == request,
            r.stage is Start,
    {
        ThreadFlow { request, stage: ThreadStage::Start }
    }

    /// Takes the result of the last action and says what to do next.
    pub fn step(&mut self, event: ThreadEvent) -> (action: ThreadAction)
        ensures
            final(self).request == old(self).request,
            thread_transition(old(self).request, old(self).stage, event, final(self).stage, action),
    {
        let mut stage = ThreadStage::Done;
        std::mem::swap(&mut stage, &mut self.stage);
        let (next, action) = match (stage, event) {
            (ThreadStage::Start, ThreadEvent::Begin) => match check_thread_message(
                self.request.message.as_str(),
            ) {
                Some(f) => thread_respond(f),
                None => (ThreadStage::ResolvingUser, ThreadAction::ResolveUser),
            },
            (ThreadStage::ResolvingUser, ThreadEvent::User(Ok(u))) => match check_thread_author(&u) {
                Some(f) => thread_respond(f),
                None => (
                    ThreadStage::FindingBoard {
                        user_id: u.id,
                        user_level: u.access_level,
                        banned: u.banned.is_some(),
                        ip_addr: u.ip_addr,
                    },
                    ThreadAction::FindBoard,
                ),
            },
            (
                ThreadStage::FindingBoard { user_id, user_level, banned, ip_addr },
                ThreadEvent::Board(Ok(board)),
            ) => match check_board_level(board.access_level, user_level) {
                Some(f) => thread_respond(f),
                None => match captcha_step(board.captcha, &self.request.captcha, self.request.captcha_id) {
                    CaptchaStep::Verify { id } => (
                        ThreadStage::VerifyingCaptcha { user_id, user_level, banned, ip_addr, board },
                        ThreadAction::VerifyCaptcha { id },
                    ),
                    CaptchaStep::Refuse(f) => thread_respond(f),
                    CaptchaStep::NotNeeded => store_step(user_id, user_level, banned, ip_addr, board),
                },
            },
            (
                ThreadStage::VerifyingCaptcha { user_id, user_level, banned, ip_addr, board },
                ThreadEvent::Captcha(res),
            ) => match res {
                Ok(_) => store_step(user_id, user_level, banned, ip_addr, board),
                Err(m) => thread_respond(captcha_failed(m)),
            },
            (ThreadStage::Storing { .. }, ThreadEvent::Stored(res)) => match res {
                Ok(_) => (ThreadStage::Done, ThreadAction::Respond(Outcome::Created)),
                Err(e) => thread_respond(thread_store_failed(e)),
            },
            _ => thread_respond(Refusal::ServerError),
        };
        self.stage = next;
        action
    }
}

/// Every step keeps what the earlier checks established: a request only
/// moves on past a check that it passed.
pub proof fn law_thread_step_keeps_checks(
    req: ThreadRequest,
    stage: ThreadStage,
    event: ThreadEvent,
    next: ThreadStage,
    action: ThreadAction,
)
    requires
        thread_stage_ok(req, stage),
        thread_transition(req, stage, event, next, action),
    ensures
        thread_stage_ok(req, next),
{
}

/// A thread is opened only with a message that fits, by a user that no ban
/// stops and whose level reaches the board's, on the board that was found,
/// and, on a board that asks for a captcha, only right after the captcha
/// was passed.
pub proof fn law_thread_stored_only_when_allowed(
    req: ThreadRequest,
    stage: ThreadStage,
    event: ThreadEvent,
    next: ThreadStage,
    action: ThreadAction,
)
    requires
        thread_stage_ok(req, stage),
        thread_transition(req, stage, event, next, action),
        action is Store,
    ensures
        next matches ThreadStage::Storing { user_id, user_level, banned, board } && {
            &&& action matches ThreadAction::Store { user_id: u, board_id, access_level, .. }
            &&& u == user_id && board_id == board.id && access_level == board.access_level
            &&& req.message@.len() != 0
            &&& req.message@.len() <= MAX_THREAD_POST_CHARS
            &&& !ban_blocks(banned, user_level)
            &&& board.access_level <= user_level
            &&& board.captcha ==> event matches ThreadEvent::Captcha(Ok(_))
        },
{
}

/// A run of a thread request: `stages[0]` moves on `events[k]` to
/// `stages[k + 1]`, and the handler does `actions[k]`, step after step.
pub open spec fn thread_run(
    req: ThreadRequest,
    stages: Seq<ThreadStage>,
    events: Seq<ThreadEvent>,
    actions: Seq<ThreadAction>,
) -> bool {
    &&& stages.len() == events.len() + 1
    &&& actions.len() == events.len()
    &&& forall|k: int|
        #![trigger events[k]]
        0 <= k < events.len() ==> thread_transition(req, stages[k], events[k], stages[k + 1], actions[k])
}

/// Whether a stage of a thread request is over or carries user `u`: its
/// id and, where the stage keeps it, its address.
spec fn thread_stage_keeps_user(stage: ThreadStage, u: UserData) -> bool {
    match stage {
        ThreadStage::Done => true,
        ThreadStage::FindingBoard { user_id, ip_addr, .. } => user_id == u.id && ip_addr == u.ip_addr,
        ThreadStage::VerifyingCaptcha { user_id, ip_addr, .. } => user_id == u.id && ip_addr == u.ip_addr,
        ThreadStage::Storing { user_id, .. } => user_id == u.id,
        _ => false,
    }
}

/// Whether a stage of a thread request is over or carries board `b`.
spec fn thread_stage_keeps_board(stage: ThreadStage, b: BoardInfo) -> bool {
    match stage {
        ThreadStage::Done => true,
        ThreadStage::VerifyingCaptcha { board, .. } => board == b,
        ThreadStage::Storing { board, .. } => board == b,
        _ => false,
    }
}

proof fn lemma_thread_keeps_user(
    req: ThreadRequest,
    stages: Seq<ThreadStage>,
    events: Seq<ThreadEvent>,
    actions: Seq<ThreadAction>,
    i: int,
    u: UserData,
    k: int,
)
    requires
        thread_run(req, stages, events, actions),
        0 <= i < k <= events.len(),
        events[i] == ThreadEvent::User(Ok(u)),
    ensures
        thread_stage_keeps_user(stages[k], u),
    decreases k - i,
{
    if k == i + 1 {
        assert(thread_transition(req, stages[i], events[i], stages[i + 1], actions[i]));
    } else {
        lemma_thread_keeps_user(req, stages, events, actions, i, u, k - 1);
        assert(thread_transition(req, stages[k - 1], events[k - 1], stages[k], actions[k - 1]));
    }
}

proof fn lemma_thread_keeps_board(
    req: ThreadRequest,
    stages: Seq<ThreadStage>,
    events: Seq<ThreadEvent>,
    actions: Seq<ThreadAction>,
    i: int,
    b: BoardInfo,
    k: int,
)
    requires
        thread_run(req, stages, events, actions),
        0 <= i < k <= events.len(),
        events[i] == ThreadEvent::Board(Ok(b)),
    ensures
        thread_stage_keeps_board(stages[k], b),
    decreases k - i,
{
    if k == i + 1 {
        assert(thread_transition(req, stages[i], events[i], stages[i + 1], actions[i]));
    } else {
        lemma_thread_keeps_board(req, stages, events, actions, i, b, k - 1);
        assert(thread_transition(req, stages[k - 1], events[k - 1], stages[k], actions[k - 1]));
    }
}

/// A thread is opened by the user the request was resolved to, from that
/// user's address, on the board that was looked up and at its level: in
/// any run, a store that comes after the user lookup answered `u` is by
/// `u.id` from `u.ip_addr`, and one that comes after (or on) the board
/// lookup answering `b` is on board `b.id`, at `b.access_level`, with
/// `b.active_threads_limit`, whether or not a captcha was asked on the way.
pub proof fn law_thread_stored_for_found_user_and_board(
    req: ThreadRequest,
    stages: Seq<ThreadStage>,
    events: Seq<ThreadEvent>,
    actions: Seq<ThreadAction>,
    i: int,
    j: int,
)
    requires
        thread_run(req, stages, events, actions),
        0 <= i <= j < events.len(),
        actions[j] is Store,
    ensures
        events[i] matches ThreadEvent::User(Ok(u)) ==> actions[j]->Store_user_id == u.id
            && actions[j]->Store_ip_addr == u.ip_addr,
        events[i] matches ThreadEvent::Board(Ok(b)) ==> actions[j]->Store_board_id == b.id
            && actions[j]->Store_access_level == b.access_level && actions[j]->Store_active_threads_limit
            == b.active_threads_limit,
{
    assert(thread_transition(req, stages[j], events[j], stages[j + 1], actions[j]));
    if i < j {
        if let ThreadEvent::User(Ok(u)) = events[i] {
            lemma_thread_keeps_user(req, stages, events, actions, i, u, j);
        }
        if let ThreadEvent::Board(Ok(b)) = events[i] {
            lemma_thread_keeps_board(req, stages, events, actions, i, b, j);
        }
    } else {
        assert(thread_transition(req, stages[i], events[i], stages[i + 1], actions[i]));
    }
}

} // verus!
