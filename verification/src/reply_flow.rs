use vstd::prelude::*;
use crate::gate::UserData;
use crate::posting::{
    captcha_failed, captcha_step, check_board_level, check_reply_message, check_thread_capacity,
    check_thread_open, reply_store_failed, refused_with, CaptchaStep, DbError, Refusal, MAX_POST_CHARS,
};

verus! {

/// What the reply and thread handlers read of a board.
#[derive(Clone, Copy)]
pub struct BoardInfo {
    pub id: u32,
    pub access_level: u8,
    pub thread_size_limit: u32,
    pub active_threads_limit: u32,
    pub captcha: bool,
}

/// Whether a thread still takes replies.
#[derive(Clone, Copy)]
pub struct ThreadStatus {
    pub archived: bool,
    pub locked: bool,
}

/// A reply as the form sends it, for thread `thread_id` of the board
/// `board_handle`.
pub struct ReplyRequest {
    pub board_handle: String,
    pub thread_id: u32,
    pub message: String,
    pub captcha: Option<String>,
    pub captcha_id: Option<u64>,
}

/// How far a reply request has come; each stage keeps what the checks
/// before it found.
pub enum ReplyStage {
    Start,
    ResolvingUser,
    FindingBoard { user_id: u64, user_level: u8 },
    CountingReplies { user_id: u64, user_level: u8, board: BoardInfo },
    FindingThread { user_id: u64, user_level: u8, board: BoardInfo, replies: i64 },
    VerifyingCaptcha {
        user_id: u64,
        user_level: u8,
        board: BoardInfo,
        replies: i64,
        thread: ThreadStatus,
    },
    Storing { user_id: u64, user_level: u8, board: BoardInfo, replies: i64, thread: ThreadStatus },
    Done,
}

/// What the handler reports back: the result of the last action.
pub enum ReplyEvent {
    Begin,
    User(Result<UserData, DbError>),
    Board(Result<BoardInfo, DbError>),
    Replies(Result<i64, DbError>),
    Thread(Result<ThreadStatus, DbError>),
    Captcha(Result<(), String>),
    Stored(Result<(), DbError>),
}

/// The final answer to a request.
pub enum Outcome {
    /// 201.
    Created,
    Refused(Refusal),
}

/// What the handler does next.
pub enum ReplyAction {
    /// Find the user behind the request.
    ResolveUser,
    /// Look the board up by the request's handle.
    FindBoard,
    /// Count the replies of the request's thread.
    CountReplies,
    /// Look the request's thread up.
    FindThread,
    /// Check the request's captcha answer against captcha `id`.
    VerifyCaptcha { id: u64 },
    /// Store the request's message as a reply to its thread, by `user_id`,
    /// readable from `access_level` up.
    Store { user_id: u64, access_level: u8 },
    /// Answer the request.
    Respond(Outcome),
}

/// A reply request on its way through the checks.
pub struct ReplyFlow {
    pub request: ReplyRequest,
    pub stage: ReplyStage,
}

/// The answer is a refusal with `text`, and the request is done.
pub open spec fn reply_refused(next: ReplyStage, action: ReplyAction, text: Seq<char>) -> bool {
    &&& next is Done
    &&& action matches ReplyAction::Respond(Outcome::Refused(f))
    &&& refused_with(f, text)
}

/// The answer is a server error, and the request is done.
pub open spec fn reply_failed(next: ReplyStage, action: ReplyAction) -> bool {
    &&& next is Done
    &&& action matches ReplyAction::Respond(Outcome::Refused(f))
    &&& f is ServerError
}

/// The step after the thread was found open: the captcha when the board
/// asks for one, else storing the reply.
pub open spec fn reply_after_thread(
    req: ReplyRequest,
    user_id: u64,
    user_level: u8,
    board: BoardInfo,
    replies: i64,
    thread: ThreadStatus,
    next: ReplyStage,
    action: ReplyAction,
) -> bool {
    if board.captcha {
        if req.captcha is Some && req.captcha_id is Some {
            &&& next == ReplyStage::VerifyingCaptcha { user_id, user_level, board, replies, thread }
            &&& action == ReplyAction::VerifyCaptcha { id: req.captcha_id->0 }
        } else {
            reply_refused(next, action, "Captcha epäonnistui!"@)
        }
    } else {
        &&& next == ReplyStage::Storing { user_id, user_level, board, replies, thread }
        &&& action == ReplyAction::Store { user_id, access_level: board.access_level }
    }
}

/// One step of a reply request: from `stage`, on `event`, the request
/// moves to `next` and the handler does `action`. An event that does not
/// answer the last action ends the request with a server error.
pub open spec fn reply_transition(
    req: ReplyRequest,
    stage: ReplyStage,
    event: ReplyEvent,
    next: ReplyStage,
    action: ReplyAction,
) -> bool {
    match (stage, event) {
        (ReplyStage::Start, ReplyEvent::Begin) => if req.message@.len() == 0 {
            reply_refused(next, action, "Viesti ei voi olla tyhjä!"@)
        } else if req.message@.len() > MAX_POST_CHARS {
            reply_refused(next, action, "Viesti on liian pitkä (yli 40 000 merkkiä)"@)
        } else {
            next == ReplyStage::ResolvingUser && action == ReplyAction::ResolveUser
        },
        (ReplyStage::ResolvingUser, ReplyEvent::User(Ok(u))) => {
            &&& next == ReplyStage::FindingBoard { user_id: u.id, user_level: u.access_level }
            &&& action == ReplyAction::FindBoard
        },
        (ReplyStage::FindingBoard { user_id, user_level }, ReplyEvent::Board(Ok(board))) => if board.access_level
            > user_level {
            next is Done && action == ReplyAction::Respond(Outcome::Refused(Refusal::Forbidden))
        } else {
            &&& next == ReplyStage::CountingReplies { user_id, user_level, board }
            &&& action == ReplyAction::CountReplies
        },
        (ReplyStage::CountingReplies { user_id, user_level, board }, ReplyEvent::Replies(Ok(n))) => if n
            > board.thread_size_limit {
            reply_refused(next, action, "Lanka on täynnä!"@)
        } else {
            &&& next == ReplyStage::FindingThread { user_id, user_level, board, replies: n }
            &&& action == ReplyAction::FindThread
        },
        (ReplyStage::FindingThread { user_id, user_level, board, replies }, ReplyEvent::Thread(Ok(t))) => if t.archived {
            reply_refused(next, action, "Lanka on arkistoitu, eikä siihen voi enää vastata!"@)
        } else if t.locked {
            reply_refused(next, action, "Lanka on lukittu, eikä siihen voi enää vastata!"@)
        } else {
            reply_after_thread(req, user_id, user_level, board, replies, t, next, action)
        },
        (
            ReplyStage::VerifyingCaptcha { user_id, user_level, board, replies, thread },
            ReplyEvent::Captcha(res),
        ) => match res {
            Ok(_) => {
                &&& next == ReplyStage::Storing { user_id, user_level, board, replies, thread }
                &&& action == ReplyAction::Store { user_id, access_level: board.access_level }
            },
            Err(m) => reply_refused(next, action, m@),
        },
        (ReplyStage::Storing { .. }, ReplyEvent::Stored(res)) => match res {
            Ok(_) => next is Done && action == ReplyAction::Respond(Outcome::Created),
            Err(e) => if e is ForeignKeyViolation {
                reply_refused(next, action, "Et voi vastata viestiin, jota ei ole olemassa!"@)
            } else {
                reply_failed(next, action)
            },
        },
        _ => reply_failed(next, action),
    }
}

/// What the stages after the start have established: the message fits,
/// and each later stage adds the check that led to it.
pub open spec fn reply_stage_ok(req: ReplyRequest, stage: ReplyStage) -> bool {
    let message_ok = req.message@.len() != 0 && req.message@.len() <= MAX_POST_CHARS;
    match stage {
        ReplyStage::Start => true,
        ReplyStage::Done => true,
        ReplyStage::ResolvingUser => message_ok,
        ReplyStage::FindingBoard { .. } => message_ok,
        ReplyStage::CountingReplies { user_level, board, .. } => message_ok && board.access_level
            <= user_level,
        ReplyStage::FindingThread { user_level, board, replies, .. } => message_ok
            && board.access_level <= user_level && replies <= board.thread_size_limit,
        ReplyStage::VerifyingCaptcha { user_level, board, replies, thread, .. } => message_ok
            && board.access_level <= user_level && replies <= board.thread_size_limit
            && !thread.archived && !thread.locked,
        ReplyStage::Storing { user_level, board, replies, thread, .. } => message_ok
            && board.access_level <= user_level && replies <= board.thread_size_limit
            && !thread.archived && !thread.locked,
    }
}

fn respond_refused(f: Refusal) -> (r: (ReplyStage, ReplyAction))
    ensures
        r.0 is Done,
        r.1 == ReplyAction::Respond(Outcome::Refused(f)),
{
    (ReplyStage::Done, ReplyAction::Respond(Outcome::Refused(f)))
}

impl ReplyFlow {
    /// A request that has not started.
    pub fn new(request: ReplyRequest) -> (r: ReplyFlow)
        ensures
            r.request == request,
            r.stage is Start,
    {
        ReplyFlow { request, stage: ReplyStage::Start }
    }

    /// Takes the result of the last action and says what to do next.
    pub fn step(&mut self, event: ReplyEvent) -> (action: ReplyAction)
        ensures
            final(self).request == old(self).request,
            reply_transition(old(self).request, old(self).stage, event, final(self).stage, action),
    {
        let (next, action) = match event {
            ReplyEvent::Begin => match self.stage {
                ReplyStage::Start => match check_reply_message(self.request.message.as_str()) {
                    Some(f) => respond_refused(f),
                    None => (ReplyStage::ResolvingUser, ReplyAction::ResolveUser),
                },
                _ => respond_refused(Refusal::ServerError),
            },
            ReplyEvent::User(res) => match (&self.stage, res) {
                (ReplyStage::ResolvingUser, Ok(u)) => (
                    ReplyStage::FindingBoard { user_id: u.id, user_level: u.access_level },
                    ReplyAction::FindBoard,
                ),
                _ => respond_refused(Refusal::ServerError),
            },
            ReplyEvent::Board(res) => match (&self.stage, res) {
                (ReplyStage::FindingBoard { user_id, user_level }, Ok(board)) => {
                    match check_board_level(board.access_level, *user_level) {
                        Some(f) => respond_refused(f),
                        None => (
                            ReplyStage::CountingReplies { user_id: *user_id, user_level: *user_level, board },
                            ReplyAction::CountReplies,
                        ),
                    }
                },
                _ => respond_refused(Refusal::ServerError),
            },
            ReplyEvent::Replies(res) => match (&self.stage, res) {
                (ReplyStage::CountingReplies { user_id, user_level, board }, Ok(n)) => {
                    match check_thread_capacity(n, board.thread_size_limit) {
                        Some(f) => respond_refused(f),
                        None => (
                            ReplyStage::FindingThread {
                                user_id: *user_id,
                                user_level: *user_level,
                                board: *board,
                                replies: n,
                            },
                            ReplyAction::FindThread,
                        ),
                    }
                },
                _ => respond_refused(Refusal::ServerError),
            },
            ReplyEvent::Thread(res) => match (&self.stage, res) {
                (ReplyStage::FindingThread { user_id, user_level, board, replies }, Ok(t)) => {
                    match check_thread_open(t.archived, t.locked) {
                        Some(f) => respond_refused(f),
                        None => {
                            let stage = ReplyStage::VerifyingCaptcha {
                                user_id: *user_id,
                                user_level: *user_level,
                                board: *board,
                                replies: *replies,
                                thread: t,
                            };
                            match captcha_step(board.captcha, &self.request.captcha, self.request.captcha_id) {
                                CaptchaStep::Verify { id } => (stage, ReplyAction::VerifyCaptcha { id }),
                                CaptchaStep::Refuse(f) => respond_refused(f),
                                CaptchaStep::NotNeeded => (
                                    ReplyStage::Storing {
                                        user_id: *user_id,
                                        user_level: *user_level,
                                        board: *board,
                                        replies: *replies,
                                        thread: t,
                                    },
                                    ReplyAction::Store { user_id: *user_id, access_level: board.access_level },
                                ),
                            }
                        },
                    }
                },
                _ => respond_refused(Refusal::ServerError),
            },
            ReplyEvent::Captcha(res) => match &self.stage {
                ReplyStage::VerifyingCaptcha { user_id, user_level, board, replies, thread } => {
                    match res {
                        Ok(_) => (
                            ReplyStage::Storing {
                                user_id: *user_id,
                                user_level: *user_level,
                                board: *board,
                                replies: *replies,
                                thread: *thread,
                            },
                            ReplyAction::Store { user_id: *user_id, access_level: board.access_level },
                        ),
                        Err(m) => respond_refused(captcha_failed(m)),
                    }
                },
                _ => respond_refused(Refusal::ServerError),
            },
            ReplyEvent::Stored(res) => match &self.stage {
                ReplyStage::Storing { .. } => match res {
                    Ok(_) => (ReplyStage::Done, ReplyAction::Respond(Outcome::Created)),
                    Err(e) => respond_refused(reply_store_failed(e)),
                },
                _ => respond_refused(Refusal::ServerError),
            },
        };
        self.stage = next;
        action
    }
}

/// Every step keeps what the earlier checks established: a request only
/// moves on past a check that it passed.
pub proof fn law_reply_step_keeps_checks(
    req: ReplyRequest,
    stage: ReplyStage,
    event: ReplyEvent,
    next: ReplyStage,
    action: ReplyAction,
)
    requires
        reply_stage_ok(req, stage),
        reply_transition(req, stage, event, next, action),
    ensures
        reply_stage_ok(req, next),
{
}

/// A reply is stored only for a message that fits, from a user whose level
/// reaches the board's, in a thread that is neither full, archived nor
/// locked, and, on a board that asks for a captcha, only right after the
/// captcha was passed.
pub proof fn law_reply_stored_only_when_allowed(
    req: ReplyRequest,
    stage: ReplyStage,
    event: ReplyEvent,
    next: ReplyStage,
    action: ReplyAction,
)
    requires
        reply_stage_ok(req, stage),
        reply_transition(req, stage, event, next, action),
        action is Store,
    ensures
        next matches ReplyStage::Storing { user_id, user_level, board, replies, thread } && {
            &&& action == ReplyAction::Store { user_id, access_level: board.access_level }
            &&& req.message@.len() != 0
            &&& req.message@.len() <= MAX_POST_CHARS
            &&& board.access_level <= user_level
            &&& replies <= board.thread_size_limit
            &&& !thread.archived
            &&& !thread.locked
            &&& board.captcha ==> event matches ReplyEvent::Captcha(Ok(_))
        },
{
}

/// A run of a reply request: `stages[0]` moves on `events[k]` to
/// `stages[k + 1]`, and the handler does `actions[k]`, step after step.
pub open spec fn reply_run(
    req: ReplyRequest,
    stages: Seq<ReplyStage>,
    events: Seq<ReplyEvent>,
    actions: Seq<ReplyAction>,
) -> bool {
    &&& stages.len() == events.len() + 1
    &&& actions.len() == events.len()
    &&& forall|k: int|
        #![trigger events[k]]
        0 <= k < events.len() ==> reply_transition(req, stages[k], events[k], stages[k + 1], actions[k])
}

/// The user a stage of a reply request carries, if any.
spec fn reply_stage_user(stage: ReplyStage) -> Option<u64> {
    match stage {
        ReplyStage::FindingBoard { user_id, .. } => Some(user_id),
        ReplyStage::CountingReplies { user_id, .. } => Some(user_id),
        ReplyStage::FindingThread { user_id, .. } => Some(user_id),
        ReplyStage::VerifyingCaptcha { user_id, .. } => Some(user_id),
        ReplyStage::Storing { user_id, .. } => Some(user_id),
        _ => None,
    }
}

/// The board a stage of a reply request carries, if any.
spec fn reply_stage_board(stage: ReplyStage) -> Option<BoardInfo> {
    match stage {
        ReplyStage::CountingReplies { board, .. } => Some(board),
        ReplyStage::FindingThread { board, .. } => Some(board),
        ReplyStage::VerifyingCaptcha { board, .. } => Some(board),
        ReplyStage::Storing { board, .. } => Some(board),
        _ => None,
    }
}

proof fn lemma_reply_keeps_user(
    req: ReplyRequest,
    stages: Seq<ReplyStage>,
    events: Seq<ReplyEvent>,
    actions: Seq<ReplyAction>,
    i: int,
    u: UserData,
    k: int,
)
    requires
        reply_run(req, stages, events, actions),
        0 <= i < k <= events.len(),
        events[i] == ReplyEvent::User(Ok(u)),
    ensures
        stages[k] is Done || reply_stage_user(stages[k]) == Some(u.id),
    decreases k - i,
{
    if k == i + 1 {
        assert(reply_transition(req, stages[i], events[i], stages[i + 1], actions[i]));
    } else {
        lemma_reply_keeps_user(req, stages, events, actions, i, u, k - 1);
        assert(reply_transition(req, stages[k - 1], events[k - 1], stages[k], actions[k - 1]));
    }
}

proof fn lemma_reply_keeps_board(
    req: ReplyRequest,
    stages: Seq<ReplyStage>,
    events: Seq<ReplyEvent>,
    actions: Seq<ReplyAction>,
    i: int,
    b: BoardInfo,
    k: int,
)
    requires
        reply_run(req, stages, events, actions),
        0 <= i < k <= events.len(),
        events[i] == ReplyEvent::Board(Ok(b)),
    ensures
        stages[k] is Done || reply_stage_board(stages[k]) == Some(b),
    decreases k - i,
{
    if k == i + 1 {
        assert(reply_transition(req, stages[i], events[i], stages[i + 1], actions[i]));
    } else {
        lemma_reply_keeps_board(req, stages, events, actions, i, b, k - 1);
        assert(reply_transition(req, stages[k - 1], events[k - 1], stages[k], actions[k - 1]));
    }
}

/// A reply is stored by the user the request was resolved to and readable
/// from the level of the board that was looked up: in any run, a store
/// that comes after the user lookup answered `u` is by `u.id`, and one
/// that comes after the board lookup answered `b` is at `b.access_level`,
/// whether or not a captcha was asked on the way.
pub proof fn law_reply_stored_for_found_user_and_board(
    req: ReplyRequest,
    stages: Seq<ReplyStage>,
    events: Seq<ReplyEvent>,
    actions: Seq<ReplyAction>,
    i: int,
    j: int,
)
    requires
        reply_run(req, stages, events, actions),
        0 <= i <= j < events.len(),
        actions[j] is Store,
    ensures
        events[i] matches ReplyEvent::User(Ok(u)) ==> actions[j]->Store_user_id == u.id,
        events[i] matches ReplyEvent::Board(Ok(b)) ==> actions[j]->Store_access_level == b.access_level,
{
    assert(reply_transition(req, stages[j], events[j], stages[j + 1], actions[j]));
    if i < j {
        if let ReplyEvent::User(Ok(u)) = events[i] {
            lemma_reply_keeps_user(req, stages, events, actions, i, u, j);
        }
        if let ReplyEvent::Board(Ok(b)) = events[i] {
            lemma_reply_keeps_board(req, stages, events, actions, i, b, j);
        }
    } else {
        assert(reply_transition(req, stages[i], events[i], stages[i + 1], actions[i]));
    }
}

} // verus!
