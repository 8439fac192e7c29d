use vstd::prelude::*;
use crate::gate::{ban_blocks, UserData};
use crate::posting::DbError;
use crate::reply_flow::BoardInfo;

verus! {

/// A request for a board's page or for a thread's page.
pub enum PageRequest {
    /// The catalog of the board with this handle.
    Board { handle: String },
    /// Thread `thread_id` of the board with this handle.
    Thread { handle: String, thread_id: u32 },
}

/// How far a page request has come.
pub enum PageStage {
    Start,
    ResolvingUser,
    /// The user is banned; the post the ban was given for is being read.
    FindingBanPost,
    FindingBoard { user_level: u8, banned: bool },
    ListingBoards { user_level: u8, banned: bool, found_board: Option<BoardInfo> },
    ListingThreads { user_level: u8, banned: bool, board: BoardInfo },
    FindingThread { user_level: u8, banned: bool, board: BoardInfo },
    Done,
}

/// What the handler reports back: the result of the last action. Loaded
/// lists stay with the handler; only whether they loaded is told.
pub enum PageEvent {
    Begin,
    User(Result<UserData, DbError>),
    BanPost(Result<(), DbError>),
    Board(Result<BoardInfo, DbError>),
    Boards(Result<(), DbError>),
    Threads(Result<(), DbError>),
    Thread(Result<(), DbError>),
}

/// The page that answers the request.
pub enum PageView {
    /// The ban page, with the post the ban was given for when it has one.
    Banned { with_post: bool },
    /// The "forbidden" page, naming the level the page needs.
    Forbidden { required_access_level: u8 },
    NotFound,
    /// The board page, from what was loaded.
    Board,
    /// The thread page, from what was loaded.
    Thread,
    /// 500 with no body.
    ServerError,
}

/// What the handler does next.
pub enum PageAction {
    ResolveUser,
    /// Read post `post_id`, which a ban names.
    FindBanPost { post_id: u32 },
    /// Look the board up by the request's handle.
    FindBoard,
    /// Load the list of all boards.
    ListBoards,
    /// Load the catalog of board `board_id`.
    ListThreads { board_id: u32 },
    /// Load the request's thread.
    FindThread,
    Render(PageView),
}

/// A page request on its way.
pub struct PageFlow {
    pub request: PageRequest,
    pub stage: PageStage,
}

/// The request ends with `view`.
pub open spec fn page_ends(next: PageStage, action: PageAction, view: PageView) -> bool {
    next is Done && action == PageAction::Render(view)
}

/// The step once the board is known: a board above the user's level shows
/// the "forbidden" page.
pub open spec fn page_board_known(
    req: PageRequest,
    user_level: u8,
    banned: bool,
    board: BoardInfo,
    next: PageStage,
    action: PageAction,
) -> bool {
    if board.access_level > user_level {
        page_ends(next, action, PageView::Forbidden { required_access_level: board.access_level })
    } else {
        match req {
            PageRequest::Board { .. } => next == PageStage::ListingBoards {
                user_level,
                banned,
                found_board: Some(board),
            } && action == PageAction::ListBoards,
            PageRequest::Thread { .. } => next == PageStage::FindingThread { user_level, banned, board }
                && action == PageAction::FindThread,
        }
    }
}

/// One step of a page request: from `stage`, on `event`, the request moves
/// to `next` and the handler does `action`. An event that does not answer
/// the last action ends the request with a server error.
pub open spec fn page_transition(
    req: PageRequest,
    stage: PageStage,
    event: PageEvent,
    next: PageStage,
    action: PageAction,
) -> bool {
    match (stage, event) {
        (PageStage::Start, PageEvent::Begin) => next is ResolvingUser && action is ResolveUser,
        (PageStage::ResolvingUser, PageEvent::User(res)) => match res {
            Err(_) => page_ends(next, action, PageView::ServerError),
            Ok(u) => if ban_blocks(u.banned is Some, u.access_level) {
                match u.banned->0.post_id {
                    Some(p) => next is FindingBanPost && action == PageAction::FindBanPost { post_id: p },
                    None => page_ends(next, action, PageView::Banned { with_post: false }),
                }
            } else {
                let banned = u.banned is Some;
                match req {
                    PageRequest::Board { .. } => next == PageStage::FindingBoard {
                        user_level: u.access_level,
                        banned,
                    } && action is FindBoard,
                    PageRequest::Thread { .. } => next == PageStage::ListingBoards {
                        user_level: u.access_level,
                        banned,
                        found_board: None,
                    } && action is ListBoards,
                }
            },
        },
        (PageStage::FindingBanPost, PageEvent::BanPost(res)) => match res {
            Err(_) => page_ends(next, action, PageView::ServerError),
            Ok(_) => page_ends(next, action, PageView::Banned { with_post: true }),
        },
        (PageStage::FindingBoard { user_level, banned }, PageEvent::Board(res)) => match res {
            Err(e) => match req {
                PageRequest::Board { .. } => if e is NotFound {
                    page_ends(next, action, PageView::NotFound)
                } else {
                    page_ends(next, action, PageView::ServerError)
                },
                PageRequest::Thread { .. } => page_ends(next, action, PageView::ServerError),
            },
            Ok(board) => page_board_known(req, user_level, banned, board, next, action),
        },
        (PageStage::ListingBoards { user_level, banned, found_board }, PageEvent::Boards(res)) => match res {
            Err(_) => page_ends(next, action, PageView::ServerError),
            Ok(_) => match found_board {
                Some(b) => next == PageStage::ListingThreads { user_level, banned, board: b } && action
                    == PageAction::ListThreads { board_id: b.id },
                None => next == PageStage::FindingBoard { user_level, banned } && action is FindBoard,
            },
        },
        (PageStage::ListingThreads { .. }, PageEvent::Threads(res)) => match res {
            Err(_) => page_ends(next, action, PageView::ServerError),
            Ok(_) => page_ends(next, action, PageView::Board),
        },
        (PageStage::FindingThread { .. }, PageEvent::Thread(res)) => match res {
            Err(e) => if e is NotFound {
                page_ends(next, action, PageView::NotFound)
            } else {
                page_ends(next, action, PageView::ServerError)
            },
            Ok(_) => page_ends(next, action, PageView::Thread),
        },
        _ => page_ends(next, action, PageView::ServerError),
    }
}

/// What the stages after the user is known have established: no ban stops
/// the user, and, once the board is known, its level is within reach.
pub open spec fn page_stage_ok(stage: PageStage) -> bool {
    match stage {
        PageStage::FindingBoard { user_level, banned } => !ban_blocks(banned, user_level),
        PageStage::ListingBoards { user_level, banned, found_board } => !ban_blocks(banned, user_level) && (
        found_board matches Some(b) ==> b.access_level <= user_level),
        PageStage::ListingThreads { user_level, banned, board } => !ban_blocks(banned, user_level)
            && board.access_level <= user_level,
        PageStage::FindingThread { user_level, banned, board } => !ban_blocks(banned, user_level)
            && board.access_level <= user_level,
        _ => true,
    }
}

fn page_render(view: PageView) -> (r: (PageStage, PageAction))
    ensures
        page_ends(r.0, r.1, view),
{
    (PageStage::Done, PageAction::Render(view))
}

impl PageFlow {
    /// A request that has not started.
    pub fn new(request: PageRequest) -> (r: PageFlow)
        ensures
            r.request == request,
            r.stage is Start,
    {
        PageFlow { request, stage: PageStage::Start }
    }

    fn board_known(&self, user_level: u8, banned: bool, board: BoardInfo) -> (r: (PageStage, PageAction))
        ensures
            page_board_known(self.request, user_level, banned, board, r.0, r.1),
    {
        if board.access_level > user_level {
            page_render(PageView::Forbidden { required_access_level: board.access_level })
        } else {
            match &self.request {
                PageRequest::Board { .. } => (
                    PageStage::ListingBoards { user_level, banned, found_board: Some(board) },
                    PageAction::ListBoards,
                ),
                PageRequest::Thread { .. } => (
                    PageStage::FindingThread { user_level, banned, board },
                    PageAction::FindThread,
                ),
            }
        }
    }

    /// Takes the result of the last action and says what to do next.
    pub fn step(&mut self, event: PageEvent) -> (action: PageAction)
        ensures
            final(self).request == old(self).request,
            page_transition(old(self).request, old(self).stage, event, final(self).stage, action),
    {
        let mut stage = PageStage::Done;
        std::mem::swap(&mut stage, &mut self.stage);
        let is_board_page = match &self.request {
            PageRequest::Board { .. } => true,
            PageRequest::Thread { .. } => false,
        };
        let (next, action) = match (stage, event) {
            (PageStage::Start, PageEvent::Begin) => (PageStage::ResolvingUser, PageAction::ResolveUser),
            (PageStage::ResolvingUser, PageEvent::User(res)) => match res {
                Err(_) => page_render(PageView::ServerError),
                Ok(u) => if u.is_ban_blocked() {
                    let ban_post = match &u.banned {
                        Some(b) => b.post_id,
                        None => None,
                    };
                    match ban_post {
                        Some(p) => (PageStage::FindingBanPost, PageAction::FindBanPost { post_id: p }),
                        None => page_render(PageView::Banned { with_post: false }),
                    }
                } else {
                    let banned = u.banned.is_some();
                    if is_board_page {
                        (
                            PageStage::FindingBoard { user_level: u.access_level, banned },
                            PageAction::FindBoard,
                        )
                    } else {
                        (
                            PageStage::ListingBoards { user_level: u.access_level, banned, found_board: None },
                            PageAction::ListBoards,
                        )
                    }
                },
            },
            (PageStage::FindingBanPost, PageEvent::BanPost(res)) => match res {
                Err(_) => page_render(PageView::ServerError),
                Ok(_) => page_render(PageView::Banned { with_post: true }),
            },
            (PageStage::FindingBoard { user_level, banned }, PageEvent::Board(res)) => match res {
                Err(DbError::NotFound) => if is_board_page {
                    page_render(PageView::NotFound)
                } else {
                    page_render(PageView::ServerError)
                },
                Err(_) => page_render(PageView::ServerError),
                Ok(board) => self.board_known(user_level, banned, board),
            },
            (PageStage::ListingBoards { user_level, banned, found_board }, PageEvent::Boards(res)) => match res {
                Err(_) => page_render(PageView::ServerError),
                Ok(_) => match found_board {
                    Some(b) => (
                        PageStage::ListingThreads { user_level, banned, board: b },
                        PageAction::ListThreads { board_id: b.id },
                    ),
                    None => (PageStage::FindingBoard { user_level, banned }, PageAction::FindBoard),
                },
            },
            (PageStage::ListingThreads { .. }, PageEvent::Threads(res)) => match res {
                Err(_) => page_render(PageView::ServerError),
                Ok(_) => page_render(PageView::Board),
            },
            (PageStage::FindingThread { .. }, PageEvent::Thread(res)) => match res {
                Err(DbError::NotFound) => page_render(PageView::NotFound),
                Err(_) => page_render(PageView::ServerError),
                Ok(_) => page_render(PageView::Thread),
            },
            _ => page_render(PageView::ServerError),
        };
        self.stage = next;
        action
    }
}

/// Every step keeps what the earlier checks established.
pub proof fn law_page_step_keeps_checks(
    req: PageRequest,
    stage: PageStage,
    event: PageEvent,
    next: PageStage,
    action: PageAction,
)
    requires
        page_stage_ok(stage),
        page_transition(req, stage, event, next, action),
    ensures
        page_stage_ok(next),
{
}

/// A board or thread page is shown only to a user that no ban stops and
/// whose level reaches the board's.
pub proof fn law_page_shown_only_when_allowed(
    req: PageRequest,
    stage: PageStage,
    event: PageEvent,
    next: PageStage,
    action: PageAction,
)
    requires
        page_stage_ok(stage),
        page_transition(req, stage, event, next, action),
        action == PageAction::Render(PageView::Board) || action == PageAction::Render(PageView::Thread),
    ensures
        stage matches PageStage::ListingThreads { user_level, banned, board } ==> !ban_blocks(banned, user_level)
            && board.access_level <= user_level,
        stage matches PageStage::FindingThread { user_level, banned, board } ==> !ban_blocks(banned, user_level)
            && board.access_level <= user_level,
        stage is ListingThreads || stage is FindingThread,
{
}

/// A thread that was found, on a board the user was let into, is shown as
/// the thread page: whatever the user's level, ban or board, the lookup
/// of the thread answering with the thread ends the request with the
/// thread page.
pub proof fn law_found_thread_is_shown(
    req: PageRequest,
    user_level: u8,
    banned: bool,
    board: BoardInfo,
    found: Result<(), DbError>,
    next: PageStage,
    action: PageAction,
)
    requires
        page_transition(req, PageStage::FindingThread { user_level, banned, board }, PageEvent::Thread(found), next, action),
    ensures
        found is Ok <==> action == PageAction::Render(PageView::Thread),
        found is Ok ==> next is Done,
{
}

/// The "not found" page answers only a lookup that found nothing: the
/// board of a board page, or the thread of a thread page.
pub proof fn law_not_found_only_when_missing(
    req: PageRequest,
    stage: PageStage,
    event: PageEvent,
    next: PageStage,
    action: PageAction,
)
    requires
        page_transition(req, stage, event, next, action),
        action == PageAction::Render(PageView::NotFound),
    ensures
        (stage is FindingBoard && req is Board && event == PageEvent::Board(Err(DbError::NotFound)))
            || (stage is FindingThread && event == PageEvent::Thread(Err(DbError::NotFound))),
{
}

/// A thread page asked for by a user that no ban stops, on a board whose
/// level the user reaches, is shown once every lookup succeeds: the
/// request goes user, boards, board, thread and ends with the thread page.
pub proof fn law_thread_page_run(
    handle: String,
    thread_id: u32,
    u: UserData,
    board: BoardInfo,
    s1: PageStage,
    s2: PageStage,
    s3: PageStage,
    s4: PageStage,
    s5: PageStage,
    a0: PageAction,
    a1: PageAction,
    a2: PageAction,
    a3: PageAction,
    a4: PageAction,
)
    requires
        !ban_blocks(u.banned is Some, u.access_level),
        board.access_level <= u.access_level,
        page_transition(PageRequest::Thread { handle, thread_id }, PageStage::Start, PageEvent::Begin, s1, a0),
        page_transition(PageRequest::Thread { handle, thread_id }, s1, PageEvent::User(Ok(u)), s2, a1),
        page_transition(PageRequest::Thread { handle, thread_id }, s2, PageEvent::Boards(Ok(())), s3, a2),
        page_transition(PageRequest::Thread { handle, thread_id }, s3, PageEvent::Board(Ok(board)), s4, a3),
        page_transition(PageRequest::Thread { handle, thread_id }, s4, PageEvent::Thread(Ok(())), s5, a4),
    ensures
        a0 == PageAction::ResolveUser,
        a1 == PageAction::ListBoards,
        a2 == PageAction::FindBoard,
        a3 == PageAction::FindThread,
        a4 == PageAction::Render(PageView::Thread),
        s5 is Done,
{
}

/// A run of a page request: `stages[0]` moves on `events[k]` to
/// `stages[k + 1]`, and the handler does `actions[k]`, step after step.
pub open spec fn page_run(
    req: PageRequest,
    stages: Seq<PageStage>,
    events: Seq<PageEvent>,
    actions: Seq<PageAction>,
) -> bool {
    &&& stages.len() == events.len() + 1
    &&& actions.len() == events.len()
    &&& forall|k: int|
        #![trigger events[k]]
        0 <= k < events.len() ==> page_transition(req, stages[k], events[k], stages[k + 1], actions[k])
}

/// Whether a stage of a page request that came after board `b` was found
/// is over or carries that board.
spec fn page_stage_keeps_board(stage: PageStage, b: BoardInfo) -> bool {
    match stage {
        PageStage::Done => true,
        PageStage::ListingBoards { found_board, .. } => found_board == Some(b),
        PageStage::ListingThreads { board, .. } => board == b,
        PageStage::FindingThread { board, .. } => board == b,
        _ => false,
    }
}

proof fn lemma_page_keeps_board(
    req: PageRequest,
    stages: Seq<PageStage>,
    events: Seq<PageEvent>,
    actions: Seq<PageAction>,
    i: int,
    b: BoardInfo,
    k: int,
)
    requires
        page_run(req, stages, events, actions),
        0 <= i < k <= events.len(),
        events[i] == PageEvent::Board(Ok(b)),
    ensures
        page_stage_keeps_board(stages[k], b),
    decreases k - i,
{
    if k == i + 1 {
        assert(page_transition(req, stages[i], events[i], stages[i + 1], actions[i]));
    } else {
        lemma_page_keeps_board(req, stages, events, actions, i, b, k - 1);
        assert(page_transition(req, stages[k - 1], events[k - 1], stages[k], actions[k - 1]));
    }
}

/// A page shows the board that was looked up: once the board lookup
/// answers `b`, the catalog loaded is that of `b.id`, and a "forbidden"
/// page names `b`'s level.
pub proof fn law_page_uses_found_board(
    req: PageRequest,
    stages: Seq<PageStage>,
    events: Seq<PageEvent>,
    actions: Seq<PageAction>,
    i: int,
    j: int,
    b: BoardInfo,
)
    requires
        page_run(req, stages, events, actions),
        0 <= i <= j < events.len(),
        events[i] == PageEvent::Board(Ok(b)),
    ensures
        actions[j] matches PageAction::ListThreads { board_id } ==> board_id == b.id,
        actions[j] matches PageAction::Render(PageView::Forbidden { required_access_level }) ==> i == j
            && required_access_level == b.access_level,
{
    assert(page_transition(req, stages[j], events[j], stages[j + 1], actions[j]));
    if i < j {
        lemma_page_keeps_board(req, stages, events, actions, i, b, j);
    }
}

} // verus!
