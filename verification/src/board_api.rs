use vstd::prelude::*;
use crate::access::{level_value, AccessLevel};
use crate::account_flow::auth_status;
use crate::auth::{AuthFailure, UserInfo};
use crate::posting::DbError;
use crate::text::{decimal, push_decimal};

verus! {

/// A media type, `top/sub`, as the multipart parser gives it (lower case).
pub struct MediaType {
    pub top: String,
    pub sub: String,
}

/// What the API reads of an uploaded file.
pub struct Upload {
    pub file_name: Option<String>,
    pub content_type: Option<MediaType>,
}

/// Where an uploaded image of post `id` is kept, and the row that records
/// it (no thumbnail is made).
pub struct StoredFile {
    pub id: u32,
    pub dir: String,
    pub file_path: String,
    pub file_name: String,
    pub file_type: String,
}

/// The directory of the files of post `id`.
pub open spec fn files_dir(id: nat) -> Seq<char> {
    "target/files/"@ + decimal(id)
}

/// The path of the image of post `id` with media subtype `sub`.
pub open spec fn stored_file_path(id: nat, sub: Seq<char>) -> Seq<char> {
    files_dir(id) + "/file."@ + sub
}

/// The name an upload is recorded under: its own, or `file`.
pub open spec fn upload_name(name: Option<String>) -> Seq<char> {
    match name {
        Some(n) => n@,
        None => "file"@,
    }
}

/// What to do with the upload of post `post_id`: an upload without a media
/// type is an error; only images are kept.
pub fn plan_upload(post_id: u32, upload: &Upload) -> (r: Result<Option<StoredFile>, ()>)
    ensures
        upload.content_type is None ==> r is Err,
        upload.content_type matches Some(m) ==> if m.top@ == "image"@ {
            r matches Ok(Some(f)) && f.id == post_id && f.dir@ == files_dir(post_id as nat)
                && f.file_path@ == stored_file_path(post_id as nat, m.sub@) && f.file_name@
                == upload_name(upload.file_name) && f.file_type@ == "image"@
        } else {
            r matches Ok(None)
        },
{
    let m = match &upload.content_type {
        Some(m) => m,
        None => return Err(()),
    };
    let image = "image".to_owned();
    if m.top != image {
        return Ok(None);
    }
    let mut dir = "target/files/".to_owned();
    push_decimal(&mut dir, post_id as u64);
    let file_path = dir.clone().concat("/file.").concat(m.sub.as_str());
    let file_name = match &upload.file_name {
        Some(n) => n.clone(),
        None => "file".to_owned(),
    };
    Ok(Some(StoredFile { id: post_id, dir, file_path, file_name, file_type: image }))
}

/// What the API reads of a board.
#[derive(Clone, Copy)]
pub struct ApiBoard {
    pub id: u32,
    pub access_level: u8,
}

/// What the API reads of the opening post of a thread.
#[derive(Clone, Copy)]
pub struct OpPost {
    pub id: u32,
    pub access_level: u8,
}

/// A post request of the board API.
pub enum PostingRequest {
    /// A new thread on the board with handle `board`.
    NewThread { title: String, body: String, board: String, upload: Upload },
    /// A reply to the thread whose opening post is `thread_id`.
    Reply { thread_id: u32, body: String, upload: Upload },
}

/// How far a post request has come.
pub enum PostingStage {
    Start,
    FindingBoard,
    Authenticating { board: ApiBoard },
    FindingOp,
    InsertingPost { thread_board: Option<ApiBoard> },
    InsertingThread { board: ApiBoard, op_id: u32 },
    CreatingDir { file: StoredFile },
    PersistingFile { file: StoredFile },
    InsertingFile,
    Bumping,
    Done,
}

/// What the handler reports back: the result of the last action.
pub enum PostingEvent {
    Begin,
    BoardFound(Result<ApiBoard, DbError>),
    Authenticated(Result<UserInfo, AuthFailure>),
    OpFound(Result<OpPost, DbError>),
    /// The post was stored under the id given.
    PostInserted(Result<u32, DbError>),
    ThreadInserted(Result<(), DbError>),
    DirCreated(Result<(), ()>),
    FilePersisted(Result<(), ()>),
    FileInserted(Result<(), DbError>),
    /// The thread was bumped (whatever the outcome).
    Bumped,
}

/// What the handler does next.
pub enum PostingAction {
    /// Look the board up by the request's handle.
    FindBoard,
    /// Authenticate the request by its access token.
    Authenticate,
    /// Look up the opening post of the request's thread.
    FindOp,
    /// Store the request's body as a post, under opening post `op_id` (none
    /// for a new thread), readable from `access_level` up.
    InsertPost { op_id: Option<u32>, access_level: u8 },
    /// Store thread `id` on board `board_id` with the request's title, not
    /// pinned.
    InsertThread { id: u32, board_id: u32 },
    /// Create directory `path` and its parents.
    CreateDir { path: String },
    /// Move the uploaded file to `path`.
    PersistFile { path: String },
    /// Record the stored file.
    InsertFile { file: StoredFile },
    /// Move the thread of opening post `thread_id` up.
    BumpThread { thread_id: u32 },
    /// Answer with this status code.
    Respond(u16),
}

/// A post request of the board API on its way.
pub struct PostingFlow {
    pub request: PostingRequest,
    pub stage: PostingStage,
}

/// The upload of a request.
pub open spec fn request_upload(req: PostingRequest) -> Upload {
    match req {
        PostingRequest::NewThread { upload, .. } => upload,
        PostingRequest::Reply { upload, .. } => upload,
    }
}

/// The request ends with `status`.
pub open spec fn posting_ends(next: PostingStage, action: PostingAction, status: u16) -> bool {
    next is Done && action == PostingAction::Respond(status)
}

/// The last step of a request: a reply bumps its thread, a new thread is
/// answered "created".
pub open spec fn posting_finishes(req: PostingRequest, next: PostingStage, action: PostingAction) -> bool {
    match req {
        PostingRequest::Reply { thread_id, .. } => next is Bumping && action
            == PostingAction::BumpThread { thread_id },
        PostingRequest::NewThread { .. } => posting_ends(next, action, 201),
    }
}

/// The step once post `post_id` is stored: keep an image, skip any other
/// file, fail on an upload without a media type.
pub open spec fn posting_upload(req: PostingRequest, post_id: u32, next: PostingStage, action: PostingAction) -> bool {
    let upload = request_upload(req);
    match upload.content_type {
        None => posting_ends(next, action, 500),
        Some(m) => if m.top@ == "image"@ {
            &&& next matches PostingStage::CreatingDir { file }
            &&& file.id == post_id
            &&& file.dir@ == files_dir(post_id as nat)
            &&& file.file_path@ == stored_file_path(post_id as nat, m.sub@)
            &&& file.file_name@ == upload_name(upload.file_name)
            &&& file.file_type@ == "image"@
            &&& action matches PostingAction::CreateDir { path }
            &&& path@ == files_dir(post_id as nat)
        } else {
            posting_finishes(req, next, action)
        },
    }
}

/// The step once the board of a new thread is known: boards above the
/// anonymous level need an authenticated user.
pub open spec fn posting_board_known(board: ApiBoard, next: PostingStage, action: PostingAction) -> bool {
    if board.access_level > level_value(AccessLevel::Anonymous) {
        next == PostingStage::Authenticating { board } && action is Authenticate
    } else {
        &&& next == PostingStage::InsertingPost { thread_board: Some(board) }
        &&& action == PostingAction::InsertPost { op_id: None, access_level: board.access_level }
    }
}

/// One step of a post request: from `stage`, on `event`, the request
/// moves to `next` and the handler does `action`. An event that does not
/// answer the last action ends the request with a server error.
pub open spec fn posting_transition(
    req: PostingRequest,
    stage: PostingStage,
    event: PostingEvent,
    next: PostingStage,
    action: PostingAction,
) -> bool {
    match (stage, event) {
        (PostingStage::Start, PostingEvent::Begin) => match req {
            PostingRequest::NewThread { .. } => next is FindingBoard && action is FindBoard,
            PostingRequest::Reply { .. } => next is FindingOp && action is FindOp,
        },
        (PostingStage::FindingBoard, PostingEvent::BoardFound(res)) => match res {
            Err(_) => posting_ends(next, action, 500),
            Ok(board) => posting_board_known(board, next, action),
        },
        (PostingStage::Authenticating { board }, PostingEvent::Authenticated(res)) => match res {
            Err(f) => posting_ends(next, action, auth_status(f)),
            Ok(info) => if info.access_level < board.access_level {
                posting_ends(next, action, 403)
            } else {
                &&& next == PostingStage::InsertingPost { thread_board: Some(board) }
                &&& action == PostingAction::InsertPost { op_id: None, access_level: board.access_level }
            },
        },
        (PostingStage::FindingOp, PostingEvent::OpFound(res)) => match res {
            Err(_) => posting_ends(next, action, 500),
            Ok(op) => {
                &&& next == PostingStage::InsertingPost { thread_board: None }
                &&& action == PostingAction::InsertPost { op_id: Some(op.id), access_level: op.access_level }
            },
        },
        (PostingStage::InsertingPost { thread_board }, PostingEvent::PostInserted(res)) => match res {
            Err(_) => posting_ends(next, action, 500),
            Ok(id) => match thread_board {
                Some(b) => next == PostingStage::InsertingThread { board: b, op_id: id } && action
                    == PostingAction::InsertThread { id, board_id: b.id },
                None => posting_upload(req, id, next, action),
            },
        },
        (PostingStage::InsertingThread { op_id, .. }, PostingEvent::ThreadInserted(res)) => match res {
            Err(_) => posting_ends(next, action, 500),
            Ok(_) => posting_upload(req, op_id, next, action),
        },
        (PostingStage::CreatingDir { file }, PostingEvent::DirCreated(res)) => match res {
            Err(_) => posting_ends(next, action, 500),
            Ok(_) => {
                &&& next == PostingStage::PersistingFile { file }
                &&& action matches PostingAction::PersistFile { path }
                &&& path@ == file.file_path@
            },
        },
        (PostingStage::PersistingFile { file }, PostingEvent::FilePersisted(res)) => match res {
            Err(_) => posting_ends(next, action, 500),
            Ok(_) => next is InsertingFile && action == PostingAction::InsertFile { file },
        },
        (PostingStage::InsertingFile, PostingEvent::FileInserted(res)) => match res {
            Err(_) => posting_ends(next, action, 500),
            Ok(_) => posting_finishes(req, next, action),
        },
        (PostingStage::Bumping, PostingEvent::Bumped) => posting_ends(next, action, 201),
        _ => posting_ends(next, action, 500),
    }
}

fn posting_respond(status: u16) -> (r: (PostingStage, PostingAction))
    ensures
        posting_ends(r.0, r.1, status),
{
    (PostingStage::Done, PostingAction::Respond(status))
}

impl PostingFlow {
    /// A request that has not started.
    pub fn new(request: PostingRequest) -> (r: PostingFlow)
        ensures
            r.request == request,
            r.stage is Start,
    {
        PostingFlow { request, stage: PostingStage::Start }
    }

    fn finish(&self) -> (r: (PostingStage, PostingAction))
        ensures
            posting_finishes(self.request, r.0, r.1),
    {
        match &self.request {
            PostingRequest::Reply { thread_id, .. } => (
                PostingStage::Bumping,
                PostingAction::BumpThread { thread_id: *thread_id },
            ),
            PostingRequest::NewThread { .. } => posting_respond(201),
        }
    }

    fn after_post(&self, post_id: u32) -> (r: (PostingStage, PostingAction))
        ensures
            posting_upload(self.request, post_id, r.0, r.1),
    {
        let upload = match &self.request {
            PostingRequest::NewThread { upload, .. } => upload,
            PostingRequest::Reply { upload, .. } => upload,
        };
        match plan_upload(post_id, upload) {
            Err(_) => posting_respond(500),
            Ok(None) => self.finish(),
            Ok(Some(file)) => {
                let path = file.dir.clone();
                (PostingStage::CreatingDir { file }, PostingAction::CreateDir { path })
            },
        }
    }

    /// Takes the result of the last action and says what to do next.
    pub fn step(&mut self, event: PostingEvent) -> (action: PostingAction)
        ensures
            final(self).request == old(self).request,
            posting_transition(old(self).request, old(self).stage, event, final(self).stage, action),
    {
        let mut stage = PostingStage::Done;
        std::mem::swap(&mut stage, &mut self.stage);
        let (next, action) = match (stage, event) {
            (PostingStage::Start, PostingEvent::Begin) => match &self.request {
                PostingRequest::NewThread { .. } => (PostingStage::FindingBoard, PostingAction::FindBoard),
                PostingRequest::Reply { .. } => (PostingStage::FindingOp, PostingAction::FindOp),
            },
            (PostingStage::FindingBoard, PostingEvent::BoardFound(res)) => match res {
                Err(_) => posting_respond(500),
                Ok(board) => if board.access_level > AccessLevel::Anonymous.as_u8() {
                    (PostingStage::Authenticating { board }, PostingAction::Authenticate)
                } else {
                    (
                        PostingStage::InsertingPost { thread_board: Some(board) },
                        PostingAction::InsertPost { op_id: None, access_level: board.access_level },
                    )
                },
            },
            (PostingStage::Authenticating { board }, PostingEvent::Authenticated(res)) => match res {
                Err(f) => {
                    let status = crate::account_flow::auth_error(f).status;
                    posting_respond(status)
                },
                Ok(info) => if info.access_level < board.access_level {
                    posting_respond(403)
                } else {
                    (
                        PostingStage::InsertingPost { thread_board: Some(board) },
                        PostingAction::InsertPost { op_id: None, access_level: board.access_level },
                    )
                },
            },
            (PostingStage::FindingOp, PostingEvent::OpFound(res)) => match res {
                Err(_) => posting_respond(500),
                Ok(op) => (
                    PostingStage::InsertingPost { thread_board: None },
                    PostingAction::InsertPost { op_id: Some(op.id), access_level: op.access_level },
                ),
            },
            (PostingStage::InsertingPost { thread_board }, PostingEvent::PostInserted(res)) => match res {
                Err(_) => posting_respond(500),
                Ok(id) => match thread_board {
                    Some(b) => (
                        PostingStage::InsertingThread { board: b, op_id: id },
                        PostingAction::InsertThread { id, board_id: b.id },
                    ),
                    None => self.after_post(id),
                },
            },
            (PostingStage::InsertingThread { op_id, .. }, PostingEvent::ThreadInserted(res)) => match res {
                Err(_) => posting_respond(500),
                Ok(_) => self.after_post(op_id),
            },
            (PostingStage::CreatingDir { file }, PostingEvent::DirCreated(res)) => match res {
                Err(_) => posting_respond(500),
                Ok(_) => {
                    let path = file.file_path.clone();
                    (PostingStage::PersistingFile { file }, PostingAction::PersistFile { path })
                },
            },
            (PostingStage::PersistingFile { file }, PostingEvent::FilePersisted(res)) => match res {
                Err(_) => posting_respond(500),
                Ok(_) => (PostingStage::InsertingFile, PostingAction::InsertFile { file }),
            },
            (PostingStage::InsertingFile, PostingEvent::FileInserted(res)) => match res {
                Err(_) => posting_respond(500),
                Ok(_) => self.finish(),
            },
            (PostingStage::Bumping, PostingEvent::Bumped) => posting_respond(201),
            _ => posting_respond(500),
        };
        self.stage = next;
        action
    }
}

/// Whether a user may create a board: only after authentication, as an
/// owner or above. `None` lets the request go on; otherwise the status to
/// answer with.
pub fn board_creation_gate(auth: Result<UserInfo, AuthFailure>) -> (r: Option<u16>)
    ensures
        auth matches Err(f) ==> r == Some(auth_status(f)),
        auth matches Ok(info) ==> if info.access_level < level_value(AccessLevel::Owner) {
            r == Some(403u16)
        } else {
            r is None
        },
{
    match auth {
        Err(f) => Some(crate::account_flow::auth_error(f).status),
        Ok(info) => if info.access_level < AccessLevel::Owner.as_u8() {
            Some(403)
        } else {
            None
        },
    }
}

/// The status of a board creation once the board was stored or refused: a
/// handle already taken is a bad request.
pub fn board_insert_status(res: Result<(), DbError>) -> (r: u16)
    ensures
        res is Ok ==> r == 201,
        res matches Err(e) ==> if e is UniqueViolation {
            r == 400
        } else {
            r == 500
        },
{
    match res {
        Ok(_) => 201,
        Err(DbError::UniqueViolation) => 400,
        Err(_) => 500,
    }
}

/// The answer to a validated board creation of the board API once the
/// board was stored or refused: a handle already taken is told so.
pub fn board_input_saved(res: Result<(), DbError>) -> (r: (u16, Option<String>))
    ensures
        res is Ok ==> r.0 == 201 && r.1 is None,
        res matches Err(e) ==> if e is UniqueViolation {
            r.0 == 422 && (r.1 matches Some(m) && m@ == "Board handle is not unique."@)
        } else {
            r.0 == 500 && r.1 is None
        },
{
    match res {
        Ok(_) => (201, None),
        Err(DbError::UniqueViolation) => (422, Some("Board handle is not unique.".to_owned())),
        Err(_) => (500, None),
    }
}

/// A stored post, with the type of its file if it has one.
pub struct PostRow {
    pub id: u32,
    pub body: String,
    pub file_type: Option<String>,
    /// Creation time, as UTC timestamp.
    pub created_at: i64,
}

/// A post as the API shows it.
pub struct ApiPostOutput {
    pub post_id: u32,
    pub body: String,
    pub attachment: Option<String>,
    pub created_at: i64,
}

/// A thread with its opening post and replies, as the API shows it.
pub struct ThreadResponseOutput {
    pub title: String,
    pub pinned: bool,
    pub op_post: ApiPostOutput,
    pub responses: Vec<ApiPostOutput>,
}

/// Whether `o` shows post `p`.
pub open spec fn shows_post(p: PostRow, o: ApiPostOutput) -> bool {
    &&& o.post_id == p.id
    &&& o.body@ == p.body@
    &&& crate::catalog::opt_text(o.attachment) == crate::catalog::opt_text(p.file_type)
    &&& o.created_at == p.created_at
}

/// A post as the API shows it: its file is named by its type.
pub fn post_output(p: &PostRow) -> (r: ApiPostOutput)
    ensures
        shows_post(*p, r),
{
    let attachment = match &p.file_type {
        Some(t) => Some(t.clone()),
        None => None,
    };
    ApiPostOutput { post_id: p.id, body: p.body.clone(), attachment, created_at: p.created_at }
}

/// A thread as the API shows it: its title, whether it is pinned, its
/// opening post and its replies in the order given (oldest first).
pub fn thread_output(title: &String, pinned: bool, op: &PostRow, replies: &Vec<PostRow>) -> (r: ThreadResponseOutput)
    ensures
        r.title@ == title@,
        r.pinned == pinned,
        shows_post(*op, r.op_post),
        r.responses@.len() == replies@.len(),
        forall|i: int| 0 <= i < replies@.len() ==> shows_post(replies@[i], #[trigger] r.responses@[i]),
{
    let mut responses: Vec<ApiPostOutput> = Vec::new();
    let mut i: usize = 0;
    while i < replies.len()
        invariant
            i <= replies@.len(),
            responses@.len() == i,
            forall|k: int| 0 <= k < i ==> shows_post(replies@[k], #[trigger] responses@[k]),
        decreases replies@.len() - i,
    {
        responses.push(post_output(&replies[i]));
        i = i + 1;
    }
    ThreadResponseOutput { title: title.clone(), pinned, op_post: post_output(op), responses }
}

/// A stored thread with its opening post.
pub struct ThreadRow {
    pub title: String,
    pub pinned: bool,
    pub op: PostRow,
}

/// A thread as a board's thread list shows it.
pub struct ThreadOutput {
    pub title: String,
    pub pinned: bool,
    pub op_post: ApiPostOutput,
}

/// The thread list of a board, in the order of the rows.
pub fn threads_output(rows: &Vec<ThreadRow>) -> (r: Vec<ThreadOutput>)
    ensures
        r@.len() == rows@.len(),
        forall|i: int|
            0 <= i < rows@.len() ==> {
                let t = #[trigger] r@[i];
                &&& t.title@ == rows@[i].title@
                &&& t.pinned == rows@[i].pinned
                &&& shows_post(rows@[i].op, t.op_post)
            },
{
    let mut out: Vec<ThreadOutput> = Vec::new();
    let mut i: usize = 0;
    while i < rows.len()
        invariant
            i <= rows@.len(),
            out@.len() == i,
            forall|k: int|
                0 <= k < i ==> {
                    let t = #[trigger] out@[k];
                    &&& t.title@ == rows@[k].title@
                    &&& t.pinned == rows@[k].pinned
                    &&& shows_post(rows@[k].op, t.op_post)
                },
        decreases rows@.len() - i,
    {
        let row = &rows[i];
        out.push(ThreadOutput { title: row.title.clone(), pinned: row.pinned, op_post: post_output(&row.op) });
        i = i + 1;
    }
    out
}

/// A new thread on a board above the anonymous level is stored only for
/// an authenticated user whose level reaches the board's; a new thread on
/// any board is stored with the board's level.
pub proof fn law_new_thread_needs_board_level(
    req: PostingRequest,
    stage: PostingStage,
    event: PostingEvent,
    next: PostingStage,
    action: PostingAction,
)
    requires
        posting_transition(req, stage, event, next, action),
        (action matches PostingAction::InsertPost { op_id: None, .. }),
    ensures
        (next matches PostingStage::InsertingPost { thread_board: Some(b) } && action->InsertPost_access_level
            == b.access_level && (b.access_level > level_value(AccessLevel::Anonymous) ==> (stage
            == (PostingStage::Authenticating { board: b }) && (event matches PostingEvent::Authenticated(
            Ok(info)) && info.access_level >= b.access_level)))),
{
}

/// A reply is stored under its thread's opening post, with that post's
/// level.
pub proof fn law_reply_inherits_level(
    req: PostingRequest,
    stage: PostingStage,
    event: PostingEvent,
    next: PostingStage,
    action: PostingAction,
)
    requires
        posting_transition(req, stage, event, next, action),
        (action matches PostingAction::InsertPost { op_id: Some(_), .. }),
    ensures
        stage is FindingOp,
        (event matches PostingEvent::OpFound(Ok(op)) && action == (PostingAction::InsertPost {
            op_id: Some(op.id),
            access_level: op.access_level,
        })),
{
}

/// Only images are kept, each in the directory of its own post.
pub proof fn law_only_images_kept(
    req: PostingRequest,
    stage: PostingStage,
    event: PostingEvent,
    next: PostingStage,
    action: PostingAction,
)
    requires
        posting_transition(req, stage, event, next, action),
        action is CreateDir,
    ensures
        request_upload(req).content_type matches Some(m) && m.top@ == "image"@,
        next matches PostingStage::CreatingDir { file } && action->CreateDir_path@ == files_dir(
            file.id as nat,
        ),
{
}

/// A run of a post request: `stages[0]` moves on `events[k]` to
/// `stages[k + 1]`, and the handler does `actions[k]`, step after step.
pub open spec fn posting_run(
    req: PostingRequest,
    stages: Seq<PostingStage>,
    events: Seq<PostingEvent>,
    actions: Seq<PostingAction>,
) -> bool {
    &&& stages.len() == events.len() + 1
    &&& actions.len() == events.len()
    &&& forall|k: int|
        #![trigger events[k]]
        0 <= k < events.len() ==> posting_transition(req, stages[k], events[k], stages[k + 1], actions[k])
}

/// Whether `file` is the record of the image of post `id`, kept in that
/// post's own directory.
pub open spec fn file_of_post(req: PostingRequest, file: StoredFile, id: u32) -> bool {
    &&& file.id == id
    &&& file.dir@ == files_dir(id as nat)
    &&& file.file_path@ == stored_file_path(id as nat, request_upload(req).content_type->0.sub@)
}

/// What holds of every stage after post `id` was stored: the request is
/// over, or it carries only the file of post `id` (or the thread whose
/// opening post is `id`).
spec fn after_post_stored(req: PostingRequest, stage: PostingStage, id: u32) -> bool {
    match stage {
        PostingStage::Done => true,
        PostingStage::Bumping => true,
        PostingStage::InsertingFile => true,
        PostingStage::InsertingThread { op_id, .. } => op_id == id,
        PostingStage::CreatingDir { file } => file_of_post(req, file, id),
        PostingStage::PersistingFile { file } => file_of_post(req, file, id),
        _ => false,
    }
}

proof fn lemma_after_post_stored(
    req: PostingRequest,
    stages: Seq<PostingStage>,
    events: Seq<PostingEvent>,
    actions: Seq<PostingAction>,
    i: int,
    id: u32,
    k: int,
)
    requires
        posting_run(req, stages, events, actions),
        0 <= i < k <= events.len(),
        events[i] == PostingEvent::PostInserted(Ok(id)),
    ensures
        after_post_stored(req, stages[k], id),
    decreases k - i,
{
    if k == i + 1 {
        assert(posting_transition(req, stages[i], events[i], stages[i + 1], actions[i]));
    } else {
        lemma_after_post_stored(req, stages, events, actions, i, id, k - 1);
        assert(posting_transition(req, stages[k - 1], events[k - 1], stages[k], actions[k - 1]));
    }
}

/// The upload of a post, new thread or reply, is kept under the id of the
/// post that was just stored: once the store answers with `id`, every
/// directory made, every file moved and every file recorded for the
/// request belongs to post `id`, in `target/files/{id}`.
pub proof fn law_upload_kept_under_new_post(
    req: PostingRequest,
    stages: Seq<PostingStage>,
    events: Seq<PostingEvent>,
    actions: Seq<PostingAction>,
    i: int,
    j: int,
    id: u32,
)
    requires
        posting_run(req, stages, events, actions),
        0 <= i <= j < events.len(),
        events[i] == PostingEvent::PostInserted(Ok(id)),
    ensures
        actions[j] matches PostingAction::CreateDir { path } ==> path@ == files_dir(id as nat),
        actions[j] matches PostingAction::PersistFile { path } ==> path@ == stored_file_path(
            id as nat,
            request_upload(req).content_type->0.sub@,
        ),
        actions[j] matches PostingAction::InsertFile { file } ==> file_of_post(req, file, id),
{
    assert(posting_transition(req, stages[j], events[j], stages[j + 1], actions[j]));
    if i < j {
        lemma_after_post_stored(req, stages, events, actions, i, id, j);
    }
}

/// Whether a stage of a post request that came after board `b` was found
/// carries no other board.
spec fn posting_stage_keeps_board(stage: PostingStage, b: ApiBoard) -> bool {
    match stage {
        PostingStage::Start => false,
        PostingStage::FindingBoard => false,
        PostingStage::FindingOp => false,
        PostingStage::Authenticating { board } => board == b,
        PostingStage::InsertingPost { thread_board } => thread_board == Some(b),
        PostingStage::InsertingThread { board, .. } => board == b,
        _ => true,
    }
}

proof fn lemma_posting_keeps_board(
    req: PostingRequest,
    stages: Seq<PostingStage>,
    events: Seq<PostingEvent>,
    actions: Seq<PostingAction>,
    i: int,
    b: ApiBoard,
    k: int,
)
    requires
        posting_run(req, stages, events, actions),
        0 <= i < k <= events.len(),
        events[i] == PostingEvent::BoardFound(Ok(b)),
    ensures
        posting_stage_keeps_board(stages[k], b),
    decreases k - i,
{
    if k == i + 1 {
        assert(posting_transition(req, stages[i], events[i], stages[i + 1], actions[i]));
    } else {
        lemma_posting_keeps_board(req, stages, events, actions, i, b, k - 1);
        assert(posting_transition(req, stages[k - 1], events[k - 1], stages[k], actions[k - 1]));
    }
}

/// A new thread goes to the board that was looked up: once the board
/// lookup answers `b`, the post is stored as an opening post at
/// `b.access_level` and the thread is stored on board `b.id`.
pub proof fn law_new_thread_on_found_board(
    req: PostingRequest,
    stages: Seq<PostingStage>,
    events: Seq<PostingEvent>,
    actions: Seq<PostingAction>,
    i: int,
    j: int,
    b: ApiBoard,
)
    requires
        posting_run(req, stages, events, actions),
        0 <= i <= j < events.len(),
        events[i] == PostingEvent::BoardFound(Ok(b)),
    ensures
        actions[j] matches PostingAction::InsertPost { op_id, access_level } ==> op_id is None
            && access_level == b.access_level,
        actions[j] matches PostingAction::InsertThread { board_id, .. } ==> board_id == b.id,
{
    assert(posting_transition(req, stages[j], events[j], stages[j + 1], actions[j]));
    if i < j {
        lemma_posting_keeps_board(req, stages, events, actions, i, b, j);
    }
}

/// The thread stored for a new thread is the post just stored, on the
/// board the request was let into; a reply bumps the thread it answers.
pub proof fn law_thread_is_its_opening_post(
    req: PostingRequest,
    stage: PostingStage,
    event: PostingEvent,
    next: PostingStage,
    action: PostingAction,
)
    requires
        posting_transition(req, stage, event, next, action),
    ensures
        action matches PostingAction::InsertThread { id, board_id } ==> event == PostingEvent::PostInserted(
            Ok(id),
        ),
        action matches PostingAction::InsertThread { board_id, .. } ==> (stage matches PostingStage::InsertingPost {
            thread_board: Some(b),
        } && board_id == b.id),
        action matches PostingAction::BumpThread { thread_id } ==> req matches PostingRequest::Reply {
            thread_id: t,
            ..
        } && t == thread_id,
{
}

} // verus!
