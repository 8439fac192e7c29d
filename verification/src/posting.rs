use vstd::prelude::*;
use crate::gate::{ban_blocks, UserData};

verus! {

/// Longest reply, in characters.
pub const MAX_POST_CHARS: usize = 40_000;

/// Longest opening post of a thread, in characters.
pub const MAX_THREAD_POST_CHARS: usize = 20_000;

/// The kinds of database failure that the handlers tell apart.
#[derive(Debug, Clone, Copy, PartialEq, Eq, Structural)]
pub enum DbError {
    NotFound,
    UniqueViolation,
    ForeignKeyViolation,
    Other,
}

/// Error text shown to the user, sent as JSON.
pub struct UserError {
    pub error: String,
}

/// How a refused request is answered.
pub enum Refusal {
    /// 403 with no body.
    Forbidden,
    /// 403 with a `UserError` body.
    ForbiddenWith(UserError),
    /// 500 with no body.
    ServerError,
}

/// What to do about the captcha of a board.
pub enum CaptchaStep {
    /// The board asks for none.
    NotNeeded,
    /// Check the answer against captcha `id`.
    Verify { id: u64 },
    /// Refuse: the answer or its id is missing.
    Refuse(Refusal),
}

/// A refusal, with a message.
pub open spec fn refuses_with(r: Option<Refusal>, text: Seq<char>) -> bool {
    match r {
        Some(f) => refused_with(f, text),
        None => false,
    }
}

/// A refusal with a message.
pub open spec fn refused_with(r: Refusal, text: Seq<char>) -> bool {
    r matches Refusal::ForbiddenWith(e) && e.error@ == text
}

fn forbid_with(text: &str) -> (r: Refusal)
    ensures
        refused_with(r, text@),
{
    Refusal::ForbiddenWith(UserError { error: text.to_owned() })
}

/// Checks the text of a reply before anything is looked up: it may be
/// neither empty nor over `MAX_POST_CHARS` characters.
pub fn check_reply_message(message: &str) -> (r: Option<Refusal>)
    ensures
        message@.len() == 0 ==> refuses_with(r, "Viesti ei voi olla tyhjä!"@),
        message@.len() != 0 && message@.len() > MAX_POST_CHARS ==> refuses_with(r, "Viesti on liian pitkä (yli 40 000 merkkiä)"@),
        message@.len() != 0 && message@.len() <= MAX_POST_CHARS ==> r is None,
{
    if message.is_empty() {
        return Some(forbid_with("Viesti ei voi olla tyhjä!"));
    }
    let cs = crate::text::chars_of(message);
    if cs.len() > MAX_POST_CHARS {
        return Some(forbid_with("Viesti on liian pitkä (yli 40 000 merkkiä)"));
    }
    None
}

/// Checks the text of a thread's opening post before anything is looked
/// up: it may be neither empty nor over `MAX_THREAD_POST_CHARS` characters.
pub fn check_thread_message(message: &str) -> (r: Option<Refusal>)
    ensures
        message@.len() == 0 ==> refuses_with(r, "Viesti ei voi olla tyhjä!"@),
        message@.len() != 0 && message@.len() > MAX_THREAD_POST_CHARS ==> refuses_with(r, "Viesti on liian pitkä (yli 20 000 merkkiä)"@),
        message@.len() != 0 && message@.len() <= MAX_THREAD_POST_CHARS ==> r is None,
{
    if message.is_empty() {
        return Some(forbid_with("Viesti ei voi olla tyhjä!"));
    }
    let cs = crate::text::chars_of(message);
    if cs.len() > MAX_THREAD_POST_CHARS {
        return Some(forbid_with("Viesti on liian pitkä (yli 20 000 merkkiä)"));
    }
    None
}

/// Refuses a banned user (other than root) who tries to open a thread.
pub fn check_thread_author(user: &UserData) -> (r: Option<Refusal>)
    ensures
        ban_blocks(user.banned is Some, user.access_level) ==> refuses_with(r, "Käyttäjätilisi on bannattu!"@),
        !ban_blocks(user.banned is Some, user.access_level) ==> r is None,
{
    if user.is_ban_blocked() {
        return Some(forbid_with("Käyttäjätilisi on bannattu!"));
    }
    None
}

/// Refuses a user whose level is below the board's.
pub fn check_board_level(board_level: u8, user_level: u8) -> (r: Option<Refusal>)
    ensures
        board_level > user_level ==> r == Some(Refusal::Forbidden),
        board_level <= user_level ==> r is None,
{
    if board_level > user_level {
        return Some(Refusal::Forbidden);
    }
    None
}

/// Refuses a reply to a thread that already has more replies than the
/// board's thread size limit.
pub fn check_thread_capacity(replies: i64, thread_size_limit: u32) -> (r: Option<Refusal>)
    ensures
        replies > thread_size_limit ==> refuses_with(r, "Lanka on täynnä!"@),
        replies <= thread_size_limit ==> r is None,
{
    if replies > thread_size_limit as i64 {
        return Some(forbid_with("Lanka on täynnä!"));
    }
    None
}

/// Refuses a reply to an archived or locked thread (archived is told
/// first).
pub fn check_thread_open(archived: bool, locked: bool) -> (r: Option<Refusal>)
    ensures
        archived ==> refuses_with(r, "Lanka on arkistoitu, eikä siihen voi enää vastata!"@),
        !archived && locked ==> refuses_with(r, "Lanka on lukittu, eikä siihen voi enää vastata!"@),
        !archived && !locked ==> r is None,
{
    if archived {
        return Some(forbid_with("Lanka on arkistoitu, eikä siihen voi enää vastata!"));
    }
    if locked {
        return Some(forbid_with("Lanka on lukittu, eikä siihen voi enää vastata!"));
    }
    None
}

/// What to do about the captcha: a board that asks for one needs both the
/// answer and its id.
pub fn captcha_step(board_captcha: bool, answer: &Option<String>, id: Option<u64>) -> (r: CaptchaStep)
    ensures
        !board_captcha ==> r is NotNeeded,
        board_captcha && answer is Some && id is Some ==> r == (CaptchaStep::Verify { id: id->0 }),
        board_captcha && !(answer is Some && id is Some) ==> (r matches CaptchaStep::Refuse(f)
            && refused_with(f, "Captcha epäonnistui!"@)),
{
    if !board_captcha {
        return CaptchaStep::NotNeeded;
    }
    match (answer, id) {
        (Some(_), Some(i)) => CaptchaStep::Verify { id: i },
        _ => CaptchaStep::Refuse(forbid_with("Captcha epäonnistui!")),
    }
}

/// The answer when the captcha check fails with `message`.
pub fn captcha_failed(message: String) -> (r: Refusal)
    ensures
        refused_with(r, message@),
{
    Refusal::ForbiddenWith(UserError { error: message })
}

/// The answer when storing a reply fails: a reply to a post that does not
/// exist is told so, anything else is a server error.
pub fn reply_store_failed(e: DbError) -> (r: Refusal)
    ensures
        e is ForeignKeyViolation ==> refused_with(r, "Et voi vastata viestiin, jota ei ole olemassa!"@),
        !(e is ForeignKeyViolation) ==> r is ServerError,
{
    match e {
        DbError::ForeignKeyViolation => forbid_with("Et voi vastata viestiin, jota ei ole olemassa!"),
        _ => Refusal::ServerError,
    }
}

/// The answer when storing a thread fails: a missing row means the
/// attachment could not be handled, anything else is a server error.
pub fn thread_store_failed(e: DbError) -> (r: Refusal)
    ensures
        e is NotFound ==> refused_with(r, "Ongelma tiedoston käsittelyssä!"@),
        !(e is NotFound) ==> r is ServerError,
{
    match e {
        DbError::NotFound => forbid_with("Ongelma tiedoston käsittelyssä!"),
        _ => Refusal::ServerError,
    }
}

/// A stored attachment: the file and its thumbnail share a name and lie in
/// two directories.
pub struct Attachment {
    pub id: u32,
    pub file_name: String,
    pub file_location: String,
    pub thumbnail_location: String,
}

/// `dir/name`.
pub open spec fn file_path(dir: Seq<char>, name: Seq<char>) -> Seq<char> {
    dir + seq!['/'] + name
}

/// The paths of the file and of the thumbnail of an attachment.
pub fn attachment_paths(a: &Attachment) -> (r: (String, String))
    ensures
        r.0@ == file_path(a.file_location@, a.file_name@),
        r.1@ == file_path(a.thumbnail_location@, a.file_name@),
{
    let mut file = a.file_location.clone();
    crate::text::string_push(&mut file, '/');
    let file = file.concat(a.file_name.as_str());
    let mut thumb = a.thumbnail_location.clone();
    crate::text::string_push(&mut thumb, '/');
    let thumb = thumb.concat(a.file_name.as_str());
    (file, thumb)
}

/// The paths to remove with a list of posts: for each post with an
/// attachment, its file then its thumbnail, in the order of the posts.
pub open spec fn removal_paths(attachments: Seq<Option<(Seq<char>, Seq<char>, Seq<char>)>>) -> Seq<Seq<char>>
    decreases attachments.len(),
{
    if attachments.len() == 0 {
        Seq::empty()
    } else {
        removal_paths(attachments.drop_last()) + match attachments.last() {
            Some((name, loc, thumb)) => seq![file_path(loc, name), file_path(thumb, name)],
            None => Seq::empty(),
        }
    }
}

/// The attachment of each post, as name, file directory and thumbnail
/// directory.
pub open spec fn attachment_views(posts: Seq<Option<Attachment>>) -> Seq<Option<(Seq<char>, Seq<char>, Seq<char>)>> {
    posts.map_values(|p: Option<Attachment>| match p {
        Some(a) => Some((a.file_name@, a.file_location@, a.thumbnail_location@)),
        None => None,
    })
}

/// The files to remove when posts with these attachments are deleted.
pub fn files_to_remove(posts: &Vec<Option<Attachment>>) -> (r: Vec<String>)
    ensures
        r@.map_values(|s: String| s@) == removal_paths(attachment_views(posts@)),
{
    let mut out: Vec<String> = Vec::new();
    let mut i: usize = 0;
    while i < posts.len()
        invariant
            i <= posts@.len(),
            out@.map_values(|s: String| s@) == removal_paths(attachment_views(posts@.take(i as int))),
        decreases posts@.len() - i,
    {
        let ghost before = out@;
        assert(attachment_views(posts@.take(i + 1)).drop_last() == attachment_views(posts@.take(i as int)));
        match &posts[i] {
            Some(a) => {
                let (f, t) = attachment_paths(a);
                out.push(f);
                out.push(t);
            },
            None => {},
        }
        assert(out@.map_values(|s: String| s@) =~= removal_paths(attachment_views(posts@.take(i + 1))));
        i = i + 1;
    }
    assert(posts@.take(posts@.len() as int) == posts@);
    out
}

/// A link from a post to a later post that replies to it.
pub struct ReplyModel {
    pub post_id: u32,
    pub reply_id: u32,
}

/// The links a new post `new_post_id` makes to the posts it replies to, in
/// the order they were named.
pub fn reply_links(reply_ids: &Vec<u32>, new_post_id: u32) -> (r: Vec<ReplyModel>)
    ensures
        r@.len() == reply_ids@.len(),
        forall|i: int|
            0 <= i < r@.len() ==> (#[trigger] r@[i]).post_id == reply_ids@[i] && r@[i].reply_id == new_post_id,
{
    let mut out: Vec<ReplyModel> = Vec::new();
    let mut i: usize = 0;
    while i < reply_ids.len()
        invariant
            i <= reply_ids@.len(),
            out@.len() == i,
            forall|k: int|
                0 <= k < i ==> (#[trigger] out@[k]).post_id == reply_ids@[k] && out@[k].reply_id == new_post_id,
        decreases reply_ids@.len() - i,
    {
        out.push(ReplyModel { post_id: reply_ids[i], reply_id: new_post_id });
        i = i + 1;
    }
    out
}

} // verus!
