use vstd::prelude::*;
use crate::access::{level_value, AccessLevel};
use crate::forms::{board_form_errors, register_form_errors, CreateBoardForm, EditBoardForm, RegisterForm};
use crate::gate::{may_act_spec, FileAccess, UserData};
use crate::posting::DbError;
use crate::validation::texts;

verus! {

/// A board as the board forms store it.
pub struct BoardModel {
    pub handle: String,
    pub title: String,
    pub description: String,
    pub access_level: u8,
    pub active_threads_limit: u32,
    pub thread_size_limit: u32,
    pub captcha: bool,
    pub nsfw: bool,
}

/// How a form of the site is answered.
pub enum FormAnswer {
    /// 302 to this location.
    Redirect(String),
    /// The form's page again, with these errors.
    Errors(Vec<String>),
    /// A bare status code.
    Status(u16),
}

/// Whether `m` stores the fields of a board form: a checkbox counts as set
/// when it was sent at all.
pub open spec fn models_board_form(
    m: BoardModel,
    handle: String,
    title: String,
    description: String,
    access_level: u8,
    threads_limit: u32,
    thread_size: u32,
    captcha: Option<String>,
    nsfw: Option<String>,
) -> bool {
    &&& m.handle@ == handle@
    &&& m.title@ == title@
    &&& m.description@ == description@
    &&& m.access_level == access_level
    &&& m.active_threads_limit == threads_limit
    &&& m.thread_size_limit == thread_size
    &&& m.captcha == captcha is Some
    &&& m.nsfw == nsfw is Some
}

/// The answer is to show `errors` again.
pub open spec fn shows_errors(r: FormAnswer, errors: Seq<Seq<char>>) -> bool {
    r matches FormAnswer::Errors(v) && texts(v@) == errors
}

/// The answer is a redirect to `location`.
pub open spec fn redirects_to(r: FormAnswer, location: Seq<char>) -> bool {
    r matches FormAnswer::Redirect(l) && l@ == location
}

impl CreateBoardForm {
    /// Checks a board creation by `user`: only an administrator whom no ban
    /// stops may create boards (403 otherwise); a form that breaks a rule
    /// is shown again with its errors; else the board to store.
    pub fn check(&self, user: &UserData) -> (r: Result<BoardModel, FormAnswer>)
        ensures
            !may_act_spec(user.banned is Some, user.access_level, level_value(AccessLevel::Admin)) ==> r
                matches Err(FormAnswer::Status(403)),
            may_act_spec(user.banned is Some, user.access_level, level_value(AccessLevel::Admin)) ==> {
                let errors = board_form_errors(self.handle@, self.title@);
                if errors.len() > 0 {
                    r matches Err(a) && shows_errors(a, errors)
                } else {
                    r matches Ok(m) && models_board_form(
                        m,
                        self.handle,
                        self.title,
                        self.description,
                        self.access_level,
                        self.threads_limit,
                        self.thread_size,
                        self.captcha,
                        self.nsfw,
                    )
                }
            },
    {
        if !user.may_act(AccessLevel::Admin.as_u8()) {
            return Err(FormAnswer::Status(403));
        }
        let errors = self.validate();
        if errors.len() > 0 {
            return Err(FormAnswer::Errors(errors));
        }
        Ok(
            BoardModel {
                handle: self.handle.clone(),
                title: self.title.clone(),
                description: self.description.clone(),
                access_level: self.access_level,
                active_threads_limit: self.threads_limit,
                thread_size_limit: self.thread_size,
                captcha: self.captcha.is_some(),
                nsfw: self.nsfw.is_some(),
            },
        )
    }
}

impl EditBoardForm {
    /// Checks a board edit by `user`, as a board creation is checked.
    pub fn check(&self, user: &UserData) -> (r: Result<BoardModel, FormAnswer>)
        ensures
            !may_act_spec(user.banned is Some, user.access_level, level_value(AccessLevel::Admin)) ==> r
                matches Err(FormAnswer::Status(403)),
            may_act_spec(user.banned is Some, user.access_level, level_value(AccessLevel::Admin)) ==> {
                let errors = board_form_errors(self.handle@, self.title@);
                if errors.len() > 0 {
                    r matches Err(a) && shows_errors(a, errors)
                } else {
                    r matches Ok(m) && models_board_form(
                        m,
                        self.handle,
                        self.title,
                        self.description,
                        self.access_level,
                        self.threads_limit,
                        self.thread_size,
                        self.captcha,
                        self.nsfw,
                    )
                }
            },
    {
        if !user.may_act(AccessLevel::Admin.as_u8()) {
            return Err(FormAnswer::Status(403));
        }
        let errors = self.validate();
        if errors.len() > 0 {
            return Err(FormAnswer::Errors(errors));
        }
        Ok(
            BoardModel {
                handle: self.handle.clone(),
                title: self.title.clone(),
                description: self.description.clone(),
                access_level: self.access_level,
                active_threads_limit: self.threads_limit,
                thread_size_limit: self.thread_size,
                captcha: self.captcha.is_some(),
                nsfw: self.nsfw.is_some(),
            },
        )
    }
}

/// The answer once a board was stored or not: back to the admin page.
pub fn board_saved(res: Result<(), DbError>) -> (r: FormAnswer)
    ensures
        res is Ok ==> redirects_to(r, "/admin"@),
        res is Err ==> r matches FormAnswer::Status(500),
{
    match res {
        Ok(_) => FormAnswer::Redirect("/admin".to_owned()),
        Err(_) => FormAnswer::Status(500),
    }
}

impl RegisterForm {
    /// Checks a registration by a user of `access_level`: only anonymous
    /// users may register (403 otherwise); a form that breaks a rule is
    /// shown again with its errors. `None` lets the registration go on.
    pub fn check(&self, access_level: u8) -> (r: Option<FormAnswer>)
        ensures
            access_level != level_value(AccessLevel::Anonymous) ==> r matches Some(FormAnswer::Status(403)),
            access_level == level_value(AccessLevel::Anonymous) ==> {
                let errors = register_form_errors(self.username@, self.email@, self.pwd@);
                if errors.len() > 0 {
                    r matches Some(a) && shows_errors(a, errors)
                } else {
                    r is None
                }
            },
    {
        if access_level != AccessLevel::Anonymous.as_u8() {
            return Some(FormAnswer::Status(403));
        }
        let errors = self.validate();
        if errors.len() > 0 {
            Some(FormAnswer::Errors(errors))
        } else {
            None
        }
    }
}

/// The answer once a registration was stored or not: on to the membership
/// application; a name or address already taken is told so.
pub fn registration_saved(res: Result<(), DbError>) -> (r: FormAnswer)
    ensures
        res is Ok ==> redirects_to(r, "/apply"@),
        res matches Err(e) ==> if e is UniqueViolation {
            shows_errors(r, seq!["Käyttäjänimi tai sähköposti on jo olemassa!"@])
        } else {
            r matches FormAnswer::Status(500)
        },
{
    match res {
        Ok(_) => FormAnswer::Redirect("/apply".to_owned()),
        Err(DbError::UniqueViolation) => {
            let mut v: Vec<String> = Vec::new();
            v.push("Käyttäjänimi tai sähköposti on jo olemassa!".to_owned());
            assert(texts(v@) =~= seq!["Käyttäjänimi tai sähköposti on jo olemassa!"@]);
            FormAnswer::Errors(v)
        },
        Err(_) => FormAnswer::Status(500),
    }
}

/// The answer once a membership application was stored or not.
pub fn application_saved(res: Result<(), DbError>) -> (r: FormAnswer)
    ensures
        res is Ok ==> redirects_to(r, "/"@),
        res is Err ==> shows_errors(r, seq!["Server error."@]),
{
    match res {
        Ok(_) => FormAnswer::Redirect("/".to_owned()),
        Err(_) => {
            let mut v: Vec<String> = Vec::new();
            v.push("Server error.".to_owned());
            assert(texts(v@) =~= seq!["Server error."@]);
            FormAnswer::Errors(v)
        },
    }
}

/// The answer to a review of an application: one already reviewed is not
/// reviewed again. `None` lets the review go on.
pub fn review_check(user: &UserData, already_reviewed: bool) -> (r: Option<u16>)
    ensures
        !may_act_spec(user.banned is Some, user.access_level, level_value(AccessLevel::Admin)) ==> r
            == Some(403u16),
        may_act_spec(user.banned is Some, user.access_level, level_value(AccessLevel::Admin)) ==> (r
            is None <==> !already_reviewed) && (r is Some ==> r == Some(403u16)),
{
    if !user.may_act(AccessLevel::Admin.as_u8()) || already_reviewed {
        Some(403)
    } else {
        None
    }
}

/// A ban given by a moderator.
pub struct BanModel {
    pub moderator_id: u64,
    pub user_id: Option<u64>,
    pub post_id: Option<u32>,
    pub reason: Option<String>,
    pub ip_address: String,
    /// When the ban ends, as UTC timestamp.
    pub expires_at: i64,
}

/// Whether `days` days after `now` is a timestamp: the span and the sum
/// both fit in 64 bits.
pub open spec fn ban_end_fits(now: i64, days: i64) -> bool {
    i64::MIN <= days * 86_400 <= i64::MAX && i64::MIN <= now + days * 86_400 <= i64::MAX
}

/// The ban a moderator gives user `target` for `days` days from `now`;
/// `None` when the end is not a timestamp.
pub fn user_ban(moderator_id: u64, target: u64, reason: String, now: i64, days: i64) -> (r: Option<BanModel>)
    ensures
        !ban_end_fits(now, days) ==> r is None,
        ban_end_fits(now, days) ==> (r matches Some(b) && b.moderator_id == moderator_id && b.user_id
            == Some(target) && b.post_id is None && (b.reason matches Some(t) && t@ == reason@)
            && b.ip_address@ == ""@ && b.expires_at == now + days * 86_400),
{
    let span = match days.checked_mul(86_400) {
        Some(s) => s,
        None => return None,
    };
    match now.checked_add(span) {
        Some(expires_at) => Some(
            BanModel {
                moderator_id,
                user_id: Some(target),
                post_id: None,
                reason: Some(reason),
                ip_address: "".to_owned(),
                expires_at,
            },
        ),
        None => None,
    }
}

/// An error answer with a message.
pub struct PageError {
    pub status: u16,
    pub message: String,
}

/// The answer when a file cannot be served to the user.
pub fn file_refusal(access: FileAccess) -> (r: Option<PageError>)
    ensures
        access is NoAccess ==> (r matches Some(e) && e.status == 403 && e.message@ == "Ei käyttöoikeutta!"@),
        access is Banned ==> (r matches Some(e) && e.status == 403 && e.message@ == "Käyttäjätili on bannattu!"@),
        access is Allowed ==> r is None,
{
    match access {
        FileAccess::NoAccess => Some(PageError { status: 403, message: "Ei käyttöoikeutta!".to_owned() }),
        FileAccess::Banned => Some(PageError { status: 403, message: "Käyttäjätili on bannattu!".to_owned() }),
        FileAccess::Allowed => None,
    }
}

/// The answer when looking a file up fails.
pub fn file_lookup_error(e: DbError) -> (r: PageError)
    ensures
        e is NotFound ==> r.status == 404 && r.message@ == "Tiedostoa ei ole olemassa!"@,
        !(e is NotFound) ==> r.status == 500 && r.message@ == "Palvelin ongelma!"@,
{
    match e {
        DbError::NotFound => PageError { status: 404, message: "Tiedostoa ei ole olemassa!".to_owned() },
        _ => PageError { status: 500, message: "Palvelin ongelma!".to_owned() },
    }
}

} // verus!
