use vstd::prelude::*;
use crate::access::{level_value, AccessLevel};
use crate::validation::{
    alnum_shape, email_shape, is_email, letters_shape, length_within, msg_if, push_if, regex_matches, texts,
    username_shape, ALNUM_PATTERN, EMAIL_PATTERN, HANDLE_PATTERN, USERNAME_PATTERN,
};

verus! {

/// The registration form.
pub struct RegisterForm {
    pub username: String,
    pub email: String,
    pub pwd: String,
}

/// The messages of a failed registration, field by field.
pub open spec fn register_form_errors(username: Seq<char>, email: Seq<char>, pwd: Seq<char>) -> Seq<Seq<char>> {
    msg_if(!(1 <= username.len() <= 16), "Käyttäjänimi täytyy olla 1-16 merkkiä pitkä."@)
        + msg_if(!username_shape(username), "Käyttäjänimi sisältää kiellettyjä merkkejä!"@)
        + msg_if(!(1 <= email.len() <= 128), "Sähköposti täytyy olla 1-128 merkkiä pitkä."@)
        + msg_if(!email_shape(email), "Sähköpostiosoite on virheellinen!"@)
        + msg_if(!(5 <= pwd.len() <= 128), "Salasana täytyy olla 5-128 merkkiä pitkä."@)
}

impl RegisterForm {
    /// The rules that the form breaks, as messages (none when valid).
    pub fn validate(&self) -> (r: Vec<String>)
        ensures
            texts(r@) == register_form_errors(self.username@, self.email@, self.pwd@),
    {
        let mut errors: Vec<String> = Vec::new();
        let b = length_within(self.username.as_str(), 1, 16);
        push_if(&mut errors, !b, "Käyttäjänimi täytyy olla 1-16 merkkiä pitkä.");
        let b = regex_matches(USERNAME_PATTERN, self.username.as_str());
        push_if(&mut errors, !b, "Käyttäjänimi sisältää kiellettyjä merkkejä!");
        let b = length_within(self.email.as_str(), 1, 128);
        push_if(&mut errors, !b, "Sähköposti täytyy olla 1-128 merkkiä pitkä.");
        let b = regex_matches(EMAIL_PATTERN, self.email.as_str());
        push_if(&mut errors, !b, "Sähköpostiosoite on virheellinen!");
        let b = length_within(self.pwd.as_str(), 5, 128);
        push_if(&mut errors, !b, "Salasana täytyy olla 5-128 merkkiä pitkä.");
        assert(texts(Seq::<String>::empty()) =~= Seq::<Seq<char>>::empty());
        errors
    }
}

/// The form that creates a board.
pub struct CreateBoardForm {
    pub handle: String,
    pub title: String,
    pub description: String,
    pub access_level: u8,
    pub threads_limit: u32,
    pub thread_size: u32,
    pub captcha: Option<String>,
    pub nsfw: Option<String>,
}

/// The messages of a failed board form, field by field.
pub open spec fn board_form_errors(handle: Seq<char>, title: Seq<char>) -> Seq<Seq<char>> {
    msg_if(!(1 <= handle.len() <= 8), "Handle must be 1-8 characters long."@)
        + msg_if(!letters_shape(handle), "Handle must contain only alphabets."@)
        + msg_if(!(1 <= title.len() <= 255), "Title must be 1-255 characters long."@)
}

impl CreateBoardForm {
    /// The rules that the form breaks, as messages (none when valid).
    pub fn validate(&self) -> (r: Vec<String>)
        ensures
            texts(r@) == board_form_errors(self.handle@, self.title@),
    {
        let mut errors: Vec<String> = Vec::new();
        let b = length_within(self.handle.as_str(), 1, 8);
        push_if(&mut errors, !b, "Handle must be 1-8 characters long.");
        let b = regex_matches(HANDLE_PATTERN, self.handle.as_str());
        push_if(&mut errors, !b, "Handle must contain only alphabets.");
        let b = length_within(self.title.as_str(), 1, 255);
        push_if(&mut errors, !b, "Title must be 1-255 characters long.");
        assert(texts(Seq::<String>::empty()) =~= Seq::<Seq<char>>::empty());
        errors
    }
}

/// The form that edits a board.
pub struct EditBoardForm {
    pub handle: String,
    pub title: String,
    pub description: String,
    pub access_level: u8,
    pub threads_limit: u32,
    pub thread_size: u32,
    pub captcha: Option<String>,
    pub nsfw: Option<String>,
}

impl EditBoardForm {
    /// The rules that the form breaks, as messages (none when valid).
    pub fn validate(&self) -> (r: Vec<String>)
        ensures
            texts(r@) == board_form_errors(self.handle@, self.title@),
    {
        let mut errors: Vec<String> = Vec::new();
        let b = length_within(self.handle.as_str(), 1, 8);
        push_if(&mut errors, !b, "Handle must be 1-8 characters long.");
        let b = regex_matches(HANDLE_PATTERN, self.handle.as_str());
        push_if(&mut errors, !b, "Handle must contain only alphabets.");
        let b = length_within(self.title.as_str(), 1, 255);
        push_if(&mut errors, !b, "Title must be 1-255 characters long.");
        assert(texts(Seq::<String>::empty()) =~= Seq::<Seq<char>>::empty());
        errors
    }
}

/// Login request of the session API: a user name and a password, with an
/// optional expiration time.
pub struct CreateSessionInput {
    pub exp: Option<i64>,
    pub password: String,
    pub username: String,
}

/// The messages of a failed session request, field by field.
pub open spec fn session_input_errors(password: Seq<char>, username: Seq<char>) -> Seq<Seq<char>> {
    msg_if(!(5 <= password.len() <= 128), "Password must be 5-128 characters long."@)
        + msg_if(!(1 <= username.len() <= 16), "Username must be 1-16 characters long."@)
        + msg_if(!username_shape(username), "Username contains illegal characters."@)
}

impl CreateSessionInput {
    /// The rules that the request breaks, as messages (none when valid).
    pub fn validate(&self) -> (r: Vec<String>)
        ensures
            texts(r@) == session_input_errors(self.password@, self.username@),
    {
        let mut errors: Vec<String> = Vec::new();
        let b = length_within(self.password.as_str(), 5, 128);
        push_if(&mut errors, !b, "Password must be 5-128 characters long.");
        let b = length_within(self.username.as_str(), 1, 16);
        push_if(&mut errors, !b, "Username must be 1-16 characters long.");
        let b = regex_matches(USERNAME_PATTERN, self.username.as_str());
        push_if(&mut errors, !b, "Username contains illegal characters.");
        assert(texts(Seq::<String>::empty()) =~= Seq::<Seq<char>>::empty());
        errors
    }
}

/// Registration request of the user API.
pub struct RegisterUserInput {
    pub password: String,
    pub username: String,
    pub email: String,
}

/// The messages of a failed registration request, field by field.
pub open spec fn register_input_errors(password: Seq<char>, username: Seq<char>, email: Seq<char>) -> Seq<Seq<char>> {
    session_input_errors(password, username)
        + msg_if(!(1 <= email.len() <= 128), "Email must be 1-128 characters long."@)
        + msg_if(!email_shape(email), "Email address is invalid."@)
}

impl RegisterUserInput {
    /// The rules that the request breaks, as messages (none when valid).
    pub fn validate(&self) -> (r: Vec<String>)
        ensures
            texts(r@) == register_input_errors(self.password@, self.username@, self.email@),
    {
        let mut errors: Vec<String> = Vec::new();
        let b = length_within(self.password.as_str(), 5, 128);
        push_if(&mut errors, !b, "Password must be 5-128 characters long.");
        let b = length_within(self.username.as_str(), 1, 16);
        push_if(&mut errors, !b, "Username must be 1-16 characters long.");
        let b = regex_matches(USERNAME_PATTERN, self.username.as_str());
        push_if(&mut errors, !b, "Username contains illegal characters.");
        let b = length_within(self.email.as_str(), 1, 128);
        push_if(&mut errors, !b, "Email must be 1-128 characters long.");
        let b = regex_matches(EMAIL_PATTERN, self.email.as_str());
        push_if(&mut errors, !b, "Email address is invalid.");
        assert(texts(Seq::<String>::empty()) =~= Seq::<Seq<char>>::empty());
        errors
    }
}

/// Board creation request of the board API.
pub struct CreateBoardInput {
    pub title: String,
    pub handle: String,
    pub access_level: u8,
    pub nsfw: bool,
}

/// The messages of a failed board creation request, field by field.
pub open spec fn board_input_errors(title: Seq<char>, handle: Seq<char>) -> Seq<Seq<char>> {
    msg_if(!(1 <= title.len() <= 100), "Title must be 1-100 characters long"@)
        + msg_if(!alnum_shape(title), "Title must be alphanumeric"@)
        + msg_if(!(1 <= handle.len() <= 8), "Handle must be 1-8 characters long"@)
        + msg_if(!alnum_shape(handle), "Handle must be alphanumeric"@)
}

impl CreateBoardInput {
    /// The rules that the request breaks, as messages (none when valid).
    pub fn validate(&self) -> (r: Vec<String>)
        ensures
            texts(r@) == board_input_errors(self.title@, self.handle@),
    {
        let mut errors: Vec<String> = Vec::new();
        let b = length_within(self.title.as_str(), 1, 100);
        push_if(&mut errors, !b, "Title must be 1-100 characters long");
        let b = regex_matches(ALNUM_PATTERN, self.title.as_str());
        push_if(&mut errors, !b, "Title must be alphanumeric");
        let b = length_within(self.handle.as_str(), 1, 8);
        push_if(&mut errors, !b, "Handle must be 1-8 characters long");
        let b = regex_matches(ALNUM_PATTERN, self.handle.as_str());
        push_if(&mut errors, !b, "Handle must be alphanumeric");
        assert(texts(Seq::<String>::empty()) =~= Seq::<Seq<char>>::empty());
        errors
    }
}

/// The login form: `username` is a user name or an e-mail address.
pub struct LoginForm {
    pub username: String,
    pub pwd: String,
}

/// How the user of a login form is looked up.
pub enum LoginMethod {
    ByEmail,
    ByUsername,
}

/// Why logging in failed, as the login service tells it.
pub enum LoginFailure {
    /// The password is wrong.
    WrongPassword,
    /// There is no such user.
    NoSuchUser,
    /// Anything else.
    Other,
}

/// The login page, with the errors to show.
pub struct LoginTemplate {
    pub errors: Vec<String>,
}

/// The "not found" page.
pub struct NotFoundTemplate {
    pub access_level: u8,
}

impl LoginForm {
    /// A name of the e-mail shape is taken for an address.
    pub fn method(&self) -> (r: LoginMethod)
        ensures
            email_shape(self.username@) ==> r is ByEmail,
            !email_shape(self.username@) ==> r is ByUsername,
    {
        if is_email(self.username.as_str()) {
            LoginMethod::ByEmail
        } else {
            LoginMethod::ByUsername
        }
    }
}

/// The message shown for a failed login.
pub open spec fn login_failure_text(f: LoginFailure) -> Seq<char> {
    match f {
        LoginFailure::WrongPassword => "Virheellinen salasana!"@,
        LoginFailure::NoSuchUser => "Käyttäjää ei ole olemassa!"@,
        LoginFailure::Other => "Palvelin virhe!"@,
    }
}

/// The login page shown again after a failed login.
pub fn login_failed_page(f: LoginFailure) -> (r: LoginTemplate)
    ensures
        r.errors@.len() == 1,
        r.errors@[0]@ == login_failure_text(f),
{
    let msg = match f {
        LoginFailure::WrongPassword => "Virheellinen salasana!".to_owned(),
        LoginFailure::NoSuchUser => "Käyttäjää ei ole olemassa!".to_owned(),
        LoginFailure::Other => "Palvelin virhe!".to_owned(),
    };
    let mut errors: Vec<String> = Vec::new();
    errors.push(msg);
    LoginTemplate { errors }
}

/// The membership application form.
pub struct ApplicationForm {
    pub background: String,
    pub motivation: String,
    pub other: String,
}

/// Whether `ammonia::is_html` finds HTML in a text.
pub uninterp spec fn ammonia_is_html(text: Seq<char>) -> bool;

/// Whether a text holds HTML, as `ammonia::is_html` decides by running its
/// HTML tokenizer over it; a function of the text alone.
#[verifier::external_body]
fn holds_html(text: &str) -> (r: bool)
    ensures
        r == ammonia_is_html(text@),
{
    ammonia::is_html(text)
}

impl ApplicationForm {
    /// The error to show when a field holds HTML.
    pub fn html_error(&self) -> (r: Option<String>)
        ensures
            (r is Some) == (ammonia_is_html(self.background@) || ammonia_is_html(self.motivation@)
                || ammonia_is_html(self.other@)),
            r matches Some(m) ==> m@ == "HTML tags are not allowed."@,
    {
        if holds_html(self.background.as_str()) || holds_html(self.motivation.as_str()) || holds_html(
            self.other.as_str(),
        ) {
            Some("HTML tags are not allowed.".to_owned())
        } else {
            None
        }
    }
}

/// Query of the user list: the least access level shown (anonymous when
/// absent) and a name to look for.
pub struct UsersRequest {
    pub min_access: Option<u8>,
    pub target_user: Option<String>,
}

/// Users shown on one page of the user list.
pub const USERS_PER_PAGE: u32 = 20;

impl UsersRequest {
    /// The least access level to list.
    pub fn min_access_level(&self) -> (r: u8)
        ensures
            self.min_access matches Some(m) ==> r == m,
            self.min_access is None ==> r == level_value(AccessLevel::Anonymous),
    {
        match self.min_access {
            Some(m) => m,
            None => AccessLevel::Anonymous.as_u8(),
        }
    }
}

/// Number of pages for `count` users.
pub fn user_pages(count: u64) -> (r: u64)
    ensures
        r == (count + USERS_PER_PAGE - 1) / (USERS_PER_PAGE as int),
{
    count / 20 + if count % 20 == 0 { 0 } else { 1 }
}

/// Offset of the first user of page `page` (pages count from 1).
pub fn user_offset(page: u32) -> (r: u32)
    requires
        1 <= page,
        (page - 1) * USERS_PER_PAGE <= u32::MAX,
    ensures
        r == (page - 1) * USERS_PER_PAGE,
{
    (page - 1) * 20
}

/// Changes an administrator makes to a user.
pub struct ModifyUserInput {
    pub access_level: u8,
    pub username: Option<String>,
    pub email: Option<String>,
}

/// A new chat room.
pub struct ChatInput {
    pub name: String,
    pub access_level: u8,
}

/// Whether a thread is to be locked or unlocked.
pub struct ThreadLockInput {
    pub lock_status: bool,
}

/// Where a post is: its thread and the handle of its board.
pub struct PostDetailsOutput {
    pub thread_id: u32,
    pub board_handle: String,
}

/// A captcha to solve: its id and its image in base 64.
pub struct CaptchaOutput {
    pub id: u64,
    pub captcha: String,
}

/// Error body of the API.
pub struct ErrorOutput {
    pub err: String,
}

/// A registration form gives no message exactly when it keeps every rule.
pub proof fn law_register_form_valid(username: Seq<char>, email: Seq<char>, pwd: Seq<char>)
    ensures
        (register_form_errors(username, email, pwd).len() == 0) == (1 <= username.len() <= 16
            && username_shape(username) && 1 <= email.len() <= 128 && email_shape(email) && 5
            <= pwd.len() <= 128),
{
}

/// A board form gives no message exactly when it keeps every rule.
pub proof fn law_board_form_valid(handle: Seq<char>, title: Seq<char>)
    ensures
        (board_form_errors(handle, title).len() == 0) == (1 <= handle.len() <= 8 && letters_shape(handle)
            && 1 <= title.len() <= 255),
{
}

} // verus!
