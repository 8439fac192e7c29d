use lauta::access::AccessLevel;
use lauta::forms::{
    login_failed_page, user_offset, user_pages, ApplicationForm, CreateBoardForm, CreateBoardInput,
    CreateSessionInput, EditBoardForm, LoginFailure, LoginForm, LoginMethod, RegisterForm, RegisterUserInput,
    UsersRequest,
};
use lauta::gate::{board_open_to, may_modify_session, reviewed_level, BanInfo, FileAccess, PageAccess, UserData};
use lauta::validation::{is_email, length_within};

fn user(level: u8, banned: bool) -> UserData {
    UserData {
        id: 1,
        access_level: level,
        banned: if banned { Some(BanInfo { post_id: Some(4) }) } else { None },
        ip_addr: String::new(),
    }
}

#[test]
fn access_levels_round_trip() {
    for (n, l) in [
        (10u8, AccessLevel::Anonymous),
        (20, AccessLevel::Registered),
        (30, AccessLevel::PendingMember),
        (50, AccessLevel::Member),
        (90, AccessLevel::Moderator),
        (100, AccessLevel::Admin),
        (200, AccessLevel::Owner),
        (255, AccessLevel::Root),
    ] {
        assert_eq!(AccessLevel::try_from(n), Ok(l));
        assert_eq!(l.as_u8(), n);
    }
    assert_eq!(AccessLevel::try_from(40), Err(40));
}

#[test]
fn default_expiry_follows_level() {
    assert_eq!(AccessLevel::Anonymous.default_exp(1_000), 1_000 + 365 * 86_400);
    assert_eq!(AccessLevel::Root.default_exp(0), 3_600);
    assert_eq!(AccessLevel::Owner.default_lifetime(), 86_400);
}

#[test]
fn register_form_messages_in_field_order() {
    let ok = RegisterForm { username: "matti.m-1".into(), email: "matti@example.fi".into(), pwd: "salainen".into() };
    assert!(ok.validate().is_empty());
    let bad = RegisterForm { username: "".into(), email: "ei-osoite".into(), pwd: "abc".into() };
    assert_eq!(
        bad.validate(),
        vec![
            "Käyttäjänimi täytyy olla 1-16 merkkiä pitkä.".to_string(),
            "Käyttäjänimi sisältää kiellettyjä merkkejä!".to_string(),
            "Sähköpostiosoite on virheellinen!".to_string(),
            "Salasana täytyy olla 5-128 merkkiä pitkä.".to_string(),
        ]
    );
    let odd = RegisterForm { username: "äiti".into(), email: "a@b.c".into(), pwd: "12345".into() };
    assert_eq!(odd.validate(), vec!["Käyttäjänimi sisältää kiellettyjä merkkejä!".to_string()]);
}

#[test]
fn board_forms_need_only_letters_in_the_handle() {
    let f = CreateBoardForm {
        handle: "b".into(),
        title: "Satunnainen".into(),
        description: String::new(),
        access_level: 10,
        threads_limit: 100,
        thread_size: 300,
        captcha: None,
        nsfw: None,
    };
    assert!(f.validate().is_empty());
    let mixed = CreateBoardForm {
        handle: "b2".into(),
        title: "Satunnainen".into(),
        description: String::new(),
        access_level: 10,
        threads_limit: 100,
        thread_size: 300,
        captcha: None,
        nsfw: None,
    };
    assert_eq!(mixed.validate(), vec!["Handle must contain only alphabets.".to_string()]);
    let f = EditBoardForm {
        handle: "123456789".into(),
        title: String::new(),
        description: String::new(),
        access_level: 10,
        threads_limit: 100,
        thread_size: 300,
        captcha: None,
        nsfw: None,
    };
    assert_eq!(
        f.validate(),
        vec![
            "Handle must be 1-8 characters long.".to_string(),
            "Handle must contain only alphabets.".to_string(),
            "Title must be 1-255 characters long.".to_string(),
        ]
    );
}

#[test]
fn api_inputs_validate() {
    let s = CreateSessionInput { exp: None, password: "1234".into(), username: "a b".into() };
    assert_eq!(
        s.validate(),
        vec!["Password must be 5-128 characters long.".to_string(), "Username contains illegal characters.".to_string()]
    );
    let r = RegisterUserInput { password: "12345".into(), username: "user".into(), email: "x@y".into() };
    assert_eq!(r.validate(), vec!["Email address is invalid.".to_string()]);
    let b = CreateBoardInput { title: "Hello World".into(), handle: "b".into(), access_level: 10, nsfw: false };
    assert_eq!(b.validate(), vec!["Title must be alphanumeric".to_string()]);
}

#[test]
fn login_method_and_failure_page() {
    assert!(matches!(LoginForm { username: "a@b.cd".into(), pwd: String::new() }.method(), LoginMethod::ByEmail));
    assert!(matches!(LoginForm { username: "matti".into(), pwd: String::new() }.method(), LoginMethod::ByUsername));
    assert_eq!(login_failed_page(LoginFailure::WrongPassword).errors, vec!["Virheellinen salasana!".to_string()]);
    assert_eq!(login_failed_page(LoginFailure::NoSuchUser).errors, vec!["Käyttäjää ei ole olemassa!".to_string()]);
    assert_eq!(login_failed_page(LoginFailure::Other).errors, vec!["Palvelin virhe!".to_string()]);
}

#[test]
fn application_form_refuses_html() {
    let plain = ApplicationForm { background: "opiskelija".into(), motivation: "1 < 2".into(), other: String::new() };
    assert_eq!(plain.html_error(), None);
    let html = ApplicationForm { background: "<b>hei</b>".into(), motivation: String::new(), other: String::new() };
    assert_eq!(html.html_error(), Some("HTML tags are not allowed.".to_string()));
}

#[test]
fn user_list_paging() {
    assert_eq!(user_pages(0), 0);
    assert_eq!(user_pages(20), 1);
    assert_eq!(user_pages(21), 2);
    assert_eq!(user_offset(1), 0);
    assert_eq!(user_offset(3), 40);
    assert_eq!(UsersRequest { min_access: None, target_user: None }.min_access_level(), 10);
    assert_eq!(UsersRequest { min_access: Some(90), target_user: None }.min_access_level(), 90);
}

#[test]
fn validation_helpers() {
    assert!(is_email("a.b+c@d-e.fi"));
    assert!(!is_email("a@b"));
    assert!(length_within("ääkkö", 5, 5));
    assert!(!length_within("", 1, 3));
}

#[test]
fn page_gates_order_ban_and_level() {
    assert!(matches!(user(90, true).page_gate(90), PageAccess::Banned));
    assert!(matches!(user(20, false).page_gate(90), PageAccess::Forbidden { required_access_level: 90 }));
    assert!(matches!(user(255, true).page_gate(90), PageAccess::Allowed));
    assert!(matches!(user(20, true).page_gate_level_first(100), PageAccess::Forbidden { required_access_level: 100 }));
    assert!(matches!(user(100, true).page_gate_level_first(100), PageAccess::Banned));
}

#[test]
fn action_gates() {
    assert!(user(90, false).may_act(90));
    assert!(!user(90, true).may_act(10));
    assert!(user(10, false).may_register());
    assert!(!user(20, false).may_register());
    assert!(user(20, false).may_apply());
    assert!(matches!(user(10, false).file_access(50), FileAccess::NoAccess));
    assert!(matches!(user(255, true).file_access(50), FileAccess::Banned));
    assert!(matches!(user(50, false).file_access(50), FileAccess::Allowed));
    assert!(user(100, false).may_ban(90));
    assert!(!user(90, false).may_ban(90));
    assert!(user(20, false).may_delete_post(1, 5, 4));
    assert!(!user(20, false).may_delete_post(2, 5, 4));
    assert!(!user(255, false).may_delete_post(2, 4, 4));
    assert!(user(20, false).may_delete_thread(1));
    assert!(!user(20, true).may_delete_thread(1));
    assert!(board_open_to(50, 50));
    assert!(!board_open_to(51, 50));
    assert!(may_modify_session(3, 20, 3));
    assert!(!may_modify_session(3, 90, 4));
    assert!(may_modify_session(3, 100, 4));
    assert_eq!(reviewed_level(true), 50);
    assert_eq!(reviewed_level(false), 20);
}
