use lauta::admin::{
    application_saved, board_saved, file_lookup_error, file_refusal, registration_saved, review_check, user_ban,
    FormAnswer,
};
use lauta::forms::{CreateBoardForm, EditBoardForm, RegisterForm};
use lauta::gate::{BanInfo, FileAccess, UserData};
use lauta::posting::DbError;

fn user(level: u8, banned: bool) -> UserData {
    UserData { id: 9, access_level: level, banned: if banned { Some(BanInfo { post_id: None }) } else { None }, ip_addr: String::new() }
}

fn board_form(handle: &str, captcha: bool) -> CreateBoardForm {
    CreateBoardForm {
        handle: handle.into(),
        title: "Satunnainen".into(),
        description: "kaikki".into(),
        access_level: 10,
        threads_limit: 50,
        thread_size: 250,
        captcha: if captcha { Some("on".into()) } else { None },
        nsfw: None,
    }
}

#[test]
fn board_form_checks() {
    assert!(matches!(board_form("b", false).check(&user(90, false)), Err(FormAnswer::Status(403))));
    assert!(matches!(board_form("b", false).check(&user(100, true)), Err(FormAnswer::Status(403))));
    match board_form("123", false).check(&user(100, false)) {
        Err(FormAnswer::Errors(e)) => assert_eq!(e, vec!["Handle must contain only alphabets.".to_string()]),
        _ => panic!("expected errors"),
    }
    match board_form("ab1", false).check(&user(100, false)) {
        Err(FormAnswer::Errors(e)) => assert_eq!(e, vec!["Handle must contain only alphabets.".to_string()]),
        _ => panic!("expected errors"),
    }
    let m = board_form("b", true).check(&user(255, true)).ok().unwrap();
    assert_eq!((m.handle.as_str(), m.active_threads_limit, m.thread_size_limit, m.captcha, m.nsfw), ("b", 50, 250, true, false));
    let edit = EditBoardForm {
        handle: "g".into(),
        title: "Pelit".into(),
        description: String::new(),
        access_level: 50,
        threads_limit: 1,
        thread_size: 2,
        captcha: None,
        nsfw: Some("on".into()),
    };
    let m = edit.check(&user(100, false)).ok().unwrap();
    assert!(m.nsfw && !m.captcha);
    assert!(matches!(board_saved(Ok(())), FormAnswer::Redirect(l) if l == "/admin"));
    assert!(matches!(board_saved(Err(DbError::Other)), FormAnswer::Status(500)));
}

#[test]
fn registration_checks() {
    let f = RegisterForm { username: "matti".into(), email: "m@e.fi".into(), pwd: "salasana".into() };
    assert!(matches!(f.check(20), Some(FormAnswer::Status(403))));
    assert!(f.check(10).is_none());
    let bad = RegisterForm { username: "matti".into(), email: "m@e.fi".into(), pwd: "x".into() };
    assert!(matches!(bad.check(10), Some(FormAnswer::Errors(e)) if e == vec!["Salasana täytyy olla 5-128 merkkiä pitkä.".to_string()]));
    assert!(matches!(registration_saved(Ok(())), FormAnswer::Redirect(l) if l == "/apply"));
    assert!(matches!(registration_saved(Err(DbError::UniqueViolation)), FormAnswer::Errors(e) if e == vec!["Käyttäjänimi tai sähköposti on jo olemassa!".to_string()]));
    assert!(matches!(registration_saved(Err(DbError::Other)), FormAnswer::Status(500)));
    assert!(matches!(application_saved(Ok(())), FormAnswer::Redirect(l) if l == "/"));
    assert!(matches!(application_saved(Err(DbError::Other)), FormAnswer::Errors(e) if e == vec!["Server error.".to_string()]));
}

#[test]
fn reviews_and_bans() {
    assert_eq!(review_check(&user(100, false), false), None);
    assert_eq!(review_check(&user(100, false), true), Some(403));
    assert_eq!(review_check(&user(90, false), false), Some(403));
    let b = user_ban(1, 2, "spam".into(), 1_000, 3).unwrap();
    assert_eq!((b.moderator_id, b.user_id, b.post_id, b.expires_at), (1, Some(2), None, 1_000 + 3 * 86_400));
    assert_eq!(b.reason, Some("spam".to_string()));
    assert_eq!(b.ip_address, "");
    assert!(user_ban(1, 2, "x".into(), 0, i64::MAX).is_none());
    assert!(user_ban(1, 2, "x".into(), i64::MAX, 1).is_none());
}

#[test]
fn file_errors() {
    let e = file_refusal(FileAccess::NoAccess).unwrap();
    assert_eq!((e.status, e.message.as_str()), (403, "Ei käyttöoikeutta!"));
    let e = file_refusal(FileAccess::Banned).unwrap();
    assert_eq!((e.status, e.message.as_str()), (403, "Käyttäjätili on bannattu!"));
    assert!(file_refusal(FileAccess::Allowed).is_none());
    let e = file_lookup_error(DbError::NotFound);
    assert_eq!((e.status, e.message.as_str()), (404, "Tiedostoa ei ole olemassa!"));
    assert_eq!(file_lookup_error(DbError::Other).status, 500);
}
