use lauta::gate::{BanInfo, UserData};
use lauta::posting::{DbError, Refusal};
use lauta::reply_flow::{
    BoardInfo, Outcome, ReplyAction, ReplyEvent, ReplyFlow, ReplyRequest, ReplyStage, ThreadStatus,
};
use lauta::thread_flow::{ThreadAction, ThreadEvent, ThreadFlow, ThreadRequest};

fn board(level: u8, captcha: bool) -> BoardInfo {
    BoardInfo { id: 3, access_level: level, thread_size_limit: 300, active_threads_limit: 100, captcha }
}

fn user(level: u8, banned: bool) -> UserData {
    UserData {
        id: 42,
        access_level: level,
        banned: if banned { Some(BanInfo { post_id: None }) } else { None },
        ip_addr: "127.0.0.1".to_string(),
    }
}

fn reply(message: &str, captcha: Option<(&str, u64)>) -> ReplyFlow {
    ReplyFlow::new(ReplyRequest {
        board_handle: "b".to_string(),
        thread_id: 9,
        message: message.to_string(),
        captcha: captcha.map(|c| c.0.to_string()),
        captcha_id: captcha.map(|c| c.1),
    })
}

fn refusal_text(a: &ReplyAction) -> Option<String> {
    match a {
        ReplyAction::Respond(Outcome::Refused(Refusal::ForbiddenWith(e))) => Some(e.error.clone()),
        _ => None,
    }
}

#[test]
fn reply_happy_path_without_captcha() {
    let mut f = reply("hei", None);
    assert!(matches!(f.step(ReplyEvent::Begin), ReplyAction::ResolveUser));
    assert!(matches!(f.step(ReplyEvent::User(Ok(user(10, false)))), ReplyAction::FindBoard));
    assert!(matches!(f.step(ReplyEvent::Board(Ok(board(10, false)))), ReplyAction::CountReplies));
    assert!(matches!(f.step(ReplyEvent::Replies(Ok(300))), ReplyAction::FindThread));
    let a = f.step(ReplyEvent::Thread(Ok(ThreadStatus { archived: false, locked: false })));
    assert!(matches!(a, ReplyAction::Store { user_id: 42, access_level: 10 }));
    assert!(matches!(f.step(ReplyEvent::Stored(Ok(()))), ReplyAction::Respond(Outcome::Created)));
    assert!(matches!(f.stage, ReplyStage::Done));
}

#[test]
fn reply_refuses_empty_and_long_messages() {
    let mut f = reply("", None);
    assert_eq!(refusal_text(&f.step(ReplyEvent::Begin)).unwrap(), "Viesti ei voi olla tyhjä!");
    let long = "ä".repeat(40_001);
    let mut f = reply(&long, None);
    assert_eq!(refusal_text(&f.step(ReplyEvent::Begin)).unwrap(), "Viesti on liian pitkä (yli 40 000 merkkiä)");
    let fits = "a".repeat(40_000);
    let mut f = reply(&fits, None);
    assert!(matches!(f.step(ReplyEvent::Begin), ReplyAction::ResolveUser));
    // the limit counts characters: 40 000 two-byte letters still fit
    let wide = "ä".repeat(40_000);
    let mut f = reply(&wide, None);
    assert!(matches!(f.step(ReplyEvent::Begin), ReplyAction::ResolveUser));
}

#[test]
fn reply_refused_on_high_board() {
    let mut f = reply("hei", None);
    f.step(ReplyEvent::Begin);
    f.step(ReplyEvent::User(Ok(user(20, false))));
    let a = f.step(ReplyEvent::Board(Ok(board(50, false))));
    assert!(matches!(a, ReplyAction::Respond(Outcome::Refused(Refusal::Forbidden))));
}

#[test]
fn reply_refused_on_full_archived_or_locked_thread() {
    let mut f = reply("hei", None);
    f.step(ReplyEvent::Begin);
    f.step(ReplyEvent::User(Ok(user(10, false))));
    f.step(ReplyEvent::Board(Ok(board(10, false))));
    assert_eq!(refusal_text(&f.step(ReplyEvent::Replies(Ok(301)))).unwrap(), "Lanka on täynnä!");

    for (archived, locked, text) in [
        (true, true, "Lanka on arkistoitu, eikä siihen voi enää vastata!"),
        (false, true, "Lanka on lukittu, eikä siihen voi enää vastata!"),
    ] {
        let mut f = reply("hei", None);
        f.step(ReplyEvent::Begin);
        f.step(ReplyEvent::User(Ok(user(10, false))));
        f.step(ReplyEvent::Board(Ok(board(10, false))));
        f.step(ReplyEvent::Replies(Ok(1)));
        let a = f.step(ReplyEvent::Thread(Ok(ThreadStatus { archived, locked })));
        assert_eq!(refusal_text(&a).unwrap(), text);
    }
}

#[test]
fn reply_captcha_paths() {
    let mut f = reply("hei", None);
    f.step(ReplyEvent::Begin);
    f.step(ReplyEvent::User(Ok(user(10, false))));
    f.step(ReplyEvent::Board(Ok(board(10, true))));
    f.step(ReplyEvent::Replies(Ok(0)));
    let a = f.step(ReplyEvent::Thread(Ok(ThreadStatus { archived: false, locked: false })));
    assert_eq!(refusal_text(&a).unwrap(), "Captcha epäonnistui!");

    let mut f = reply("hei", Some(("abc", 77)));
    f.step(ReplyEvent::Begin);
    f.step(ReplyEvent::User(Ok(user(10, false))));
    f.step(ReplyEvent::Board(Ok(board(10, true))));
    f.step(ReplyEvent::Replies(Ok(0)));
    let a = f.step(ReplyEvent::Thread(Ok(ThreadStatus { archived: false, locked: false })));
    assert!(matches!(a, ReplyAction::VerifyCaptcha { id: 77 }));
    let a = f.step(ReplyEvent::Captcha(Err("Väärä vastaus".to_string())));
    assert_eq!(refusal_text(&a).unwrap(), "Väärä vastaus");

    let mut f = reply("hei", Some(("abc", 77)));
    f.step(ReplyEvent::Begin);
    f.step(ReplyEvent::User(Ok(user(10, false))));
    f.step(ReplyEvent::Board(Ok(board(10, true))));
    f.step(ReplyEvent::Replies(Ok(0)));
    f.step(ReplyEvent::Thread(Ok(ThreadStatus { archived: false, locked: false })));
    assert!(matches!(f.step(ReplyEvent::Captcha(Ok(()))), ReplyAction::Store { .. }));
}

#[test]
fn reply_store_failures() {
    for (err, text) in [(DbError::ForeignKeyViolation, Some("Et voi vastata viestiin, jota ei ole olemassa!")), (DbError::Other, None)] {
        let mut f = reply("hei", None);
        f.step(ReplyEvent::Begin);
        f.step(ReplyEvent::User(Ok(user(10, false))));
        f.step(ReplyEvent::Board(Ok(board(10, false))));
        f.step(ReplyEvent::Replies(Ok(0)));
        f.step(ReplyEvent::Thread(Ok(ThreadStatus { archived: false, locked: false })));
        let a = f.step(ReplyEvent::Stored(Err(err)));
        match text {
            Some(t) => assert_eq!(refusal_text(&a).unwrap(), t),
            None => assert!(matches!(a, ReplyAction::Respond(Outcome::Refused(Refusal::ServerError)))),
        }
    }
}

#[test]
fn reply_lookup_errors_and_stray_events_are_server_errors() {
    let mut f = reply("hei", None);
    f.step(ReplyEvent::Begin);
    let a = f.step(ReplyEvent::User(Err(DbError::Other)));
    assert!(matches!(a, ReplyAction::Respond(Outcome::Refused(Refusal::ServerError))));
    let mut f = reply("hei", None);
    let a = f.step(ReplyEvent::Stored(Ok(())));
    assert!(matches!(a, ReplyAction::Respond(Outcome::Refused(Refusal::ServerError))));
}

fn new_thread(message: &str, captcha: Option<(&str, u64)>) -> ThreadFlow {
    ThreadFlow::new(ThreadRequest {
        board_handle: "b".to_string(),
        topic: "Aihe".to_string(),
        message: message.to_string(),
        captcha: captcha.map(|c| c.0.to_string()),
        captcha_id: captcha.map(|c| c.1),
    })
}

fn thread_refusal(a: &ThreadAction) -> Option<String> {
    match a {
        ThreadAction::Respond(Outcome::Refused(Refusal::ForbiddenWith(e))) => Some(e.error.clone()),
        _ => None,
    }
}

#[test]
fn thread_happy_path_stores_with_board_limits() {
    let mut f = new_thread("uusi lanka", None);
    assert!(matches!(f.step(ThreadEvent::Begin), ThreadAction::ResolveUser));
    assert!(matches!(f.step(ThreadEvent::User(Ok(user(20, false)))), ThreadAction::FindBoard));
    match f.step(ThreadEvent::Board(Ok(board(20, false)))) {
        ThreadAction::Store { user_id, board_id, ip_addr, access_level, active_threads_limit } => {
            assert_eq!((user_id, board_id, access_level, active_threads_limit), (42, 3, 20, 100));
            assert_eq!(ip_addr, "127.0.0.1");
        }
        _ => panic!("expected a store"),
    }
    assert!(matches!(f.step(ThreadEvent::Stored(Ok(()))), ThreadAction::Respond(Outcome::Created)));
}

#[test]
fn thread_refusals() {
    let mut f = new_thread("", None);
    assert_eq!(thread_refusal(&f.step(ThreadEvent::Begin)).unwrap(), "Viesti ei voi olla tyhjä!");
    let long = "x".repeat(20_001);
    let mut f = new_thread(&long, None);
    assert_eq!(thread_refusal(&f.step(ThreadEvent::Begin)).unwrap(), "Viesti on liian pitkä (yli 20 000 merkkiä)");
    let wide = "ö".repeat(20_000);
    let mut f = new_thread(&wide, None);
    assert!(matches!(f.step(ThreadEvent::Begin), ThreadAction::ResolveUser));

    let mut f = new_thread("hei", None);
    f.step(ThreadEvent::Begin);
    let a = f.step(ThreadEvent::User(Ok(user(90, true))));
    assert_eq!(thread_refusal(&a).unwrap(), "Käyttäjätilisi on bannattu!");

    let mut f = new_thread("hei", None);
    f.step(ThreadEvent::Begin);
    assert!(matches!(f.step(ThreadEvent::User(Ok(user(255, true)))), ThreadAction::FindBoard));

    let mut f = new_thread("hei", None);
    f.step(ThreadEvent::Begin);
    f.step(ThreadEvent::User(Ok(user(10, false))));
    let a = f.step(ThreadEvent::Board(Ok(board(20, false))));
    assert!(matches!(a, ThreadAction::Respond(Outcome::Refused(Refusal::Forbidden))));
}

#[test]
fn thread_captcha_and_store_errors() {
    let mut f = new_thread("hei", Some(("x", 5)));
    f.step(ThreadEvent::Begin);
    f.step(ThreadEvent::User(Ok(user(10, false))));
    assert!(matches!(f.step(ThreadEvent::Board(Ok(board(10, true)))), ThreadAction::VerifyCaptcha { id: 5 }));
    assert!(matches!(f.step(ThreadEvent::Captcha(Ok(()))), ThreadAction::Store { .. }));
    let a = f.step(ThreadEvent::Stored(Err(DbError::NotFound)));
    assert_eq!(thread_refusal(&a).unwrap(), "Ongelma tiedoston käsittelyssä!");

    let mut f = new_thread("hei", None);
    f.step(ThreadEvent::Begin);
    f.step(ThreadEvent::User(Ok(user(10, false))));
    let a = f.step(ThreadEvent::Board(Ok(board(10, true))));
    assert_eq!(thread_refusal(&a).unwrap(), "Captcha epäonnistui!");
}
