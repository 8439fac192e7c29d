use lauta::access::AccessLevel;
use lauta::auth::{
    access_token_of, authenticate, create_access_token, validate_claims, authenticate_session, login_user_checked, session_update_check, UserModel, UserInfo, make_claims, session_expiry, user_lookup, user_role,
    AuthFailure, SessionRecord, StoredUser, UserLookup, MAX_TIMESTAMP, MIN_TIMESTAMP,
};
use lauta::catalog::{build_catalog, CatalogThread, PostOutput};
use lauta::chat_socket::{chat_display_name, ChatConnection, SocketAction, SocketEvent};
use lauta::gate::{BanInfo, UserData};
use lauta::page_flow::{PageAction, PageEvent, PageFlow, PageRequest, PageView};
use lauta::password::{check_password, hash_password_pbkdf2, is_phc_string};
use lauta::posting::{attachment_paths, files_to_remove, reply_links, Attachment, DbError};
use lauta::reply_flow::BoardInfo;
use lauta::text::push_decimal;
use lauta::ws::{
    keeps_running, session_start, ClientMessage, ConnectionResponse, Registry, ServiceNotice, SessionActivity, SessionReaction,
};

#[test]
fn bearer_tokens_are_read_from_the_header() {
    assert_eq!(access_token_of(None), Err(AuthFailure::Unauthorized));
    assert_eq!(access_token_of(Some(None)), Err(AuthFailure::Unprocessable));
    assert_eq!(access_token_of(Some(Some("Basic abc".into()))), Err(AuthFailure::Unauthorized));
    assert_eq!(access_token_of(Some(Some("Bearer x".into()))), Err(AuthFailure::Unauthorized));
    assert_eq!(access_token_of(Some(Some("Bearer abc.def".into()))), Ok("abc.def".to_string()));
}

#[test]
fn sessions_end_when_their_time_is_up() {
    let claims = make_claims(20, 500, 3, 100);
    assert_eq!((claims.exp, claims.iat, claims.sub, claims.role), (500, 100, 3, 20));
    let live = SessionRecord { id: 3, user_id: 8, ended_at: 500 };
    let info = authenticate(&claims, &live, 499).unwrap();
    assert_eq!((info.user_id, info.session_id, info.access_level), (8, 3, 20));
    assert_eq!(authenticate(&claims, &live, 500).err(), Some(AuthFailure::Unauthorized));
}

#[test]
fn login_lookup_and_password_checks() {
    assert!(matches!(user_lookup(Some("a".into()), Some("b@c.d".into())), UserLookup::ByUsername(u) if u == "a"));
    assert!(matches!(user_lookup(None, Some("b@c.d".into())), UserLookup::ByEmail(e) if e == "b@c.d"));
    assert!(matches!(user_lookup(None, None), UserLookup::NotIdentifiable));

    let hash = hash_password_pbkdf2("hunter22");
    assert!(is_phc_string(&hash));
    assert!(hash.starts_with("$pbkdf2-sha256$"));
    assert_eq!(check_password("not a hash", "x"), None);
    let user = |h: Option<String>| StoredUser { id: 1, access_level: 20, password_hash: h };
    assert!(login_user_checked(Ok(user(Some(hash.clone()))), "hunter22").is_ok());
    assert_eq!(login_user_checked(Ok(user(Some(hash))), "hunter2").err(), Some(AuthFailure::Unauthorized));
    assert_eq!(login_user_checked(Ok(user(None)), "x").err(), Some(AuthFailure::ServerError));
    assert_eq!(login_user_checked(Ok(user(Some("roska".into()))), "x").err(), Some(AuthFailure::ServerError));
    assert_eq!(login_user_checked(Err(DbError::NotFound), "x").err(), Some(AuthFailure::NotFound));
}

#[test]
fn session_expiry_and_roles() {
    assert_eq!(session_expiry(Some(1_700_000_000), AccessLevel::Root, 0), Ok(1_700_000_000));
    assert_eq!(session_expiry(Some(i64::MIN), AccessLevel::Root, 0), Err(AuthFailure::BadRequest));
    assert_eq!(session_expiry(None, AccessLevel::Admin, 10), Ok(10 + 7 * 86_400));
    assert_eq!(user_role(90), Ok(AccessLevel::Moderator));
    assert_eq!(user_role(91), Err(AuthFailure::ServerError));
}

#[test]
fn attachments_and_removed_files() {
    let a = Attachment { id: 1, file_name: "k.png".into(), file_location: "files".into(), thumbnail_location: "thumbs".into() };
    assert_eq!(attachment_paths(&a), ("files/k.png".to_string(), "thumbs/k.png".to_string()));
    let b = Attachment { id: 2, file_name: "x.jpg".into(), file_location: "f".into(), thumbnail_location: "t".into() };
    assert_eq!(
        files_to_remove(&vec![Some(a), None, Some(b)]),
        vec!["files/k.png".to_string(), "thumbs/k.png".to_string(), "f/x.jpg".to_string(), "t/x.jpg".to_string()]
    );
    assert!(files_to_remove(&vec![None]).is_empty());
}

#[test]
fn catalog_counts_replies() {
    let post = |id: u32| PostOutput { id, show_username: false, message: format!("m{}", id), country_code: None, hidden: false };
    let threads = vec![CatalogThread { id: 1, title: "A".into(), pinned: true }, CatalogThread { id: 2, title: "B".into(), pinned: false }];
    let cat = build_catalog(&threads, &vec![vec![post(1), post(5), post(6)], vec![post(2)]]);
    assert_eq!(cat.len(), 2);
    assert_eq!((cat[0].title.as_str(), cat[0].pinned, cat[0].op_post.id, cat[0].replies), ("A", true, 1, 2));
    assert_eq!((cat[1].op_post.message.as_str(), cat[1].replies), ("m2", 0));
}

#[test]
fn registry_connects_and_moves_sessions() {
    let mut r: Registry<&str> = Registry::new(2);
    assert!(matches!(r.connect(1, "a"), ConnectionResponse::Connected));
    assert!(matches!(r.connect(2, "b"), ConnectionResponse::Connected));
    assert!(matches!(r.connect(3, "c"), ConnectionResponse::ServerFull));
    assert_eq!(r.len(), 2);
    assert!(matches!(r.reconnect(2, 5), ConnectionResponse::Reconnected));
    assert_eq!(r.get(5), Some(&"b"));
    assert_eq!(r.get(2), None);
    assert_eq!(r.disconnect(1), Some("a"));
    assert_eq!(r.disconnect(1), None);
    assert_eq!(r.len(), 1);
}

#[test]
fn service_registry_notices() {
    let mut r: Registry<&str> = Registry::new(4);
    match r.add_client(1, "s1", 9, "svc") {
        Some(ServiceNotice::Connection { srvc_id, srvc }) => assert_eq!((srvc_id, srvc), (9, "svc")),
        _ => panic!("expected a connection notice"),
    }
    match r.add_client(1, "s1b", 9, "svc") {
        Some(ServiceNotice::Close { to, srvc_id }) => assert_eq!((to, srvc_id), ("s1", 9)),
        _ => panic!("expected a close notice"),
    }
    assert_eq!(r.get(1), Some(&"s1b"));
}

fn user(level: u8, ban_post: Option<Option<u32>>) -> UserData {
    UserData { id: 1, access_level: level, banned: ban_post.map(|p| BanInfo { post_id: p }), ip_addr: String::new() }
}

fn board(level: u8) -> BoardInfo {
    BoardInfo { id: 4, access_level: level, thread_size_limit: 10, active_threads_limit: 10, captcha: false }
}

#[test]
fn board_page_steps() {
    let mut f = PageFlow::new(PageRequest::Board { handle: "b".into() });
    assert!(matches!(f.step(PageEvent::Begin), PageAction::ResolveUser));
    assert!(matches!(f.step(PageEvent::User(Ok(user(20, None)))), PageAction::FindBoard));
    assert!(matches!(f.step(PageEvent::Board(Ok(board(20)))), PageAction::ListBoards));
    assert!(matches!(f.step(PageEvent::Boards(Ok(()))), PageAction::ListThreads { board_id: 4 }));
    assert!(matches!(f.step(PageEvent::Threads(Ok(()))), PageAction::Render(PageView::Board)));

    let mut f = PageFlow::new(PageRequest::Board { handle: "b".into() });
    f.step(PageEvent::Begin);
    f.step(PageEvent::User(Ok(user(20, None))));
    assert!(matches!(f.step(PageEvent::Board(Err(DbError::NotFound))), PageAction::Render(PageView::NotFound)));

    let mut f = PageFlow::new(PageRequest::Board { handle: "b".into() });
    f.step(PageEvent::Begin);
    f.step(PageEvent::User(Ok(user(20, None))));
    let a = f.step(PageEvent::Board(Ok(board(50))));
    assert!(matches!(a, PageAction::Render(PageView::Forbidden { required_access_level: 50 })));
}

#[test]
fn banned_users_see_the_ban_page() {
    let mut f = PageFlow::new(PageRequest::Thread { handle: "b".into(), thread_id: 3 });
    f.step(PageEvent::Begin);
    assert!(matches!(f.step(PageEvent::User(Ok(user(20, Some(Some(8)))))), PageAction::FindBanPost { post_id: 8 }));
    assert!(matches!(f.step(PageEvent::BanPost(Ok(()))), PageAction::Render(PageView::Banned { with_post: true })));

    let mut f = PageFlow::new(PageRequest::Thread { handle: "b".into(), thread_id: 3 });
    f.step(PageEvent::Begin);
    assert!(matches!(f.step(PageEvent::User(Ok(user(20, Some(None))))), PageAction::Render(PageView::Banned { with_post: false })));

    let mut f = PageFlow::new(PageRequest::Thread { handle: "b".into(), thread_id: 3 });
    f.step(PageEvent::Begin);
    assert!(matches!(f.step(PageEvent::User(Ok(user(255, Some(None))))), PageAction::ListBoards));
    assert!(matches!(f.step(PageEvent::Boards(Ok(()))), PageAction::FindBoard));
    assert!(matches!(f.step(PageEvent::Board(Ok(board(20)))), PageAction::FindThread));
    assert!(matches!(f.step(PageEvent::Thread(Err(DbError::NotFound))), PageAction::Render(PageView::NotFound)));
}

#[test]
fn chat_connection_heartbeat() {
    let mut c = ChatConnection::new(0);
    assert!(matches!(c.step(SocketEvent::Tick, 5_000), SocketAction::Ping));
    assert!(matches!(c.step(SocketEvent::Pong, 9_000), SocketAction::Nothing));
    assert_eq!(c.last_heartbeat, 9_000);
    assert!(matches!(c.step(SocketEvent::Tick, 19_000), SocketAction::Ping));
    match c.step(SocketEvent::Ping(vec![1, 2]), 19_500) {
        SocketAction::Pong(b) => assert_eq!(b, vec![1, 2]),
        _ => panic!("expected a pong"),
    }
    assert!(matches!(c.step(SocketEvent::Text("{}".into()), 20_000), SocketAction::HandleText(t) if t == "{}"));
    assert!(matches!(c.step(SocketEvent::Outgoing("x".into()), 20_000), SocketAction::SendText(t) if t == "x"));
    assert!(matches!(c.step(SocketEvent::Tick, 29_501), SocketAction::Close(None)));
    assert!(c.closed);
}

#[test]
fn chat_names() {
    assert_eq!(chat_display_name(Some("matti".into()), 3), "matti");
    assert_eq!(chat_display_name(None, 1234), "anonyymi-1234");
    assert_eq!(chat_display_name(None, 0), "anonyymi-0");
    let mut s = String::from("n=");
    push_decimal(&mut s, u64::MAX);
    assert_eq!(s, "n=18446744073709551615");
}

#[test]
fn service_sessions_react_to_clients() {
    assert!(session_start(true).is_none());
    let c = session_start(false).unwrap();
    assert_eq!((c.code, c.description), (1007, Some("1".to_string())));
    assert!(keeps_running(Some(ConnectionResponse::Reconnected)));
    assert!(!keeps_running(Some(ConnectionResponse::ServerFull)));
    assert!(!keeps_running(None));

    let mut s = SessionActivity { last_activity: 0 };
    assert!(matches!(s.on_message(ClientMessage::Text("{}".into()), 5), SessionReaction::RequestService(t) if t == "{}"));
    assert_eq!(s.last_activity, 5);
    assert!(matches!(s.on_message(ClientMessage::Ping(vec![7]), 6), SessionReaction::Pong(p) if p == vec![7]));
    assert!(matches!(s.on_message(ClientMessage::Continuation, 7), SessionReaction::Stop));
    assert!(matches!(s.on_message(ClientMessage::ProtocolError, 9), SessionReaction::Stop));
    assert_eq!(s.last_activity, 7);
    assert!(matches!(s.on_message(ClientMessage::Close(None), 10), SessionReaction::Close(None)));
}

#[test]
fn session_lookups_and_updates() {
    let claims = make_claims(90, 0, 3, 0);
    assert_eq!(authenticate_session(&claims, Err(DbError::Other), 0).err(), Some(AuthFailure::ServerError));
    let s = SessionRecord { id: 3, user_id: 8, ended_at: 50 };
    assert_eq!(authenticate_session(&claims, Ok(s), 10).unwrap().access_level, 90);

    let me = UserInfo { user_id: 8, session_id: 3, access_level: 20 };
    let mine = || Ok(SessionRecord { id: 3, user_id: 8, ended_at: 50 });
    let theirs = || Ok(SessionRecord { id: 4, user_id: 9, ended_at: 50 });
    assert_eq!(session_update_check(&me, mine(), 1_000), Ok(1_000));
    assert_eq!(session_update_check(&me, theirs(), 1_000), Err(403));
    assert_eq!(session_update_check(&UserInfo { access_level: 100, ..me }, theirs(), 1_000), Ok(1_000));
    assert_eq!(session_update_check(&me, mine(), i64::MAX), Err(400));
    assert_eq!(session_update_check(&me, Err(DbError::NotFound), 0), Err(404));
    assert_eq!(session_update_check(&me, Err(DbError::Other), 0), Err(500));

    let anon = UserModel::anon_user();
    assert_eq!(anon.access_level, 10);
    assert!(anon.username.is_none() && anon.email.is_none() && anon.password_hash.is_none());
}

#[test]
fn replies_link_back() {
    let links = reply_links(&vec![4, 9], 12);
    assert_eq!(links.iter().map(|l| (l.post_id, l.reply_id)).collect::<Vec<_>>(), vec![(4, 12), (9, 12)]);
    assert!(reply_links(&vec![], 1).is_empty());
}

#[test]
fn timestamp_range_is_chronos() {
    assert_eq!(chrono::DateTime::<chrono::Utc>::MIN_UTC.timestamp(), MIN_TIMESTAMP);
    assert_eq!(chrono::DateTime::<chrono::Utc>::MAX_UTC.timestamp(), MAX_TIMESTAMP);
    assert_eq!(session_expiry(Some(MIN_TIMESTAMP), AccessLevel::Root, 0), Ok(MIN_TIMESTAMP));
    assert_eq!(session_expiry(Some(MAX_TIMESTAMP + 1), AccessLevel::Root, 0), Err(AuthFailure::BadRequest));
}

#[test]
fn access_tokens_round_trip() {
    let far = 4_000_000_000;
    let t1 = create_access_token(make_claims(20, far, 7, 100), b"salaisuus").unwrap();
    let t2 = create_access_token(make_claims(20, far, 7, 100), b"salaisuus").unwrap();
    assert_eq!(t1, t2);
    let c = validate_claims(Some(Some(format!("Bearer {}", t1))), b"salaisuus").unwrap();
    assert_eq!((c.exp, c.iat, c.sub, c.role), (4_000_000_000, 100, 7, 20));
    assert_eq!(validate_claims(Some(Some(format!("Bearer {}", t1))), b"toinen").err(), Some(AuthFailure::Unauthorized));
    let old = create_access_token(make_claims(20, 1_000, 7, 100), b"salaisuus").unwrap();
    assert_eq!(validate_claims(Some(Some(format!("Bearer {}", old))), b"salaisuus").err(), Some(AuthFailure::Unauthorized));
    assert_eq!(validate_claims(None, b"salaisuus").err(), Some(AuthFailure::Unauthorized));
    assert_eq!(validate_claims(Some(None), b"salaisuus").err(), Some(AuthFailure::Unprocessable));
    assert!(lauta::auth::claims_of_numbers(1, 2, 3, 256).is_none());
    assert!(lauta::auth::claims_of_numbers(1, 2, 1 << 32, 3).is_none());
    assert_eq!(lauta::auth::claims_of_numbers(1, 2, 3, 4).map(|c| (c.exp, c.iat, c.sub, c.role)), Some((1, 2, 3, 4)));
}
