use lauta::account_flow::{
    auth_error, login_error, plan_root_user, session_end, ApiReply, RegisterAction, RegisterEvent, RegisterFlow,
    RootUserPlan, ServiceLogin, ServiceSessionAction, ServiceSessionEvent, ServiceSessionFlow, SessionAction,
    SessionEvent, SessionFlow, SESSION_LIFETIME_SECS,
};
use lauta::auth::UserLookup;
use lauta::auth::{AuthFailure, SessionRecord, StoredUser, UserInfo};
use lauta::board_api::{
    board_creation_gate, board_input_saved, board_insert_status, plan_upload, thread_output, threads_output, ApiBoard, MediaType,
    OpPost, PostRow, PostingAction, PostingEvent, PostingFlow, PostingRequest, ThreadRow, Upload,
};
use lauta::forms::{CreateSessionInput, RegisterUserInput};
use lauta::password::{check_password, hash_password_pbkdf2};
use lauta::posting::DbError;

fn register_input() -> RegisterUserInput {
    RegisterUserInput { password: "salasana".into(), username: "matti".into(), email: "matti@example.fi".into() }
}

fn info(level: u8) -> UserInfo {
    UserInfo { user_id: 7, session_id: 11, access_level: level }
}

fn failed(r: &ApiReply) -> (u16, Option<String>) {
    match r {
        ApiReply::Failed(e) => (e.status, e.message.clone()),
        _ => panic!("expected a failure"),
    }
}

#[test]
fn registration_happy_path() {
    let mut f = RegisterFlow::new(register_input());
    assert!(matches!(f.step(RegisterEvent::Begin), RegisterAction::Authenticate));
    match f.step(RegisterEvent::Authenticated(Ok(info(10)))) {
        RegisterAction::UpdateUser { user_id, access_level, password_hash } => {
            assert_eq!((user_id, access_level), (7, 20));
            assert_eq!(check_password(&password_hash, "salasana"), Some(true));
            assert_eq!(check_password(&password_hash, "väärä"), Some(false));
        }
        _ => panic!("expected an update"),
    }
    assert!(matches!(f.step(RegisterEvent::Updated(Ok(()))), RegisterAction::EndSession { session_id: 11, user_id: 7 }));
    match f.step(RegisterEvent::SessionEnded { now: 1_000 }) {
        RegisterAction::CreateSession { user_id, ended_at } => {
            assert_eq!(user_id, 7);
            assert_eq!(ended_at, 1_000 + 31_536_000);
        }
        _ => panic!("expected a session"),
    }
    match f.step(RegisterEvent::SessionCreated(Ok(SessionRecord { id: 12, user_id: 7, ended_at: 31_537_000 }))) {
        RegisterAction::IssueToken(c) => {
            assert_eq!((c.exp, c.iat, c.sub, c.role), (31_537_000, 1_000, 12, 20));
        }
        _ => panic!("expected a token"),
    }
    match f.step(RegisterEvent::TokenIssued(Ok("tok".into()))) {
        RegisterAction::Respond(ApiReply::Created { access_token }) => assert_eq!(access_token, "tok"),
        _ => panic!("expected created"),
    }
}

#[test]
fn registration_refusals() {
    let mut f = RegisterFlow::new(RegisterUserInput { password: "x".into(), username: "matti".into(), email: "m@e.fi".into() });
    match f.step(RegisterEvent::Begin) {
        RegisterAction::Respond(ApiReply::Invalid(v)) => {
            assert_eq!(v, vec!["Password must be 5-128 characters long.".to_string()])
        }
        _ => panic!("expected invalid"),
    }
    let mut f = RegisterFlow::new(register_input());
    f.step(RegisterEvent::Begin);
    match f.step(RegisterEvent::Authenticated(Ok(info(20)))) {
        RegisterAction::Respond(r) => assert_eq!(failed(&r), (403, None)),
        _ => panic!("expected forbidden"),
    }
    let mut f = RegisterFlow::new(register_input());
    f.step(RegisterEvent::Begin);
    match f.step(RegisterEvent::Authenticated(Err(AuthFailure::Unauthorized))) {
        RegisterAction::Respond(r) => assert_eq!(failed(&r), (401, None)),
        _ => panic!("expected unauthorized"),
    }
    for (e, expected) in [
        (DbError::UniqueViolation, (422, Some("Username is already taken.".to_string()))),
        (DbError::Other, (500, Some("Failed to register user.".to_string()))),
    ] {
        let mut f = RegisterFlow::new(register_input());
        f.step(RegisterEvent::Begin);
        f.step(RegisterEvent::Authenticated(Ok(info(10))));
        match f.step(RegisterEvent::Updated(Err(e))) {
            RegisterAction::Respond(r) => assert_eq!(failed(&r), expected),
            _ => panic!("expected a failure"),
        }
    }
}

fn login(exp: Option<i64>) -> Option<CreateSessionInput> {
    Some(CreateSessionInput { exp, password: "salasana".into(), username: "matti".into() })
}

#[test]
fn session_by_login() {
    let hash = hash_password_pbkdf2("salasana");
    let mut f = SessionFlow::new(login(Some(2_000_000_000)));
    assert!(matches!(f.step(SessionEvent::Begin { now: 100 }), SessionAction::FindUser));
    let u = StoredUser { id: 3, access_level: 20, password_hash: Some(hash.clone()) };
    match f.step(SessionEvent::UserFound(Ok(u))) {
        SessionAction::CreateSession { user_id, ended_at } => assert_eq!((user_id, ended_at), (3, 2_000_000_000)),
        _ => panic!("expected a session"),
    }
    match f.step(SessionEvent::SessionCreated(Ok(SessionRecord { id: 9, user_id: 3, ended_at: 2_000_000_000 }))) {
        SessionAction::IssueToken(c) => assert_eq!((c.exp, c.iat, c.sub, c.role), (2_000_000_000, 100, 9, 20)),
        _ => panic!("expected a token"),
    }

    let mut f = SessionFlow::new(Some(CreateSessionInput { exp: None, password: "vaarin".into(), username: "matti".into() }));
    f.step(SessionEvent::Begin { now: 100 });
    let u = StoredUser { id: 3, access_level: 20, password_hash: Some(hash) };
    match f.step(SessionEvent::UserFound(Ok(u))) {
        SessionAction::Respond(r) => assert_eq!(failed(&r), (401, Some("Invalid password.".to_string()))),
        _ => panic!("expected unauthorized"),
    }

    let mut f = SessionFlow::new(login(None));
    f.step(SessionEvent::Begin { now: 100 });
    match f.step(SessionEvent::UserFound(Err(DbError::NotFound))) {
        SessionAction::Respond(r) => assert_eq!(failed(&r), (404, Some("User doesn't exist.".to_string()))),
        _ => panic!("expected not found"),
    }
}

#[test]
fn session_for_anonymous_and_bad_expiry() {
    let mut f = SessionFlow::new(None);
    match f.step(SessionEvent::Begin { now: 100 }) {
        SessionAction::CreateAnonymousUser(m) => {
            assert_eq!(m.access_level, 10);
            assert!(m.username.is_none() && m.email.is_none() && m.password_hash.is_none());
        }
        _ => panic!("expected an anonymous user"),
    }
    let u = StoredUser { id: 5, access_level: 10, password_hash: None };
    match f.step(SessionEvent::UserCreated(Ok(u))) {
        SessionAction::CreateSession { user_id, ended_at } => assert_eq!((user_id, ended_at), (5, 100 + SESSION_LIFETIME_SECS)),
        _ => panic!("expected a session"),
    }

    let hash = hash_password_pbkdf2("salasana");
    let mut f = SessionFlow::new(login(Some(i64::MAX)));
    f.step(SessionEvent::Begin { now: 100 });
    let u = StoredUser { id: 3, access_level: 20, password_hash: Some(hash) };
    match f.step(SessionEvent::UserFound(Ok(u))) {
        SessionAction::Respond(r) => assert_eq!(failed(&r), (422, Some("Timestamp out of range.".to_string()))),
        _ => panic!("expected out of range"),
    }
}

#[test]
fn error_answers() {
    assert_eq!(auth_error(AuthFailure::Unprocessable).status, 422);
    assert_eq!(auth_error(AuthFailure::BadRequest).status, 400);
    assert_eq!(login_error(AuthFailure::ServerError).message, None);
    assert_eq!(session_end(0), Some(31_536_000));
    assert_eq!(session_end(i64::MAX), None);
}

#[test]
fn root_user_plans() {
    match plan_root_user("juuri", Ok(1)) {
        RootUserPlan::Update { user_id, model } => {
            assert_eq!((user_id, model.access_level, model.username.as_deref()), (1, 255, Some("root")));
            assert!(model.email.is_none());
            assert_eq!(check_password(model.password_hash.as_deref().unwrap(), "juuri"), Some(true));
        }
        _ => panic!("expected an update"),
    }
    assert!(matches!(plan_root_user("juuri", Err(DbError::NotFound)), RootUserPlan::Insert { .. }));
    assert!(matches!(plan_root_user("juuri", Err(DbError::Other)), RootUserPlan::Skip));
}

fn image(name: Option<&str>) -> Upload {
    Upload {
        file_name: name.map(|n| n.to_string()),
        content_type: Some(MediaType { top: "image".into(), sub: "png".into() }),
    }
}

#[test]
fn uploads_are_planned_by_type() {
    let f = plan_upload(42, &image(Some("kissa.png"))).unwrap().unwrap();
    assert_eq!(f.dir, "target/files/42");
    assert_eq!(f.file_path, "target/files/42/file.png");
    assert_eq!(f.file_name, "kissa.png");
    assert_eq!(f.file_type, "image");
    assert_eq!(plan_upload(7, &image(None)).unwrap().unwrap().file_name, "file");
    let text = Upload { file_name: None, content_type: Some(MediaType { top: "text".into(), sub: "plain".into() }) };
    assert!(plan_upload(1, &text).unwrap().is_none());
    assert!(plan_upload(1, &Upload { file_name: None, content_type: None }).is_err());
}

#[test]
fn new_thread_on_members_board() {
    let mut f = PostingFlow::new(PostingRequest::NewThread {
        title: "Aihe".into(),
        body: "Teksti".into(),
        board: "m".into(),
        upload: image(None),
    });
    assert!(matches!(f.step(PostingEvent::Begin), PostingAction::FindBoard));
    assert!(matches!(f.step(PostingEvent::BoardFound(Ok(ApiBoard { id: 2, access_level: 50 }))), PostingAction::Authenticate));
    let a = f.step(PostingEvent::Authenticated(Ok(UserInfo { user_id: 1, session_id: 1, access_level: 20 })));
    assert!(matches!(a, PostingAction::Respond(403)));

    let mut f = PostingFlow::new(PostingRequest::NewThread {
        title: "Aihe".into(),
        body: "Teksti".into(),
        board: "b".into(),
        upload: image(Some("a.png")),
    });
    f.step(PostingEvent::Begin);
    let a = f.step(PostingEvent::BoardFound(Ok(ApiBoard { id: 2, access_level: 10 })));
    assert!(matches!(a, PostingAction::InsertPost { op_id: None, access_level: 10 }));
    assert!(matches!(f.step(PostingEvent::PostInserted(Ok(77))), PostingAction::InsertThread { id: 77, board_id: 2 }));
    match f.step(PostingEvent::ThreadInserted(Ok(()))) {
        PostingAction::CreateDir { path } => assert_eq!(path, "target/files/77"),
        _ => panic!("expected a directory"),
    }
    match f.step(PostingEvent::DirCreated(Ok(()))) {
        PostingAction::PersistFile { path } => assert_eq!(path, "target/files/77/file.png"),
        _ => panic!("expected a file"),
    }
    assert!(matches!(f.step(PostingEvent::FilePersisted(Ok(()))), PostingAction::InsertFile { .. }));
    assert!(matches!(f.step(PostingEvent::FileInserted(Ok(()))), PostingAction::Respond(201)));
}

#[test]
fn reply_bumps_thread() {
    let mut f = PostingFlow::new(PostingRequest::Reply {
        thread_id: 77,
        body: "vastaus".into(),
        upload: Upload { file_name: None, content_type: Some(MediaType { top: "video".into(), sub: "mp4".into() }) },
    });
    assert!(matches!(f.step(PostingEvent::Begin), PostingAction::FindOp));
    let a = f.step(PostingEvent::OpFound(Ok(OpPost { id: 77, access_level: 50 })));
    assert!(matches!(a, PostingAction::InsertPost { op_id: Some(77), access_level: 50 }));
    assert!(matches!(f.step(PostingEvent::PostInserted(Ok(80))), PostingAction::BumpThread { thread_id: 77 }));
    assert!(matches!(f.step(PostingEvent::Bumped), PostingAction::Respond(201)));

    let mut f = PostingFlow::new(PostingRequest::Reply {
        thread_id: 77,
        body: "vastaus".into(),
        upload: Upload { file_name: None, content_type: None },
    });
    f.step(PostingEvent::Begin);
    f.step(PostingEvent::OpFound(Ok(OpPost { id: 77, access_level: 50 })));
    assert!(matches!(f.step(PostingEvent::PostInserted(Ok(80))), PostingAction::Respond(500)));
}

#[test]
fn board_creation_answers() {
    assert_eq!(board_creation_gate(Err(AuthFailure::Unauthorized)), Some(401));
    assert_eq!(board_creation_gate(Ok(UserInfo { user_id: 1, session_id: 1, access_level: 100 })), Some(403));
    assert_eq!(board_creation_gate(Ok(UserInfo { user_id: 1, session_id: 1, access_level: 200 })), None);
    assert_eq!(board_insert_status(Ok(())), 201);
    assert_eq!(board_insert_status(Err(DbError::UniqueViolation)), 400);
    assert_eq!(board_insert_status(Err(DbError::Other)), 500);
    assert_eq!(board_input_saved(Ok(())), (201, None));
    assert_eq!(board_input_saved(Err(DbError::UniqueViolation)), (422, Some("Board handle is not unique.".to_string())));
    assert_eq!(board_input_saved(Err(DbError::NotFound)), (500, None));
}

#[test]
fn thread_outputs_copy_rows() {
    let op = PostRow { id: 1, body: "op".into(), file_type: Some("image".into()), created_at: 10 };
    let replies = vec![
        PostRow { id: 2, body: "a".into(), file_type: None, created_at: 11 },
        PostRow { id: 3, body: "b".into(), file_type: None, created_at: 12 },
    ];
    let t = thread_output(&"Lanka".to_string(), true, &op, &replies);
    assert_eq!(t.title, "Lanka");
    assert!(t.pinned);
    assert_eq!(t.op_post.attachment, Some("image".to_string()));
    assert_eq!(t.responses.iter().map(|p| p.post_id).collect::<Vec<_>>(), vec![2, 3]);
    let list = threads_output(&vec![ThreadRow { title: "X".into(), pinned: false, op }]);
    assert_eq!(list.len(), 1);
    assert_eq!(list[0].op_post.body, "op");
}

fn service_login(username: Option<&str>, email: Option<&str>, password: &str, exp: Option<i64>) -> Option<ServiceLogin> {
    Some(ServiceLogin {
        email: email.map(|e| e.to_string()),
        exp,
        password: password.to_string(),
        username: username.map(|u| u.to_string()),
    })
}

#[test]
fn service_sessions() {
    let mut f = ServiceSessionFlow::new(service_login(Some("matti"), Some("m@e.fi"), "pw", None));
    assert!(matches!(f.step(ServiceSessionEvent::Begin { now: 0 }), ServiceSessionAction::FindUser(UserLookup::ByUsername(u)) if u == "matti"));
    let u = StoredUser { id: 2, access_level: 100, password_hash: None };
    match f.step(ServiceSessionEvent::UserFound(Ok(u))) {
        ServiceSessionAction::CreateSession { user_id, ended_at } => assert_eq!((user_id, ended_at), (2, 7 * 86_400)),
        _ => panic!("expected a session"),
    }
    match f.step(ServiceSessionEvent::SessionCreated(Ok(SessionRecord { id: 6, user_id: 2, ended_at: 7 * 86_400 }))) {
        ServiceSessionAction::IssueToken(c) => assert_eq!((c.sub, c.role, c.exp), (6, 100, 7 * 86_400)),
        _ => panic!("expected a token"),
    }
    assert!(matches!(f.step(ServiceSessionEvent::TokenIssued("t".into())), ServiceSessionAction::Created { access_token } if access_token == "t"));

    let mut f = ServiceSessionFlow::new(service_login(None, Some("m@e.fi"), "pw", None));
    assert!(matches!(f.step(ServiceSessionEvent::Begin { now: 0 }), ServiceSessionAction::FindUser(UserLookup::ByEmail(e)) if e == "m@e.fi"));
    let mut f = ServiceSessionFlow::new(service_login(None, None, "pw", None));
    assert!(matches!(f.step(ServiceSessionEvent::Begin { now: 0 }), ServiceSessionAction::Respond(400)));

    let hash = hash_password_pbkdf2("oikea");
    let mut f = ServiceSessionFlow::new(service_login(Some("matti"), None, "väärä", None));
    f.step(ServiceSessionEvent::Begin { now: 0 });
    let u = StoredUser { id: 2, access_level: 20, password_hash: Some(hash.clone()) };
    assert!(matches!(f.step(ServiceSessionEvent::UserFound(Ok(u))), ServiceSessionAction::Respond(401)));

    let mut f = ServiceSessionFlow::new(service_login(Some("matti"), None, "oikea", Some(i64::MAX)));
    f.step(ServiceSessionEvent::Begin { now: 0 });
    let u = StoredUser { id: 2, access_level: 20, password_hash: Some(hash) };
    assert!(matches!(f.step(ServiceSessionEvent::UserFound(Ok(u))), ServiceSessionAction::Respond(400)));

    let mut f = ServiceSessionFlow::new(None);
    match f.step(ServiceSessionEvent::Begin { now: 10 }) {
        ServiceSessionAction::CreateAnonymousUser(m) => {
            assert_eq!(m.access_level, 10);
            assert!(m.username.is_none() && m.email.is_none() && m.password_hash.is_none());
        }
        _ => panic!("expected an anonymous user"),
    }
    assert!(matches!(f.step(ServiceSessionEvent::UserFound(Err(DbError::NotFound))), ServiceSessionAction::Respond(404)));

    let mut f = ServiceSessionFlow::new(None);
    f.step(ServiceSessionEvent::Begin { now: 10 });
    let odd = StoredUser { id: 2, access_level: 11, password_hash: None };
    assert!(matches!(f.step(ServiceSessionEvent::UserFound(Ok(odd))), ServiceSessionAction::Respond(500)));
}
