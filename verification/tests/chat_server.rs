use lauta::chat::{BroadcastPayload, ChatRoom, ChatServer, USER_JOINED, USER_LEFT};

fn rooms() -> Vec<ChatRoom> {
    vec![
        ChatRoom { name: "yleinen".to_string(), access_level: 10 },
        ChatRoom { name: "jäsenet".to_string(), access_level: 50 },
    ]
}

#[test]
fn new_server_lists_rooms_and_no_users() {
    let s = ChatServer::new(rooms());
    assert_eq!(s.list_rooms(), vec!["yleinen".to_string(), "jäsenet".to_string()]);
    assert!(s.list_users().is_empty());
}

#[test]
fn connect_announces_to_existing_connections_only() {
    let mut s = ChatServer::new(rooms());
    let b1 = s.connect_with_id("alice".to_string(), 1);
    assert!(b1.recipients.is_empty());
    match b1.payload {
        BroadcastPayload::Users(u) => {
            assert_eq!(u.event, USER_JOINED);
            assert_eq!(u.username, "alice");
        }
        _ => panic!("expected a join notice"),
    }
    let b2 = s.connect_with_id("bob".to_string(), 2);
    assert_eq!(b2.recipients, vec![1]);
    let mut users = s.list_users();
    users.sort();
    assert_eq!(users, vec!["alice".to_string(), "bob".to_string()]);
}

#[test]
fn connect_with_taken_id_replaces_user() {
    let mut s = ChatServer::new(rooms());
    s.connect_with_id("alice".to_string(), 7);
    s.connect_with_id("carol".to_string(), 7);
    assert_eq!(s.list_users(), vec!["carol".to_string()]);
}

#[test]
fn random_connect_registers_user() {
    let mut s = ChatServer::new(rooms());
    let (id, _) = s.connect("dave".to_string());
    assert_eq!(s.list_users(), vec!["dave".to_string()]);
    let left = s.disconnect(id).expect("was connected");
    assert!(left.recipients.is_empty());
    assert!(s.list_users().is_empty());
}

#[test]
fn disconnect_tells_the_others() {
    let mut s = ChatServer::new(rooms());
    s.connect_with_id("alice".to_string(), 1);
    s.connect_with_id("bob".to_string(), 2);
    let b = s.disconnect(1).expect("alice was connected");
    assert_eq!(b.recipients, vec![2]);
    match b.payload {
        BroadcastPayload::Users(u) => {
            assert_eq!(u.event, USER_LEFT);
            assert_eq!(u.username, "alice");
        }
        _ => panic!("expected a leave notice"),
    }
    assert!(s.disconnect(1).is_none());
    assert_eq!(s.list_users(), vec!["bob".to_string()]);
}

#[test]
fn chat_message_needs_room_level() {
    let mut s = ChatServer::new(rooms());
    s.connect_with_id("alice".to_string(), 1);
    let user = "alice".to_string();
    let b = s.send_chat_message(&user, 10, &"yleinen".to_string(), "hei".to_string(), 100);
    let b = b.expect("open room");
    assert_eq!(b.recipients, vec![1]);
    match b.payload {
        BroadcastPayload::Text(t) => assert_eq!(t, "hei"),
        _ => panic!("expected text"),
    }
    assert!(s.send_chat_message(&user, 10, &"jäsenet".to_string(), "hei".to_string(), 100).is_none());
    assert!(s.send_chat_message(&user, 50, &"jäsenet".to_string(), "hei".to_string(), 100).is_some());
    assert!(s.send_chat_message(&user, 90, &"olematon".to_string(), "hei".to_string(), 100).is_none());
}

#[test]
fn timeout_blocks_until_it_passes() {
    let mut s = ChatServer::new(rooms());
    let user = "bob".to_string();
    let room = "yleinen".to_string();
    s.timeout_user(user.clone(), 500);
    assert!(s.send_chat_message(&user, 255, &room, "x".to_string(), 499).is_none());
    assert!(s.send_chat_message(&user, 255, &room, "x".to_string(), 500).is_some());
    s.timeout_user(user.clone(), 1000);
    assert!(s.send_chat_message(&user, 255, &room, "x".to_string(), 600).is_none());
    let other = "alice".to_string();
    assert!(s.send_chat_message(&other, 10, &room, "x".to_string(), 600).is_some());
}

#[test]
fn send_message_reaches_everyone() {
    let mut s = ChatServer::new(rooms());
    s.connect_with_id("a".to_string(), 3);
    s.connect_with_id("b".to_string(), 4);
    let b = s.send_message("tiedote".to_string());
    let mut r = b.recipients;
    r.sort();
    assert_eq!(r, vec![3, 4]);
}

#[test]
fn users_listed_once_per_connection() {
    let mut s = ChatServer::new(rooms());
    s.connect_with_id("sama".to_string(), 1);
    s.connect_with_id("sama".to_string(), 2);
    s.connect_with_id("toinen".to_string(), 3);
    let mut users = s.list_users();
    users.sort();
    assert_eq!(users, vec!["sama".to_string(), "sama".to_string(), "toinen".to_string()]);
    let b = s.connect_with_id("uusi".to_string(), 4);
    let mut r = b.recipients;
    r.sort();
    assert_eq!(r, vec![1, 2, 3]);
}
