use lauta::command::{
    process_text_command, rooms_reply, users_reply, InputCommand, TextAction, LIST_ROOMS, LIST_USERS,
    SEND_MESSAGE, TOO_LONG_MESSAGE_ERROR,
};

fn send(msg: &str, room: Option<&str>) -> InputCommand {
    InputCommand { event: SEND_MESSAGE, message: Some(msg.to_string()), room: room.map(|r| r.to_string()) }
}

#[test]
fn list_commands() {
    let u = "alice".to_string();
    let c = InputCommand { event: LIST_USERS, message: None, room: None };
    assert!(matches!(process_text_command(&u, 10, &c), TextAction::ReplyUsers));
    let c = InputCommand { event: LIST_ROOMS, message: None, room: None };
    assert!(matches!(process_text_command(&u, 10, &c), TextAction::ReplyRooms));
    assert!(matches!(process_text_command(&u, 10, &InputCommand::unknown()), TextAction::ReplyUnknown));
    let c = InputCommand { event: 9, message: None, room: None };
    assert!(matches!(process_text_command(&u, 10, &c), TextAction::ReplyUnknown));
}

#[test]
fn plain_message_is_posted_untrimmed() {
    let u = "alice".to_string();
    match process_text_command(&u, 10, &send("  moi  ", Some("yleinen"))) {
        TextAction::SendChat { room, message } => {
            assert_eq!(room, "yleinen");
            assert_eq!(message.event, 3);
            assert_eq!(message.username, "alice");
            assert_eq!(message.message, "  moi  ");
            assert_eq!(message.room, "yleinen");
        }
        _ => panic!("expected a chat message"),
    }
}

#[test]
fn missing_message_and_room_are_empty() {
    let u = "alice".to_string();
    let c = InputCommand { event: SEND_MESSAGE, message: None, room: None };
    match process_text_command(&u, 10, &c) {
        TextAction::SendChat { room, message } => {
            assert_eq!(room, "");
            assert_eq!(message.message, "");
        }
        _ => panic!("expected a chat message"),
    }
}

#[test]
fn too_long_message_is_refused() {
    let u = "alice".to_string();
    let long = "a".repeat(2001);
    match process_text_command(&u, 10, &send(&long, None)) {
        TextAction::ReplyError(e) => {
            assert_eq!(e.event, TOO_LONG_MESSAGE_ERROR);
            assert_eq!(e.message, "Viestisi on liian pitkä (yli 2000 tavua)!");
        }
        _ => panic!("expected an error"),
    }
    let ok = "a".repeat(2000);
    assert!(matches!(process_text_command(&u, 10, &send(&ok, None)), TextAction::SendChat { .. }));
    let padded = format!("   {}   ", ok);
    assert!(matches!(process_text_command(&u, 10, &send(&padded, None)), TextAction::SendChat { .. }));
    // 1000 two-byte letters are 2000 bytes; one more is too many.
    let wide = "ä".repeat(1001);
    assert!(matches!(process_text_command(&u, 10, &send(&wide, None)), TextAction::ReplyError(_)));
}

#[test]
fn timeout_command_by_moderator() {
    let u = "mod".to_string();
    match process_text_command(&u, 90, &send(" /timeout bob 15 ", None)) {
        TextAction::SetTimeout { user, minutes } => {
            assert_eq!(user, "bob");
            assert_eq!(minutes, 15);
        }
        _ => panic!("expected a timeout"),
    }
    match process_text_command(&u, 255, &send("/timeout bob -3", None)) {
        TextAction::SetTimeout { user, minutes } => {
            assert_eq!(user, "bob");
            assert_eq!(minutes, -3);
        }
        _ => panic!("expected a timeout"),
    }
}

#[test]
fn timeout_command_refused_or_malformed() {
    let u = "user".to_string();
    assert!(matches!(process_text_command(&u, 50, &send("/timeout bob 15", None)), TextAction::Nothing));
    let m = "mod".to_string();
    assert!(matches!(process_text_command(&m, 90, &send("/timeout bob", None)), TextAction::Nothing));
    assert!(matches!(process_text_command(&m, 90, &send("/timeout bob 1 5", None)), TextAction::Nothing));
    assert!(matches!(process_text_command(&m, 90, &send("/timeout bob x", None)), TextAction::Nothing));
    assert!(matches!(process_text_command(&m, 90, &send("/timeout", None)), TextAction::Nothing));
    assert!(matches!(process_text_command(&m, 90, &send("/kick bob 5", None)), TextAction::Nothing));
    assert!(matches!(process_text_command(&m, 90, &send("/timeoutbob 5", None)), TextAction::Nothing));
    assert!(matches!(
        process_text_command(&m, 90, &send("/timeout bob 99999999999999999999", None)),
        TextAction::Nothing
    ));
}

#[test]
fn list_replies() {
    let r = users_reply(vec!["a".to_string()]);
    assert_eq!(r.event, 4);
    assert_eq!(r.data, vec!["a".to_string()]);
    let r = rooms_reply(vec!["b".to_string()]);
    assert_eq!(r.event, 5);
}
