use vstd::prelude::*;
use crate::access::{level_value, AccessLevel};
use crate::chat::{MessagesChanged, NEW_MESSAGE};
use crate::text::{
    chars_of, parse_i64, parse_i64_spec, string_of_range, trim, trim_bounds, utf8_len_exceeds,
};
use vstd::utf8::encode_utf8;

verus! {

/// Event number of a command that could not be read.
pub const UNKNOWN_COMMAND: u8 = 0;

/// Event number of a request to post a message.
pub const SEND_MESSAGE: u8 = 1;

/// Event number of a request for the room list.
pub const LIST_ROOMS: u8 = 2;

/// Event number of a request for the user list.
pub const LIST_USERS: u8 = 3;

/// Event number of the reply that carries the user list.
pub const USERS_LIST: u8 = 4;

/// Event number of the reply that carries the room list.
pub const ROOMS_LIST: u8 = 5;

/// Event number of the error sent back for an over-long message.
pub const TOO_LONG_MESSAGE_ERROR: u8 = 7;

/// Longest message, in bytes of UTF-8 after trimming, that may be posted.
pub const MAX_MESSAGE_BYTES: usize = 2000;

/// A command sent by a chat client, as JSON.
pub struct InputCommand {
    pub event: u8,
    pub message: Option<String>,
    pub room: Option<String>,
}

/// A reply that carries a list (of users or rooms).
pub struct OutputCommand {
    pub event: u8,
    pub data: Vec<String>,
}

/// An error reply.
pub struct ErrorOutput {
    pub event: u8,
    pub message: String,
}

/// What the chat connection does with a text frame.
pub enum TextAction {
    /// Reply with the list of users (event `USERS_LIST`).
    ReplyUsers,
    /// Reply with the list of rooms (event `ROOMS_LIST`).
    ReplyRooms,
    /// Reply with this error.
    ReplyError(ErrorOutput),
    /// Time `user` out for `minutes` from now.
    SetTimeout { user: String, minutes: i64 },
    /// Post this message to `room`.
    SendChat { room: String, message: MessagesChanged },
    /// Reply with the text "unknown command!".
    ReplyUnknown,
    /// Do nothing.
    Nothing,
}

impl InputCommand {
    /// The command that stands for a frame that is not a valid command.
    pub fn unknown() -> (r: InputCommand)
        ensures
            r.event == UNKNOWN_COMMAND,
            r.message is None,
            r.room is None,
    {
        InputCommand { event: UNKNOWN_COMMAND, message: None, room: None }
    }
}

/// The text of an optional string, empty when absent (`unwrap_or_default`).
pub open spec fn text_or_empty(s: Option<String>) -> Seq<char> {
    match s {
        Some(t) => t@,
        None => Seq::empty(),
    }
}

/// The reply text for a message over `MAX_MESSAGE_BYTES`.
pub open spec fn too_long_text() -> Seq<char> {
    "Viestisi on liian pitkä (yli 2000 tavua)!"@
}

/// `"/timeout "`, the start of the timeout command.
pub open spec fn timeout_prefix() -> Seq<char> {
    seq!['/', 't', 'i', 'm', 'e', 'o', 'u', 't', ' ']
}

/// Whether `p` is the position of the first space in `s`.
pub open spec fn is_first_space(s: Seq<char>, p: int) -> bool {
    &&& 0 <= p < s.len()
    &&& s[p] == ' '
    &&& forall|k: int| 0 <= k < p ==> s[k] != ' '
}

/// `s` cut at its first space, when it has one (`splitn(2, ' ')`).
pub open spec fn split_first_space(s: Seq<char>) -> Option<(Seq<char>, Seq<char>)> {
    if exists|p: int| is_first_space(s, p) {
        let p = choose|p: int| is_first_space(s, p);
        Some((s.take(p), s.skip(p + 1)))
    } else {
        None
    }
}

/// The user and time arguments of a trimmed message of the form
/// `/timeout <user> <time>`, as `msg.splitn(3, ' ')` gives them.
pub open spec fn timeout_args(msg: Seq<char>) -> Option<(Seq<char>, Seq<char>)> {
    if msg.len() >= 9 && msg.take(9) == timeout_prefix() {
        split_first_space(msg.skip(9))
    } else {
        None
    }
}

/// The timeout that a trimmed message sets when sent by a user of the
/// given access level: the user to time out and the minutes.
pub open spec fn timeout_request(msg: Seq<char>, access_level: u8) -> Option<(Seq<char>, int)> {
    match timeout_args(msg) {
        Some((user, time)) => match parse_i64_spec(time) {
            Some(minutes) => if access_level >= level_value(AccessLevel::Moderator) {
                Some((user, minutes))
            } else {
                None
            },
            None => None,
        },
        None => None,
    }
}

proof fn lemma_first_space_unique(s: Seq<char>, p: int, q: int)
    requires
        is_first_space(s, p),
        is_first_space(s, q),
    ensures
        p == q,
{
    if p < q {
        assert(s[p] == ' ');
    } else if q < p {
        assert(s[q] == ' ');
    }
}

/// Cuts `cs[from..]` at its first space.
fn split_at_space(cs: &Vec<char>, from: usize) -> (r: Option<usize>)
    requires
        from <= cs.len(),
    ensures
        match r {
            Some(p) => from <= p < cs.len() && split_first_space(cs@.skip(from as int)) == Some(
                (cs@.subrange(from as int, p as int), cs@.subrange(p + 1, cs@.len() as int)),
            ),
            None => split_first_space(cs@.skip(from as int)) is None,
        },
{
    let ghost rest = cs@.skip(from as int);
    let mut i = from;
    while i < cs.len()
        invariant
            from <= i <= cs.len(),
            rest == cs@.skip(from as int),
            forall|k: int| 0 <= k < i - from ==> rest[k] != ' ',
        decreases cs.len() - i,
    {
        if cs[i] == ' ' {
            proof {
                let p = i - from;
                assert(is_first_space(rest, p));
                let q = choose|q: int| is_first_space(rest, q);
                lemma_first_space_unique(rest, p, q);
                assert(rest.take(p) == cs@.subrange(from as int, i as int));
                assert(rest.skip(p + 1) == cs@.subrange(i + 1, cs@.len() as int));
            }
            return Some(i);
        }
        i = i + 1;
    }
    proof {
        if exists|p: int| is_first_space(rest, p) {
            let p = choose|p: int| is_first_space(rest, p);
            assert(rest[p] != ' ');
        }
    }
    None
}

/// Whether `cs[from..]` starts with `"/timeout "`.
fn starts_with_timeout(cs: &Vec<char>, from: usize, to: usize) -> (r: bool)
    requires
        from <= to <= cs.len(),
    ensures
        r == (to - from >= 9 && cs@.subrange(from as int, to as int).take(9) == timeout_prefix()),
{
    if to - from < 9 {
        return false;
    }
    let r = cs[from] == '/' && cs[from + 1] == 't' && cs[from + 2] == 'i' && cs[from + 3] == 'm'
        && cs[from + 4] == 'e' && cs[from + 5] == 'o' && cs[from + 6] == 'u' && cs[from + 7] == 't'
        && cs[from + 8] == ' ';
    proof {
        let t = cs@.subrange(from as int, to as int).take(9);
        if r {
            assert(t =~= timeout_prefix());
        } else {
            if t == timeout_prefix() {
                assert(t[0] == '/' && t[1] == 't' && t[2] == 'i' && t[3] == 'm' && t[4] == 'e');
                assert(t[5] == 'o' && t[6] == 'u' && t[7] == 't' && t[8] == ' ');
            }
        }
    }
    r
}

/// Decides what to do with a command of `user`, of the given access level.
///
/// A message is trimmed before it is measured and read as a command, but
/// it is posted untrimmed.
pub fn process_text_command(user: &String, access_level: u8, command: &InputCommand) -> (r: TextAction)
    ensures
        command.event == LIST_USERS ==> r is ReplyUsers,
        command.event == LIST_ROOMS ==> r is ReplyRooms,
        command.event != LIST_USERS && command.event != LIST_ROOMS && command.event != SEND_MESSAGE
            ==> r is ReplyUnknown,
        command.event == SEND_MESSAGE ==> {
            let msg = trim(text_or_empty(command.message));
            if encode_utf8(msg).len() > MAX_MESSAGE_BYTES {
                r matches TextAction::ReplyError(e) && e.event == TOO_LONG_MESSAGE_ERROR
                    && e.message@ == too_long_text()
            } else if msg.len() > 0 && msg[0] == '/' {
                match timeout_request(msg, access_level) {
                    Some((u, minutes)) => r matches TextAction::SetTimeout { user: tu, minutes: tm }
                        && tu@ == u && tm == minutes,
                    None => r is Nothing,
                }
            } else {
                r matches TextAction::SendChat { room, message } && room@ == text_or_empty(
                    command.room,
                ) && message.event == NEW_MESSAGE && message.username@ == user@
                    && message.message@ == text_or_empty(command.message) && message.room@
                    == text_or_empty(command.room)
            }
        },
{
    if command.event == LIST_USERS {
        return TextAction::ReplyUsers;
    }
    if command.event == LIST_ROOMS {
        return TextAction::ReplyRooms;
    }
    if command.event != SEND_MESSAGE {
        return TextAction::ReplyUnknown;
    }
    let raw: String = match &command.message {
        Some(m) => m.clone(),
        None => String::new(),
    };
    let cs = chars_of(raw.as_str());
    let (a, b) = trim_bounds(&cs);
    let trimmed = cs_range(&cs, a, b);
    assert(raw@ == text_or_empty(command.message));
    assert(trimmed@ == trim(text_or_empty(command.message)));
    if utf8_len_exceeds(&trimmed, MAX_MESSAGE_BYTES) {
        return TextAction::ReplyError(ErrorOutput {
            event: TOO_LONG_MESSAGE_ERROR,
            message: "Viestisi on liian pitkä (yli 2000 tavua)!".to_owned(),
        });
    }
    if b > a && cs[a] == '/' {
        return slash_command(&trimmed, access_level);
    }
    let room: String = match &command.room {
        Some(r) => r.clone(),
        None => String::new(),
    };
    let text: String = match &command.message {
        Some(m) => m.clone(),
        None => String::new(),
    };
    TextAction::SendChat {
        room: room.clone(),
        message: MessagesChanged { event: NEW_MESSAGE, username: user.clone(), message: text, room },
    }
}

/// What a trimmed message that starts with `/` does: only a well-formed
/// timeout command sent by a moderator has an effect.
fn slash_command(m: &Vec<char>, access_level: u8) -> (r: TextAction)
    ensures
        match timeout_request(m@, access_level) {
            Some((u, minutes)) => r matches TextAction::SetTimeout { user: tu, minutes: tm } && tu@
                == u && tm == minutes,
            None => r is Nothing,
        },
{
    let n = m.len();
    if !starts_with_timeout(m, 0, n) {
        assert(m@.subrange(0, n as int) == m@);
        return TextAction::Nothing;
    }
    assert(m@.subrange(0, n as int) == m@);
    match split_at_space(m, 9) {
        None => TextAction::Nothing,
        Some(p) => {
            match parse_i64(m, p + 1, n) {
                None => TextAction::Nothing,
                Some(minutes) => {
                    if access_level >= AccessLevel::Moderator.as_u8() {
                        let target = string_of_range(m, 9, p);
                        assert(m@.skip(9).take(p - 9) == m@.subrange(9, p as int));
                        TextAction::SetTimeout { user: target, minutes }
                    } else {
                        TextAction::Nothing
                    }
                },
            }
        },
    }
}

/// The characters `cs[from..to]` as a vector of their own.
fn cs_range(cs: &Vec<char>, from: usize, to: usize) -> (r: Vec<char>)
    requires
        from <= to <= cs.len(),
    ensures
        r@ == cs@.subrange(from as int, to as int),
{
    let mut v: Vec<char> = Vec::new();
    let mut i = from;
    while i < to
        invariant
            from <= i <= to <= cs.len(),
            v@ == cs@.subrange(from as int, i as int),
        decreases to - i,
    {
        v.push(cs[i]);
        i = i + 1;
    }
    v
}

/// The reply that carries the user list.
pub fn users_reply(users: Vec<String>) -> (r: OutputCommand)
    ensures
        r.event == USERS_LIST,
        r.data@ == users@,
{
    OutputCommand { event: USERS_LIST, data: users }
}

/// The reply that carries the room list.
pub fn rooms_reply(rooms: Vec<String>) -> (r: OutputCommand)
    ensures
        r.event == ROOMS_LIST,
        r.data@ == rooms@,
{
    OutputCommand { event: ROOMS_LIST, data: rooms }
}

/// When a timeout of `minutes` minutes from `now` (seconds) ends, unless
/// that falls outside the range of a timestamp.
pub fn timeout_until(now: i64, minutes: i64) -> (r: Option<i64>)
    ensures
        i64::MIN <= minutes * 60 <= i64::MAX && i64::MIN <= now + minutes * 60 <= i64::MAX ==> r == Some(
            (now + minutes * 60) as i64,
        ),
        !(i64::MIN <= minutes * 60 <= i64::MAX && i64::MIN <= now + minutes * 60 <= i64::MAX) ==> r is None,
{
    match minutes.checked_mul(60) {
        Some(span) => now.checked_add(span),
        None => None,
    }
}

/// Only moderators and above can time a user out from the chat.
pub proof fn law_timeout_needs_moderator(msg: Seq<char>, access_level: u8)
    requires
        timeout_request(msg, access_level) is Some,
    ensures
        access_level >= level_value(AccessLevel::Moderator),
{
}

} // verus!
