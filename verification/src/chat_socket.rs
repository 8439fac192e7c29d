use vstd::prelude::*;
use crate::text::{decimal, push_decimal};

verus! {

/// How often the server pings a chat client, in milliseconds.
pub const HEARTBEAT_INTERVAL_MS: u64 = 5_000;

/// How long a chat client may stay silent before it is dropped, in
/// milliseconds.
pub const CLIENT_TIMEOUT_MS: u64 = 10_000;

/// Why a websocket was closed, as the client said.
pub struct CloseInfo {
    pub code: u16,
    pub description: Option<String>,
}

/// What happened on a chat connection.
pub enum SocketEvent {
    /// The client pinged with these bytes.
    Ping(Vec<u8>),
    /// The client answered a ping.
    Pong,
    /// The client sent a text message.
    Text(String),
    /// The client sent binary data.
    Binary,
    /// The client closed the connection.
    Close(Option<CloseInfo>),
    /// The chat server has a message for this client.
    Outgoing(String),
    /// The heartbeat timer fired.
    Tick,
    /// Neither the client nor the server has anything more.
    Ended,
}

/// What the connection does about an event.
pub enum SocketAction {
    /// Answer a ping with the same bytes.
    Pong(Vec<u8>),
    /// Handle a text command from the client.
    HandleText(String),
    /// Send a text message to the client.
    SendText(String),
    /// Ping the client.
    Ping,
    /// Leave the chat server and close the socket with this reason.
    Close(Option<CloseInfo>),
    Nothing,
}

/// A chat client's connection: when it was last heard of, in milliseconds,
/// and whether it has been closed.
pub struct ChatConnection {
    pub last_heartbeat: u64,
    pub closed: bool,
}

/// Whether a client last heard of at `last` has been silent too long at
/// `now`.
pub open spec fn timed_out(last: u64, now: u64) -> bool {
    now > last && now - last > CLIENT_TIMEOUT_MS
}

impl ChatConnection {
    /// A connection opened at `now`.
    pub fn new(now: u64) -> (r: ChatConnection)
        ensures
            r.last_heartbeat == now,
            !r.closed,
    {
        ChatConnection { last_heartbeat: now, closed: false }
    }

    /// What to do about `event`, which happened at `now`: pings and pongs
    /// count as signs of life; a tick after too long a silence closes the
    /// connection, else pings the client.
    pub fn step(&mut self, event: SocketEvent, now: u64) -> (action: SocketAction)
        requires
            !old(self).closed,
        ensures
            match event {
                SocketEvent::Ping(bytes) => action == SocketAction::Pong(bytes) && final(self).last_heartbeat
                    == now && !(final(self).closed),
                SocketEvent::Pong => action is Nothing && final(self).last_heartbeat == now
                    && !(final(self).closed),
                SocketEvent::Text(t) => action == SocketAction::HandleText(t) && *final(self) == *old(self),
                SocketEvent::Binary => action is Nothing && *final(self) == *old(self),
                SocketEvent::Close(reason) => action == SocketAction::Close(reason) && final(self).closed
                    && final(self).last_heartbeat == old(self).last_heartbeat,
                SocketEvent::Outgoing(m) => action == SocketAction::SendText(m) && *final(self) == *old(self),
                SocketEvent::Tick => if timed_out(old(self).last_heartbeat, now) {
                    action == SocketAction::Close(None) && final(self).closed && final(self).last_heartbeat
                        == old(self).last_heartbeat
                } else {
                    action is Ping && *final(self) == *old(self)
                },
                SocketEvent::Ended => action == SocketAction::Close(None) && final(self).closed
                    && final(self).last_heartbeat == old(self).last_heartbeat,
            },
    {
        match event {
            SocketEvent::Ping(bytes) => {
                self.last_heartbeat = now;
                SocketAction::Pong(bytes)
            },
            SocketEvent::Pong => {
                self.last_heartbeat = now;
                SocketAction::Nothing
            },
            SocketEvent::Text(t) => SocketAction::HandleText(t),
            SocketEvent::Binary => SocketAction::Nothing,
            SocketEvent::Close(reason) => {
                self.closed = true;
                SocketAction::Close(reason)
            },
            SocketEvent::Outgoing(m) => SocketAction::SendText(m),
            SocketEvent::Tick => {
                if now > self.last_heartbeat && now - self.last_heartbeat > CLIENT_TIMEOUT_MS {
                    self.closed = true;
                    SocketAction::Close(None)
                } else {
                    SocketAction::Ping
                }
            },
            SocketEvent::Ended => {
                self.closed = true;
                SocketAction::Close(None)
            },
        }
    }
}

/// The name a user goes by in the chat: the user name, or `anonyymi-`
/// and the user's id.
pub open spec fn chat_name(username: Option<String>, user_id: u64) -> Seq<char> {
    match username {
        Some(n) => n@,
        None => "anonyymi-"@ + decimal(user_id as nat),
    }
}

/// The name a user goes by in the chat.
pub fn chat_display_name(username: Option<String>, user_id: u64) -> (r: String)
    ensures
        r@ == chat_name(username, user_id),
{
    match username {
        Some(n) => n,
        None => {
            let mut s = "anonyymi-".to_owned();
            push_decimal(&mut s, user_id);
            s
        },
    }
}

/// A connection is only dropped for silence after more than the client
/// timeout without a ping or a pong, and any sign of life resets the
/// count.
pub proof fn law_heartbeat_keeps_connection(last: u64, now: u64)
    requires
        last <= now,
        now - last <= CLIENT_TIMEOUT_MS,
    ensures
        !timed_out(last, now),
{
}

} // verus!
