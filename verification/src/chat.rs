use vstd::prelude::*;
use crate::assoc::{
    assoc_map, keys_distinct, lemma_assoc_absent, lemma_assoc_index, lemma_assoc_push, lemma_assoc_update,
};
use rand::Rng;
use std::collections::HashMap;
use vstd::set_lib::lemma_subset_equality;

verus! {

broadcast use vstd::std_specs::hash::group_hash_axioms;

/// Identifier of one websocket connection to the chat.
pub type ConnId = u64;

/// Event number of a user joining the chat.
pub const USER_JOINED: u8 = 1;

/// Event number of a user leaving the chat.
pub const USER_LEFT: u8 = 2;

/// Event number of a new chat message.
pub const NEW_MESSAGE: u8 = 3;

/// A chat room: only users of at least its access level may post there.
pub struct ChatRoom {
    pub name: String,
    pub access_level: u8,
}

/// Notice sent to every connection when a user joins or leaves.
pub struct UsersChanged {
    pub event: u8,
    pub username: String,
}

/// Notice sent to every connection when a message is posted.
pub struct MessagesChanged {
    pub event: u8,
    pub username: String,
    pub message: String,
    pub room: String,
}

/// What is sent in a broadcast.
pub enum BroadcastPayload {
    /// A join or leave notice, sent as JSON.
    Users(UsersChanged),
    /// A text sent as it is.
    Text(String),
}

/// One message to send to each of the listed connections.
pub struct Broadcast {
    pub recipients: Vec<ConnId>,
    pub payload: BroadcastPayload,
}

/// A fresh connection id from the thread-local random generator
/// (`rand::rng().random::<u64>()`). Nothing is claimed of the value: it is
/// random.
#[verifier::external_body]
fn random_conn_id() -> u64 {
    rand::rng().random::<u64>()
}

/// The state of the chat server: who is connected, who is timed out until
/// when, and the rooms.
///
/// The channels to the connections live beside it, keyed by `ConnId`.
pub struct ChatServer {
    conns: HashMap<ConnId, String>,
    timeout_users: Vec<String>,
    timeout_until: Vec<i64>,
    rooms: Vec<ChatRoom>,
}

/// The ids of a map's keys, each once, in the map's own order.
fn key_list(m: &HashMap<ConnId, String>) -> (r: Vec<ConnId>)
    ensures
        r@.no_duplicates(),
        r@.to_set() == m@.dom(),
        r@.len() == m@.dom().len(),
{
    let mut out: Vec<ConnId> = Vec::new();
    for k in it: m.keys()
        invariant
            out@ == it.seq().unref().take(it.index() as int),
            it.seq().unref().no_duplicates(),
            it.seq().unref().to_set() == m@.dom(),
            it.seq().len() == m@.dom().len(),
            out@.to_set().subset_of(m@.dom()),
    {
        out.push(*k);
        proof {
            assert(out@ == it.seq().unref().take(it.index() + 1));
            assert(it.seq().unref().to_set().contains(it.seq().unref()[it.index() as int]));
        }
    }
    proof {
        out@.unique_seq_to_set();
        lemma_subset_equality(out@.to_set(), m@.dom());
    }
    out
}

impl ChatServer {
    /// The user name of each connection.
    pub closed spec fn users(&self) -> Map<ConnId, Seq<char>> {
        self.conns@.map_values(|s: String| s@)
    }

    pub closed spec fn timeout_entries(&self) -> Seq<(Seq<char>, i64)> {
        Seq::new(self.timeout_users@.len(), |i: int| (self.timeout_users@[i]@, self.timeout_until@[i]))
    }

    /// Until when (a timestamp) each timed-out user may not post.
    pub open spec fn timeouts(&self) -> Map<Seq<char>, i64> {
        assoc_map(self.timeout_entries())
    }

    /// The rooms, as name and access level, in order.
    pub closed spec fn rooms(&self) -> Seq<(Seq<char>, u8)> {
        Seq::new(self.rooms@.len(), |i: int| (self.rooms@[i].name@, self.rooms@[i].access_level))
    }

    /// Internal consistency of the timeout table.
    pub closed spec fn wf(&self) -> bool {
        &&& self.timeout_users@.len() == self.timeout_until@.len()
        &&& keys_distinct(self.timeout_entries())
    }

    /// A user may post to `room` at `now` when not timed out and some room
    /// of that name admits the user's access level.
    pub open spec fn may_post(&self, user: Seq<char>, access_level: u8, room: Seq<char>, now: i64) -> bool {
        &&& !(self.timeouts().dom().contains(user) && self.timeouts()[user] > now)
        &&& exists|i: int| 0 <= i < self.rooms().len() && self.rooms()[i].0 == room && self.rooms()[i].1 <= access_level
    }

    /// A server with the given rooms, no connections and no timeouts.
    pub fn new(rooms: Vec<ChatRoom>) -> (r: ChatServer)
        ensures
            r.wf(),
            r.users() == Map::<ConnId, Seq<char>>::empty(),
            r.timeouts() == Map::<Seq<char>, i64>::empty(),
            r.rooms() == Seq::new(rooms@.len(), |i: int| (rooms@[i].name@, rooms@[i].access_level)),
    {
        let r = ChatServer {
            conns: HashMap::new(),
            timeout_users: Vec::new(),
            timeout_until: Vec::new(),
            rooms,
        };
        assert(r.timeout_entries() =~= Seq::<(Seq<char>, i64)>::empty());
        assert(r.users() =~= Map::<ConnId, Seq<char>>::empty());
        assert(r.timeouts() =~= Map::<Seq<char>, i64>::empty());
        r
    }

    fn find_timeout(&self, user: &String) -> (r: Option<usize>)
        requires
            self.wf(),
        ensures
            match r {
                Some(i) => i < self.timeout_users@.len() && self.timeout_users@[i as int]@ == user@,
                None => !self.timeouts().dom().contains(user@),
            },
    {
        let mut i: usize = 0;
        while i < self.timeout_users.len()
            invariant
                i <= self.timeout_users@.len(),
                forall|k: int| 0 <= k < i ==> self.timeout_users@[k]@ != user@,
            decreases self.timeout_users@.len() - i,
        {
            if self.timeout_users[i] == *user {
                return Some(i);
            }
            i = i + 1;
        }
        proof {
            assert forall|k: int| 0 <= k < self.timeout_entries().len() implies self.timeout_entries()[k].0 != user@ by {}
            lemma_assoc_absent(self.timeout_entries(), user@);
        }
        None
    }

    /// The ids of all connections, each once, to broadcast to.
    fn recipients(&self) -> (r: Vec<ConnId>)
        ensures
            r@.no_duplicates(),
            r@.to_set() == self.users().dom(),
    {
        let r = key_list(&self.conns);
        assert(self.users().dom() =~= self.conns@.dom());
        r
    }

    /// Registers connection `id` for `user`, after telling every connection
    /// already there that the user joined. An existing connection with the
    /// same id is taken over.
    pub fn connect_with_id(&mut self, user: String, id: ConnId) -> (r: Broadcast)
        requires
            old(self).wf(),
        ensures
            final(self).wf(),
            r.recipients@.to_set() == old(self).users().dom(),
            r.recipients@.no_duplicates(),
            r.payload matches BroadcastPayload::Users(u) && u.event == USER_JOINED && u.username@ == user@,
            final(self).users() == old(self).users().insert(id, user@),
            final(self).timeouts() == old(self).timeouts(),
            final(self).rooms() == old(self).rooms(),
    {
        let recipients = self.recipients();
        let payload = BroadcastPayload::Users(UsersChanged { event: USER_JOINED, username: user.clone() });
        let ghost u = user@;
        self.conns.insert(id, user);
        assert(self.users() =~= old(self).users().insert(id, u));
        assert(self.timeout_entries() =~= old(self).timeout_entries());
        assert(self.rooms() =~= old(self).rooms());
        Broadcast { recipients, payload }
    }

    /// Registers a new connection for `user` under a random id, after
    /// telling every connection already there, each once, that the user
    /// joined.
    pub fn connect(&mut self, user: String) -> (r: (ConnId, Broadcast))
        requires
            old(self).wf(),
        ensures
            final(self).wf(),
            r.1.recipients@.to_set() == old(self).users().dom(),
            r.1.recipients@.no_duplicates(),
            r.1.payload matches BroadcastPayload::Users(u) && u.event == USER_JOINED && u.username@ == user@,
            final(self).users() == old(self).users().insert(r.0, user@),
            final(self).timeouts() == old(self).timeouts(),
            final(self).rooms() == old(self).rooms(),
    {
        let id = random_conn_id();
        let b = self.connect_with_id(user, id);
        (id, b)
    }

    /// Removes a connection; if it was there, every remaining connection is
    /// told, once, that its user left.
    pub fn disconnect(&mut self, conn: ConnId) -> (r: Option<Broadcast>)
        requires
            old(self).wf(),
        ensures
            final(self).wf(),
            final(self).users() == old(self).users().remove(conn),
            final(self).timeouts() == old(self).timeouts(),
            final(self).rooms() == old(self).rooms(),
            r is Some <==> old(self).users().dom().contains(conn),
            r matches Some(b) ==> {
                &&& b.recipients@.to_set() == final(self).users().dom()
                &&& b.recipients@.no_duplicates()
                &&& b.payload matches BroadcastPayload::Users(u) && u.event == USER_LEFT
                    && u.username@ == old(self).users()[conn]
            },
    {
        let removed = self.conns.remove(&conn);
        assert(self.users() =~= old(self).users().remove(conn));
        assert(self.timeout_entries() =~= old(self).timeout_entries());
        assert(self.rooms() =~= old(self).rooms());
        match removed {
            Some(username) => {
                let recipients = self.recipients();
                Some(Broadcast {
                    recipients,
                    payload: BroadcastPayload::Users(UsersChanged { event: USER_LEFT, username }),
                })
            },
            None => None,
        }
    }

    /// The names of the rooms, in order.
    pub fn list_rooms(&self) -> (r: Vec<String>)
        ensures
            r@.len() == self.rooms().len(),
            forall|i: int| 0 <= i < r@.len() ==> #[trigger] r@[i]@ == self.rooms()[i].0,
    {
        let mut names: Vec<String> = Vec::new();
        let mut i: usize = 0;
        while i < self.rooms.len()
            invariant
                i <= self.rooms@.len(),
                names@.len() == i,
                forall|k: int| 0 <= k < i ==> #[trigger] names@[k]@ == self.rooms()[k].0,
            decreases self.rooms@.len() - i,
        {
            names.push(self.rooms[i].name.clone());
            i = i + 1;
        }
        names
    }

    /// The user names of all connections: one entry per connection, in the
    /// order of the connection ids `ks` below (a name connected twice is
    /// listed twice).
    pub fn list_users(&self) -> (r: Vec<String>)
        ensures
            r@.len() == self.users().len(),
            exists|ks: Seq<ConnId>|
                {
                    &&& ks.no_duplicates()
                    &&& ks.to_set() == self.users().dom()
                    &&& ks.len() == r@.len()
                    &&& forall|i: int| 0 <= i < ks.len() ==> #[trigger] r@[i]@ == self.users()[ks[i]]
                },
    {
        let keys = key_list(&self.conns);
        let mut names: Vec<String> = Vec::new();
        let mut i: usize = 0;
        while i < keys.len()
            invariant
                i <= keys@.len(),
                keys@.to_set() == self.conns@.dom(),
                names@.len() == i,
                forall|k: int| 0 <= k < i ==> #[trigger] names@[k]@ == self.users()[keys@[k]],
            decreases keys@.len() - i,
        {
            assert(keys@.to_set().contains(keys@[i as int]));
            match self.conns.get(&keys[i]) {
                Some(n) => names.push(n.clone()),
                None => {
                    assert(false);
                },
            }
            i = i + 1;
        }
        proof {
            assert(self.users().dom() =~= self.conns@.dom());
            assert(self.users().len() == self.conns@.dom().len());
            let ks = keys@;
            assert(ks.to_set() == self.users().dom());
            assert(forall|k: int| 0 <= k < ks.len() ==> #[trigger] names@[k]@ == self.users()[ks[k]]);
        }
        names
    }

    /// Forbids `user` to post until `until`.
    pub fn timeout_user(&mut self, user: String, until: i64)
        requires
            old(self).wf(),
        ensures
            final(self).wf(),
            final(self).timeouts() == old(self).timeouts().insert(user@, until),
            final(self).users() == old(self).users(),
            final(self).rooms() == old(self).rooms(),
    {
        let ghost old_entries = self.timeout_entries();
        match self.find_timeout(&user) {
            Some(i) => {
                self.timeout_until.set(i, until);
                proof {
                    lemma_assoc_update(old_entries, i as int, until);
                    assert(self.timeout_entries() =~= old_entries.update(i as int, (user@, until)));
                }
            },
            None => {
                self.timeout_users.push(user);
                self.timeout_until.push(until);
                proof {
                    lemma_assoc_push(old_entries, user@, until);
                    assert(self.timeout_entries() =~= old_entries.push((user@, until)));
                }
            },
        }
        assert(self.users() =~= old(self).users());
        assert(self.rooms() =~= old(self).rooms());
    }

    /// Sends `msg` to every connection, once.
    pub fn send_message(&self, msg: String) -> (r: Broadcast)
        requires
            self.wf(),
        ensures
            r.recipients@.to_set() == self.users().dom(),
            r.recipients@.no_duplicates(),
            r.payload matches BroadcastPayload::Text(t) && t@ == msg@,
    {
        let recipients = self.recipients();
        Broadcast { recipients, payload: BroadcastPayload::Text(msg) }
    }

    /// Sends a chat message of `user` to every connection, when the user is
    /// not timed out at `now` and a room named `room` admits the user's
    /// access level; otherwise nothing is sent.
    pub fn send_chat_message(&self, user: &String, access_level: u8, room: &String, msg: String, now: i64) -> (r: Option<Broadcast>)
        requires
            self.wf(),
        ensures
            r is Some <==> self.may_post(user@, access_level, room@, now),
            r matches Some(b) ==> {
                &&& b.recipients@.to_set() == self.users().dom()
                &&& b.recipients@.no_duplicates()
                &&& b.payload matches BroadcastPayload::Text(t) && t@ == msg@
            },
    {
        let timed_out = match self.find_timeout(user) {
            Some(i) => {
                proof {
                    lemma_assoc_index(self.timeout_entries(), i as int);
                }
                self.timeout_until[i] > now
            },
            None => false,
        };
        if timed_out {
            return None;
        }
        let mut i: usize = 0;
        while i < self.rooms.len()
            invariant
                i <= self.rooms@.len(),
                self.wf(),
                !(self.timeouts().dom().contains(user@) && self.timeouts()[user@] > now),
                forall|k: int| 0 <= k < i ==> !(#[trigger] self.rooms()[k].0 == room@ && self.rooms()[k].1 <= access_level),
            decreases self.rooms@.len() - i,
        {
            if self.rooms[i].name == *room && self.rooms[i].access_level <= access_level {
                assert(self.rooms()[i as int].0 == room@ && self.rooms()[i as int].1 <= access_level);
                return Some(self.send_message(msg));
            }
            i = i + 1;
        }
        None
    }
}

/// Disconnecting a connection that was just made, under an id that was
/// free, leaves the users as they were.
pub proof fn law_connect_then_disconnect(s0: ChatServer, s1: ChatServer, s2: ChatServer, id: ConnId, user: Seq<char>)
    requires
        !s0.users().dom().contains(id),
        s1.users() == s0.users().insert(id, user),
        s2.users() == s1.users().remove(id),
    ensures
        s2.users() == s0.users(),
{
    assert(s2.users() =~= s0.users());
}

/// A user timed out until `until` cannot post before then, whatever the
/// room and level.
pub proof fn law_timeout_blocks_posting(s: ChatServer, user: Seq<char>, access_level: u8, room: Seq<char>, now: i64)
    requires
        s.timeouts().dom().contains(user),
        now < s.timeouts()[user],
    ensures
        !s.may_post(user, access_level, room, now),
{
}

/// Right after a user is timed out until `until`, the user cannot post
/// before `until`.
pub proof fn law_timeout_takes_effect(s0: ChatServer, s1: ChatServer, user: Seq<char>, until: i64, access_level: u8, room: Seq<char>, now: i64)
    requires
        s1.timeouts() == s0.timeouts().insert(user, until),
        now < until,
    ensures
        !s1.may_post(user, access_level, room, now),
{
}

/// A post goes out only to a room whose level the user has.
pub proof fn law_posting_needs_room_level(s: ChatServer, user: Seq<char>, access_level: u8, room: Seq<char>, now: i64)
    requires
        s.may_post(user, access_level, room, now),
    ensures
        exists|i: int| 0 <= i < s.rooms().len() && s.rooms()[i].0 == room && s.rooms()[i].1 <= access_level,
{
}

/// A user who is not timed out may post to a room that admits the user's
/// level.
pub proof fn law_open_room_admits(s: ChatServer, user: Seq<char>, access_level: u8, room: Seq<char>, now: i64, i: int)
    requires
        !s.timeouts().dom().contains(user),
        0 <= i < s.rooms().len(),
        s.rooms()[i].0 == room,
        s.rooms()[i].1 <= access_level,
    ensures
        s.may_post(user, access_level, room, now),
{
}

} // verus!
