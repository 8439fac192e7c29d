use vstd::prelude::*;
use crate::access::{level_value, AccessLevel};

verus! {

/// What is known of an active ban of the requesting user.
pub struct BanInfo {
    /// The post that the ban was given for, if any.
    pub post_id: Option<u32>,
}

/// What a request handler knows of the requesting user.
pub struct UserData {
    pub id: u64,
    pub access_level: u8,
    pub banned: Option<BanInfo>,
    /// The address the request came from.
    pub ip_addr: String,
}

/// The answer to a request for a page.
pub enum PageAccess {
    /// The ban page is shown instead.
    Banned,
    /// The "forbidden" page is shown, naming the level the page needs.
    Forbidden { required_access_level: u8 },
    /// The page is shown.
    Allowed,
}

/// The answer to a request for a stored file.
pub enum FileAccess {
    /// Refused: the file belongs to a board above the user's level.
    NoAccess,
    /// Refused: the account is banned.
    Banned,
    /// The file is served.
    Allowed,
}

/// A ban stops a user unless the user is root.
pub open spec fn ban_blocks(banned: bool, access_level: u8) -> bool {
    banned && access_level != level_value(AccessLevel::Root)
}

/// The page answer when the ban is checked before the level.
pub open spec fn page_access_ban_first(banned: bool, access_level: u8, required: u8) -> PageAccess {
    if ban_blocks(banned, access_level) {
        PageAccess::Banned
    } else if access_level < required {
        PageAccess::Forbidden { required_access_level: required }
    } else {
        PageAccess::Allowed
    }
}

/// The page answer when the level is checked before the ban.
pub open spec fn page_access_level_first(banned: bool, access_level: u8, required: u8) -> PageAccess {
    if access_level < required {
        PageAccess::Forbidden { required_access_level: required }
    } else if ban_blocks(banned, access_level) {
        PageAccess::Banned
    } else {
        PageAccess::Allowed
    }
}

/// Whether the user may take an action that needs `required`: refused
/// actions are all answered "forbidden", whichever check fails.
pub open spec fn may_act_spec(banned: bool, access_level: u8, required: u8) -> bool {
    !ban_blocks(banned, access_level) && access_level >= required
}

impl UserData {
    /// Whether an active ban stops this user (root is never stopped).
    pub fn is_ban_blocked(&self) -> (r: bool)
        ensures
            r == ban_blocks(self.banned is Some, self.access_level),
    {
        self.banned.is_some() && self.access_level != AccessLevel::Root.as_u8()
    }

    /// Access to a page that needs `required`, the ban being checked first
    /// (front page, chat, boards, threads, moderation pages).
    pub fn page_gate(&self, required: u8) -> (r: PageAccess)
        ensures
            r == page_access_ban_first(self.banned is Some, self.access_level, required),
    {
        if self.is_ban_blocked() {
            PageAccess::Banned
        } else if self.access_level < required {
            PageAccess::Forbidden { required_access_level: required }
        } else {
            PageAccess::Allowed
        }
    }

    /// Access to a page that needs `required`, the level being checked
    /// first (the application pages).
    pub fn page_gate_level_first(&self, required: u8) -> (r: PageAccess)
        ensures
            r == page_access_level_first(self.banned is Some, self.access_level, required),
    {
        if self.access_level < required {
            PageAccess::Forbidden { required_access_level: required }
        } else if self.is_ban_blocked() {
            PageAccess::Banned
        } else {
            PageAccess::Allowed
        }
    }

    /// Whether the user may take an action that needs `required`.
    pub fn may_act(&self, required: u8) -> (r: bool)
        ensures
            r == may_act_spec(self.banned is Some, self.access_level, required),
    {
        !self.is_ban_blocked() && self.access_level >= required
    }

    /// Whether the user may register: only anonymous users may.
    pub fn may_register(&self) -> (r: bool)
        ensures
            r == (self.access_level == level_value(AccessLevel::Anonymous)),
    {
        self.access_level == AccessLevel::Anonymous.as_u8()
    }

    /// Whether the user may see or send the membership application: only
    /// registered users may.
    pub fn may_apply(&self) -> (r: bool)
        ensures
            r == (self.access_level == level_value(AccessLevel::Registered)),
    {
        self.access_level == AccessLevel::Registered.as_u8()
    }

    /// Access to a file posted on a board of level `board_level`: the level
    /// is checked first, then any ban (root included).
    pub fn file_access(&self, board_level: u8) -> (r: FileAccess)
        ensures
            board_level > self.access_level ==> r is NoAccess,
            board_level <= self.access_level && self.banned is Some ==> r is Banned,
            board_level <= self.access_level && self.banned is None ==> r is Allowed,
    {
        if board_level > self.access_level {
            FileAccess::NoAccess
        } else if self.banned.is_some() {
            FileAccess::Banned
        } else {
            FileAccess::Allowed
        }
    }

    /// Whether the user may ban a user of level `target_level`: a moderator
    /// not stopped by a ban, of a level above the target's.
    pub fn may_ban(&self, target_level: u8) -> (r: bool)
        ensures
            r == (!ban_blocks(self.banned is Some, self.access_level) && self.access_level
                >= level_value(AccessLevel::Moderator) && self.access_level > target_level),
    {
        !self.is_ban_blocked() && !(self.access_level < AccessLevel::Moderator.as_u8()
            || self.access_level <= target_level)
    }

    /// Whether the user may delete post `post_id` of `owner`, in a thread
    /// whose opening post is `op_id`: moderators may delete any reply, other
    /// users their own; the opening post is never deleted this way.
    pub fn may_delete_post(&self, owner: u64, post_id: u32, op_id: u32) -> (r: bool)
        ensures
            r == ((self.access_level >= level_value(AccessLevel::Moderator) || self.id == owner)
                && post_id != op_id),
    {
        if self.access_level < AccessLevel::Moderator.as_u8() && self.id != owner {
            return false;
        }
        post_id != op_id
    }

    /// Whether the user may delete a thread opened by `owner`: not stopped
    /// by a ban, and a moderator or the owner.
    pub fn may_delete_thread(&self, owner: u64) -> (r: bool)
        ensures
            r == (!ban_blocks(self.banned is Some, self.access_level) && (self.access_level
                >= level_value(AccessLevel::Moderator) || self.id == owner)),
    {
        if self.is_ban_blocked() {
            return false;
        }
        !(self.access_level < AccessLevel::Moderator.as_u8() && self.id != owner)
    }
}

/// Whether a board of level `board_level` is open to a user of level
/// `user_level`.
pub fn board_open_to(board_level: u8, user_level: u8) -> (r: bool)
    ensures
        r == (board_level <= user_level),
{
    !(board_level > user_level)
}

/// Whether a user may change the expiry of a session of `target_user`:
/// users below admin may only change their own sessions.
pub fn may_modify_session(user_id: u32, access_level: u8, target_user: u32) -> (r: bool)
    ensures
        r == (user_id == target_user || access_level >= level_value(AccessLevel::Admin)),
{
    let self_modification = user_id == target_user;
    !(!self_modification && access_level < AccessLevel::Admin.as_u8())
}

/// The level that a reviewed applicant gets: member when accepted, else
/// back to registered.
pub fn reviewed_level(accepted: bool) -> (r: u8)
    ensures
        accepted ==> r == level_value(AccessLevel::Member),
        !accepted ==> r == level_value(AccessLevel::Registered),
{
    if accepted {
        AccessLevel::Member.as_u8()
    } else {
        AccessLevel::Registered.as_u8()
    }
}

/// A banned user other than root is refused by every gate.
pub proof fn law_banned_refused(access_level: u8, required: u8)
    requires
        access_level != level_value(AccessLevel::Root),
    ensures
        page_access_ban_first(true, access_level, required) is Banned,
        !(page_access_level_first(true, access_level, required) is Allowed),
        !may_act_spec(true, access_level, required),
{
}

/// Root is never stopped by a ban.
pub proof fn law_root_not_stopped_by_ban(banned: bool)
    ensures
        !ban_blocks(banned, level_value(AccessLevel::Root)),
        page_access_ban_first(banned, level_value(AccessLevel::Root), level_value(AccessLevel::Root)) is Allowed,
{
}

/// A higher level never loses an action that a lower one may take.
pub proof fn law_may_act_monotone(banned: bool, low: u8, high: u8, required: u8)
    requires
        low <= high,
        may_act_spec(banned, low, required),
    ensures
        may_act_spec(banned, high, required),
{
}

/// The two orders of page checks differ only for a banned user who also
/// lacks the level: one shows the ban, the other the "forbidden" page.
pub proof fn law_page_orders_agree(banned: bool, access_level: u8, required: u8)
    requires
        !(ban_blocks(banned, access_level) && access_level < required),
    ensures
        page_access_ban_first(banned, access_level, required) == page_access_level_first(banned, access_level, required),
{
}

/// A page is shown exactly when the corresponding action is allowed.
pub proof fn law_page_shown_iff_may_act(banned: bool, access_level: u8, required: u8)
    ensures
        (page_access_ban_first(banned, access_level, required) is Allowed) == may_act_spec(banned, access_level, required),
        (page_access_level_first(banned, access_level, required) is Allowed) == may_act_spec(banned, access_level, required),
{
}

} // verus!
