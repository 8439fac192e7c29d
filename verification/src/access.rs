use vstd::prelude::*;

verus! {

/// User access level (role) table.
///
/// Each level stands for a number; a higher number grants more rights.
#[derive(Debug, Clone, Copy, PartialEq, Eq, Structural)]
pub enum AccessLevel {
    Anonymous,
    Registered,
    PendingMember,
    Member,
    Moderator,
    Admin,
    Owner,
    Root,
}

/// The number that stands for each access level.
pub open spec fn level_value(level: AccessLevel) -> u8 {
    match level {
        AccessLevel::Anonymous => 10,
        AccessLevel::Registered => 20,
        AccessLevel::PendingMember => 30,
        AccessLevel::Member => 50,
        AccessLevel::Moderator => 90,
        AccessLevel::Admin => 100,
        AccessLevel::Owner => 200,
        AccessLevel::Root => 255,
    }
}

/// The level that a number stands for, if any.
pub open spec fn level_of(value: u8) -> Option<AccessLevel> {
    if value == 10 {
        Some(AccessLevel::Anonymous)
    } else if value == 20 {
        Some(AccessLevel::Registered)
    } else if value == 30 {
        Some(AccessLevel::PendingMember)
    } else if value == 50 {
        Some(AccessLevel::Member)
    } else if value == 90 {
        Some(AccessLevel::Moderator)
    } else if value == 100 {
        Some(AccessLevel::Admin)
    } else if value == 200 {
        Some(AccessLevel::Owner)
    } else if value == 255 {
        Some(AccessLevel::Root)
    } else {
        None
    }
}

/// Default lifetime, in seconds, of an access token issued to a user of
/// the given level.
pub open spec fn default_lifetime_secs(level: AccessLevel) -> nat {
    match level {
        AccessLevel::Anonymous => 365 * 86_400,
        AccessLevel::Registered => 30 * 86_400,
        AccessLevel::PendingMember => 30 * 86_400,
        AccessLevel::Member => 30 * 86_400,
        AccessLevel::Moderator => 30 * 86_400,
        AccessLevel::Admin => 7 * 86_400,
        AccessLevel::Owner => 86_400,
        AccessLevel::Root => 3_600,
    }
}

impl AccessLevel {
    /// The number that stands for this level (`level as u8`).
    pub fn as_u8(self) -> (r: u8)
        ensures
            r == level_value(self),
    {
        match self {
            AccessLevel::Anonymous => 10,
            AccessLevel::Registered => 20,
            AccessLevel::PendingMember => 30,
            AccessLevel::Member => 50,
            AccessLevel::Moderator => 90,
            AccessLevel::Admin => 100,
            AccessLevel::Owner => 200,
            AccessLevel::Root => 255,
        }
    }

    /// Reads a level from its number; an unknown number is handed back as
    /// the error.
    pub fn try_from(value: u8) -> (r: Result<AccessLevel, u8>)
        ensures
            match level_of(value) {
                Some(l) => r == Ok::<AccessLevel, u8>(l),
                None => r == Err::<AccessLevel, u8>(value),
            },
    {
        match value {
            10 => Ok(AccessLevel::Anonymous),
            20 => Ok(AccessLevel::Registered),
            30 => Ok(AccessLevel::PendingMember),
            50 => Ok(AccessLevel::Member),
            90 => Ok(AccessLevel::Moderator),
            100 => Ok(AccessLevel::Admin),
            200 => Ok(AccessLevel::Owner),
            255 => Ok(AccessLevel::Root),
            unknown_rank => Err(unknown_rank),
        }
    }

    /// Default lifetime, in seconds, of a token for this level.
    pub fn default_lifetime(self) -> (r: i64)
        ensures
            r == default_lifetime_secs(self),
    {
        match self {
            AccessLevel::Anonymous => 365 * 86_400,
            AccessLevel::Registered => 30 * 86_400,
            AccessLevel::PendingMember => 30 * 86_400,
            AccessLevel::Member => 30 * 86_400,
            AccessLevel::Moderator => 30 * 86_400,
            AccessLevel::Admin => 7 * 86_400,
            AccessLevel::Owner => 86_400,
            AccessLevel::Root => 3_600,
        }
    }

    /// Default expiration time (seconds since the epoch) of a token issued
    /// at `now` for this level.
    pub fn default_exp(self, now: i64) -> (r: i64)
        requires
            now + default_lifetime_secs(self) <= i64::MAX,
        ensures
            r == now + default_lifetime_secs(self),
    {
        now + self.default_lifetime()
    }
}

/// Reading back the number of a level gives the level.
pub proof fn lemma_level_roundtrip(level: AccessLevel)
    ensures
        level_of(level_value(level)) == Some(level),
{
}

/// A number that reads as a level is that level's number.
pub proof fn lemma_level_of_inverse(value: u8)
    ensures
        level_of(value) matches Some(l) ==> level_value(l) == value,
{
}

/// The numbers follow the order of the table.
pub proof fn lemma_levels_ordered()
    ensures
        level_value(AccessLevel::Anonymous) < level_value(AccessLevel::Registered),
        level_value(AccessLevel::Registered) < level_value(AccessLevel::PendingMember),
        level_value(AccessLevel::PendingMember) < level_value(AccessLevel::Member),
        level_value(AccessLevel::Member) < level_value(AccessLevel::Moderator),
        level_value(AccessLevel::Moderator) < level_value(AccessLevel::Admin),
        level_value(AccessLevel::Admin) < level_value(AccessLevel::Owner),
        level_value(AccessLevel::Owner) < level_value(AccessLevel::Root),
{
}

} // verus!
