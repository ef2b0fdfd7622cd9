//! The records this library keeps: action types, capabilities, grant sets,
//! guild configuration and action records.

use std::collections::HashMap;
use vstd::prelude::*;
use vstd::string::*;

verus! {

/// Compares two texts character by character.
pub fn text_eq(a: &str, b: &str) -> (r: bool)
    ensures
        r == (a@ == b@),
{
    let n = a.unicode_len();
    if n != b.unicode_len() {
        return false;
    }
    let mut i: usize = 0;
    while i < n
        invariant
            n == a@.len(),
            n == b@.len(),
            i <= n,
            forall|k: int| 0 <= k < i ==> a@[k] == b@[k],
        decreases n - i,
    {
        if a.get_char(i) != b.get_char(i) {
            return false;
        }
        i = i + 1;
    }
    assert(a@ =~= b@);
    true
}

/// The kind of a disciplinary action. `Unknown` stands for a stored kind that
/// none of the four names matches.
#[derive(Clone, Copy, Debug, PartialEq, Eq, Structural)]
pub enum ActionType {
    Unknown,
    Strike,
    Mute,
    Kick,
    Ban,
}

/// The wire name of an action type.
pub open spec fn action_type_name(t: ActionType) -> Seq<char> {
    match t {
        ActionType::Unknown => "unknown"@,
        ActionType::Strike => "strike"@,
        ActionType::Mute => "mute"@,
        ActionType::Kick => "kick"@,
        ActionType::Ban => "ban"@,
    }
}

/// The action type a wire name denotes; any other text is `Unknown`.
pub open spec fn action_type_from_name(s: Seq<char>) -> ActionType {
    if s == "strike"@ {
        ActionType::Strike
    } else if s == "mute"@ {
        ActionType::Mute
    } else if s == "kick"@ {
        ActionType::Kick
    } else if s == "ban"@ {
        ActionType::Ban
    } else {
        ActionType::Unknown
    }
}

impl ActionType {
    /// Reads a wire name; any other text is `Unknown`.
    pub fn from_name(s: &str) -> (r: ActionType)
        ensures
            r == action_type_from_name(s@),
    {
        if text_eq(s, "strike") {
            ActionType::Strike
        } else if text_eq(s, "mute") {
            ActionType::Mute
        } else if text_eq(s, "kick") {
            ActionType::Kick
        } else if text_eq(s, "ban") {
            ActionType::Ban
        } else {
            ActionType::Unknown
        }
    }

    /// The wire name.
    pub fn to_string(&self) -> (r: String)
        ensures
            r@ == action_type_name(*self),
    {
        match self {
            ActionType::Unknown => "unknown".to_owned(),
            ActionType::Strike => "strike".to_owned(),
            ActionType::Mute => "mute".to_owned(),
            ActionType::Kick => "kick".to_owned(),
            ActionType::Ban => "ban".to_owned(),
        }
    }
}

impl From<String> for ActionType {
    fn from(s: String) -> (r: ActionType) {
        ActionType::from_name(s.as_str())
    }
}

impl vstd::std_specs::convert::FromSpecImpl<String> for ActionType {
    open spec fn obeys_from_spec() -> bool {
        true
    }

    open spec fn from_spec(s: String) -> ActionType {
        action_type_from_name(s@)
    }
}

/// A named capability that can be granted to users and roles. `Unknown` stands
/// for a name that matches none of the others.
#[derive(Clone, Copy, Debug, PartialEq, Eq, Structural, Hash)]
pub enum Permissions {
    Unknown,
    PermissionsAdd,
    PermissionsList,
    PermissionsRemove,
    PermissionsView,
    ModerationStrike,
    ModerationSearchSelf,
    ModerationSearchOthers,
    ModerationSearchSelfExpired,
    ModerationSearchOthersExpired,
    ModerationSearchUuid,
    ModerationMute,
    ModerationUnmute,
    ModerationKick,
    ModerationBan,
    ModerationUnban,
    ModerationRemove,
    ModerationExpire,
    ModerationDuration,
    ModerationReason,
}

/// The wire name of a capability.
pub open spec fn permission_name(p: Permissions) -> Seq<char> {
    match p {
        Permissions::Unknown => "unknown"@,
        Permissions::PermissionsAdd => "permissions.add"@,
        Permissions::PermissionsList => "permissions.list"@,
        Permissions::PermissionsRemove => "permissions.remove"@,
        Permissions::PermissionsView => "permissions.view"@,
        Permissions::ModerationStrike => "moderation.strike"@,
        Permissions::ModerationSearchSelf => "moderation.search.self"@,
        Permissions::ModerationSearchOthers => "moderation.search.others"@,
        Permissions::ModerationSearchSelfExpired => "moderation.search.self.expired"@,
        Permissions::ModerationSearchOthersExpired => "moderation.search.others.expired"@,
        Permissions::ModerationSearchUuid => "moderation.search.uuid"@,
        Permissions::ModerationMute => "moderation.mute"@,
        Permissions::ModerationUnmute => "moderation.unmute"@,
        Permissions::ModerationKick => "moderation.kick"@,
        Permissions::ModerationBan => "moderation.ban"@,
        Permissions::ModerationUnban => "moderation.unban"@,
        Permissions::ModerationRemove => "moderation.remove"@,
        Permissions::ModerationExpire => "moderation.expire"@,
        Permissions::ModerationDuration => "moderation.duration"@,
        Permissions::ModerationReason => "moderation.reason"@,
    }
}

/// The capability a wire name denotes; any other text is `Unknown`.
pub open spec fn permission_from_name(s: Seq<char>) -> Permissions {
    if s == "permissions.add"@ {
        Permissions::PermissionsAdd
    } else if s == "permissions.list"@ {
        Permissions::PermissionsList
    } else if s == "permissions.remove"@ {
        Permissions::PermissionsRemove
    } else if s == "permissions.view"@ {
        Permissions::PermissionsView
    } else if s == "moderation.strike"@ {
        Permissions::ModerationStrike
    } else if s == "moderation.search.self"@ {
        Permissions::ModerationSearchSelf
    } else if s == "moderation.search.others"@ {
        Permissions::ModerationSearchOthers
    } else if s == "moderation.search.self.expired"@ {
        Permissions::ModerationSearchSelfExpired
    } else if s == "moderation.search.others.expired"@ {
        Permissions::ModerationSearchOthersExpired
    } else if s == "moderation.search.uuid"@ {
        Permissions::ModerationSearchUuid
    } else if s == "moderation.mute"@ {
        Permissions::ModerationMute
    } else if s == "moderation.unmute"@ {
        Permissions::ModerationUnmute
    } else if s == "moderation.kick"@ {
        Permissions::ModerationKick
    } else if s == "moderation.ban"@ {
        Permissions::ModerationBan
    } else if s == "moderation.unban"@ {
        Permissions::ModerationUnban
    } else if s == "moderation.remove"@ {
        Permissions::ModerationRemove
    } else if s == "moderation.expire"@ {
        Permissions::ModerationExpire
    } else if s == "moderation.duration"@ {
        Permissions::ModerationDuration
    } else if s == "moderation.reason"@ {
        Permissions::ModerationReason
    } else {
        Permissions::Unknown
    }
}

impl Permissions {
    /// Reads a wire name; any other text is `Unknown`.
    pub fn from_name(s: &str) -> (r: Permissions)
        ensures
            r == permission_from_name(s@),
    {
        if text_eq(s, "permissions.add") {
            Permissions::PermissionsAdd
        } else if text_eq(s, "permissions.list") {
            Permissions::PermissionsList
        } else if text_eq(s, "permissions.remove") {
            Permissions::PermissionsRemove
        } else if text_eq(s, "permissions.view") {
            Permissions::PermissionsView
        } else if text_eq(s, "moderation.strike") {
            Permissions::ModerationStrike
        } else if text_eq(s, "moderation.search.self") {
            Permissions::ModerationSearchSelf
        } else if text_eq(s, "moderation.search.others") {
            Permissions::ModerationSearchOthers
        } else if text_eq(s, "moderation.search.self.expired") {
            Permissions::ModerationSearchSelfExpired
        } else if text_eq(s, "moderation.search.others.expired") {
            Permissions::ModerationSearchOthersExpired
        } else if text_eq(s, "moderation.search.uuid") {
            Permissions::ModerationSearchUuid
        } else if text_eq(s, "moderation.mute") {
            Permissions::ModerationMute
        } else if text_eq(s, "moderation.unmute") {
            Permissions::ModerationUnmute
        } else if text_eq(s, "moderation.kick") {
            Permissions::ModerationKick
        } else if text_eq(s, "moderation.ban") {
            Permissions::ModerationBan
        } else if text_eq(s, "moderation.unban") {
            Permissions::ModerationUnban
        } else if text_eq(s, "moderation.remove") {
            Permissions::ModerationRemove
        } else if text_eq(s, "moderation.expire") {
            Permissions::ModerationExpire
        } else if text_eq(s, "moderation.duration") {
            Permissions::ModerationDuration
        } else if text_eq(s, "moderation.reason") {
            Permissions::ModerationReason
        } else {
            Permissions::Unknown
        }
    }

    /// The wire name.
    pub fn to_string(&self) -> (r: String)
        ensures
            r@ == permission_name(*self),
    {
        match self {
            Permissions::Unknown => "unknown".to_owned(),
            Permissions::PermissionsAdd => "permissions.add".to_owned(),
            Permissions::PermissionsList => "permissions.list".to_owned(),
            Permissions::PermissionsRemove => "permissions.remove".to_owned(),
            Permissions::PermissionsView => "permissions.view".to_owned(),
            Permissions::ModerationStrike => "moderation.strike".to_owned(),
            Permissions::ModerationSearchSelf => "moderation.search.self".to_owned(),
            Permissions::ModerationSearchOthers => "moderation.search.others".to_owned(),
            Permissions::ModerationSearchSelfExpired => "moderation.search.self.expired".to_owned(),
            Permissions::ModerationSearchOthersExpired => "moderation.search.others.expired".to_owned(),
            Permissions::ModerationSearchUuid => "moderation.search.uuid".to_owned(),
            Permissions::ModerationMute => "moderation.mute".to_owned(),
            Permissions::ModerationUnmute => "moderation.unmute".to_owned(),
            Permissions::ModerationKick => "moderation.kick".to_owned(),
            Permissions::ModerationBan => "moderation.ban".to_owned(),
            Permissions::ModerationUnban => "moderation.unban".to_owned(),
            Permissions::ModerationRemove => "moderation.remove".to_owned(),
            Permissions::ModerationExpire => "moderation.expire".to_owned(),
            Permissions::ModerationDuration => "moderation.duration".to_owned(),
            Permissions::ModerationReason => "moderation.reason".to_owned(),
        }
    }

    /// Every grantable capability, in declaration order (`Unknown` is not one).
    pub fn all() -> (r: Vec<Permissions>)
        ensures
            r@.len() == 19,
            forall|p: Permissions| p != Permissions::Unknown <==> r@.contains(p),
    {
        let r = vec![
            Permissions::PermissionsAdd,
            Permissions::PermissionsList,
            Permissions::PermissionsRemove,
            Permissions::PermissionsView,
            Permissions::ModerationStrike,
            Permissions::ModerationSearchSelf,
            Permissions::ModerationSearchOthers,
            Permissions::ModerationSearchSelfExpired,
            Permissions::ModerationSearchOthersExpired,
            Permissions::ModerationSearchUuid,
            Permissions::ModerationMute,
            Permissions::ModerationUnmute,
            Permissions::ModerationKick,
            Permissions::ModerationBan,
            Permissions::ModerationUnban,
            Permissions::ModerationRemove,
            Permissions::ModerationExpire,
            Permissions::ModerationDuration,
            Permissions::ModerationReason,
        ];
        assert forall|p: Permissions| p != Permissions::Unknown implies r@.contains(p) by {
            match p {
                Permissions::Unknown => {},
                Permissions::PermissionsAdd => assert(r@[0] == p),
                Permissions::PermissionsList => assert(r@[1] == p),
                Permissions::PermissionsRemove => assert(r@[2] == p),
                Permissions::PermissionsView => assert(r@[3] == p),
                Permissions::ModerationStrike => assert(r@[4] == p),
                Permissions::ModerationSearchSelf => assert(r@[5] == p),
                Permissions::ModerationSearchOthers => assert(r@[6] == p),
                Permissions::ModerationSearchSelfExpired => assert(r@[7] == p),
                Permissions::ModerationSearchOthersExpired => assert(r@[8] == p),
                Permissions::ModerationSearchUuid => assert(r@[9] == p),
                Permissions::ModerationMute => assert(r@[10] == p),
                Permissions::ModerationUnmute => assert(r@[11] == p),
                Permissions::ModerationKick => assert(r@[12] == p),
                Permissions::ModerationBan => assert(r@[13] == p),
                Permissions::ModerationUnban => assert(r@[14] == p),
                Permissions::ModerationRemove => assert(r@[15] == p),
                Permissions::ModerationExpire => assert(r@[16] == p),
                Permissions::ModerationDuration => assert(r@[17] == p),
                Permissions::ModerationReason => assert(r@[18] == p),
            }
        };
        r
    }
}

impl From<String> for Permissions {
    fn from(s: String) -> (r: Permissions) {
        Permissions::from_name(s.as_str())
    }
}

impl vstd::std_specs::convert::FromSpecImpl<String> for Permissions {
    open spec fn obeys_from_spec() -> bool {
        true
    }

    open spec fn from_spec(s: String) -> Permissions {
        permission_from_name(s@)
    }
}

/// The capabilities granted directly to one member of one guild.
pub struct User {
    pub id: i64,
    pub guild_id: i64,
    pub permissions: Vec<Permissions>,
}

/// The capabilities granted to one role of one guild. The role whose id is the
/// guild's id is the guild's default ("everyone") role.
pub struct Role {
    pub id: i64,
    pub guild_id: i64,
    pub permissions: Vec<Permissions>,
}

/// Where a guild's audit log goes.
#[derive(Clone, Copy, Debug, PartialEq, Eq, Structural)]
pub struct LoggingConfig {
    pub logging_channel: i64,
}

/// What happens when a member reaches a number of active strikes.
#[derive(Clone, Debug)]
pub struct StrikeEscalation {
    pub action: ActionType,
    pub duration: Option<String>,
}

/// A guild's moderation policy.
#[derive(Clone, Debug)]
pub struct ModerationConfig {
    pub mute_role: i64,
    pub strike_escalations: HashMap<u64, StrikeEscalation>,
    pub blacklisted_words: Vec<String>,
    pub blacklisted_regex: Vec<String>,
    pub default_strike_duration: String,
}

/// A guild's configuration; an absent part disables what it configures.
#[derive(Clone, Debug)]
pub struct GuildConfig {
    pub logging: Option<LoggingConfig>,
    pub moderation: Option<ModerationConfig>,
}

/// A guild and its configuration.
#[derive(Clone, Debug)]
pub struct Guild {
    pub id: i64,
    pub config: GuildConfig,
}

impl Guild {
    /// A guild with nothing configured.
    pub fn new(id: i64) -> (g: Guild)
        ensures
            g.id == id,
            g.config.logging.is_none(),
            g.config.moderation.is_none(),
    {
        Guild { id, config: GuildConfig { logging: None, moderation: None } }
    }
}

/// A recorded disciplinary action. `expiry` is an absolute instant in seconds;
/// `None` means the action never lapses by itself.
#[derive(Clone, Debug)]
pub struct Action {
    pub id: u64,
    pub action_type: ActionType,
    pub guild_id: i64,
    pub user_id: i64,
    pub moderator_id: i64,
    pub reason: String,
    pub active: bool,
    pub expiry: Option<u64>,
}

impl Action {
    /// A field-for-field copy.
    pub fn copy(&self) -> (r: Action)
        ensures
            r == *self,
    {
        Action {
            id: self.id,
            action_type: self.action_type,
            guild_id: self.guild_id,
            user_id: self.user_id,
            moderator_id: self.moderator_id,
            reason: self.reason.clone(),
            active: self.active,
            expiry: self.expiry,
        }
    }
}

} // verus!
