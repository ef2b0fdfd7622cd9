//! The moderation verbs and strike escalation.
//!
//! A verb that needs the platform to act comes in two steps: `plan_*`
//! validates the request and names the call the platform must make; after that
//! call succeeded, the verb itself records the outcome. Nothing is recorded and
//! no call is named for a request that is rejected.

use crate::duration::{parse_parts, scan, Duration, DurationParts};
use crate::grants::{GrantStore, Member};
use crate::model::{Action, ActionType, Guild, Permissions};
use crate::store::{
    after_drain, due_records, expiry_for, for_subject, is_active_of, ActionStore, StoreError,
};
use crate::store::active_count;
use vstd::prelude::*;
use vstd::string::*;

verus! {

broadcast use vstd::std_specs::hash::group_hash_axioms;

/// Why a verb did not happen.
#[derive(Clone, Copy, Debug, PartialEq, Eq, Structural)]
pub enum CommandError {
    /// The acting member targeted themselves.
    SelfTarget,
    /// The action the request names does not exist.
    NotFound,
    /// The duration reaches past the last representable instant.
    DurationTooLong,
    /// The store has no identifier left to hand out.
    StoreExhausted,
    /// The platform did not carry out the enforcement call.
    EffectorFailed,
    /// A stored record could not be put back in order.
    Conflict,
    /// The record could not be written to persistent storage.
    StorageFailed,
}

/// The sentence shown to the member who asked, for each failure.
pub open spec fn message_text(e: CommandError) -> Seq<char> {
    match e {
        CommandError::SelfTarget => "You cannot target yourself"@,
        CommandError::NotFound => "The action with this ID does not exist"@,
        CommandError::DurationTooLong => "That duration is too long"@,
        CommandError::StoreExhausted => "No more actions can be recorded"@,
        CommandError::EffectorFailed => "The platform refused the action. Please try again later."@,
        CommandError::Conflict => "The record conflicts with a stored one"@,
        CommandError::StorageFailed => "The action was taken but could not be stored. Please try again later."@,
    }
}

pub open spec fn command_error_of(e: StoreError) -> CommandError {
    match e {
        StoreError::NotFound => CommandError::NotFound,
        StoreError::DurationTooLong => CommandError::DurationTooLong,
        StoreError::Exhausted => CommandError::StoreExhausted,
        StoreError::Conflict => CommandError::Conflict,
    }
}

impl CommandError {
    /// The store failure as a command failure.
    pub fn from_store(e: StoreError) -> (r: CommandError)
        ensures
            r == command_error_of(e),
    {
        match e {
            StoreError::NotFound => CommandError::NotFound,
            StoreError::DurationTooLong => CommandError::DurationTooLong,
            StoreError::Exhausted => CommandError::StoreExhausted,
            StoreError::Conflict => CommandError::Conflict,
        }
    }

    /// A sentence for the member who asked.
    pub fn message(&self) -> (r: String)
        ensures
            r@ == message_text(*self),
    {
        match self {
            CommandError::SelfTarget => "You cannot target yourself".to_owned(),
            CommandError::NotFound => "The action with this ID does not exist".to_owned(),
            CommandError::DurationTooLong => "That duration is too long".to_owned(),
            CommandError::StoreExhausted => "No more actions can be recorded".to_owned(),
            CommandError::EffectorFailed => "The platform refused the action. Please try again later.".to_owned(),
            CommandError::Conflict => "The record conflicts with a stored one".to_owned(),
            CommandError::StorageFailed => "The action was taken but could not be stored. Please try again later.".to_owned(),
        }
    }
}

/// A call the platform must make for a verb.
#[derive(Clone, Debug)]
pub enum Effect {
    Ban { guild_id: i64, user_id: i64, reason: String },
    Unban { guild_id: i64, user_id: i64, moderator_id: i64 },
    Kick { guild_id: i64, user_id: i64 },
    GrantRole { guild_id: i64, user_id: i64, role_id: i64, reason: String },
    RevokeRole { guild_id: i64, user_id: i64, role_id: i64, moderator_id: i64 },
}

/// The secondary action a strike triggers: its type, its duration (none for a
/// kick) and its reason. The system performs it.
#[derive(Clone)]
pub struct Escalation {
    pub action_type: ActionType,
    pub duration: Option<Duration>,
    pub reason: String,
}

/// A recorded strike and the escalation it triggered, if any.
pub struct StrikeOutcome {
    pub action: Action,
    pub escalation: Option<Escalation>,
}

pub open spec fn digit_char(d: nat) -> char {
    if d == 0 {
        '0'
    } else if d == 1 {
        '1'
    } else if d == 2 {
        '2'
    } else if d == 3 {
        '3'
    } else if d == 4 {
        '4'
    } else if d == 5 {
        '5'
    } else if d == 6 {
        '6'
    } else if d == 7 {
        '7'
    } else if d == 8 {
        '8'
    } else {
        '9'
    }
}

/// `n` in decimal, without sign or leading zeros.
pub open spec fn decimal(n: nat) -> Seq<char>
    decreases n,
{
    if n < 10 {
        seq![digit_char(n)]
    } else {
        decimal(n / 10).push(digit_char(n % 10))
    }
}

/// The reason given to an escalation at `count` active strikes.
pub open spec fn escalation_reason_text(count: nat) -> Seq<char> {
    "Strike escalation ("@ + decimal(count) + ")"@
}

/// The one-character text of the digit `d`.
fn digit_text(d: u64) -> (r: &'static str)
    requires
        d < 10,
    ensures
        r@ == seq![digit_char(d as nat)],
{
    if d == 0 {
        proof {
            reveal_strlit("0");
        }
        "0"
    } else if d == 1 {
        proof {
            reveal_strlit("1");
        }
        "1"
    } else if d == 2 {
        proof {
            reveal_strlit("2");
        }
        "2"
    } else if d == 3 {
        proof {
            reveal_strlit("3");
        }
        "3"
    } else if d == 4 {
        proof {
            reveal_strlit("4");
        }
        "4"
    } else if d == 5 {
        proof {
            reveal_strlit("5");
        }
        "5"
    } else if d == 6 {
        proof {
            reveal_strlit("6");
        }
        "6"
    } else if d == 7 {
        proof {
            reveal_strlit("7");
        }
        "7"
    } else if d == 8 {
        proof {
            reveal_strlit("8");
        }
        "8"
    } else {
        proof {
            reveal_strlit("9");
        }
        "9"
    }
}

/// Appends `n` in decimal to `s`.
fn push_decimal(s: &mut String, n: u64)
    ensures
        final(s)@ == old(s)@ + decimal(n as nat),
    decreases n,
{
    if n >= 10 {
        push_decimal(s, n / 10);
        let ghost mid = s@;
        s.append(digit_text(n % 10));
        assert(s@ =~= old(s)@ + decimal(n as nat)) by {
            assert(decimal(n as nat) == decimal((n / 10) as nat).push(digit_char((n % 10) as nat)));
        }
    } else {
        s.append(digit_text(n));
        assert(s@ =~= old(s)@ + decimal(n as nat));
    }
}

/// The reason given to an escalation at `count` active strikes.
fn escalation_reason(count: u64) -> (r: String)
    ensures
        r@ == escalation_reason_text(count as nat),
{
    let mut r = String::from_str("Strike escalation (");
    push_decimal(&mut r, count);
    r.append(")");
    assert(r@ =~= escalation_reason_text(count as nat));
    r
}

/// The member who acts: the given moderator, or the system itself.
pub open spec fn acting_id(moderator_id: Option<i64>, bot_id: i64) -> i64 {
    match moderator_id {
        Some(m) => m,
        None => bot_id,
    }
}

/// The text of a rule's duration; an absent one reads as empty (permanent).
pub open spec fn rule_duration_text(d: Option<String>) -> Seq<char> {
    match d {
        Some(s) => s@,
        None => Seq::empty(),
    }
}

/// Whether `e` is the escalation that `guild`'s table prescribes at exactly
/// `count` active strikes. Only mute, kick and ban rules apply; other entries
/// are ignored.
pub open spec fn escalation_matches(e: Option<Escalation>, guild: Guild, count: u64) -> bool {
    match guild.config.moderation {
        None => e.is_none(),
        Some(mc) => if !mc.strike_escalations@.contains_key(count) {
            e.is_none()
        } else {
            let rule = mc.strike_escalations@[count];
            if rule.action == ActionType::Mute || rule.action == ActionType::Ban {
                &&& e is Some
                &&& e.unwrap().action_type == rule.action
                &&& e.unwrap().reason@ == escalation_reason_text(count as nat)
                &&& e.unwrap().duration is Some
                &&& e.unwrap().duration.unwrap().parts() == parse_parts(rule_duration_text(rule.duration))
            } else if rule.action == ActionType::Kick {
                &&& e is Some
                &&& e.unwrap().action_type == ActionType::Kick
                &&& e.unwrap().reason@ == escalation_reason_text(count as nat)
                &&& e.unwrap().duration is None
            } else {
                e.is_none()
            }
        },
    }
}

/// The escalation `guild` prescribes at exactly `count` active strikes.
pub fn on_new_strike(guild: &Guild, count: u64) -> (r: Option<Escalation>)
    ensures
        escalation_matches(r, *guild, count),
{
    match &guild.config.moderation {
        None => None,
        Some(mc) => match mc.strike_escalations.get(&count) {
            None => None,
            Some(rule) => match rule.action {
                ActionType::Mute | ActionType::Ban => {
                    let text = match &rule.duration {
                        Some(s) => s.clone(),
                        None => String::new(),
                    };
                    Some(
                        Escalation {
                            action_type: rule.action,
                            duration: Some(Duration::new(text)),
                            reason: escalation_reason(count),
                        },
                    )
                },
                ActionType::Kick => Some(
                    Escalation {
                        action_type: ActionType::Kick,
                        duration: None,
                        reason: escalation_reason(count),
                    },
                ),
                _ => None,
            },
        },
    }
}

/// With a table that maps three strikes to a seven-day ban, the escalation a
/// third active strike gets is a ban whose record, made at `now`, expires at
/// `now` plus 604800 seconds. (`strike` records the strike before it returns
/// the escalation, so the strike stands whatever becomes of the ban.)
pub proof fn lemma_third_strike_bans_for_seven_days(guild: Guild, e: Option<Escalation>, now: u64)
    requires
        guild.config.moderation is Some,
        guild.config.moderation.unwrap().strike_escalations@.contains_key(3),
        guild.config.moderation.unwrap().strike_escalations@[3].action == ActionType::Ban,
        rule_duration_text(guild.config.moderation.unwrap().strike_escalations@[3].duration) == "7d"@,
        escalation_matches(e, guild, 3),
        now + 604800 <= u64::MAX,
    ensures
        e is Some,
        e.unwrap().action_type == ActionType::Ban,
        expiry_for(ActionType::Ban, e.unwrap().duration, now) == Some(Some((now + 604800) as u64)),
{
    reveal_strlit("7d");
    reveal_with_fuel(scan, 4);
    assert(e.unwrap().duration.unwrap().parts() == DurationParts::zero().with(3, 7));
}

/// The moderation state: recorded actions, grant sets, and the system's own
/// member id, which acts when no moderator is given.
pub struct Handler {
    pub actions: ActionStore,
    pub grants: GrantStore,
    pub bot_id: i64,
}

/// Nothing that `old` holds has changed in `new`.
pub open spec fn unchanged(old: Handler, new: Handler) -> bool {
    &&& new.actions@ == old.actions@
    &&& new.actions.next_id() == old.actions.next_id()
    &&& new.actions.wf() == old.actions.wf()
    &&& new.grants == old.grants
    &&& new.bot_id == old.bot_id
}

/// `r` is what recording an action with these fields did to `old`, giving
/// `new`: the record is appended, or the store's error is returned and nothing
/// changes.
pub open spec fn records(
    old: Handler,
    new: Handler,
    r: Result<Action, CommandError>,
    action_type: ActionType,
    guild_id: i64,
    user_id: i64,
    reason: Seq<char>,
    actor: i64,
    duration: Option<Duration>,
    now: u64,
) -> bool {
    &&& old.actions.next_id() == u64::MAX ==> r == Err::<Action, CommandError>(
        CommandError::StoreExhausted,
    )
    &&& old.actions.next_id() < u64::MAX && expiry_for(action_type, duration, now).is_none() ==> r
        == Err::<Action, CommandError>(CommandError::DurationTooLong)
    &&& old.actions.next_id() < u64::MAX && expiry_for(action_type, duration, now).is_some() ==> r is Ok
    &&& r is Err ==> unchanged(old, new)
    &&& r matches Ok(a) ==> {
        &&& a.id == old.actions.next_id()
        &&& a.action_type == action_type
        &&& a.guild_id == guild_id
        &&& a.user_id == user_id
        &&& a.moderator_id == actor
        &&& a.reason@ == reason
        &&& a.active
        &&& Some(a.expiry) == expiry_for(action_type, duration, now)
        &&& new.actions@ == old.actions@.push(a)
        &&& new.actions.next_id() == old.actions.next_id() + 1
        &&& new.grants == old.grants
        &&& new.bot_id == old.bot_id
    }
}

impl Handler {
    pub open spec fn wf(&self) -> bool {
        self.actions.wf() && self.grants.wf()
    }

    /// A handler with no records and no grants, acting as `bot_id` when no
    /// moderator is given.
    pub fn new(bot_id: i64) -> (h: Handler)
        ensures
            h.wf(),
            h.actions@ == Seq::<Action>::empty(),
            h.bot_id == bot_id,
            forall|id: i64, guild_id: i64| #[trigger] h.grants.user_grants(id, guild_id) == Seq::<Permissions>::empty(),
            forall|id: i64, guild_id: i64| #[trigger] h.grants.role_grants(id, guild_id) == Seq::<Permissions>::empty(),
    {
        Handler { actions: ActionStore::new(), grants: GrantStore::new(), bot_id }
    }

    fn acting(&self, moderator_id: Option<i64>) -> (r: i64)
        ensures
            r == acting_id(moderator_id, self.bot_id),
    {
        match moderator_id {
            Some(m) => m,
            None => self.bot_id,
        }
    }

    fn record(
        &mut self,
        action_type: ActionType,
        guild_id: i64,
        user_id: i64,
        reason: String,
        actor: i64,
        duration: Option<Duration>,
        now: u64,
    ) -> (r: Result<Action, CommandError>)
        requires
            old(self).wf(),
            action_type != ActionType::Unknown,
        ensures
            final(self).wf(),
            records(*old(self), *final(self), r, action_type, guild_id, user_id, reason@, actor, duration, now),
    {
        match self.actions.add_action_to_user(user_id, guild_id, action_type, reason, actor, duration, now) {
            Ok(a) => Ok(a),
            Err(e) => Err(CommandError::from_store(e)),
        }
    }
    /// Records a strike against `user_id` in `guild`, then counts the
    /// subject's active strikes, this one included, and looks that number up
    /// in the guild's escalation table. The strike stands whatever becomes of
    /// the escalation, which the caller carries out with no moderator.
    pub fn strike(
        &mut self,
        guild: &Guild,
        user_id: i64,
        reason: String,
        moderator_id: Option<i64>,
        duration: Option<Duration>,
        now: u64,
    ) -> (r: Result<StrikeOutcome, CommandError>)
        requires
            old(self).wf(),
        ensures
            final(self).wf(),
            acting_id(moderator_id, old(self).bot_id) == user_id ==> r == Err::<StrikeOutcome, CommandError>(
                CommandError::SelfTarget,
            ),
            r is Err ==> unchanged(*old(self), *final(self)),
            acting_id(moderator_id, old(self).bot_id) != user_id ==> records(
                *old(self),
                *final(self),
                match r {
                    Ok(o) => Ok(o.action),
                    Err(e) => Err(e),
                },
                ActionType::Strike,
                guild.id,
                user_id,
                reason@,
                acting_id(moderator_id, old(self).bot_id),
                duration,
                now,
            ),
            r matches Ok(o) ==> escalation_matches(
                o.escalation,
                *guild,
                active_count(final(self).actions@, user_id, guild.id, ActionType::Strike) as u64,
            ),
    {
        let actor = self.acting(moderator_id);
        if actor == user_id {
            return Err(CommandError::SelfTarget);
        }
        let action = match self.record(ActionType::Strike, guild.id, user_id, reason, actor, duration, now) {
            Ok(a) => a,
            Err(e) => {
                return Err(e);
            },
        };
        let count = self.actions.count_active(user_id, guild.id, ActionType::Strike);
        let escalation = on_new_strike(guild, count);
        Ok(StrikeOutcome { action, escalation })
    }

    /// Validates a mute: the call that gives `user_id` the guild's mute role,
    /// or `None` (no action taken) when the guild has no moderation policy.
    pub fn plan_mute(
        &self,
        guild: &Guild,
        user_id: i64,
        reason: &String,
        moderator_id: Option<i64>,
        duration: &Option<Duration>,
        now: u64,
    ) -> (r: Result<Option<Effect>, CommandError>)
        ensures
            acting_id(moderator_id, self.bot_id) == user_id ==> r == Err::<Option<Effect>, CommandError>(
                CommandError::SelfTarget,
            ),
            acting_id(moderator_id, self.bot_id) != user_id ==> match guild.config.moderation {
                None => r == Ok::<Option<Effect>, CommandError>(None),
                Some(mc) => if expiry_for(ActionType::Mute, *duration, now).is_none() {
                    r == Err::<Option<Effect>, CommandError>(CommandError::DurationTooLong)
                } else {
                    r == Ok::<Option<Effect>, CommandError>(
                        Some(
                            Effect::GrantRole {
                                guild_id: guild.id,
                                user_id,
                                role_id: mc.mute_role,
                                reason: *reason,
                            },
                        ),
                    )
                },
            },
    {
        if self.acting(moderator_id) == user_id {
            return Err(CommandError::SelfTarget);
        }
        match &guild.config.moderation {
            None => Ok(None),
            Some(mc) => {
                if !fits_expiry(ActionType::Mute, duration, now) {
                    return Err(CommandError::DurationTooLong);
                }
                Ok(
                    Some(
                        Effect::GrantRole {
                            guild_id: guild.id,
                            user_id,
                            role_id: mc.mute_role,
                            reason: reason.clone(),
                        },
                    ),
                )
            },
        }
    }

    /// Records a mute once the mute role has been given; `None` (no action
    /// taken, nothing recorded) when the guild has no moderation policy.
    pub fn mute(
        &mut self,
        guild: &Guild,
        user_id: i64,
        reason: String,
        moderator_id: Option<i64>,
        duration: Option<Duration>,
        now: u64,
    ) -> (r: Result<Option<Action>, CommandError>)
        requires
            old(self).wf(),
        ensures
            final(self).wf(),
            acting_id(moderator_id, old(self).bot_id) == user_id ==> r == Err::<Option<Action>, CommandError>(
                CommandError::SelfTarget,
            ),
            r is Err || r == Ok::<Option<Action>, CommandError>(None) ==> unchanged(*old(self), *final(self)),
            acting_id(moderator_id, old(self).bot_id) != user_id ==> (guild.config.moderation is None
                <==> r == Ok::<Option<Action>, CommandError>(None)),
            acting_id(moderator_id, old(self).bot_id) != user_id && guild.config.moderation is Some ==> records(
                *old(self),
                *final(self),
                match r {
                    Ok(Some(a)) => Ok(a),
                    Ok(None) => Err(CommandError::NotFound),
                    Err(e) => Err(e),
                },
                ActionType::Mute,
                guild.id,
                user_id,
                reason@,
                acting_id(moderator_id, old(self).bot_id),
                duration,
                now,
            ),
    {
        let actor = self.acting(moderator_id);
        if actor == user_id {
            return Err(CommandError::SelfTarget);
        }
        if guild.config.moderation.is_none() {
            return Ok(None);
        }
        match self.record(ActionType::Mute, guild.id, user_id, reason, actor, duration, now) {
            Ok(a) => Ok(Some(a)),
            Err(e) => Err(e),
        }
    }

    /// Validates a kick: the call that removes `user_id` from the guild.
    pub fn plan_kick(&self, guild_id: i64, user_id: i64, moderator_id: Option<i64>) -> (r: Result<
        Effect,
        CommandError,
    >)
        ensures
            acting_id(moderator_id, self.bot_id) == user_id ==> r == Err::<Effect, CommandError>(
                CommandError::SelfTarget,
            ),
            acting_id(moderator_id, self.bot_id) != user_id ==> r == Ok::<Effect, CommandError>(
                Effect::Kick { guild_id, user_id },
            ),
    {
        if self.acting(moderator_id) == user_id {
            return Err(CommandError::SelfTarget);
        }
        Ok(Effect::Kick { guild_id, user_id })
    }

    /// Records a kick once the member has been removed. Kicks carry no expiry.
    pub fn kick(&mut self, guild_id: i64, user_id: i64, reason: String, moderator_id: Option<i64>, now: u64) -> (r:
        Result<Action, CommandError>)
        requires
            old(self).wf(),
        ensures
            final(self).wf(),
            acting_id(moderator_id, old(self).bot_id) == user_id ==> r == Err::<Action, CommandError>(
                CommandError::SelfTarget,
            ) && unchanged(*old(self), *final(self)),
            acting_id(moderator_id, old(self).bot_id) != user_id ==> records(
                *old(self),
                *final(self),
                r,
                ActionType::Kick,
                guild_id,
                user_id,
                reason@,
                acting_id(moderator_id, old(self).bot_id),
                None,
                now,
            ),
    {
        let actor = self.acting(moderator_id);
        if actor == user_id {
            return Err(CommandError::SelfTarget);
        }
        self.record(ActionType::Kick, guild_id, user_id, reason, actor, None, now)
    }

    /// Validates a ban: the call that bans `user_id` from the guild.
    pub fn plan_ban(
        &self,
        guild_id: i64,
        user_id: i64,
        reason: &String,
        moderator_id: Option<i64>,
        duration: &Option<Duration>,
        now: u64,
    ) -> (r: Result<Effect, CommandError>)
        ensures
            acting_id(moderator_id, self.bot_id) == user_id ==> r == Err::<Effect, CommandError>(
                CommandError::SelfTarget,
            ),
            acting_id(moderator_id, self.bot_id) != user_id && expiry_for(ActionType::Ban, *duration, now).is_none()
                ==> r == Err::<Effect, CommandError>(CommandError::DurationTooLong),
            acting_id(moderator_id, self.bot_id) != user_id && expiry_for(ActionType::Ban, *duration, now).is_some()
                ==> r == Ok::<Effect, CommandError>(Effect::Ban { guild_id, user_id, reason: *reason }),
    {
        if self.acting(moderator_id) == user_id {
            return Err(CommandError::SelfTarget);
        }
        if !fits_expiry(ActionType::Ban, duration, now) {
            return Err(CommandError::DurationTooLong);
        }
        Ok(Effect::Ban { guild_id, user_id, reason: reason.clone() })
    }

    /// Records a ban once the member has been banned.
    pub fn ban(
        &mut self,
        guild_id: i64,
        user_id: i64,
        reason: String,
        moderator_id: Option<i64>,
        duration: Option<Duration>,
        now: u64,
    ) -> (r: Result<Action, CommandError>)
        requires
            old(self).wf(),
        ensures
            final(self).wf(),
            acting_id(moderator_id, old(self).bot_id) == user_id ==> r == Err::<Action, CommandError>(
                CommandError::SelfTarget,
            ) && unchanged(*old(self), *final(self)),
            acting_id(moderator_id, old(self).bot_id) != user_id ==> records(
                *old(self),
                *final(self),
                r,
                ActionType::Ban,
                guild_id,
                user_id,
                reason@,
                acting_id(moderator_id, old(self).bot_id),
                duration,
                now,
            ),
    {
        let actor = self.acting(moderator_id);
        if actor == user_id {
            return Err(CommandError::SelfTarget);
        }
        self.record(ActionType::Ban, guild_id, user_id, reason, actor, duration, now)
    }

    /// Validates an unban: the call that lifts `user_id`'s ban.
    pub fn plan_unban(&self, guild_id: i64, user_id: i64, moderator_id: Option<i64>) -> (r: Result<
        Effect,
        CommandError,
    >)
        ensures
            acting_id(moderator_id, self.bot_id) == user_id ==> r == Err::<Effect, CommandError>(
                CommandError::SelfTarget,
            ),
            acting_id(moderator_id, self.bot_id) != user_id ==> r == Ok::<Effect, CommandError>(
                Effect::Unban { guild_id, user_id, moderator_id: acting_id(moderator_id, self.bot_id) },
            ),
    {
        let actor = self.acting(moderator_id);
        if actor == user_id {
            return Err(CommandError::SelfTarget);
        }
        Ok(Effect::Unban { guild_id, user_id, moderator_id: actor })
    }

    /// Once the ban is lifted, expires the newest active ban record against
    /// `user_id`; `false` when there is none.
    pub fn unban(&mut self, guild_id: i64, user_id: i64, moderator_id: Option<i64>) -> (r: Result<
        bool,
        CommandError,
    >)
        requires
            old(self).wf(),
        ensures
            final(self).wf(),
            acting_id(moderator_id, old(self).bot_id) == user_id ==> r == Err::<bool, CommandError>(
                CommandError::SelfTarget,
            ),
            r is Err || r == Ok::<bool, CommandError>(false) ==> unchanged(*old(self), *final(self)),
            acting_id(moderator_id, old(self).bot_id) != user_id ==> expired_latest(
                *old(self),
                *final(self),
                r,
                guild_id,
                user_id,
                ActionType::Ban,
            ),
    {
        let actor = self.acting(moderator_id);
        if actor == user_id {
            return Err(CommandError::SelfTarget);
        }
        Ok(self.actions.expire_latest_active(user_id, guild_id, ActionType::Ban))
    }

    /// Validates an unmute. With no moderation policy, or when the platform
    /// reports (`holds_mute_role`) that `user_id` does not carry the mute
    /// role, there is nothing to reverse: `None`, no action taken. Otherwise
    /// the call that takes the mute role away.
    pub fn plan_unmute(&self, guild: &Guild, user_id: i64, moderator_id: Option<i64>, holds_mute_role: bool) -> (r:
        Result<Option<Effect>, CommandError>)
        ensures
            acting_id(moderator_id, self.bot_id) == user_id ==> r == Err::<Option<Effect>, CommandError>(
                CommandError::SelfTarget,
            ),
            acting_id(moderator_id, self.bot_id) != user_id ==> match guild.config.moderation {
                None => r == Ok::<Option<Effect>, CommandError>(None),
                Some(mc) => if !holds_mute_role {
                    r == Ok::<Option<Effect>, CommandError>(None)
                } else {
                    r == Ok::<Option<Effect>, CommandError>(
                        Some(
                            Effect::RevokeRole {
                                guild_id: guild.id,
                                user_id,
                                role_id: mc.mute_role,
                                moderator_id: acting_id(moderator_id, self.bot_id),
                            },
                        ),
                    )
                },
            },
    {
        let actor = self.acting(moderator_id);
        if actor == user_id {
            return Err(CommandError::SelfTarget);
        }
        match &guild.config.moderation {
            None => Ok(None),
            Some(mc) => {
                if !holds_mute_role {
                    return Ok(None);
                }
                Ok(
                    Some(
                        Effect::RevokeRole {
                            guild_id: guild.id,
                            user_id,
                            role_id: mc.mute_role,
                            moderator_id: actor,
                        },
                    ),
                )
            },
        }
    }

    /// Once the mute role is taken away, expires the newest active mute record
    /// against `user_id`; `false` when there is none.
    pub fn unmute(&mut self, guild_id: i64, user_id: i64, moderator_id: Option<i64>) -> (r: Result<
        bool,
        CommandError,
    >)
        requires
            old(self).wf(),
        ensures
            final(self).wf(),
            acting_id(moderator_id, old(self).bot_id) == user_id ==> r == Err::<bool, CommandError>(
                CommandError::SelfTarget,
            ),
            r is Err || r == Ok::<bool, CommandError>(false) ==> unchanged(*old(self), *final(self)),
            acting_id(moderator_id, old(self).bot_id) != user_id ==> expired_latest(
                *old(self),
                *final(self),
                r,
                guild_id,
                user_id,
                ActionType::Mute,
            ),
    {
        let actor = self.acting(moderator_id);
        if actor == user_id {
            return Err(CommandError::SelfTarget);
        }
        Ok(self.actions.expire_latest_active(user_id, guild_id, ActionType::Mute))
    }
    /// One pass of the expiry sweep at `now`: claims every due action (the
    /// store marks it inactive in the same step) and returns the reversals the
    /// caller must run with no moderator: `unmute` for a mute, `unban` for a
    /// ban. Other types need none.
    pub fn sweep_due(&mut self, now: u64) -> (r: SweepOutcome)
        requires
            old(self).wf(),
        ensures
            final(self).wf(),
            r.claimed@ == due_records(old(self).actions@, now),
            r.tasks@ == sweep_tasks(due_records(old(self).actions@, now)),
            final(self).actions@ == after_drain(old(self).actions@, now),
            final(self).actions.next_id() == old(self).actions.next_id(),
            final(self).grants == old(self).grants,
            final(self).bot_id == old(self).bot_id,
    {
        let due = self.actions.get_expired_actions(now);
        let mut r: Vec<SweepTask> = Vec::new();
        let mut i: usize = 0;
        while i < due.len()
            invariant
                i <= due@.len(),
                r@ == sweep_tasks(due@.subrange(0, i as int)),
            decreases due@.len() - i,
        {
            assert(due@.subrange(0, i + 1).drop_last() =~= due@.subrange(0, i as int));
            match due[i].action_type {
                ActionType::Mute => r.push(SweepTask::Unmute { guild_id: due[i].guild_id, user_id: due[i].user_id }),
                ActionType::Ban => r.push(SweepTask::Unban { guild_id: due[i].guild_id, user_id: due[i].user_id }),
                _ => {},
            }
            i = i + 1;
        }
        assert(due@.subrange(0, i as int) =~= due@);
        SweepOutcome { claimed: due, tasks: r }
    }
    /// Whether `member` holds `permission` in their guild, whose owner is
    /// `owner_id`; see `GrantStore::has_permission`.
    pub fn has_permission(&self, member: &Member, owner_id: i64, permission: Permissions) -> (r: bool)
        requires
            self.wf(),
        ensures
            r == self.grants.permits(member, owner_id, permission),
    {
        self.grants.has_permission(member, owner_id, permission)
    }

    /// The history a search shows of `user_id` in `guild_id`, oldest first:
    /// every action when `include_expired`, else the active ones.
    pub fn search_history(&self, user_id: i64, guild_id: i64, include_expired: bool) -> (r: Vec<Action>)
        requires
            self.wf(),
        ensures
            r@ == shown(for_subject(self.actions@, user_id, guild_id), include_expired),
    {
        let all = self.actions.get_actions_for_user(user_id, guild_id);
        let mut r: Vec<Action> = Vec::new();
        let mut i: usize = 0;
        while i < all.len()
            invariant
                i <= all@.len(),
                r@ == shown(all@.subrange(0, i as int), include_expired),
            decreases all@.len() - i,
        {
            assert(all@.subrange(0, i + 1).drop_last() =~= all@.subrange(0, i as int));
            if all[i].active || include_expired {
                r.push(all[i].copy());
            }
            i = i + 1;
        }
        assert(all@.subrange(0, i as int) =~= all@);
        r
    }
}

/// The actions of `s` a search shows: all of them when `include_expired`,
/// else the active ones.
pub open spec fn shown(s: Seq<Action>, include_expired: bool) -> Seq<Action>
    decreases s.len(),
{
    if s.len() == 0 {
        Seq::empty()
    } else {
        let rest = shown(s.drop_last(), include_expired);
        if s.last().active || include_expired {
            rest.push(s.last())
        } else {
            rest
        }
    }
}

/// The capability a search of `target_id`'s history by `actor_id` needs:
/// searching oneself and searching others are granted apart, and so is
/// seeing expired actions.
pub fn search_permission(actor_id: i64, target_id: i64, include_expired: bool) -> (r: Permissions)
    ensures
        r == if actor_id == target_id {
            if include_expired {
                Permissions::ModerationSearchSelfExpired
            } else {
                Permissions::ModerationSearchSelf
            }
        } else if include_expired {
            Permissions::ModerationSearchOthersExpired
        } else {
            Permissions::ModerationSearchOthers
        },
{
    if actor_id == target_id {
        if include_expired {
            Permissions::ModerationSearchSelfExpired
        } else {
            Permissions::ModerationSearchSelf
        }
    } else if include_expired {
        Permissions::ModerationSearchOthersExpired
    } else {
        Permissions::ModerationSearchOthers
    }
}

/// A reversal the expiry sweep asks for.
#[derive(Clone, Copy, Debug, PartialEq, Eq, Structural)]
pub enum SweepTask {
    Unmute { guild_id: i64, user_id: i64 },
    Unban { guild_id: i64, user_id: i64 },
}

/// What one pass of the expiry sweep did: the actions it claimed, as they
/// were found, and the reversals they call for.
pub struct SweepOutcome {
    pub claimed: Vec<Action>,
    pub tasks: Vec<SweepTask>,
}

/// The reversals that the due actions `s` call for, in order.
pub open spec fn sweep_tasks(s: Seq<Action>) -> Seq<SweepTask>
    decreases s.len(),
{
    if s.len() == 0 {
        Seq::empty()
    } else {
        let rest = sweep_tasks(s.drop_last());
        let a = s.last();
        if a.action_type == ActionType::Mute {
            rest.push(SweepTask::Unmute { guild_id: a.guild_id, user_id: a.user_id })
        } else if a.action_type == ActionType::Ban {
            rest.push(SweepTask::Unban { guild_id: a.guild_id, user_id: a.user_id })
        } else {
            rest
        }
    }
}

/// Whether a record of type `t` with `duration` can be made at `now`.
fn fits_expiry(t: ActionType, duration: &Option<Duration>, now: u64) -> (r: bool)
    ensures
        r == expiry_for(t, *duration, now).is_some(),
{
    if t == ActionType::Kick {
        return true;
    }
    match duration {
        None => true,
        Some(d) => d.checked_expiry(now).is_ok(),
    }
}

/// `r` is what expiring the newest active record of type `t` against
/// `user_id` in `guild_id` did to `old`, giving `new`.
pub open spec fn expired_latest(
    old: Handler,
    new: Handler,
    r: Result<bool, CommandError>,
    guild_id: i64,
    user_id: i64,
    t: ActionType,
) -> bool {
    &&& r is Ok
    &&& (r == Ok::<bool, CommandError>(true) <==> exists|i: int|
        0 <= i < old.actions@.len() && is_active_of(#[trigger] old.actions@[i], user_id, guild_id, t))
    &&& r == Ok::<bool, CommandError>(true) ==> exists|i: int|
        0 <= i < old.actions@.len() && is_active_of(#[trigger] old.actions@[i], user_id, guild_id, t)
            && (forall|j: int|
            i < j < old.actions@.len() ==> !is_active_of(#[trigger] old.actions@[j], user_id, guild_id, t))
            && new.actions@ == old.actions@.update(i, Action { active: false, ..old.actions@[i] })
            && new.actions.next_id() == old.actions.next_id() && new.grants == old.grants
            && new.bot_id == old.bot_id
}

} // verus!
