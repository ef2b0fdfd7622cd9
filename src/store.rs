//! The action store: every recorded action, addressed by an identifier that the
//! store hands out.

use crate::duration::{Duration, DurationError};
use crate::model::{Action, ActionType};
use vstd::prelude::*;

verus! {

/// Why a store operation did not happen.
#[derive(Clone, Copy, Debug, PartialEq, Eq, Structural)]
pub enum StoreError {
    /// No action with that identifier in that guild.
    NotFound,
    /// The expiry instant does not fit in a `u64`.
    DurationTooLong,
    /// Every identifier has been handed out.
    Exhausted,
    /// A record cannot be put back: its identifier is not newer than every
    /// stored one, its type is unknown, or it is a kick with an expiry.
    Conflict,
}

/// The expiry a record of type `t` gets from `duration` at `now`: `Some(e)`
/// with the expiry `e`, or `None` when the instant overflows. Kicks and
/// permanent durations never expire.
pub open spec fn expiry_for(t: ActionType, duration: Option<Duration>, now: u64) -> Option<
    Option<u64>,
> {
    if t == ActionType::Kick || duration.is_none() || duration.unwrap().is_permanent_spec() {
        Some(None)
    } else if duration.unwrap().fits(now) {
        Some(Some((now + duration.unwrap().parts().total_seconds()) as u64))
    } else {
        None
    }
}

/// Whether the sweeper owes `a` a reversal at `now`.
pub open spec fn is_due(a: Action, now: u64) -> bool {
    a.active && a.expiry.is_some() && a.expiry.unwrap() < now
}

/// The actions of `s` that are due at `now`, in order.
pub open spec fn due_records(s: Seq<Action>, now: u64) -> Seq<Action>
    decreases s.len(),
{
    if s.len() == 0 {
        Seq::empty()
    } else {
        let rest = due_records(s.drop_last(), now);
        if is_due(s.last(), now) {
            rest.push(s.last())
        } else {
            rest
        }
    }
}

/// `s` with every action due at `now` made inactive.
pub open spec fn after_drain(s: Seq<Action>, now: u64) -> Seq<Action> {
    Seq::new(
        s.len(),
        |i: int|
            if is_due(s[i], now) {
                Action { active: false, ..s[i] }
            } else {
                s[i]
            },
    )
}

/// The actions of `s` against `subject` in `community`, in order.
pub open spec fn for_subject(s: Seq<Action>, subject: i64, community: i64) -> Seq<Action>
    decreases s.len(),
{
    if s.len() == 0 {
        Seq::empty()
    } else {
        let rest = for_subject(s.drop_last(), subject, community);
        if s.last().user_id == subject && s.last().guild_id == community {
            rest.push(s.last())
        } else {
            rest
        }
    }
}

/// Identifiers strictly increase along `s`, so each names one record and later
/// records are newer.
pub open spec fn ids_increasing(s: Seq<Action>) -> bool {
    forall|i: int, j: int| 0 <= i < j < s.len() ==> s[i].id < s[j].id
}

/// An in-memory store of action records, oldest first.
pub struct ActionStore {
    actions: Vec<Action>,
    next_id: u64,
}

impl ActionStore {
    pub closed spec fn view(&self) -> Seq<Action> {
        self.actions@
    }

    /// The identifier the next record gets.
    pub closed spec fn next_id(&self) -> u64 {
        self.next_id
    }

    pub closed spec fn wf(&self) -> bool {
        &&& ids_increasing(self.actions@)
        &&& forall|i: int| 0 <= i < self.actions@.len() ==> #[trigger] self.actions@[i].id < self.next_id
        &&& forall|i: int|
            0 <= i < self.actions@.len() ==> (#[trigger] self.actions@[i]).action_type
                != ActionType::Unknown && (self.actions@[i].action_type == ActionType::Kick
                ==> self.actions@[i].expiry.is_none())
    }

    pub proof fn lemma_wf(&self)
        requires
            self.wf(),
        ensures
            ids_increasing(self@),
            forall|i: int| 0 <= i < self@.len() ==> #[trigger] self@[i].id < self.next_id(),
            forall|i: int|
                0 <= i < self@.len() ==> (#[trigger] self@[i]).action_type != ActionType::Unknown
                    && (self@[i].action_type == ActionType::Kick ==> self@[i].expiry.is_none()),
    {
    }

    /// An empty store.
    pub fn new() -> (st: ActionStore)
        ensures
            st.wf(),
            st@ == Seq::<Action>::empty(),
            st.next_id() == 0,
    {
        ActionStore { actions: Vec::new(), next_id: 0 }
    }

    /// Records a new, active action. The expiry is `now` plus `duration`;
    /// kicks and permanent durations get none.
    pub fn add_action_to_user(
        &mut self,
        user_id: i64,
        guild_id: i64,
        action_type: ActionType,
        reason: String,
        moderator_id: i64,
        duration: Option<Duration>,
        now: u64,
    ) -> (r: Result<Action, StoreError>)
        requires
            old(self).wf(),
            action_type != ActionType::Unknown,
        ensures
            final(self).wf(),
            old(self).next_id() == u64::MAX ==> r == Err::<Action, StoreError>(StoreError::Exhausted),
            old(self).next_id() < u64::MAX && expiry_for(action_type, duration, now).is_none() ==> r
                == Err::<Action, StoreError>(StoreError::DurationTooLong),
            r is Err ==> final(self)@ == old(self)@ && final(self).next_id() == old(self).next_id(),
            old(self).next_id() < u64::MAX && expiry_for(action_type, duration, now).is_some() ==> r
                is Ok,
            r matches Ok(a) ==> {
                &&& a.id == old(self).next_id()
                &&& a.action_type == action_type
                &&& a.guild_id == guild_id
                &&& a.user_id == user_id
                &&& a.moderator_id == moderator_id
                &&& a.reason@ == reason@
                &&& a.active
                &&& Some(a.expiry) == expiry_for(action_type, duration, now)
                &&& final(self)@ == old(self)@.push(a)
                &&& final(self).next_id() == old(self).next_id() + 1
            },
    {
        if self.next_id == u64::MAX {
            return Err(StoreError::Exhausted);
        }
        let mut expiry: Option<u64> = None;
        if action_type != ActionType::Kick {
            match &duration {
                Some(d) => match d.checked_expiry(now) {
                    Ok(e) => {
                        expiry = e;
                    },
                    Err(DurationError::TooLong) => {
                        return Err(StoreError::DurationTooLong);
                    },
                },
                None => {},
            }
        }
        let action = Action {
            id: self.next_id,
            action_type,
            guild_id,
            user_id,
            moderator_id,
            reason,
            active: true,
            expiry,
        };
        let out = action.copy();
        self.actions.push(action);
        self.next_id = self.next_id + 1;
        Ok(out)
    }

    /// The action with identifier `id`, if any.
    pub fn get_action(&self, id: u64) -> (r: Option<Action>)
        requires
            self.wf(),
        ensures
            r is None <==> forall|i: int| 0 <= i < self@.len() ==> #[trigger] self@[i].id != id,
            r matches Some(a) ==> exists|i: int| 0 <= i < self@.len() && #[trigger] self@[i] == a && a.id == id,
    {
        let mut i: usize = 0;
        while i < self.actions.len()
            invariant
                i <= self.actions@.len(),
                forall|k: int| 0 <= k < i ==> #[trigger] self.actions@[k].id != id,
            decreases self.actions@.len() - i,
        {
            if self.actions[i].id == id {
                return Some(self.actions[i].copy());
            }
            i = i + 1;
        }
        None
    }

    /// The newest action that `moderator_id` issued in `guild_id`, if any.
    pub fn get_recent_mod_action(&self, guild_id: i64, moderator_id: i64) -> (r: Option<Action>)
        requires
            self.wf(),
        ensures
            r is None <==> forall|i: int|
                0 <= i < self@.len() ==> !(#[trigger] self@[i].guild_id == guild_id && self@[i].moderator_id
                    == moderator_id),
            r matches Some(a) ==> exists|i: int|
                0 <= i < self@.len() && #[trigger] self@[i] == a && a.guild_id == guild_id
                    && a.moderator_id == moderator_id && forall|j: int|
                    i < j < self@.len() ==> !(#[trigger] self@[j].guild_id == guild_id
                        && self@[j].moderator_id == moderator_id),
    {
        let mut i: usize = self.actions.len();
        while i > 0
            invariant
                i <= self.actions@.len(),
                forall|j: int|
                    i <= j < self.actions@.len() ==> !(#[trigger] self.actions@[j].guild_id == guild_id
                        && self.actions@[j].moderator_id == moderator_id),
            decreases i,
        {
            i = i - 1;
            if self.actions[i].guild_id == guild_id && self.actions[i].moderator_id == moderator_id {
                return Some(self.actions[i].copy());
            }
        }
        None
    }

    /// Every action, active or not, against `user_id` in `guild_id`, oldest
    /// first.
    pub fn get_actions_for_user(&self, user_id: i64, guild_id: i64) -> (r: Vec<Action>)
        requires
            self.wf(),
        ensures
            r@ == for_subject(self@, user_id, guild_id),
    {
        let mut r: Vec<Action> = Vec::new();
        let mut i: usize = 0;
        while i < self.actions.len()
            invariant
                i <= self.actions@.len(),
                r@ == for_subject(self.actions@.subrange(0, i as int), user_id, guild_id),
            decreases self.actions@.len() - i,
        {
            assert(self.actions@.subrange(0, i + 1).drop_last() =~= self.actions@.subrange(0, i as int));
            if self.actions[i].user_id == user_id && self.actions[i].guild_id == guild_id {
                r.push(self.actions[i].copy());
            }
            i = i + 1;
        }
        assert(self.actions@.subrange(0, i as int) =~= self.actions@);
        r
    }

    /// Index of the action `id` of `guild_id`.
    fn position(&self, guild_id: i64, id: u64) -> (r: Option<usize>)
        ensures
            r is None <==> forall|i: int|
                0 <= i < self@.len() ==> !(#[trigger] self@[i].id == id && self@[i].guild_id == guild_id),
            r matches Some(i) ==> i < self@.len() && self@[i as int].id == id && self@[i as int].guild_id
                == guild_id,
    {
        let mut i: usize = 0;
        while i < self.actions.len()
            invariant
                i <= self.actions@.len(),
                forall|k: int|
                    0 <= k < i ==> !(#[trigger] self.actions@[k].id == id && self.actions@[k].guild_id
                        == guild_id),
            decreases self.actions@.len() - i,
        {
            if self.actions[i].id == id && self.actions[i].guild_id == guild_id {
                return Some(i);
            }
            i = i + 1;
        }
        None
    }
    /// Sets the reason of action `id` of `guild_id` and returns the updated
    /// record; `None` when there is no such action.
    pub fn update_action_reason(&mut self, guild_id: i64, id: u64, reason: String) -> (r: Option<Action>)
        requires
            old(self).wf(),
        ensures
            final(self).wf(),
            final(self).next_id() == old(self).next_id(),
            r is None <==> !holds(old(self)@, guild_id, id),
            r is None ==> final(self)@ == old(self)@,
            r matches Some(a) ==> exists|i: int|
                0 <= i < old(self)@.len() && #[trigger] old(self)@[i].id == id && old(self)@[i].guild_id
                    == guild_id && a == (Action { reason: a.reason, ..old(self)@[i] }) && a.reason@
                    == reason@ && final(self)@ == old(self)@.update(i, a),
    {
        match self.position(guild_id, id) {
            None => None,
            Some(i) => {
                let mut a = self.actions[i].copy();
                a.reason = reason;
                let out = a.copy();
                self.actions.set(i, a);
                Some(out)
            },
        }
    }

    /// Replaces the expiry of action `id` of `guild_id` with `now` plus
    /// `duration` (none for a kick or a permanent duration) and returns the
    /// updated record; `active` is left as it was.
    pub fn update_action_duration(&mut self, guild_id: i64, id: u64, duration: Duration, now: u64) -> (r:
        Result<Option<Action>, StoreError>)
        requires
            old(self).wf(),
        ensures
            final(self).wf(),
            final(self).next_id() == old(self).next_id(),
            r is Err || r == Ok::<Option<Action>, StoreError>(None) ==> final(self)@ == old(self)@,
            r == Ok::<Option<Action>, StoreError>(None) <==> !holds(old(self)@, guild_id, id),
            r is Err ==> r == Err::<Option<Action>, StoreError>(StoreError::DurationTooLong),
            forall|i: int|
                0 <= i < old(self)@.len() && #[trigger] old(self)@[i].id == id && old(self)@[i].guild_id
                    == guild_id ==> match expiry_for(old(self)@[i].action_type, Some(duration), now) {
                    None => r is Err,
                    Some(e) => r == Ok::<Option<Action>, StoreError>(
                        Some(Action { expiry: e, ..old(self)@[i] }),
                    ) && final(self)@ == old(self)@.update(i, Action { expiry: e, ..old(self)@[i] }),
                },
    {
        match self.position(guild_id, id) {
            None => Ok(None),
            Some(i) => {
                let mut a = self.actions[i].copy();
                proof {
                    self.lemma_wf();
                    lemma_unique_position(self@, i as int, id);
                }
                if a.action_type != ActionType::Kick {
                    match duration.checked_expiry(now) {
                        Ok(e) => {
                            a.expiry = e;
                        },
                        Err(DurationError::TooLong) => {
                            return Err(StoreError::DurationTooLong);
                        },
                    }
                }
                let out = a.copy();
                self.actions.set(i, a);
                Ok(Some(out))
            },
        }
    }

    /// Marks action `id` of `guild_id` inactive; doing it again changes
    /// nothing.
    pub fn expire_action(&mut self, guild_id: i64, id: u64) -> (r: Result<(), StoreError>)
        requires
            old(self).wf(),
        ensures
            final(self).wf(),
            final(self).next_id() == old(self).next_id(),
            r is Err <==> !holds(old(self)@, guild_id, id),
            r is Err ==> r == Err::<(), StoreError>(StoreError::NotFound) && final(self)@ == old(self)@,
            forall|i: int|
                0 <= i < old(self)@.len() && #[trigger] old(self)@[i].id == id && old(self)@[i].guild_id
                    == guild_id ==> final(self)@ == old(self)@.update(
                    i,
                    Action { active: false, ..old(self)@[i] },
                ),
    {
        match self.position(guild_id, id) {
            None => Err(StoreError::NotFound),
            Some(i) => {
                proof {
                    self.lemma_wf();
                    lemma_unique_position(self@, i as int, id);
                }
                let mut a = self.actions[i].copy();
                a.active = false;
                self.actions.set(i, a);
                Ok(())
            },
        }
    }

    /// Removes action `id` of `guild_id` for good.
    pub fn remove_action(&mut self, guild_id: i64, id: u64) -> (r: Result<(), StoreError>)
        requires
            old(self).wf(),
        ensures
            final(self).wf(),
            final(self).next_id() == old(self).next_id(),
            r is Err <==> !holds(old(self)@, guild_id, id),
            r is Err ==> r == Err::<(), StoreError>(StoreError::NotFound) && final(self)@ == old(self)@,
            forall|i: int|
                0 <= i < old(self)@.len() && #[trigger] old(self)@[i].id == id && old(self)@[i].guild_id
                    == guild_id ==> final(self)@ == old(self)@.remove(i),
    {
        match self.position(guild_id, id) {
            None => Err(StoreError::NotFound),
            Some(i) => {
                proof {
                    self.lemma_wf();
                    lemma_unique_position(self@, i as int, id);
                }
                self.actions.remove(i);
                Ok(())
            },
        }
    }

    /// Returns every active action whose expiry lies before `now`, oldest
    /// first and as found, and marks each of them inactive in the same step,
    /// so that no later call returns it again.
    pub fn get_expired_actions(&mut self, now: u64) -> (r: Vec<Action>)
        requires
            old(self).wf(),
        ensures
            final(self).wf(),
            final(self).next_id() == old(self).next_id(),
            r@ == due_records(old(self)@, now),
            final(self)@ == after_drain(old(self)@, now),
    {
        let ghost s0 = self.actions@;
        let mut r: Vec<Action> = Vec::new();
        let mut i: usize = 0;
        while i < self.actions.len()
            invariant
                i <= self.actions@.len(),
                self.actions@.len() == s0.len(),
                self.next_id == old(self).next_id,
                s0 == old(self).actions@,
                old(self).wf(),
                r@ == due_records(s0.subrange(0, i as int), now),
                forall|k: int| 0 <= k < i ==> #[trigger] self.actions@[k] == after_drain(s0, now)[k],
                forall|k: int| i <= k < s0.len() ==> #[trigger] self.actions@[k] == s0[k],
            decreases self.actions@.len() - i,
        {
            assert(s0.subrange(0, i + 1).drop_last() =~= s0.subrange(0, i as int));
            let due = match self.actions[i].expiry {
                Some(e) => self.actions[i].active && e < now,
                None => false,
            };
            if due {
                r.push(self.actions[i].copy());
                let mut a = self.actions[i].copy();
                a.active = false;
                self.actions.set(i, a);
            }
            i = i + 1;
        }
        assert(s0.subrange(0, i as int) =~= s0);
        assert(self.actions@ =~= after_drain(s0, now));
        r
    }

    /// How many active actions of type `action_type` stand against `user_id`
    /// in `guild_id`.
    pub fn count_active(&self, user_id: i64, guild_id: i64, action_type: ActionType) -> (r: u64)
        requires
            self.wf(),
        ensures
            r == active_count(self@, user_id, guild_id, action_type),
    {
        let mut n: u64 = 0;
        let mut i: usize = 0;
        while i < self.actions.len()
            invariant
                i <= self.actions@.len(),
                n <= i,
                n == active_count(self.actions@.subrange(0, i as int), user_id, guild_id, action_type),
            decreases self.actions@.len() - i,
        {
            assert(self.actions@.subrange(0, i + 1).drop_last() =~= self.actions@.subrange(0, i as int));
            if self.actions[i].active && self.actions[i].user_id == user_id && self.actions[i].guild_id
                == guild_id && self.actions[i].action_type == action_type {
                n = n + 1;
            }
            i = i + 1;
        }
        assert(self.actions@.subrange(0, i as int) =~= self.actions@);
        n
    }

    /// Marks inactive the newest active action of type `action_type` against
    /// `user_id` in `guild_id`; `false` when there is none, and then nothing
    /// changes.
    pub fn expire_latest_active(&mut self, user_id: i64, guild_id: i64, action_type: ActionType) -> (r:
        bool)
        requires
            old(self).wf(),
        ensures
            final(self).wf(),
            final(self).next_id() == old(self).next_id(),
            r <==> exists|i: int|
                0 <= i < old(self)@.len() && is_active_of(#[trigger] old(self)@[i], user_id, guild_id, action_type),
            !r ==> final(self)@ == old(self)@,
            r ==> exists|i: int|
                0 <= i < old(self)@.len() && is_active_of(#[trigger] old(self)@[i], user_id, guild_id, action_type)
                    && (forall|j: int|
                    i < j < old(self)@.len() ==> !is_active_of(#[trigger] old(self)@[j], user_id, guild_id, action_type))
                    && final(self)@ == old(self)@.update(i, Action { active: false, ..old(self)@[i] }),
    {
        let mut i: usize = self.actions.len();
        while i > 0
            invariant
                i <= self.actions@.len(),
                self.actions@ == old(self).actions@,
                self.next_id == old(self).next_id,
                old(self).wf(),
                forall|j: int|
                    i <= j < self.actions@.len() ==> !is_active_of(#[trigger] self.actions@[j], user_id, guild_id, action_type),
            decreases i,
        {
            i = i - 1;
            if self.actions[i].active && self.actions[i].user_id == user_id && self.actions[i].guild_id
                == guild_id && self.actions[i].action_type == action_type {
                let ghost before = self.actions@;
                let mut a = self.actions[i].copy();
                a.active = false;
                self.actions.set(i, a);
                assert(before == old(self)@);
                assert(is_active_of(old(self)@[i as int], user_id, guild_id, action_type));
                assert(forall|j: int|
                    i < j < old(self)@.len() ==> !is_active_of(#[trigger] old(self)@[j], user_id, guild_id, action_type));
                assert(self.actions@ == old(self)@.update(i as int, Action { active: false, ..old(self)@[i as int] }));
                return true;
            }
        }
        false
    }

    /// Puts back a record kept elsewhere, as it is, after every stored one.
    /// Identifiers handed out later are larger than its own.
    pub fn restore(&mut self, a: Action) -> (r: Result<(), StoreError>)
        requires
            old(self).wf(),
        ensures
            final(self).wf(),
            r is Ok <==> (a.id >= old(self).next_id() && a.id < u64::MAX && a.action_type
                != ActionType::Unknown && !(a.action_type == ActionType::Kick && a.expiry is Some)),
            r is Err ==> r == Err::<(), StoreError>(StoreError::Conflict) && final(self)@ == old(self)@
                && final(self).next_id() == old(self).next_id(),
            r is Ok ==> final(self)@ == old(self)@.push(a) && final(self).next_id() == a.id + 1,
    {
        if a.id < self.next_id || a.id == u64::MAX || a.action_type == ActionType::Unknown || (
        a.action_type == ActionType::Kick && a.expiry.is_some()) {
            return Err(StoreError::Conflict);
        }
        self.next_id = a.id + 1;
        self.actions.push(a);
        Ok(())
    }
}

/// Whether `a` is an active action of type `t` against `user_id` in
/// `guild_id`.
pub open spec fn is_active_of(a: Action, user_id: i64, guild_id: i64, t: ActionType) -> bool {
    a.active && a.user_id == user_id && a.guild_id == guild_id && a.action_type == t
}

/// How many actions of `s` are active, of type `t`, against `user_id` in
/// `guild_id`.
pub open spec fn active_count(s: Seq<Action>, user_id: i64, guild_id: i64, t: ActionType) -> nat
    decreases s.len(),
{
    if s.len() == 0 {
        0
    } else {
        active_count(s.drop_last(), user_id, guild_id, t) + if is_active_of(s.last(), user_id, guild_id, t) {
            1nat
        } else {
            0nat
        }
    }
}

/// Whether `s` holds an action `id` of `guild_id`.
pub open spec fn holds(s: Seq<Action>, guild_id: i64, id: u64) -> bool {
    exists|i: int| 0 <= i < s.len() && #[trigger] s[i].id == id && s[i].guild_id == guild_id
}

proof fn lemma_unique_position(s: Seq<Action>, i: int, id: u64)
    requires
        ids_increasing(s),
        0 <= i < s.len(),
        s[i].id == id,
    ensures
        forall|j: int| 0 <= j < s.len() && #[trigger] s[j].id == id ==> j == i,
{
    assert forall|j: int| 0 <= j < s.len() && #[trigger] s[j].id == id implies j == i by {
        if j < i {
            assert(s[j].id < s[i].id);
        } else if j > i {
            assert(s[i].id < s[j].id);
        }
    }
}

/// Each record `due_records` returns is a due record of `s`.
proof fn lemma_due_records_members(s: Seq<Action>, now: u64)
    ensures
        forall|j: int|
            0 <= j < due_records(s, now).len() ==> s.contains(#[trigger] due_records(s, now)[j])
                && is_due(due_records(s, now)[j], now),
    decreases s.len(),
{
    if s.len() > 0 {
        lemma_due_records_members(s.drop_last(), now);
        let rest = due_records(s.drop_last(), now);
        assert forall|j: int| 0 <= j < due_records(s, now).len() implies s.contains(
            #[trigger] due_records(s, now)[j],
        ) && is_due(due_records(s, now)[j], now) by {
            if j < rest.len() {
                assert(due_records(s, now)[j] == rest[j]);
                assert(s.drop_last().contains(rest[j]));
                let k = choose|k: int| 0 <= k < s.drop_last().len() && s.drop_last()[k] == rest[j];
                assert(s[k] == rest[j]);
            } else {
                assert(due_records(s, now)[j] == s[s.len() - 1]);
            }
        }
    }
}

/// Draining twice in a row never returns the same record twice: whatever the
/// two instants, no record of the first batch is in the second, because the
/// first drain left each of them inactive.
pub proof fn lemma_drain_returns_each_record_once(s: Seq<Action>, first: u64, second: u64)
    requires
        ids_increasing(s),
    ensures
        forall|i: int, j: int|
            0 <= i < due_records(s, first).len() && 0 <= j < due_records(
                after_drain(s, first),
                second,
            ).len() ==> #[trigger] due_records(s, first)[i].id != #[trigger] due_records(
                after_drain(s, first),
                second,
            )[j].id,
{
    let s1 = after_drain(s, first);
    lemma_due_records_members(s, first);
    lemma_due_records_members(s1, second);
    assert forall|i: int, j: int|
        0 <= i < due_records(s, first).len() && 0 <= j < due_records(s1, second).len() implies
        #[trigger] due_records(s, first)[i].id != #[trigger] due_records(s1, second)[j].id by {
        let a = due_records(s, first)[i];
        let b = due_records(s1, second)[j];
        assert(s.contains(a));
        assert(s1.contains(b));
        let m = choose|k: int| 0 <= k < s.len() && s[k] == a;
        let k = choose|k: int| 0 <= k < s1.len() && s1[k] == b;
        assert(is_due(s[m], first));
        assert(is_due(s1[k], second));
        if m < k {
            assert(s[m].id < s[k].id);
        } else if k < m {
            assert(s[k].id < s[m].id);
        }
    }
}

} // verus!
