//! Grant sets of users and roles, and the decision whether a member holds a
//! capability.

use crate::model::{Permissions, Role, User};
use vstd::prelude::*;

verus! {

/// What the platform says about the member asking: who they are, in which
/// guild, their roles, and whether they hold the platform's administrator
/// right there.
pub struct Member {
    pub user_id: i64,
    pub guild_id: i64,
    pub roles: Vec<i64>,
    pub administrator: bool,
}

/// The capabilities of the entry for (`id`, `guild_id`) among `entries`
/// (given as triples), or none when there is no entry.
pub open spec fn grants_in(entries: Seq<(i64, i64, Seq<Permissions>)>, id: i64, guild_id: i64) -> Seq<
    Permissions,
> {
    if exists|i: int| 0 <= i < entries.len() && #[trigger] entries[i].0 == id && entries[i].1 == guild_id {
        let i = choose|i: int| 0 <= i < entries.len() && #[trigger] entries[i].0 == id && entries[i].1 == guild_id;
        entries[i].2
    } else {
        Seq::empty()
    }
}

/// No two entries share an (id, guild) key.
pub open spec fn keys_unique(entries: Seq<(i64, i64, Seq<Permissions>)>) -> bool {
    forall|i: int, j: int|
        0 <= i < j < entries.len() ==> !(#[trigger] entries[i].0 == #[trigger] entries[j].0
            && entries[i].1 == entries[j].1)
}

/// No capability appears twice.
pub open spec fn no_duplicates(s: Seq<Permissions>) -> bool {
    forall|i: int, j: int| 0 <= i < j < s.len() ==> s[i] != s[j]
}

/// The resolution order: owner, administrator, direct grant, any role's
/// grant, the guild's default role.
pub open spec fn permitted(
    is_owner: bool,
    administrator: bool,
    direct: Seq<Permissions>,
    role_grants: Seq<Seq<Permissions>>,
    everyone: Seq<Permissions>,
    permission: Permissions,
) -> bool {
    is_owner || administrator || direct.contains(permission) || (exists|i: int|
        0 <= i < role_grants.len() && #[trigger] role_grants[i].contains(permission))
        || everyone.contains(permission)
}

/// The grant sets of every user and role that has one, per guild.
pub struct GrantStore {
    users: Vec<User>,
    roles: Vec<Role>,
}

pub open spec fn user_entry(u: User) -> (i64, i64, Seq<Permissions>) {
    (u.id, u.guild_id, u.permissions@)
}

pub open spec fn role_entry(r: Role) -> (i64, i64, Seq<Permissions>) {
    (r.id, r.guild_id, r.permissions@)
}

impl GrantStore {
    pub closed spec fn user_entries(&self) -> Seq<(i64, i64, Seq<Permissions>)> {
        self.users@.map_values(|u: User| user_entry(u))
    }

    pub closed spec fn role_entries(&self) -> Seq<(i64, i64, Seq<Permissions>)> {
        self.roles@.map_values(|r: Role| role_entry(r))
    }

    /// The capabilities granted directly to user `id` in `guild_id`.
    pub open spec fn user_grants(&self, id: i64, guild_id: i64) -> Seq<Permissions> {
        grants_in(self.user_entries(), id, guild_id)
    }

    /// The capabilities granted to role `id` in `guild_id`.
    pub open spec fn role_grants(&self, id: i64, guild_id: i64) -> Seq<Permissions> {
        grants_in(self.role_entries(), id, guild_id)
    }

    pub open spec fn wf(&self) -> bool {
        &&& keys_unique(self.user_entries())
        &&& keys_unique(self.role_entries())
        &&& forall|i: int| 0 <= i < self.user_entries().len() ==> no_duplicates(#[trigger] self.user_entries()[i].2)
        &&& forall|i: int| 0 <= i < self.role_entries().len() ==> no_duplicates(#[trigger] self.role_entries()[i].2)
    }

    /// A store in which nobody has been granted anything.
    pub fn new() -> (g: GrantStore)
        ensures
            g.wf(),
            forall|id: i64, guild_id: i64| #[trigger] g.user_grants(id, guild_id) == Seq::<Permissions>::empty(),
            forall|id: i64, guild_id: i64| #[trigger] g.role_grants(id, guild_id) == Seq::<Permissions>::empty(),
    {
        let g = GrantStore { users: Vec::new(), roles: Vec::new() };
        assert(g.user_entries() =~= Seq::<(i64, i64, Seq<Permissions>)>::empty());
        assert(g.role_entries() =~= Seq::<(i64, i64, Seq<Permissions>)>::empty());
        g
    }

    fn find_user(&self, id: i64, guild_id: i64) -> (r: Option<usize>)
        requires
            self.wf(),
        ensures
            r is None <==> forall|j: int|
                0 <= j < self.user_entries().len() ==> !(#[trigger] self.user_entries()[j].0 == id
                    && self.user_entries()[j].1 == guild_id),
            r matches Some(i) ==> i < self.users@.len() && self.users@[i as int].id == id
                && self.users@[i as int].guild_id == guild_id && self.user_grants(id, guild_id)
                == self.users@[i as int].permissions@,
            r is None ==> self.user_grants(id, guild_id) == Seq::<Permissions>::empty(),
    {
        let mut i: usize = 0;
        while i < self.users.len()
            invariant
                self.wf(),
                i <= self.users@.len(),
                forall|k: int|
                    0 <= k < i ==> !(#[trigger] self.users@[k].id == id && self.users@[k].guild_id
                        == guild_id),
            decreases self.users@.len() - i,
        {
            if self.users[i].id == id && self.users[i].guild_id == guild_id {
                proof {
                    assert(self.user_entries()[i as int] == user_entry(self.users@[i as int]));
                    lemma_grants_at(self.user_entries(), i as int);
                }
                return Some(i);
            }
            i = i + 1;
        }
        assert forall|j: int|
            0 <= j < self.user_entries().len() implies !(#[trigger] self.user_entries()[j].0 == id
                && self.user_entries()[j].1 == guild_id) by {
            assert(self.user_entries()[j] == user_entry(self.users@[j]));
        }
        None
    }

    /// The grant set of user `id` in `guild_id`; an absent one reads as
    /// empty, and nothing is stored.
    pub fn get_user(&self, id: i64, guild_id: i64) -> (r: User)
        requires
            self.wf(),
        ensures
            r.id == id,
            r.guild_id == guild_id,
            r.permissions@ == self.user_grants(id, guild_id),
    {
        match self.find_user(id, guild_id) {
            Some(i) => User { id, guild_id, permissions: copy_grants(&self.users[i].permissions) },
            None => User { id, guild_id, permissions: Vec::new() },
        }
    }

    /// Stores an empty grant set for user `id` in `guild_id` unless one is
    /// there already, and returns the stored set. No grant changes.
    pub fn create_user(&mut self, id: i64, guild_id: i64) -> (r: User)
        requires
            old(self).wf(),
        ensures
            final(self).wf(),
            r.id == id,
            r.guild_id == guild_id,
            r.permissions@ == old(self).user_grants(id, guild_id),
            forall|i: i64, g: i64| #[trigger] final(self).user_grants(i, g) == old(self).user_grants(i, g),
            forall|i: i64, g: i64| #[trigger] final(self).role_grants(i, g) == old(self).role_grants(i, g),
            exists|j: int|
                0 <= j < final(self).user_entries().len() && #[trigger] final(self).user_entries()[j].0
                    == id && final(self).user_entries()[j].1 == guild_id,
    {
        match self.find_user(id, guild_id) {
            Some(i) => {
                assert(self.user_entries()[i as int] == user_entry(self.users@[i as int]));
                User { id, guild_id, permissions: copy_grants(&self.users[i].permissions) }
            },
            None => {
                let ghost e = self.user_entries();
                proof {
                    lemma_grants_after_push(e, id, guild_id);
                }
                self.users.push(User { id, guild_id, permissions: Vec::new() });
                assert(self.user_entries() =~= e.push((id, guild_id, Seq::empty())));
                assert(self.user_entries()[e.len() as int].0 == id);
                User { id, guild_id, permissions: Vec::new() }
            },
        }
    }

    /// Grants `permission` to user `id` in `guild_id` (creating its set if
    /// needed) and returns the new set; granting twice changes nothing.
    pub fn add_permission_to_user(&mut self, id: i64, guild_id: i64, permission: Permissions) -> (r: Vec<
        Permissions,
    >)
        requires
            old(self).wf(),
        ensures
            final(self).wf(),
            r@ == final(self).user_grants(id, guild_id),
            forall|q: Permissions|
                #[trigger] r@.contains(q) <==> (old(self).user_grants(id, guild_id).contains(q) || q
                    == permission),
            forall|i: i64, g: i64|
                !(i == id && g == guild_id) ==> #[trigger] final(self).user_grants(i, g) == old(
                    self,
                ).user_grants(i, g),
            forall|i: i64, g: i64| #[trigger] final(self).role_grants(i, g) == old(self).role_grants(i, g),
    {
        self.create_user(id, guild_id);
        let ghost mid = *self;
        let i = self.find_user(id, guild_id).unwrap();
        let ghost e = self.user_entries();
        proof {
            assert(e[i as int] == user_entry(self.users@[i as int]));
            assert(no_duplicates(e[i as int].2));
        }
        let updated = with_grant(&self.users[i].permissions, permission);
        let out = copy_grants(&updated);
        proof {
            lemma_grants_after_update(e, i as int, updated@);
        }
        self.users.set(i, User { id, guild_id, permissions: updated });
        assert(self.user_entries() =~= e.update(i as int, (id, guild_id, out@)));
        proof {
            assert forall|a: i64, g: i64| #[trigger]
                self.role_grants(a, g) == old(self).role_grants(a, g) by {
                assert(mid.role_grants(a, g) == old(self).role_grants(a, g));
            }
            assert forall|a: i64, g: i64| !(a == id && g == guild_id) implies #[trigger]
                self.user_grants(a, g) == old(self).user_grants(a, g) by {
                assert(mid.user_grants(a, g) == old(self).user_grants(a, g));
            }
        }
        out
    }

    /// Withdraws `permission` from user `id` in `guild_id` (creating its set
    /// if needed) and returns the new set.
    pub fn remove_permission_from_user(&mut self, id: i64, guild_id: i64, permission: Permissions) -> (r:
        Vec<Permissions>)
        requires
            old(self).wf(),
        ensures
            final(self).wf(),
            r@ == final(self).user_grants(id, guild_id),
            forall|q: Permissions|
                #[trigger] r@.contains(q) <==> (old(self).user_grants(id, guild_id).contains(q) && q
                    != permission),
            forall|i: i64, g: i64|
                !(i == id && g == guild_id) ==> #[trigger] final(self).user_grants(i, g) == old(
                    self,
                ).user_grants(i, g),
            forall|i: i64, g: i64| #[trigger] final(self).role_grants(i, g) == old(self).role_grants(i, g),
    {
        self.create_user(id, guild_id);
        let ghost mid = *self;
        let i = self.find_user(id, guild_id).unwrap();
        let ghost e = self.user_entries();
        proof {
            assert(e[i as int] == user_entry(self.users@[i as int]));
            assert(no_duplicates(e[i as int].2));
        }
        let updated = without_grant(&self.users[i].permissions, permission);
        let out = copy_grants(&updated);
        proof {
            lemma_grants_after_update(e, i as int, updated@);
        }
        self.users.set(i, User { id, guild_id, permissions: updated });
        assert(self.user_entries() =~= e.update(i as int, (id, guild_id, out@)));
        proof {
            assert forall|a: i64, g: i64| #[trigger]
                self.role_grants(a, g) == old(self).role_grants(a, g) by {
                assert(mid.role_grants(a, g) == old(self).role_grants(a, g));
            }
            assert forall|a: i64, g: i64| !(a == id && g == guild_id) implies #[trigger]
                self.user_grants(a, g) == old(self).user_grants(a, g) by {
                assert(mid.user_grants(a, g) == old(self).user_grants(a, g));
            }
        }
        out
    }

    fn find_role(&self, id: i64, guild_id: i64) -> (r: Option<usize>)
        requires
            self.wf(),
        ensures
            r is None <==> forall|j: int|
                0 <= j < self.role_entries().len() ==> !(#[trigger] self.role_entries()[j].0 == id
                    && self.role_entries()[j].1 == guild_id),
            r matches Some(i) ==> i < self.roles@.len() && self.roles@[i as int].id == id
                && self.roles@[i as int].guild_id == guild_id && self.role_grants(id, guild_id)
                == self.roles@[i as int].permissions@,
            r is None ==> self.role_grants(id, guild_id) == Seq::<Permissions>::empty(),
    {
        let mut i: usize = 0;
        while i < self.roles.len()
            invariant
                self.wf(),
                i <= self.roles@.len(),
                forall|k: int|
                    0 <= k < i ==> !(#[trigger] self.roles@[k].id == id && self.roles@[k].guild_id
                        == guild_id),
            decreases self.roles@.len() - i,
        {
            if self.roles[i].id == id && self.roles[i].guild_id == guild_id {
                proof {
                    assert(self.role_entries()[i as int] == role_entry(self.roles@[i as int]));
                    lemma_grants_at(self.role_entries(), i as int);
                }
                return Some(i);
            }
            i = i + 1;
        }
        assert forall|j: int|
            0 <= j < self.role_entries().len() implies !(#[trigger] self.role_entries()[j].0 == id
                && self.role_entries()[j].1 == guild_id) by {
            assert(self.role_entries()[j] == role_entry(self.roles@[j]));
        }
        None
    }

    /// The grant set of role `id` in `guild_id`; an absent one reads as
    /// empty, and nothing is stored.
    pub fn get_role(&self, id: i64, guild_id: i64) -> (r: Role)
        requires
            self.wf(),
        ensures
            r.id == id,
            r.guild_id == guild_id,
            r.permissions@ == self.role_grants(id, guild_id),
    {
        match self.find_role(id, guild_id) {
            Some(i) => Role { id, guild_id, permissions: copy_grants(&self.roles[i].permissions) },
            None => Role { id, guild_id, permissions: Vec::new() },
        }
    }

    /// Stores an empty grant set for role `id` in `guild_id` unless one is
    /// there already, and returns the stored set. No grant changes.
    pub fn create_role(&mut self, id: i64, guild_id: i64) -> (r: Role)
        requires
            old(self).wf(),
        ensures
            final(self).wf(),
            r.id == id,
            r.guild_id == guild_id,
            r.permissions@ == old(self).role_grants(id, guild_id),
            forall|i: i64, g: i64| #[trigger] final(self).user_grants(i, g) == old(self).user_grants(i, g),
            forall|i: i64, g: i64| #[trigger] final(self).role_grants(i, g) == old(self).role_grants(i, g),
            exists|j: int|
                0 <= j < final(self).role_entries().len() && #[trigger] final(self).role_entries()[j].0
                    == id && final(self).role_entries()[j].1 == guild_id,
    {
        match self.find_role(id, guild_id) {
            Some(i) => {
                assert(self.role_entries()[i as int] == role_entry(self.roles@[i as int]));
                Role { id, guild_id, permissions: copy_grants(&self.roles[i].permissions) }
            },
            None => {
                let ghost e = self.role_entries();
                proof {
                    lemma_grants_after_push(e, id, guild_id);
                }
                self.roles.push(Role { id, guild_id, permissions: Vec::new() });
                assert(self.role_entries() =~= e.push((id, guild_id, Seq::empty())));
                assert(self.role_entries()[e.len() as int].0 == id);
                Role { id, guild_id, permissions: Vec::new() }
            },
        }
    }

    /// Grants `permission` to role `id` in `guild_id` (creating its set if
    /// needed) and returns the new set; granting twice changes nothing.
    pub fn add_permission_to_role(&mut self, id: i64, guild_id: i64, permission: Permissions) -> (r: Vec<
        Permissions,
    >)
        requires
            old(self).wf(),
        ensures
            final(self).wf(),
            r@ == final(self).role_grants(id, guild_id),
            forall|q: Permissions|
                #[trigger] r@.contains(q) <==> (old(self).role_grants(id, guild_id).contains(q) || q
                    == permission),
            forall|i: i64, g: i64|
                !(i == id && g == guild_id) ==> #[trigger] final(self).role_grants(i, g) == old(
                    self,
                ).role_grants(i, g),
            forall|i: i64, g: i64| #[trigger] final(self).user_grants(i, g) == old(self).user_grants(i, g),
    {
        self.create_role(id, guild_id);
        let ghost mid = *self;
        let i = self.find_role(id, guild_id).unwrap();
        let ghost e = self.role_entries();
        proof {
            assert(e[i as int] == role_entry(self.roles@[i as int]));
            assert(no_duplicates(e[i as int].2));
        }
        let updated = with_grant(&self.roles[i].permissions, permission);
        let out = copy_grants(&updated);
        proof {
            lemma_grants_after_update(e, i as int, updated@);
        }
        self.roles.set(i, Role { id, guild_id, permissions: updated });
        assert(self.role_entries() =~= e.update(i as int, (id, guild_id, out@)));
        proof {
            assert forall|a: i64, g: i64| #[trigger]
                self.user_grants(a, g) == old(self).user_grants(a, g) by {
                assert(mid.user_grants(a, g) == old(self).user_grants(a, g));
            }
            assert forall|a: i64, g: i64| !(a == id && g == guild_id) implies #[trigger]
                self.role_grants(a, g) == old(self).role_grants(a, g) by {
                assert(mid.role_grants(a, g) == old(self).role_grants(a, g));
            }
        }
        out
    }

    /// Withdraws `permission` from role `id` in `guild_id` (creating its set
    /// if needed) and returns the new set.
    pub fn remove_permission_from_role(&mut self, id: i64, guild_id: i64, permission: Permissions) -> (r:
        Vec<Permissions>)
        requires
            old(self).wf(),
        ensures
            final(self).wf(),
            r@ == final(self).role_grants(id, guild_id),
            forall|q: Permissions|
                #[trigger] r@.contains(q) <==> (old(self).role_grants(id, guild_id).contains(q) && q
                    != permission),
            forall|i: i64, g: i64|
                !(i == id && g == guild_id) ==> #[trigger] final(self).role_grants(i, g) == old(
                    self,
                ).role_grants(i, g),
            forall|i: i64, g: i64| #[trigger] final(self).user_grants(i, g) == old(self).user_grants(i, g),
    {
        self.create_role(id, guild_id);
        let ghost mid = *self;
        let i = self.find_role(id, guild_id).unwrap();
        let ghost e = self.role_entries();
        proof {
            assert(e[i as int] == role_entry(self.roles@[i as int]));
            assert(no_duplicates(e[i as int].2));
        }
        let updated = without_grant(&self.roles[i].permissions, permission);
        let out = copy_grants(&updated);
        proof {
            lemma_grants_after_update(e, i as int, updated@);
        }
        self.roles.set(i, Role { id, guild_id, permissions: updated });
        assert(self.role_entries() =~= e.update(i as int, (id, guild_id, out@)));
        proof {
            assert forall|a: i64, g: i64| #[trigger]
                self.user_grants(a, g) == old(self).user_grants(a, g) by {
                assert(mid.user_grants(a, g) == old(self).user_grants(a, g));
            }
            assert forall|a: i64, g: i64| !(a == id && g == guild_id) implies #[trigger]
                self.role_grants(a, g) == old(self).role_grants(a, g) by {
                assert(mid.role_grants(a, g) == old(self).role_grants(a, g));
            }
        }
        out
    }

    /// Whether `member` holds `permission` in their guild, whose owner is
    /// `owner_id`.
    pub open spec fn permits(&self, member: &Member, owner_id: i64, permission: Permissions) -> bool {
        permitted(
            member.user_id == owner_id,
            member.administrator,
            self.user_grants(member.user_id, member.guild_id),
            member.roles@.map_values(|r: i64| self.role_grants(r, member.guild_id)),
            self.role_grants(member.guild_id, member.guild_id),
            permission,
        )
    }

    /// Decides whether `member` holds `permission`, stopping at the first
    /// reason that grants it: being the guild's owner (`owner_id`), holding
    /// the platform's administrator right, a direct grant, a grant of any of
    /// their roles, a grant of the guild's default role.
    pub fn has_permission(&self, member: &Member, owner_id: i64, permission: Permissions) -> (r: bool)
        requires
            self.wf(),
        ensures
            r == self.permits(member, owner_id, permission),
    {
        if member.user_id == owner_id {
            return true;
        }
        if member.administrator {
            return true;
        }
        let user = self.get_user(member.user_id, member.guild_id);
        if grants_contain(&user.permissions, permission) {
            return true;
        }
        let ghost role_sets = member.roles@.map_values(|r: i64| self.role_grants(r, member.guild_id));
        let mut i: usize = 0;
        while i < member.roles.len()
            invariant
                self.wf(),
                i <= member.roles@.len(),
                role_sets == member.roles@.map_values(|r: i64| self.role_grants(r, member.guild_id)),
                forall|k: int| 0 <= k < i ==> !(#[trigger] role_sets[k]).contains(permission),
            decreases member.roles@.len() - i,
        {
            let role = self.get_role(member.roles[i], member.guild_id);
            if grants_contain(&role.permissions, permission) {
                assert(role_sets[i as int].contains(permission));
                return true;
            }
            i = i + 1;
        }
        let everyone = self.get_role(member.guild_id, member.guild_id);
        grants_contain(&everyone.permissions, permission)
    }
}

/// Whether `permissions` holds `p`.
pub fn grants_contain(permissions: &Vec<Permissions>, p: Permissions) -> (r: bool)
    ensures
        r == permissions@.contains(p),
{
    let mut i: usize = 0;
    while i < permissions.len()
        invariant
            i <= permissions@.len(),
            forall|k: int| 0 <= k < i ==> permissions@[k] != p,
        decreases permissions@.len() - i,
    {
        if permissions[i] == p {
            return true;
        }
        i = i + 1;
    }
    false
}

proof fn lemma_grants_at(e: Seq<(i64, i64, Seq<Permissions>)>, i: int)
    requires
        keys_unique(e),
        0 <= i < e.len(),
    ensures
        grants_in(e, e[i].0, e[i].1) == e[i].2,
{
    let j = choose|j: int| 0 <= j < e.len() && #[trigger] e[j].0 == e[i].0 && e[j].1 == e[i].1;
    if j < i {
        assert(!(e[j].0 == e[i].0 && e[j].1 == e[i].1));
    } else if i < j {
        assert(!(e[i].0 == e[j].0 && e[i].1 == e[j].1));
    }
}

/// Replacing the capabilities of entry `i` changes the grants of its key only.
proof fn lemma_grants_after_update(e: Seq<(i64, i64, Seq<Permissions>)>, i: int, s: Seq<Permissions>)
    requires
        keys_unique(e),
        0 <= i < e.len(),
    ensures
        keys_unique(e.update(i, (e[i].0, e[i].1, s))),
        forall|id: i64, g: i64|
            #[trigger] grants_in(e.update(i, (e[i].0, e[i].1, s)), id, g) == if id == e[i].0 && g
                == e[i].1 {
                s
            } else {
                grants_in(e, id, g)
            },
{
    let e2 = e.update(i, (e[i].0, e[i].1, s));
    assert(keys_unique(e2));
    assert forall|id: i64, g: i64| #[trigger]
        grants_in(e2, id, g) == if id == e[i].0 && g == e[i].1 {
            s
        } else {
            grants_in(e, id, g)
        } by {
        if id == e[i].0 && g == e[i].1 {
            lemma_grants_at(e2, i);
        } else if exists|j: int| 0 <= j < e.len() && #[trigger] e[j].0 == id && e[j].1 == g {
            let j = choose|j: int| 0 <= j < e.len() && #[trigger] e[j].0 == id && e[j].1 == g;
            lemma_grants_at(e, j);
            lemma_grants_at(e2, j);
        } else {
            assert(!exists|j: int| 0 <= j < e2.len() && #[trigger] e2[j].0 == id && e2[j].1 == g);
        }
    }
}

/// Adding an entry with no capabilities for a new key changes no grants.
proof fn lemma_grants_after_push(e: Seq<(i64, i64, Seq<Permissions>)>, id0: i64, g0: i64)
    requires
        keys_unique(e),
        forall|j: int| 0 <= j < e.len() ==> !(#[trigger] e[j].0 == id0 && e[j].1 == g0),
    ensures
        keys_unique(e.push((id0, g0, Seq::empty()))),
        forall|id: i64, g: i64| #[trigger]
            grants_in(e.push((id0, g0, Seq::empty())), id, g) == grants_in(e, id, g),
{
    let e2 = e.push((id0, g0, Seq::<Permissions>::empty()));
    assert(keys_unique(e2));
    assert forall|id: i64, g: i64| #[trigger] grants_in(e2, id, g) == grants_in(e, id, g) by {
        if id == id0 && g == g0 {
            lemma_grants_at(e2, e.len() as int);
        } else if exists|j: int| 0 <= j < e.len() && #[trigger] e[j].0 == id && e[j].1 == g {
            let j = choose|j: int| 0 <= j < e.len() && #[trigger] e[j].0 == id && e[j].1 == g;
            lemma_grants_at(e, j);
            lemma_grants_at(e2, j);
        } else {
            assert(!exists|j: int| 0 <= j < e2.len() && #[trigger] e2[j].0 == id && e2[j].1 == g);
        }
    }
}

/// A copy of a grant list.
fn copy_grants(v: &Vec<Permissions>) -> (r: Vec<Permissions>)
    ensures
        r@ == v@,
{
    let mut r: Vec<Permissions> = Vec::new();
    let mut i: usize = 0;
    while i < v.len()
        invariant
            i <= v@.len(),
            r@ == v@.subrange(0, i as int),
        decreases v@.len() - i,
    {
        r.push(v[i]);
        i = i + 1;
    }
    assert(r@ =~= v@);
    r
}

/// `v` with `p` added, unless it is there already.
fn with_grant(v: &Vec<Permissions>, p: Permissions) -> (r: Vec<Permissions>)
    requires
        no_duplicates(v@),
    ensures
        no_duplicates(r@),
        forall|q: Permissions| r@.contains(q) <==> (v@.contains(q) || q == p),
{
    let mut r = copy_grants(v);
    if !grants_contain(v, p) {
        r.push(p);
        assert forall|q: Permissions| r@.contains(q) <==> (v@.contains(q) || q == p) by {
            if v@.contains(q) {
                let k = choose|k: int| 0 <= k < v@.len() && #[trigger] v@[k] == q;
                assert(r@[k] == q);
            }
            if r@.contains(q) && q != p {
                let k = choose|k: int| 0 <= k < r@.len() && #[trigger] r@[k] == q;
                assert(v@[k] == q);
            }
            if q == p {
                assert(r@[v@.len() as int] == q);
            }
        }
    }
    r
}

/// A sequence with `x` appended holds what it held, and `x`.
proof fn lemma_push_contains(s: Seq<Permissions>, x: Permissions)
    ensures
        forall|q: Permissions| #[trigger] s.push(x).contains(q) <==> (s.contains(q) || q == x),
{
    assert forall|q: Permissions| #[trigger] s.push(x).contains(q) <==> (s.contains(q) || q == x) by {
        if s.contains(q) {
            let k = choose|k: int| 0 <= k < s.len() && #[trigger] s[k] == q;
            assert(s.push(x)[k] == q);
        }
        if s.push(x).contains(q) && q != x {
            let k = choose|k: int| 0 <= k < s.len() + 1 && #[trigger] s.push(x)[k] == q;
            assert(s[k] == q);
        }
        if q == x {
            assert(s.push(x)[s.len() as int] == q);
        }
    }
}

/// `v` without `p`.
fn without_grant(v: &Vec<Permissions>, p: Permissions) -> (r: Vec<Permissions>)
    requires
        no_duplicates(v@),
    ensures
        no_duplicates(r@),
        forall|q: Permissions| r@.contains(q) <==> (v@.contains(q) && q != p),
{
    let mut r: Vec<Permissions> = Vec::new();
    let mut i: usize = 0;
    while i < v.len()
        invariant
            i <= v@.len(),
            no_duplicates(v@),
            no_duplicates(r@),
            forall|q: Permissions|
                #[trigger] r@.contains(q) <==> (v@.subrange(0, i as int).contains(q) && q != p),
        decreases v@.len() - i,
    {
        let x = v[i];
        let ghost pre = v@.subrange(0, i as int);
        let ghost before = r@;
        proof {
            assert(v@.subrange(0, i + 1) =~= pre.push(x));
            lemma_push_contains(pre, x);
        }
        if x != p {
            assert(!before.contains(x)) by {
                if before.contains(x) {
                    assert(pre.contains(x));
                    let k = choose|k: int| 0 <= k < pre.len() && #[trigger] pre[k] == x;
                    assert(v@[k] == v@[i as int]);
                }
            }
            r.push(x);
            proof {
                lemma_push_contains(before, x);
            }
            assert forall|a: int, b: int| 0 <= a < b < r@.len() implies r@[a] != r@[b] by {
                if b == before.len() {
                    assert(r@[a] == before[a]);
                    if before[a] == x {
                        assert(before.contains(x));
                    }
                }
            }
        }
        assert forall|q: Permissions|
            #[trigger] r@.contains(q) <==> (v@.subrange(0, i + 1).contains(q) && q != p) by {
            assert(before.contains(q) <==> (pre.contains(q) && q != p));
            assert(pre.push(x).contains(q) <==> (pre.contains(q) || q == x));
            if x != p {
                assert(before.push(x).contains(q) <==> (before.contains(q) || q == x));
            }
        }
        i = i + 1;
    }
    assert(v@.subrange(0, i as int) =~= v@);
    r
}

/// The guild's owner holds every capability, whatever the grant sets hold.
pub proof fn lemma_owner_holds_every_permission(
    g: GrantStore,
    member: Member,
    owner_id: i64,
    permission: Permissions,
)
    requires
        member.user_id == owner_id,
    ensures
        g.permits(&member, owner_id, permission),
{
}

/// A member who is neither owner nor administrator, with no direct grant and
/// nothing on the guild's default role, whose roles grant `granted` and
/// nothing else, holds `granted` and no other capability.
pub proof fn lemma_role_grants_only_what_roles_hold(
    g: GrantStore,
    member: Member,
    owner_id: i64,
    granted: Permissions,
    other: Permissions,
)
    requires
        member.user_id != owner_id,
        !member.administrator,
        g.user_grants(member.user_id, member.guild_id) == Seq::<Permissions>::empty(),
        g.role_grants(member.guild_id, member.guild_id) == Seq::<Permissions>::empty(),
        exists|i: int|
            0 <= i < member.roles@.len() && (#[trigger] g.role_grants(member.roles@[i], member.guild_id)).contains(
                granted,
            ),
        forall|i: int, q: Permissions|
            0 <= i < member.roles@.len() && #[trigger] g.role_grants(member.roles@[i], member.guild_id).contains(
                q,
            ) ==> q == granted,
        other != granted,
    ensures
        g.permits(&member, owner_id, granted),
        !g.permits(&member, owner_id, other),
{
    let role_sets = member.roles@.map_values(|r: i64| g.role_grants(r, member.guild_id));
    let i = choose|i: int|
        0 <= i < member.roles@.len() && (#[trigger] g.role_grants(member.roles@[i], member.guild_id)).contains(
            granted,
        );
    assert(role_sets[i].contains(granted));
    assert(!Seq::<Permissions>::empty().contains(other));
    assert forall|k: int| 0 <= k < role_sets.len() implies !(#[trigger] role_sets[k]).contains(other) by {
        assert(role_sets[k] == g.role_grants(member.roles@[k], member.guild_id));
    }
}

} // verus!
