use reaper::grants::{GrantStore, Member};
use reaper::model::Permissions;

fn member(user_id: i64, roles: Vec<i64>, administrator: bool) -> Member {
    Member { user_id, guild_id: 100, roles, administrator }
}

#[test]
fn owner_holds_everything_with_empty_grants() {
    let g = GrantStore::new();
    let m = member(1, vec![], false);
    for p in Permissions::all() {
        assert!(g.has_permission(&m, 1, p));
    }
}

#[test]
fn administrator_holds_everything() {
    let g = GrantStore::new();
    let m = member(2, vec![], true);
    assert!(g.has_permission(&m, 1, Permissions::ModerationBan));
}

#[test]
fn role_grant_only_gives_that_capability() {
    let mut g = GrantStore::new();
    g.add_permission_to_role(50, 100, Permissions::ModerationMute);
    let m = member(2, vec![49, 50], false);
    assert!(g.has_permission(&m, 1, Permissions::ModerationMute));
    assert!(!g.has_permission(&m, 1, Permissions::ModerationBan));
    assert!(!g.has_permission(&m, 1, Permissions::ModerationKick));
}

#[test]
fn direct_and_default_role_grants() {
    let mut g = GrantStore::new();
    g.add_permission_to_user(2, 100, Permissions::ModerationKick);
    g.add_permission_to_role(100, 100, Permissions::ModerationSearchSelf);
    let m = member(2, vec![], false);
    assert!(g.has_permission(&m, 1, Permissions::ModerationKick));
    assert!(g.has_permission(&m, 1, Permissions::ModerationSearchSelf));
    assert!(!g.has_permission(&m, 1, Permissions::ModerationBan));
    let other = member(3, vec![], false);
    assert!(!g.has_permission(&other, 1, Permissions::ModerationKick));
    assert!(g.has_permission(&other, 1, Permissions::ModerationSearchSelf));
}

#[test]
fn grants_are_sets() {
    let mut g = GrantStore::new();
    let first = g.add_permission_to_user(2, 100, Permissions::ModerationKick);
    let second = g.add_permission_to_user(2, 100, Permissions::ModerationKick);
    assert_eq!(first, vec![Permissions::ModerationKick]);
    assert_eq!(second, vec![Permissions::ModerationKick]);
    g.add_permission_to_user(2, 100, Permissions::ModerationBan);
    let left = g.remove_permission_from_user(2, 100, Permissions::ModerationKick);
    assert_eq!(left, vec![Permissions::ModerationBan]);
    assert_eq!(g.get_user(2, 100).permissions, vec![Permissions::ModerationBan]);
    assert!(g.get_user(2, 101).permissions.is_empty());
}

#[test]
fn lazy_creation_is_explicit() {
    let mut g = GrantStore::new();
    let u = g.create_user(7, 100);
    assert_eq!((u.id, u.guild_id), (7, 100));
    assert!(u.permissions.is_empty());
    g.add_permission_to_user(7, 100, Permissions::PermissionsView);
    let again = g.create_user(7, 100);
    assert_eq!(again.permissions, vec![Permissions::PermissionsView]);
    let r = g.create_role(8, 100);
    assert!(r.permissions.is_empty());
    g.add_permission_to_role(8, 100, Permissions::PermissionsList);
    g.remove_permission_from_role(8, 100, Permissions::PermissionsList);
    assert!(g.get_role(8, 100).permissions.is_empty());
}
