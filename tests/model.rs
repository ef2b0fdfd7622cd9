use reaper::model::{text_eq, Action, ActionType, Guild, Permissions};

#[test]
fn permission_names_round_trip() {
    let all = Permissions::all();
    assert_eq!(all.len(), 19);
    for p in all {
        let name = p.to_string();
        assert_ne!(name, "unknown");
        assert_eq!(Permissions::from_name(&name), p);
        assert_eq!(Permissions::from(name.clone()), p);
    }
}

#[test]
fn permission_wire_names() {
    assert_eq!(Permissions::ModerationStrike.to_string(), "moderation.strike");
    assert_eq!(
        Permissions::ModerationSearchOthersExpired.to_string(),
        "moderation.search.others.expired"
    );
    assert_eq!(Permissions::from_name("permissions.add"), Permissions::PermissionsAdd);
    assert_eq!(Permissions::from_name("moderation.nothing"), Permissions::Unknown);
    assert_eq!(Permissions::Unknown.to_string(), "unknown");
}

#[test]
fn action_type_names() {
    for (t, n) in [
        (ActionType::Strike, "strike"),
        (ActionType::Mute, "mute"),
        (ActionType::Kick, "kick"),
        (ActionType::Ban, "ban"),
    ] {
        assert_eq!(t.to_string(), n);
        assert_eq!(ActionType::from_name(n), t);
        assert_eq!(ActionType::from(n.to_string()), t);
    }
    assert_eq!(ActionType::from_name("warn"), ActionType::Unknown);
    assert_eq!(ActionType::Unknown.to_string(), "unknown");
}

#[test]
fn text_comparison() {
    assert!(text_eq("abc", "abc"));
    assert!(!text_eq("abc", "abd"));
    assert!(!text_eq("abc", "ab"));
    assert!(text_eq("", ""));
}

#[test]
fn new_guild_has_no_config() {
    let g = Guild::new(5);
    assert_eq!(g.id, 5);
    assert!(g.config.logging.is_none());
    assert!(g.config.moderation.is_none());
}

#[test]
fn action_copy_keeps_fields() {
    let a = Action {
        id: 3,
        action_type: ActionType::Ban,
        guild_id: 1,
        user_id: 2,
        moderator_id: 4,
        reason: "spam".to_string(),
        active: true,
        expiry: Some(9),
    };
    let b = a.copy();
    assert_eq!((b.id, b.action_type, b.guild_id, b.user_id, b.moderator_id), (3, ActionType::Ban, 1, 2, 4));
    assert_eq!((b.reason.as_str(), b.active, b.expiry), ("spam", true, Some(9)));
}
