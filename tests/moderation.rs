use std::collections::HashMap;

use reaper::duration::Duration;
use reaper::model::{ActionType, Guild, GuildConfig, ModerationConfig, Permissions, StrikeEscalation};
use reaper::moderation::{on_new_strike, search_permission, CommandError, Effect, Handler, SweepTask};

const BOT: i64 = 1000;
const GUILD: i64 = 1;
const MODERATOR: i64 = 7;
const SUBJECT: i64 = 8;
const MUTE_ROLE: i64 = 55;

fn guild_with(escalations: Vec<(u64, ActionType, Option<&str>)>) -> Guild {
    let mut table = HashMap::new();
    for (n, action, duration) in escalations {
        table.insert(n, StrikeEscalation { action, duration: duration.map(|d| d.to_string()) });
    }
    Guild {
        id: GUILD,
        config: GuildConfig {
            logging: None,
            moderation: Some(ModerationConfig {
                mute_role: MUTE_ROLE,
                strike_escalations: table,
                blacklisted_words: vec![],
                blacklisted_regex: vec![],
                default_strike_duration: "30d".to_string(),
            }),
        },
    }
}

fn strike(h: &mut Handler, g: &Guild, now: u64) -> reaper::moderation::StrikeOutcome {
    match h.strike(g, SUBJECT, "rude".to_string(), Some(MODERATOR), None, now) {
        Ok(o) => o,
        Err(e) => panic!("strike failed: {:?}", e),
    }
}

#[test]
fn third_strike_escalates_to_seven_day_ban() {
    let g = guild_with(vec![(3, ActionType::Ban, Some("7d"))]);
    let mut h = Handler::new(BOT);
    assert!(strike(&mut h, &g, 0).escalation.is_none());
    assert!(strike(&mut h, &g, 0).escalation.is_none());
    let third = strike(&mut h, &g, 0);
    assert_eq!(third.action.action_type, ActionType::Strike);
    let esc = third.escalation.expect("escalation at three strikes");
    assert_eq!(esc.action_type, ActionType::Ban);
    assert_eq!(esc.reason, "Strike escalation (3)");
    assert_eq!(h.actions.count_active(SUBJECT, GUILD, ActionType::Strike), 3);
    let now = 5_000;
    let effect = h.plan_ban(GUILD, SUBJECT, &esc.reason, None, &esc.duration, now).unwrap();
    assert!(matches!(effect, Effect::Ban { guild_id: GUILD, user_id: SUBJECT, .. }));
    let ban = h.ban(GUILD, SUBJECT, esc.reason.clone(), None, esc.duration.clone(), now).unwrap();
    assert_eq!(ban.expiry, Some(now + 7 * 86_400));
    assert_eq!(ban.moderator_id, BOT);
}

#[test]
fn strike_stands_when_escalation_is_not_carried_out() {
    let g = guild_with(vec![(1, ActionType::Mute, None)]);
    let mut h = Handler::new(BOT);
    let o = strike(&mut h, &g, 0);
    let esc = o.escalation.unwrap();
    assert_eq!(esc.action_type, ActionType::Mute);
    assert!(esc.duration.unwrap().is_permanent());
    assert_eq!(h.actions.get_actions_for_user(SUBJECT, GUILD).len(), 1);
}

#[test]
fn escalation_table_is_exact_and_ignores_bad_rules() {
    let g = guild_with(vec![(2, ActionType::Kick, None), (3, ActionType::Strike, None)]);
    assert!(on_new_strike(&g, 1).is_none());
    let k = on_new_strike(&g, 2).unwrap();
    assert_eq!(k.action_type, ActionType::Kick);
    assert!(k.duration.is_none());
    assert!(on_new_strike(&g, 3).is_none());
    assert!(on_new_strike(&Guild::new(GUILD), 2).is_none());
}

#[test]
fn self_targeting_is_rejected_everywhere() {
    let g = guild_with(vec![(1, ActionType::Ban, None)]);
    let mut h = Handler::new(BOT);
    let me = Some(SUBJECT);
    let reason = "me".to_string();
    assert!(matches!(h.strike(&g, SUBJECT, reason.clone(), me, None, 0), Err(CommandError::SelfTarget)));
    assert!(matches!(h.plan_mute(&g, SUBJECT, &reason, me, &None, 0), Err(CommandError::SelfTarget)));
    assert!(matches!(h.mute(&g, SUBJECT, reason.clone(), me, None, 0), Err(CommandError::SelfTarget)));
    assert!(matches!(h.plan_kick(GUILD, SUBJECT, me), Err(CommandError::SelfTarget)));
    assert!(matches!(h.kick(GUILD, SUBJECT, reason.clone(), me, 0), Err(CommandError::SelfTarget)));
    assert!(matches!(h.plan_ban(GUILD, SUBJECT, &reason, me, &None, 0), Err(CommandError::SelfTarget)));
    assert!(matches!(h.ban(GUILD, SUBJECT, reason.clone(), me, None, 0), Err(CommandError::SelfTarget)));
    assert!(matches!(h.plan_unban(GUILD, SUBJECT, me), Err(CommandError::SelfTarget)));
    assert!(matches!(h.unban(GUILD, SUBJECT, me), Err(CommandError::SelfTarget)));
    assert!(matches!(h.plan_unmute(&g, SUBJECT, me, true), Err(CommandError::SelfTarget)));
    assert!(matches!(h.unmute(GUILD, SUBJECT, me), Err(CommandError::SelfTarget)));
    assert!(h.actions.get_actions_for_user(SUBJECT, GUILD).is_empty());
    let bot_target = h.kick(GUILD, BOT, reason, None, 0);
    assert!(matches!(bot_target, Err(CommandError::SelfTarget)));
}

#[test]
fn unmute_without_mute_role_takes_no_action() {
    let g = guild_with(vec![]);
    let mut h = Handler::new(BOT);
    h.mute(&g, SUBJECT, "loud".to_string(), Some(MODERATOR), None, 0).unwrap();
    assert!(h.plan_unmute(&g, SUBJECT, Some(MODERATOR), false).unwrap().is_none());
    assert!(h.actions.get_actions_for_user(SUBJECT, GUILD)[0].active);
    let effect = h.plan_unmute(&g, SUBJECT, Some(MODERATOR), true).unwrap().unwrap();
    assert!(matches!(effect, Effect::RevokeRole { role_id: MUTE_ROLE, moderator_id: MODERATOR, .. }));
    assert_eq!(h.unmute(GUILD, SUBJECT, Some(MODERATOR)), Ok(true));
    assert!(!h.actions.get_actions_for_user(SUBJECT, GUILD)[0].active);
    assert_eq!(h.unmute(GUILD, SUBJECT, Some(MODERATOR)), Ok(false));
}

#[test]
fn mute_without_policy_takes_no_action() {
    let g = Guild::new(GUILD);
    let mut h = Handler::new(BOT);
    let r = "x".to_string();
    assert!(h.plan_mute(&g, SUBJECT, &r, Some(MODERATOR), &None, 0).unwrap().is_none());
    assert!(h.mute(&g, SUBJECT, r, Some(MODERATOR), None, 0).unwrap().is_none());
    assert!(h.plan_unmute(&g, SUBJECT, Some(MODERATOR), true).unwrap().is_none());
    assert!(h.actions.get_actions_for_user(SUBJECT, GUILD).is_empty());
}

#[test]
fn mute_records_with_expiry() {
    let g = guild_with(vec![]);
    let mut h = Handler::new(BOT);
    let r = "spam".to_string();
    let d = Some(Duration::new("10m".to_string()));
    let effect = h.plan_mute(&g, SUBJECT, &r, Some(MODERATOR), &d, 100).unwrap().unwrap();
    assert!(matches!(effect, Effect::GrantRole { role_id: MUTE_ROLE, user_id: SUBJECT, .. }));
    let a = h.mute(&g, SUBJECT, r, Some(MODERATOR), d, 100).unwrap().unwrap();
    assert_eq!(a.expiry, Some(700));
    assert_eq!(a.action_type, ActionType::Mute);
}

#[test]
fn overlong_duration_is_rejected_before_any_call() {
    let g = guild_with(vec![]);
    let h = Handler::new(BOT);
    let d = Some(Duration::new("99999999999999999999y".to_string()));
    let r = "x".to_string();
    assert!(matches!(h.plan_ban(GUILD, SUBJECT, &r, Some(MODERATOR), &d, 0), Err(CommandError::DurationTooLong)));
    assert!(matches!(h.plan_mute(&g, SUBJECT, &r, Some(MODERATOR), &d, 0), Err(CommandError::DurationTooLong)));
}

#[test]
fn kick_and_unban() {
    let mut h = Handler::new(BOT);
    assert!(matches!(h.plan_kick(GUILD, SUBJECT, Some(MODERATOR)), Ok(Effect::Kick { guild_id: GUILD, user_id: SUBJECT })));
    let k = h.kick(GUILD, SUBJECT, "bye".to_string(), Some(MODERATOR), 0).unwrap();
    assert_eq!(k.expiry, None);
    h.ban(GUILD, SUBJECT, "b".to_string(), Some(MODERATOR), None, 0).unwrap();
    assert!(matches!(h.plan_unban(GUILD, SUBJECT, None), Ok(Effect::Unban { moderator_id: BOT, .. })));
    assert_eq!(h.unban(GUILD, SUBJECT, None), Ok(true));
    assert_eq!(h.unban(GUILD, SUBJECT, None), Ok(false));
}

#[test]
fn sweep_reverses_due_mutes_and_bans_once() {
    let g = guild_with(vec![]);
    let mut h = Handler::new(BOT);
    h.mute(&g, SUBJECT, "m".to_string(), Some(MODERATOR), Some(Duration::new("1s".to_string())), 0).unwrap();
    h.ban(GUILD, 9, "b".to_string(), Some(MODERATOR), Some(Duration::new("1s".to_string())), 0).unwrap();
    h.strike(&g, 10, "s".to_string(), Some(MODERATOR), Some(Duration::new("1s".to_string())), 0).unwrap();
    let swept = h.sweep_due(10);
    assert_eq!(swept.claimed.len(), 3);
    assert_eq!(
        swept.tasks,
        vec![
            SweepTask::Unmute { guild_id: GUILD, user_id: SUBJECT },
            SweepTask::Unban { guild_id: GUILD, user_id: 9 },
        ]
    );
    assert!(h.sweep_due(10).claimed.is_empty());
    assert!(h.sweep_due(1_000).tasks.is_empty());
}

#[test]
fn search_needs_the_matching_capability() {
    assert_eq!(search_permission(1, 1, false), Permissions::ModerationSearchSelf);
    assert_eq!(search_permission(1, 1, true), Permissions::ModerationSearchSelfExpired);
    assert_eq!(search_permission(1, 2, false), Permissions::ModerationSearchOthers);
    assert_eq!(search_permission(1, 2, true), Permissions::ModerationSearchOthersExpired);
}

#[test]
fn search_history_hides_expired_unless_asked() {
    let mut h = Handler::new(BOT);
    let a = h.ban(GUILD, SUBJECT, "old".to_string(), Some(MODERATOR), None, 0).unwrap();
    h.kick(GUILD, SUBJECT, "new".to_string(), Some(MODERATOR), 0).unwrap();
    h.actions.expire_action(GUILD, a.id).unwrap();
    assert_eq!(h.search_history(SUBJECT, GUILD, false).len(), 1);
    assert_eq!(h.search_history(SUBJECT, GUILD, true).len(), 2);
}

#[test]
fn error_messages() {
    assert_eq!(CommandError::SelfTarget.message(), "You cannot target yourself");
    assert!(!CommandError::EffectorFailed.message().is_empty());
    assert_eq!(CommandError::from_store(reaper::store::StoreError::NotFound), CommandError::NotFound);
    assert_eq!(CommandError::from_store(reaper::store::StoreError::Exhausted), CommandError::StoreExhausted);
}

#[test]
fn escalation_reason_names_the_count_in_decimal() {
    let g = guild_with(vec![(12, ActionType::Kick, None), (100, ActionType::Kick, None), (0, ActionType::Kick, None)]);
    assert_eq!(on_new_strike(&g, 12).unwrap().reason, "Strike escalation (12)");
    assert_eq!(on_new_strike(&g, 100).unwrap().reason, "Strike escalation (100)");
    assert_eq!(on_new_strike(&g, 0).unwrap().reason, "Strike escalation (0)");
}

#[test]
fn each_failure_has_its_sentence() {
    assert_eq!(CommandError::NotFound.message(), "The action with this ID does not exist");
    assert_eq!(CommandError::DurationTooLong.message(), "That duration is too long");
    assert_eq!(
        CommandError::StorageFailed.message(),
        "The action was taken but could not be stored. Please try again later."
    );
    assert_eq!(CommandError::from_store(reaper::store::StoreError::Conflict), CommandError::Conflict);
}
