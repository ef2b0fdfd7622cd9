use reaper::duration::Duration;
use reaper::model::{Action, ActionType};
use reaper::store::{ActionStore, StoreError};

fn dur(s: &str) -> Option<Duration> {
    Some(Duration::new(s.to_string()))
}

#[test]
fn add_assigns_increasing_ids_and_expiry() {
    let mut st = ActionStore::new();
    let a = st.add_action_to_user(2, 1, ActionType::Mute, "noise".to_string(), 9, dur("1h"), 1_000).unwrap();
    let b = st.add_action_to_user(2, 1, ActionType::Strike, "again".to_string(), 9, None, 1_000).unwrap();
    assert_eq!(a.id, 0);
    assert_eq!(b.id, 1);
    assert!(a.active && b.active);
    assert_eq!(a.expiry, Some(4_600));
    assert_eq!(b.expiry, None);
    assert_eq!((a.user_id, a.guild_id, a.moderator_id), (2, 1, 9));
    assert_eq!(a.reason, "noise");
}

#[test]
fn kicks_and_permanent_durations_never_expire() {
    let mut st = ActionStore::new();
    let k = st.add_action_to_user(2, 1, ActionType::Kick, "out".to_string(), 9, dur("1d"), 10).unwrap();
    assert_eq!(k.expiry, None);
    let b = st.add_action_to_user(2, 1, ActionType::Ban, "gone".to_string(), 9, dur("forever"), 10).unwrap();
    assert_eq!(b.expiry, None);
}

#[test]
fn add_rejects_overflowing_expiry() {
    let mut st = ActionStore::new();
    let r = st.add_action_to_user(2, 1, ActionType::Ban, "x".to_string(), 9, dur("99999999999999999999y"), 10);
    assert!(matches!(r, Err(StoreError::DurationTooLong)));
    assert!(st.get_actions_for_user(2, 1).is_empty());
}

#[test]
fn get_and_list_for_subject() {
    let mut st = ActionStore::new();
    st.add_action_to_user(2, 1, ActionType::Strike, "a".to_string(), 9, None, 0).unwrap();
    st.add_action_to_user(3, 1, ActionType::Strike, "b".to_string(), 9, None, 0).unwrap();
    st.add_action_to_user(2, 7, ActionType::Strike, "c".to_string(), 9, None, 0).unwrap();
    st.add_action_to_user(2, 1, ActionType::Kick, "d".to_string(), 9, None, 0).unwrap();
    let list = st.get_actions_for_user(2, 1);
    let reasons: Vec<&str> = list.iter().map(|a| a.reason.as_str()).collect();
    assert_eq!(reasons, vec!["a", "d"]);
    assert_eq!(st.get_action(1).unwrap().reason, "b");
    assert!(st.get_action(42).is_none());
}

#[test]
fn most_recent_action_of_moderator() {
    let mut st = ActionStore::new();
    assert!(st.get_recent_mod_action(1, 9).is_none());
    st.add_action_to_user(2, 1, ActionType::Strike, "first".to_string(), 9, None, 0).unwrap();
    st.add_action_to_user(3, 1, ActionType::Strike, "second".to_string(), 9, None, 0).unwrap();
    st.add_action_to_user(4, 1, ActionType::Strike, "other mod".to_string(), 8, None, 0).unwrap();
    st.add_action_to_user(5, 2, ActionType::Strike, "other guild".to_string(), 9, None, 0).unwrap();
    assert_eq!(st.get_recent_mod_action(1, 9).unwrap().reason, "second");
}

#[test]
fn update_reason_and_duration() {
    let mut st = ActionStore::new();
    let a = st.add_action_to_user(2, 1, ActionType::Ban, "old".to_string(), 9, dur("1d"), 100).unwrap();
    let u = st.update_action_reason(1, a.id, "new".to_string()).unwrap();
    assert_eq!(u.reason, "new");
    assert_eq!(st.get_action(a.id).unwrap().reason, "new");
    assert!(st.update_action_reason(5, a.id, "wrong guild".to_string()).is_none());
    let d = st.update_action_duration(1, a.id, Duration::new("2h".to_string()), 1_000).unwrap().unwrap();
    assert_eq!(d.expiry, Some(1_000 + 7_200));
    assert!(d.active);
    assert!(st.update_action_duration(1, 99, Duration::new("2h".to_string()), 0).unwrap().is_none());
    let e = st.update_action_duration(1, a.id, Duration::new("99999999999999999999y".to_string()), 0);
    assert!(matches!(e, Err(StoreError::DurationTooLong)));
}

#[test]
fn expire_is_idempotent_and_remove_is_permanent() {
    let mut st = ActionStore::new();
    let a = st.add_action_to_user(2, 1, ActionType::Mute, "m".to_string(), 9, dur("1h"), 0).unwrap();
    assert_eq!(st.expire_action(1, a.id), Ok(()));
    assert_eq!(st.expire_action(1, a.id), Ok(()));
    assert!(!st.get_action(a.id).unwrap().active);
    assert_eq!(st.expire_action(1, 77), Err(StoreError::NotFound));
    assert_eq!(st.remove_action(1, a.id), Ok(()));
    assert!(st.get_action(a.id).is_none());
    assert_eq!(st.remove_action(1, a.id), Err(StoreError::NotFound));
}

#[test]
fn drain_returns_due_records_once() {
    let mut st = ActionStore::new();
    st.add_action_to_user(2, 1, ActionType::Mute, "due".to_string(), 9, dur("10s"), 0).unwrap();
    st.add_action_to_user(3, 1, ActionType::Ban, "later".to_string(), 9, dur("1h"), 0).unwrap();
    st.add_action_to_user(4, 1, ActionType::Ban, "forever".to_string(), 9, None, 0).unwrap();
    let first = st.get_expired_actions(100);
    assert_eq!(first.len(), 1);
    assert_eq!(first[0].reason, "due");
    assert!(st.get_expired_actions(100).is_empty());
    let later = st.get_expired_actions(10_000);
    assert_eq!(later.len(), 1);
    assert_eq!(later[0].reason, "later");
    assert!(st.get_expired_actions(u64::MAX).is_empty());
}

#[test]
fn count_and_expire_latest_active() {
    let mut st = ActionStore::new();
    st.add_action_to_user(2, 1, ActionType::Ban, "one".to_string(), 9, None, 0).unwrap();
    st.add_action_to_user(2, 1, ActionType::Ban, "two".to_string(), 9, None, 0).unwrap();
    assert_eq!(st.count_active(2, 1, ActionType::Ban), 2);
    assert!(st.expire_latest_active(2, 1, ActionType::Ban));
    assert!(!st.get_action(1).unwrap().active);
    assert!(st.get_action(0).unwrap().active);
    assert_eq!(st.count_active(2, 1, ActionType::Ban), 1);
    assert!(!st.expire_latest_active(2, 1, ActionType::Mute));
}

#[test]
fn restore_puts_records_back_in_order() {
    let mut st = ActionStore::new();
    let kept = Action {
        id: 41,
        action_type: ActionType::Ban,
        guild_id: 1,
        user_id: 2,
        moderator_id: 9,
        reason: "kept".to_string(),
        active: false,
        expiry: Some(500),
    };
    assert_eq!(st.restore(kept.copy()), Ok(()));
    assert_eq!(st.get_action(41).unwrap().expiry, Some(500));
    assert_eq!(st.restore(kept.copy()), Err(StoreError::Conflict));
    let mut kick = kept.copy();
    kick.id = 50;
    kick.action_type = ActionType::Kick;
    assert_eq!(st.restore(kick), Err(StoreError::Conflict));
    let next = st.add_action_to_user(2, 1, ActionType::Strike, "new".to_string(), 9, None, 0).unwrap();
    assert_eq!(next.id, 42);
}
