use std::collections::HashMap;

use reaper::model::{ActionType, Guild, GuildConfig, ModerationConfig};
use reaper::moderation::{CommandError, Handler};
use reaper::policy::find_violation;

fn config(words: Vec<&str>, patterns: Vec<&str>) -> ModerationConfig {
    ModerationConfig {
        mute_role: 5,
        strike_escalations: HashMap::new(),
        blacklisted_words: words.into_iter().map(String::from).collect(),
        blacklisted_regex: patterns.into_iter().map(String::from).collect(),
        default_strike_duration: "30d".to_string(),
    }
}

#[test]
fn word_is_found_in_lowercased_text() {
    let mc = config(vec!["darn"], vec![]);
    assert_eq!(find_violation(&"Well DARN it".to_string(), &mc), Some("Blacklisted word: \"darn\"".to_string()));
    assert_eq!(find_violation(&"all fine".to_string(), &mc), None);
}

#[test]
fn first_listed_word_names_the_reason() {
    let mc = config(vec!["zzz", "bad", "worse"], vec![]);
    assert_eq!(
        find_violation(&"worse and bad".to_string(), &mc),
        Some("Blacklisted word: \"bad\"".to_string())
    );
}

#[test]
fn pattern_match_wins_over_word() {
    let mc = config(vec!["bad"], vec!["[0-9]{4}"]);
    assert_eq!(
        find_violation(&"bad 1234".to_string(), &mc),
        Some("Blacklisted regex: \"[0-9]{4}\"".to_string())
    );
    assert_eq!(find_violation(&"bad 12".to_string(), &mc), Some("Blacklisted word: \"bad\"".to_string()));
}

#[test]
fn invalid_pattern_is_skipped() {
    let mc = config(vec![], vec!["foo(bar", "b.r"]);
    assert_eq!(find_violation(&"a bar".to_string(), &mc), Some("Blacklisted regex: \"b.r\"".to_string()));
    assert_eq!(find_violation(&"foo(bar".to_string(), &config(vec![], vec!["foo(bar"])), None);
}

#[test]
fn pattern_sees_case_as_written() {
    let mc = config(vec![], vec!["^Hello"]);
    assert!(find_violation(&"Hello there".to_string(), &mc).is_some());
    assert!(find_violation(&"hello there".to_string(), &mc).is_none());
}

#[test]
fn violating_message_earns_a_strike() {
    let g = Guild { id: 1, config: GuildConfig { logging: None, moderation: Some(config(vec!["darn"], vec![])) } };
    let mut h = Handler::new(1000);
    let o = h.on_message(&g, 8, &"DARN".to_string(), 100).unwrap().unwrap();
    assert_eq!(o.action.action_type, ActionType::Strike);
    assert_eq!(o.action.moderator_id, 1000);
    assert_eq!(o.action.reason, "Blacklisted word: \"darn\"");
    assert_eq!(o.action.expiry, Some(100 + 30 * 86_400));
    assert!(h.on_message(&g, 8, &"fine".to_string(), 100).unwrap().is_none());
    assert!(h.on_message(&Guild::new(1), 8, &"darn".to_string(), 100).unwrap().is_none());
    assert!(matches!(h.on_message(&g, 1000, &"darn".to_string(), 100), Err(CommandError::SelfTarget)));
    assert_eq!(h.actions.get_actions_for_user(8, 1).len(), 1);
}
