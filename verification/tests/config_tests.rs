use beeper_automations::config::Config;
use beeper_automations::models::{
    default_check_interval, default_priority, AutomationType, LoopConfig, LoopUntil,
    NotificationAutomation, NtfyConfig,
};

#[test]
fn test_default_config() {
    let config = Config::default();
    assert_eq!(config.api.url, "http://localhost:23373");
    assert!(config.api.token.is_empty());
}

#[test]
fn test_is_api_configured() {
    let mut config = Config::default();
    assert!(!config.is_api_configured());

    config.api.token = "test-token".to_string();
    assert!(config.is_api_configured());
}

#[test]
fn api_changed_detects_endpoint_moves() {
    let a = Config::default();
    let mut b = Config::default();
    assert!(!a.api_changed(&b));
    b.api.token = "t".to_string();
    assert!(a.api_changed(&b));
}

#[test]
fn enabled_count_counts_only_enabled() {
    let mut config = Config::default();
    let mut on = NotificationAutomation::new("a".to_string(), "A".to_string(), vec![]);
    on.enabled = true;
    let mut off = NotificationAutomation::new("b".to_string(), "B".to_string(), vec![]);
    off.enabled = false;
    config.notifications.automations = vec![on, off];
    assert_eq!(config.enabled_count(), 1);
}

#[test]
fn ntfy_defaults() {
    let n = NtfyConfig::default();
    assert!(!n.enabled);
    assert_eq!(n.priority, default_priority());
    assert_eq!(default_check_interval(), 3000);
    assert_eq!(n.message, "New message from {sender} in {chat_name}");
}

#[test]
fn rule_well_formedness() {
    let mut r = NotificationAutomation::new("a".to_string(), "A".to_string(), vec![]);
    assert!(r.check_well_formed());

    // an immediate rule must not carry a loop policy
    r.loop_config = Some(LoopConfig {
        until: LoopUntil::MessageSeen,
        time: None,
        check_interval: 3000,
    });
    assert!(!r.check_well_formed());

    // a loop rule must carry one
    r.automation_type = AutomationType::Loop;
    assert!(r.check_well_formed());
    r.loop_config = None;
    assert!(!r.check_well_formed());

    // a timed policy must carry its limit
    r.loop_config = Some(LoopConfig {
        until: LoopUntil::ForATime,
        time: None,
        check_interval: 3000,
    });
    assert!(!r.check_well_formed());
    r.loop_config = Some(LoopConfig {
        until: LoopUntil::ForATime,
        time: Some(1000),
        check_interval: 3000,
    });
    assert!(r.check_well_formed());
}

#[test]
fn type_labels() {
    assert_eq!(AutomationType::Loop.label(), "Loop");
    assert_eq!(AutomationType::Immediate.label(), "Immediate");
    assert_eq!(LoopUntil::MessageSeen.label(), "Message Seen");
    assert_eq!(LoopUntil::Answer.label(), "Answer");
    assert_eq!(LoopUntil::ForATime.label(), "For A Time");
}

#[test]
fn rule_duplicate_matches() {
    let mut r = NotificationAutomation::new(
        "id-1".to_string(),
        "Name".to_string(),
        vec!["c1".to_string(), "c2".to_string()],
    );
    r.notification_sound = Some("ding.wav".to_string());
    let copy = r.duplicate();
    assert_eq!(copy.id, r.id);
    assert_eq!(copy.chat_ids, r.chat_ids);
    assert_eq!(copy.notification_sound, r.notification_sound);
    assert_eq!(copy.enabled, r.enabled);
}
