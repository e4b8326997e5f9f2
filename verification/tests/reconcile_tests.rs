use beeper_automations::models::{
    AutomationType, LoopConfig, LoopUntil, NotificationAutomation,
};
use beeper_automations::reconcile::{reconcile, ImmediateAction};

fn rule(id: &str, kind: AutomationType, chats: Vec<&str>) -> NotificationAutomation {
    NotificationAutomation {
        id: id.to_string(),
        name: id.to_string(),
        chat_ids: chats.into_iter().map(|c| c.to_string()).collect(),
        automation_type: kind,
        notification_sound: None,
        focus_chat: false,
        loop_config: match kind {
            AutomationType::Loop => Some(LoopConfig {
                until: LoopUntil::MessageSeen,
                time: None,
                check_interval: 3000,
            }),
            AutomationType::Immediate => None,
        },
        enabled: true,
        ntfy_config: None,
    }
}

#[test]
fn fresh_rules_start_and_removed_rules_stop() {
    let rules = vec![rule("a", AutomationType::Loop, vec!["c1"])];
    let plan = reconcile(&vec!["gone".to_string()], &rules, false);
    assert_eq!(plan.to_stop, vec!["gone".to_string()]);
    assert_eq!(plan.to_start, vec!["a".to_string()]);
    assert!(plan.to_restart.is_empty());
    assert!(matches!(plan.immediate, ImmediateAction::Keep));
    assert_eq!(plan.applied_ids, vec!["a".to_string()]);
    assert_eq!(plan.tracked_chats, vec!["c1".to_string()]);
}

#[test]
fn unchanged_snapshot_stops_and_starts_nothing() {
    let rules = vec![
        rule("a", AutomationType::Loop, vec!["c1"]),
        rule("b", AutomationType::Immediate, vec!["c2"]),
    ];
    let first = reconcile(&vec![], &rules, false);
    assert!(first.to_stop.is_empty());
    assert_eq!(first.to_start, vec!["a".to_string()]);

    // reconcile again with the applied ids: nothing stops, nothing fresh
    // starts; the surviving loop rule is conservatively restarted
    let second = reconcile(&first.applied_ids, &rules, true);
    assert!(second.to_stop.is_empty());
    assert!(second.to_start.is_empty());
    assert_eq!(second.to_restart, vec!["a".to_string()]);
    match &second.immediate {
        ImmediateAction::Replace(u) => assert_eq!(u, &vec!["c2".to_string()]),
        _ => panic!("the immediate watcher stays scoped to c2"),
    }
}

#[test]
fn loop_removed_and_immediate_added() {
    // rule A (Loop, chats=[c1]) is removed and rule B (Immediate,
    // chats=[c1, c2]) is added: A's watcher stops and the immediate
    // watcher starts scoped to {c1, c2}
    let rules = vec![rule("B", AutomationType::Immediate, vec!["c1", "c2"])];
    let plan = reconcile(&vec!["A".to_string()], &rules, false);
    assert_eq!(plan.to_stop, vec!["A".to_string()]);
    assert!(plan.to_restart.is_empty());
    assert!(plan.to_start.is_empty());
    match &plan.immediate {
        ImmediateAction::Replace(u) => {
            assert_eq!(u, &vec!["c1".to_string(), "c2".to_string()]);
        },
        _ => panic!("the immediate watcher must be started"),
    }
}

#[test]
fn immediate_union_deduplicates_chats() {
    let rules = vec![
        rule("a", AutomationType::Immediate, vec!["c1", "c2"]),
        rule("b", AutomationType::Immediate, vec!["c2", "c3"]),
    ];
    let plan = reconcile(&vec![], &rules, false);
    match &plan.immediate {
        ImmediateAction::Replace(u) => {
            assert_eq!(u, &vec!["c1".to_string(), "c2".to_string(), "c3".to_string()]);
        },
        _ => panic!("the immediate watcher must be started"),
    }
}

#[test]
fn immediate_watcher_stops_when_union_empties() {
    let rules = vec![rule("a", AutomationType::Loop, vec!["c1"])];
    let plan = reconcile(&vec!["a".to_string()], &rules, true);
    assert!(matches!(plan.immediate, ImmediateAction::Stop));
}

#[test]
fn malformed_rule_is_skipped_without_blocking_others() {
    let mut bad = rule("bad", AutomationType::Loop, vec!["c9"]);
    bad.loop_config = None;
    let rules = vec![bad, rule("good", AutomationType::Loop, vec!["c1"])];
    let plan = reconcile(&vec![], &rules, false);
    assert_eq!(plan.skipped, vec!["bad".to_string()]);
    assert_eq!(plan.to_start, vec!["good".to_string()]);
    assert!(plan.to_stop.is_empty());
    // the malformed rule's chats are not tracked either
    assert_eq!(plan.tracked_chats, vec!["c1".to_string()]);
}

#[test]
fn disabled_rules_take_no_part() {
    let mut off = rule("off", AutomationType::Loop, vec!["c1"]);
    off.enabled = false;
    let plan = reconcile(&vec!["off".to_string()], &vec![off], false);
    // a disabled rule is no longer active: its watcher stops
    assert_eq!(plan.to_stop, vec!["off".to_string()]);
    assert!(plan.to_start.is_empty());
    assert!(plan.skipped.is_empty());
}
