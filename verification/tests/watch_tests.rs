use beeper_automations::models::{
    AutomationType, LoopConfig, LoopUntil, NotificationAutomation,
};
use beeper_automations::watch::{
    immediate_watch_chat, loop_watch_chat, prune_cache, ChatInfo, MessageInfo, WatchCache,
};

fn msg(id: &str, key: &str) -> MessageInfo {
    MessageInfo { id: id.to_string(), sort_key: key.to_string(), is_sender: None }
}

fn chat(id: &str, unread: u32) -> ChatInfo {
    ChatInfo { id: id.to_string(), display_name: id.to_string(), unread_count: unread }
}

fn loop_rule(id: &str, chats: Vec<&str>, until: LoopUntil, time: Option<u64>) -> NotificationAutomation {
    NotificationAutomation {
        id: id.to_string(),
        name: id.to_string(),
        chat_ids: chats.into_iter().map(|c| c.to_string()).collect(),
        automation_type: AutomationType::Loop,
        notification_sound: Some("ding.wav".to_string()),
        focus_chat: true,
        loop_config: Some(LoopConfig { until, time, check_interval: 3000 }),
        enabled: true,
        ntfy_config: None,
    }
}

fn immediate_rule(id: &str, chats: Vec<&str>, sound: Option<&str>) -> NotificationAutomation {
    NotificationAutomation {
        id: id.to_string(),
        name: id.to_string(),
        chat_ids: chats.into_iter().map(|c| c.to_string()).collect(),
        automation_type: AutomationType::Immediate,
        notification_sound: sound.map(|s| s.to_string()),
        focus_chat: false,
        loop_config: None,
        enabled: true,
        ntfy_config: None,
    }
}

#[test]
fn first_observation_is_silent_for_immediate() {
    let mut cache = WatchCache::new();
    let rules = vec![immediate_rule("r1", vec!["c1"], Some("ding.wav"))];
    let out = immediate_watch_chat(&mut cache, &"c1".to_string(), &msg("m1", "10"), &rules);
    assert!(!out.is_new_message);
    assert!(out.effects.is_empty());
}

#[test]
fn first_observation_is_silent_for_timed_loop() {
    let mut cache = WatchCache::new();
    let rule = loop_rule("r1", vec!["c1"], LoopUntil::ForATime, Some(1000));
    let chats = vec![chat("c1", 7)];
    let out = loop_watch_chat(&mut cache, &"c1".to_string(), &msg("m1", "10"), &chats, &rule, 5000);
    assert!(!out.is_new_message);
    assert!(!out.should_notify);
}

#[test]
fn message_seen_follows_unread_count() {
    let mut cache = WatchCache::new();
    let rule = loop_rule("r1", vec!["c1"], LoopUntil::MessageSeen, None);
    let c1 = "c1".to_string();
    let m = msg("m1", "10");

    // unread 0 -> 3 -> 0 yields notify false, true, false
    let out0 = loop_watch_chat(&mut cache, &c1, &m, &vec![chat("c1", 0)], &rule, 0);
    assert!(!out0.should_notify);
    let out1 = loop_watch_chat(&mut cache, &c1, &m, &vec![chat("c1", 3)], &rule, 0);
    assert!(out1.should_notify);
    assert!(out1.focus);
    assert_eq!(out1.sound.as_deref(), Some("ding.wav"));
    let out2 = loop_watch_chat(&mut cache, &c1, &m, &vec![chat("c1", 0)], &rule, 0);
    assert!(!out2.should_notify);
    assert!(out2.sound.is_none());
}

#[test]
fn for_a_time_window_opens_counts_down_and_stays_shut() {
    let mut cache = WatchCache::new();
    let rule = loop_rule("r1", vec!["c1"], LoopUntil::ForATime, Some(1000));
    let c1 = "c1".to_string();
    let chats = vec![chat("c1", 1)];

    // seed
    loop_watch_chat(&mut cache, &c1, &msg("m1", "10"), &chats, &rule, 5000);
    // a new message opens the window
    let opened = loop_watch_chat(&mut cache, &c1, &msg("m2", "20"), &chats, &rule, 5000);
    assert!(opened.is_new_message);
    assert!(opened.should_notify);
    // still inside the limit
    let inside = loop_watch_chat(&mut cache, &c1, &msg("m2", "20"), &chats, &rule, 5999);
    assert!(inside.should_notify);
    // the limit is reached: the window closes
    let expired = loop_watch_chat(&mut cache, &c1, &msg("m2", "20"), &chats, &rule, 6000);
    assert!(!expired.should_notify);
    // and does not reopen without another new message
    let after = loop_watch_chat(&mut cache, &c1, &msg("m2", "20"), &chats, &rule, 6001);
    assert!(!after.should_notify);
    // another new message reopens it
    let reopened = loop_watch_chat(&mut cache, &c1, &msg("m3", "30"), &chats, &rule, 7000);
    assert!(reopened.should_notify);
}

#[test]
fn answer_rule_follows_sender_attribution() {
    let mut cache = WatchCache::new();
    let rule = loop_rule("r1", vec!["c1"], LoopUntil::Answer, None);
    let c1 = "c1".to_string();
    let chats = vec![chat("c1", 0)];

    let mut from_them = msg("m1", "10");
    from_them.is_sender = Some(false);
    let out = loop_watch_chat(&mut cache, &c1, &from_them, &chats, &rule, 0);
    assert!(out.should_notify);

    let mut from_me = msg("m1", "10");
    from_me.is_sender = Some(true);
    let out = loop_watch_chat(&mut cache, &c1, &from_me, &chats, &rule, 0);
    assert!(!out.should_notify);

    // attribution unavailable: fall back to the unread count
    let out = loop_watch_chat(&mut cache, &c1, &msg("m1", "10"), &vec![chat("c1", 2)], &rule, 0);
    assert!(out.should_notify);
}

#[test]
fn chat_absent_from_listing_is_skipped() {
    let mut cache = WatchCache::new();
    let rule = loop_rule("r1", vec!["c1"], LoopUntil::MessageSeen, None);
    let out = loop_watch_chat(&mut cache, &"c1".to_string(), &msg("m1", "10"), &vec![], &rule, 0);
    assert!(!out.should_notify);
}

#[test]
fn two_immediate_rules_fire_once_each() {
    let mut cache = WatchCache::new();
    let rules = vec![
        immediate_rule("r1", vec!["c1"], Some("one.wav")),
        immediate_rule("r2", vec!["c1", "c2"], Some("two.wav")),
    ];
    let c1 = "c1".to_string();

    // seed silently
    let seeded = immediate_watch_chat(&mut cache, &c1, &msg("m1", "10"), &rules);
    assert!(seeded.effects.is_empty());

    // one new message: both rules fire exactly once
    let fired = immediate_watch_chat(&mut cache, &c1, &msg("m2", "20"), &rules);
    assert!(fired.is_new_message);
    assert_eq!(fired.effects.len(), 2);
    assert_eq!(fired.effects[0].automation_id, "r1");
    assert_eq!(fired.effects[0].sound.as_deref(), Some("one.wav"));
    assert_eq!(fired.effects[1].automation_id, "r2");

    // the same newest message again: nothing fires
    let again = immediate_watch_chat(&mut cache, &c1, &msg("m2", "20"), &rules);
    assert!(!again.is_new_message);
    assert!(again.effects.is_empty());
}

#[test]
fn older_message_neither_fires_nor_touches_cache() {
    let mut cache = WatchCache::new();
    let rules = vec![immediate_rule("r1", vec!["c1"], None)];
    let c1 = "c1".to_string();
    immediate_watch_chat(&mut cache, &c1, &msg("m2", "20"), &rules);
    let out = immediate_watch_chat(&mut cache, &c1, &msg("m1", "10"), &rules);
    assert!(!out.is_new_message);
    assert!(out.effects.is_empty());
}

#[test]
fn empty_sound_path_plays_nothing() {
    let mut cache = WatchCache::new();
    let rules = vec![immediate_rule("r1", vec!["c1"], Some(""))];
    let c1 = "c1".to_string();
    immediate_watch_chat(&mut cache, &c1, &msg("m1", "10"), &rules);
    let fired = immediate_watch_chat(&mut cache, &c1, &msg("m2", "20"), &rules);
    assert_eq!(fired.effects.len(), 1);
    assert!(fired.effects[0].sound.is_none());
}

#[test]
fn disabled_and_malformed_immediate_rules_do_not_fire() {
    let mut cache = WatchCache::new();
    let mut off = immediate_rule("r1", vec!["c1"], None);
    off.enabled = false;
    let mut bad = immediate_rule("r2", vec!["c1"], None);
    bad.loop_config = Some(LoopConfig {
        until: LoopUntil::MessageSeen,
        time: None,
        check_interval: 3000,
    });
    let rules = vec![off, bad, immediate_rule("r3", vec!["c1"], None)];
    let c1 = "c1".to_string();
    immediate_watch_chat(&mut cache, &c1, &msg("m1", "10"), &rules);
    let fired = immediate_watch_chat(&mut cache, &c1, &msg("m2", "20"), &rules);
    assert_eq!(fired.effects.len(), 1);
    assert_eq!(fired.effects[0].automation_id, "r3");
}

#[test]
fn prune_cache_keeps_only_watched_chats() {
    let mut cache = WatchCache::new();
    let rules = vec![immediate_rule("r1", vec!["c1", "c2"], None)];
    immediate_watch_chat(&mut cache, &"c1".to_string(), &msg("m1", "10"), &rules);
    immediate_watch_chat(&mut cache, &"c2".to_string(), &msg("m2", "20"), &rules);
    prune_cache(&mut cache, &vec!["c2".to_string()]);
    assert!(cache.get("c1").is_none());
    assert!(cache.get("c2").is_some());
    assert_eq!(cache.get("c2").unwrap().last_sort_key, "20");
}
