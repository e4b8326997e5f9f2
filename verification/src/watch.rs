//! The per-chat watch cache and the notify-condition machine.
//!
//! Watchers poll the remote chat client and hand each observation — the
//! newest message of a chat, the chat listing, the current time — to the
//! functions here, which decide whether to notify and how the cache
//! changes. A chat id seen for the first time only seeds the cache; a
//! message counts as new exactly when its sort key compares greater than
//! the cached one.

use vstd::prelude::*;
use vstd::hash_map::StringHashMap;

use crate::models::{AutomationType, LoopConfig, LoopUntil, NotificationAutomation};
use crate::text::{seq_lt, str_lt, str_seq_contains, contains_id, lemma_push_contains};

verus! {

/// What a watcher reads of a message: its id, its totally ordered sort
/// key, and whether the local user wrote it (when the client knows).
#[derive(Debug, Clone)]
pub struct MessageInfo {
    pub id: String,
    pub sort_key: String,
    pub is_sender: Option<bool>,
}

/// What a watcher reads of a chat listing entry.
#[derive(Debug, Clone)]
pub struct ChatInfo {
    pub id: String,
    pub display_name: String,
    pub unread_count: u32,
}

/// Per-chat memory: the last seen message and, under a `ForATime` policy,
/// when the current notify window opened (milliseconds on the caller's
/// clock).
#[derive(Debug)]
pub struct ChatWatchState {
    pub last_message_id: String,
    pub last_sort_key: String,
    pub notify_window_started_at: Option<u64>,
}

impl ChatWatchState {
    /// A field-for-field copy.
    pub fn duplicate(&self) -> (r: Self)
        ensures
            r == *self,
    {
        ChatWatchState {
            last_message_id: self.last_message_id.clone(),
            last_sort_key: self.last_sort_key.clone(),
            notify_window_started_at: self.notify_window_started_at,
        }
    }
}

/// The watch cache: per-chat memory keyed by chat id. Its view is the
/// map from chat ids to their entries.
pub struct WatchCache {
    entries: StringHashMap<ChatWatchState>,
}

impl View for WatchCache {
    type V = Map<Seq<char>, ChatWatchState>;

    closed spec fn view(&self) -> Map<Seq<char>, ChatWatchState> {
        self.entries@
    }
}

impl WatchCache {
    /// An empty cache.
    pub fn new() -> (r: Self)
        ensures
            r@ == Map::<Seq<char>, ChatWatchState>::empty(),
    {
        WatchCache { entries: StringHashMap::new() }
    }

    /// The entry for a chat, if one is present.
    pub fn get(&self, chat_id: &str) -> (r: Option<&ChatWatchState>)
        ensures
            match r {
                Some(e) => self@.contains_key(chat_id@) && *e == self@[chat_id@],
                None => !self@.contains_key(chat_id@),
            },
    {
        self.entries.get(chat_id)
    }
}

/// The cache entry for `k`, if one is present.
pub open spec fn cache_lookup(m: Map<Seq<char>, ChatWatchState>, k: Seq<char>) -> Option<
    ChatWatchState,
> {
    if m.contains_key(k) {
        Some(m[k])
    } else {
        None
    }
}

/// A message is new exactly when a cached sort key exists and compares
/// strictly less than the newest one. A first observation is never new.
pub open spec fn spec_is_new(prior: Option<ChatWatchState>, latest_key: Seq<char>) -> bool {
    match prior {
        Some(e) => seq_lt(e.last_sort_key@, latest_key),
        None => false,
    }
}

/// Milliseconds elapsed since `start`, zero if the clock moved backwards.
pub open spec fn elapsed_ms(now: u64, start: u64) -> nat {
    if now >= start {
        (now - start) as nat
    } else {
        0
    }
}

/// The cache entry after the new-message check, before any window expiry:
/// a first observation seeds the cache with a closed window; a new message
/// records the newest id and key and opens a window under `ForATime`; an
/// old message leaves the entry as it was.
pub open spec fn observed_entry(
    prior: Option<ChatWatchState>,
    latest: MessageInfo,
    until: LoopUntil,
    now: u64,
) -> ChatWatchState {
    match prior {
        None => ChatWatchState {
            last_message_id: latest.id,
            last_sort_key: latest.sort_key,
            notify_window_started_at: None,
        },
        Some(e) => if spec_is_new(Some(e), latest.sort_key@) {
            ChatWatchState {
                last_message_id: latest.id,
                last_sort_key: latest.sort_key,
                notify_window_started_at: if until == LoopUntil::ForATime {
                    Some(now)
                } else {
                    None
                },
            }
        } else {
            e
        },
    }
}

/// Whether an open window has used up the time limit.
pub open spec fn window_expired(window: Option<u64>, limit: u64, now: u64) -> bool {
    match window {
        Some(start) => elapsed_ms(now, start) >= limit,
        None => false,
    }
}

/// The cache entry a loop-watcher step leaves behind: the observed entry,
/// with the window cleared when the chat was listed and its `ForATime`
/// window has expired.
pub open spec fn loop_entry_after(
    prior: Option<ChatWatchState>,
    latest: MessageInfo,
    policy: LoopConfig,
    chat_found: bool,
    now: u64,
) -> ChatWatchState {
    let e = observed_entry(prior, latest, policy.until, now);
    if chat_found && policy.until == LoopUntil::ForATime && window_expired(
        e.notify_window_started_at,
        policy.time->Some_0,
        now,
    ) {
        ChatWatchState {
            last_message_id: e.last_message_id,
            last_sort_key: e.last_sort_key,
            notify_window_started_at: None,
        }
    } else {
        e
    }
}

/// Whether a loop-watcher step notifies. A chat absent from the listing is
/// skipped. `MessageSeen` notifies while the unread count is positive;
/// `Answer` notifies while the newest message is not the local user's,
/// falling back to the unread count when attribution is unavailable;
/// `ForATime` notifies while a window is open and strictly inside the time
/// limit.
pub open spec fn spec_loop_notify(
    prior: Option<ChatWatchState>,
    latest: MessageInfo,
    policy: LoopConfig,
    chat_found: bool,
    unread: u32,
    now: u64,
) -> bool {
    if !chat_found {
        false
    } else {
        match policy.until {
            LoopUntil::MessageSeen => unread > 0,
            LoopUntil::Answer => match latest.is_sender {
                Some(s) => !s,
                None => unread > 0,
            },
            LoopUntil::ForATime => {
                let e = observed_entry(prior, latest, policy.until, now);
                match e.notify_window_started_at {
                    Some(start) => elapsed_ms(now, start) < policy.time->Some_0,
                    None => false,
                }
            },
        }
    }
}

/// A sound effect is produced only for a configured, non-empty path.
pub open spec fn spec_sound_of(sound: Option<String>) -> Option<String> {
    match sound {
        Some(p) => if p@.len() > 0 {
            Some(p)
        } else {
            None
        },
        None => None,
    }
}

/// The unread count of the first listing entry whose id is `id`.
pub open spec fn first_chat_unread(chats: Seq<ChatInfo>, id: Seq<char>) -> Option<u32>
    decreases chats.len(),
{
    if chats.len() == 0 {
        None
    } else if chats[0].id@ == id {
        Some(chats[0].unread_count)
    } else {
        first_chat_unread(chats.skip(1), id)
    }
}

/// Finds the chat in the listing and reads its unread count.
pub fn find_unread(chats: &Vec<ChatInfo>, chat_id: &String) -> (r: Option<u32>)
    ensures
        r == first_chat_unread(chats@, chat_id@),
{
    let mut i: usize = 0;
    proof {
        assert(chats@.skip(0) =~= chats@);
    }
    loop
        invariant
            i <= chats@.len(),
            first_chat_unread(chats@, chat_id@) == first_chat_unread(
                chats@.skip(i as int),
                chat_id@,
            ),
        decreases chats@.len() - i,
    {
        if i >= chats.len() {
            return None;
        }
        if chats[i].id == *chat_id {
            return Some(chats[i].unread_count);
        }
        proof {
            assert(chats@.skip(i as int).skip(1) =~= chats@.skip(i + 1 as int));
        }
        i += 1;
    }
}

/// What one loop-watcher observation decided.
#[derive(Debug, Clone)]
pub struct LoopOutcome {
    pub is_new_message: bool,
    pub should_notify: bool,
    pub focus: bool,
    pub sound: Option<String>,
}

/// One loop-watcher step for one chat: updates the chat's cache entry from
/// the newest message and decides whether the rule's effects fire.
///
/// The caller skips chats whose message page came back empty, and hands in
/// the chat listing and its clock reading in milliseconds.
pub fn loop_watch_chat(
    cache: &mut WatchCache,
    chat_id: &String,
    latest: &MessageInfo,
    chats: &Vec<ChatInfo>,
    rule: &NotificationAutomation,
    now_ms: u64,
) -> (o: LoopOutcome)
    requires
        rule.automation_type == AutomationType::Loop,
        rule.is_well_formed(),
    ensures
        ({
            let prior = cache_lookup(old(cache)@, chat_id@);
            let policy = rule.loop_config->Some_0;
            let found = first_chat_unread(chats@, chat_id@);
            let unread = if found is Some {
                found->Some_0
            } else {
                0
            };
            &&& final(cache)@ == old(cache)@.insert(
                chat_id@,
                loop_entry_after(prior, *latest, policy, found is Some, now_ms),
            )
            &&& o.is_new_message == spec_is_new(prior, latest.sort_key@)
            &&& o.should_notify == spec_loop_notify(
                prior,
                *latest,
                policy,
                found is Some,
                unread,
                now_ms,
            )
            &&& o.focus == (o.should_notify && rule.focus_chat)
            &&& o.sound == if o.should_notify {
                spec_sound_of(rule.notification_sound)
            } else {
                None::<String>
            }
        }),
{
    let (until, time_limit): (LoopUntil, Option<u64>) = match &rule.loop_config {
        Some(lc) => (lc.until, lc.time),
        None => (LoopUntil::MessageSeen, None),  // unreachable: the rule is well formed
    };
    let prior: Option<ChatWatchState> = match cache.entries.get(chat_id.as_str()) {
        Some(e) => Some(e.duplicate()),
        None => None,
    };
    let is_new = match &prior {
        Some(e) => str_lt(e.last_sort_key.as_str(), latest.sort_key.as_str()),
        None => false,
    };
    let mut entry: ChatWatchState = match prior {
        None => ChatWatchState {
            last_message_id: latest.id.clone(),
            last_sort_key: latest.sort_key.clone(),
            notify_window_started_at: None,
        },
        Some(e) => if is_new {
            ChatWatchState {
                last_message_id: latest.id.clone(),
                last_sort_key: latest.sort_key.clone(),
                notify_window_started_at: if until == LoopUntil::ForATime {
                    Some(now_ms)
                } else {
                    None
                },
            }
        } else {
            e
        },
    };
    let unread_found = find_unread(chats, chat_id);
    let mut should_notify = false;
    if let Some(unread) = unread_found {
        match until {
            LoopUntil::MessageSeen => {
                should_notify = unread > 0;
            },
            LoopUntil::Answer => {
                should_notify = match latest.is_sender {
                    Some(s) => !s,
                    None => unread > 0,
                };
            },
            LoopUntil::ForATime => {
                match entry.notify_window_started_at {
                    Some(start) => {
                        let limit = match time_limit {
                            Some(l) => l,
                            None => 0,  // unreachable: the rule is well formed
                        };
                        let elapsed = if now_ms >= start {
                            now_ms - start
                        } else {
                            0
                        };
                        if elapsed >= limit {
                            entry.notify_window_started_at = None;
                        } else {
                            should_notify = true;
                        }
                    },
                    None => {},
                }
            },
        }
    }
    cache.entries.insert(chat_id.clone(), entry);
    let focus = should_notify && rule.focus_chat;
    let sound: Option<String> = if should_notify {
        match &rule.notification_sound {
            Some(p) => if !p.as_str().is_empty() {
                Some(p.clone())
            } else {
                None
            },
            None => None,
        }
    } else {
        None
    };
    LoopOutcome { is_new_message: is_new, should_notify, focus, sound }
}

/// The entry recorded after seeding on, or consuming, the newest message:
/// its id and sort key, with no open window.
pub open spec fn refreshed_entry(latest: MessageInfo) -> ChatWatchState {
    ChatWatchState {
        last_message_id: latest.id,
        last_sort_key: latest.sort_key,
        notify_window_started_at: None,
    }
}

/// The one-shot effects one rule asks for.
#[derive(Debug, Clone)]
pub struct NotifyEffect {
    pub automation_id: String,
    pub focus: bool,
    pub sound: Option<String>,
}

/// Whether a rule fires for a new message in `chat`: it is enabled, well
/// formed, immediate, and covers the chat.
pub open spec fn immediate_fires(r: NotificationAutomation, chat: Seq<char>) -> bool {
    &&& r.enabled
    &&& r.automation_type == AutomationType::Immediate
    &&& r.is_well_formed()
    &&& str_seq_contains(r.chat_ids@, chat)
}

/// The effect a firing rule asks for.
pub open spec fn effect_of(r: NotificationAutomation) -> NotifyEffect {
    NotifyEffect {
        automation_id: r.id,
        focus: r.focus_chat,
        sound: spec_sound_of(r.notification_sound),
    }
}

/// One effect per firing rule, in rule order.
pub open spec fn immediate_effects(rules: Seq<NotificationAutomation>, chat: Seq<char>) -> Seq<
    NotifyEffect,
>
    decreases rules.len(),
{
    if rules.len() == 0 {
        Seq::empty()
    } else if immediate_fires(rules.last(), chat) {
        immediate_effects(rules.drop_last(), chat).push(effect_of(rules.last()))
    } else {
        immediate_effects(rules.drop_last(), chat)
    }
}

/// What one immediate-watcher observation decided.
#[derive(Debug)]
pub struct ImmediateOutcome {
    pub is_new_message: bool,
    pub effects: Vec<NotifyEffect>,
}

/// One immediate-watcher step for one chat: a first observation seeds the
/// cache silently; a new message updates the cache and fires one effect
/// per enabled immediate rule covering the chat; anything else changes
/// nothing.
pub fn immediate_watch_chat(
    cache: &mut WatchCache,
    chat_id: &String,
    latest: &MessageInfo,
    automations: &Vec<NotificationAutomation>,
) -> (o: ImmediateOutcome)
    ensures
        ({
            let prior = cache_lookup(old(cache)@, chat_id@);
            &&& o.is_new_message == spec_is_new(prior, latest.sort_key@)
            &&& final(cache)@ == if prior is None || o.is_new_message {
                old(cache)@.insert(chat_id@, refreshed_entry(*latest))
            } else {
                old(cache)@
            }
            &&& o.effects@ == if o.is_new_message {
                immediate_effects(automations@, chat_id@)
            } else {
                Seq::<NotifyEffect>::empty()
            }
        }),
{
    let prior: Option<ChatWatchState> = match cache.entries.get(chat_id.as_str()) {
        Some(e) => Some(e.duplicate()),
        None => None,
    };
    let is_new = match &prior {
        Some(e) => str_lt(e.last_sort_key.as_str(), latest.sort_key.as_str()),
        None => false,
    };
    if prior.is_none() || is_new {
        cache.entries.insert(
            chat_id.clone(),
            ChatWatchState {
                last_message_id: latest.id.clone(),
                last_sort_key: latest.sort_key.clone(),
                notify_window_started_at: None,
            },
        );
    }
    let mut effects: Vec<NotifyEffect> = Vec::new();
    if is_new {
        let mut i: usize = 0;
        while i < automations.len()
            invariant
                i <= automations@.len(),
                effects@ == immediate_effects(automations@.take(i as int), chat_id@),
            decreases automations@.len() - i,
        {
            let a = &automations[i];
            if a.enabled && a.automation_type == AutomationType::Immediate && a.check_well_formed()
                && contains_id(&a.chat_ids, chat_id) {
                let sound: Option<String> = match &a.notification_sound {
                    Some(p) => if !p.as_str().is_empty() {
                        Some(p.clone())
                    } else {
                        None
                    },
                    None => None,
                };
                effects.push(NotifyEffect { automation_id: a.id.clone(), focus: a.focus_chat, sound });
            }
            proof {
                assert(automations@.take(i + 1 as int).drop_last() =~= automations@.take(i as int));
                assert(automations@.take(i + 1 as int).last() == automations@[i as int]);
            }
            i += 1;
        }
        proof {
            assert(automations@.take(automations@.len() as int) =~= automations@);
        }
    }
    ImmediateOutcome { is_new_message: is_new, effects }
}

/// Drops every cache entry whose chat id no longer appears in `watched`:
/// run after reconciliation so the cache cannot grow without bound across
/// reload cycles.
pub fn prune_cache(cache: &mut WatchCache, watched: &Vec<String>)
    ensures
        forall|k: Seq<char>|
            final(cache)@.contains_key(k) <==> (old(cache)@.contains_key(k) && str_seq_contains(
                watched@,
                k,
            )),
        forall|k: Seq<char>| final(cache)@.contains_key(k) ==> final(cache)@[k] == old(cache)@[k],
{
    let mut kept: StringHashMap<ChatWatchState> = StringHashMap::new();
    let mut i: usize = 0;
    while i < watched.len()
        invariant
            i <= watched@.len(),
            cache@ == old(cache)@,
            forall|k: Seq<char>|
                kept@.contains_key(k) <==> (cache@.contains_key(k) && str_seq_contains(
                    watched@.take(i as int),
                    k,
                )),
            forall|k: Seq<char>| kept@.contains_key(k) ==> kept@[k] == cache@[k],
        decreases watched@.len() - i,
    {
        let ghost t0 = watched@.take(i as int);
        let ghost t1 = watched@.take(i + 1 as int);
        proof {
            assert(t1 =~= t0.push(watched@[i as int]));
        }
        match cache.entries.get(watched[i].as_str()) {
            Some(e) => {
                let entry = e.duplicate();
                kept.insert(watched[i].clone(), entry);
                proof {
                    assert forall|k: Seq<char>|
                        kept@.contains_key(k) <==> (cache@.contains_key(k) && str_seq_contains(
                            t1,
                            k,
                        )) by {
                        lemma_push_contains(t0, watched@[i as int], k);
                    }
                }
            },
            None => {
                proof {
                    assert forall|k: Seq<char>|
                        kept@.contains_key(k) <==> (cache@.contains_key(k) && str_seq_contains(
                            t1,
                            k,
                        )) by {
                        lemma_push_contains(t0, watched@[i as int], k);
                    }
                }
            },
        }
        i += 1;
    }
    proof {
        assert(watched@.take(watched@.len() as int) =~= watched@);
    }
    cache.entries = kept;
}

/// Seeding is silent: a chat id's first observation is never a new
/// message — so the immediate watcher fires no effects on it — and a
/// timed loop rule does not notify on it, whatever the unread count.
pub proof fn lemma_first_observation_silent(
    latest: MessageInfo,
    policy: LoopConfig,
    chat_found: bool,
    unread: u32,
    now: u64,
)
    requires
        policy.until == LoopUntil::ForATime,
    ensures
        !spec_is_new(None, latest.sort_key@),
        !spec_loop_notify(None, latest, policy, chat_found, unread, now),
{
}

/// A `MessageSeen` rule notifies exactly while the chat's unread count is
/// positive, regardless of message history.
pub proof fn lemma_message_seen_tracks_unread(
    prior: Option<ChatWatchState>,
    latest: MessageInfo,
    policy: LoopConfig,
    unread: u32,
    now: u64,
)
    requires
        policy.until == LoopUntil::MessageSeen,
    ensures
        spec_loop_notify(prior, latest, policy, true, unread, now) == (unread > 0),
{
}

/// Under `ForATime`: a new message opens the notify window at the current
/// time; the step notifies exactly while a window is open and the elapsed
/// time is strictly below the limit; an expired window is closed by the
/// step; and with no new message a closed window stays closed and the
/// step does not notify.
pub proof fn lemma_for_a_time_window(
    prior: Option<ChatWatchState>,
    latest: MessageInfo,
    policy: LoopConfig,
    unread: u32,
    now: u64,
)
    requires
        policy.until == LoopUntil::ForATime,
        policy.time is Some,
    ensures
        spec_is_new(prior, latest.sort_key@) ==> observed_entry(
            prior,
            latest,
            policy.until,
            now,
        ).notify_window_started_at == Some(now),
        spec_loop_notify(prior, latest, policy, true, unread, now) == ({
            let w = observed_entry(prior, latest, policy.until, now).notify_window_started_at;
            &&& w is Some
            &&& elapsed_ms(now, w->Some_0) < policy.time->Some_0
        }),
        window_expired(
            observed_entry(prior, latest, policy.until, now).notify_window_started_at,
            policy.time->Some_0,
            now,
        ) ==> loop_entry_after(prior, latest, policy, true, now).notify_window_started_at is None,
        (!spec_is_new(prior, latest.sort_key@) && (match prior {
            Some(e) => e.notify_window_started_at is None,
            None => true,
        })) ==> (loop_entry_after(prior, latest, policy, true, now).notify_window_started_at is None
            && !spec_loop_notify(prior, latest, policy, true, unread, now)),
{
}

/// A new message fires once: the step that consumed it recorded its sort
/// key, and a message whose sort key the cache already holds is not new,
/// so observing it again fires nothing.
pub proof fn lemma_immediate_no_refire(
    m: Map<Seq<char>, ChatWatchState>,
    chat: Seq<char>,
    latest: MessageInfo,
)
    requires
        m.contains_key(chat),
        m[chat].last_sort_key@ == latest.sort_key@,
    ensures
        !spec_is_new(cache_lookup(m, chat), latest.sort_key@),
{
    crate::text::lemma_seq_lt_irreflexive(latest.sort_key@);
}

} // verus!
