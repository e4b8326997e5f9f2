//! Reconciliation: aligning the running watchers with the latest
//! configuration snapshot.
//!
//! The runtime keeps one watcher per active loop rule and a single shared
//! watcher for all active immediate rules. On every snapshot it partitions
//! the active rule ids against the running ones: ids no longer active are
//! stopped, fresh loop rules are started, and every surviving loop rule is
//! conservatively restarted, because a surviving rule's content may have
//! changed. The immediate watcher is replaced whenever some active
//! immediate rule covers a chat, scoped to the union of their chats, and
//! stopped when none does. A rule that is enabled but malformed is
//! reported and takes no part in any of this.

use vstd::prelude::*;

use crate::models::{AutomationType, NotificationAutomation};
use crate::text::{
    contains_id, dedup_ids, append_ids, str_seq_contains, lemma_push_contains,
    lemma_concat_contains,
};

verus! {

/// A rule takes part in reconciliation when it is enabled and well formed.
pub open spec fn rule_active(r: NotificationAutomation) -> bool {
    r.enabled && r.is_well_formed()
}

/// Some active rule has id `x`.
pub open spec fn active_id(rules: Seq<NotificationAutomation>, x: Seq<char>) -> bool {
    exists|i: int| 0 <= i < rules.len() && rule_active(#[trigger] rules[i]) && rules[i].id@ == x
}

/// Some active loop rule has id `x`.
pub open spec fn active_loop_id(rules: Seq<NotificationAutomation>, x: Seq<char>) -> bool {
    exists|i: int|
        0 <= i < rules.len() && rule_active(#[trigger] rules[i]) && rules[i].automation_type
            == AutomationType::Loop && rules[i].id@ == x
}

/// Some enabled but malformed rule has id `x`.
pub open spec fn skipped_id(rules: Seq<NotificationAutomation>, x: Seq<char>) -> bool {
    exists|i: int|
        0 <= i < rules.len() && (#[trigger] rules[i]).enabled && !rules[i].is_well_formed()
            && rules[i].id@ == x
}

/// Chat `c` is covered by some active immediate rule.
pub open spec fn immediate_union_has(rules: Seq<NotificationAutomation>, c: Seq<char>) -> bool {
    exists|i: int|
        0 <= i < rules.len() && rule_active(#[trigger] rules[i]) && rules[i].automation_type
            == AutomationType::Immediate && str_seq_contains(rules[i].chat_ids@, c)
}

/// Chat `c` is referenced by some active rule.
pub open spec fn tracked_chat(rules: Seq<NotificationAutomation>, c: Seq<char>) -> bool {
    exists|i: int|
        0 <= i < rules.len() && rule_active(#[trigger] rules[i]) && str_seq_contains(
            rules[i].chat_ids@,
            c,
        )
}

proof fn lemma_active_id_push(rules: Seq<NotificationAutomation>, r: NotificationAutomation, x: Seq<char>)
    ensures
        active_id(rules.push(r), x) <==> (active_id(rules, x) || (rule_active(r) && r.id@ == x)),
{
    if active_id(rules.push(r), x) {
        let i = choose|i: int|
            0 <= i < rules.push(r).len() && rule_active(#[trigger] rules.push(r)[i])
                && rules.push(r)[i].id@ == x;
        if i < rules.len() {
            assert(rule_active(rules[i]) && rules[i].id@ == x);
        }
    }
    if active_id(rules, x) {
        let i = choose|i: int|
            0 <= i < rules.len() && rule_active(#[trigger] rules[i]) && rules[i].id@ == x;
        assert(rule_active(rules.push(r)[i]) && rules.push(r)[i].id@ == x);
    }
    if rule_active(r) && r.id@ == x {
        assert(rule_active(rules.push(r)[rules.len() as int]));
    }
}

proof fn lemma_active_loop_id_push(
    rules: Seq<NotificationAutomation>,
    r: NotificationAutomation,
    x: Seq<char>,
)
    ensures
        active_loop_id(rules.push(r), x) <==> (active_loop_id(rules, x) || (rule_active(r)
            && r.automation_type == AutomationType::Loop && r.id@ == x)),
{
    if active_loop_id(rules.push(r), x) {
        let i = choose|i: int|
            0 <= i < rules.push(r).len() && rule_active(#[trigger] rules.push(r)[i])
                && rules.push(r)[i].automation_type == AutomationType::Loop
                && rules.push(r)[i].id@ == x;
        if i < rules.len() {
            assert(rule_active(rules[i]) && rules[i].automation_type == AutomationType::Loop
                && rules[i].id@ == x);
        }
    }
    if active_loop_id(rules, x) {
        let i = choose|i: int|
            0 <= i < rules.len() && rule_active(#[trigger] rules[i]) && rules[i].automation_type
                == AutomationType::Loop && rules[i].id@ == x;
        assert(rule_active(rules.push(r)[i]) && rules.push(r)[i].automation_type
            == AutomationType::Loop && rules.push(r)[i].id@ == x);
    }
    if rule_active(r) && r.automation_type == AutomationType::Loop && r.id@ == x {
        assert(rule_active(rules.push(r)[rules.len() as int]));
    }
}

proof fn lemma_skipped_id_push(
    rules: Seq<NotificationAutomation>,
    r: NotificationAutomation,
    x: Seq<char>,
)
    ensures
        skipped_id(rules.push(r), x) <==> (skipped_id(rules, x) || (r.enabled
            && !r.is_well_formed() && r.id@ == x)),
{
    if skipped_id(rules.push(r), x) {
        let i = choose|i: int|
            0 <= i < rules.push(r).len() && (#[trigger] rules.push(r)[i]).enabled
                && !rules.push(r)[i].is_well_formed() && rules.push(r)[i].id@ == x;
        if i < rules.len() {
            assert(rules[i].enabled && !rules[i].is_well_formed() && rules[i].id@ == x);
        }
    }
    if skipped_id(rules, x) {
        let i = choose|i: int|
            0 <= i < rules.len() && (#[trigger] rules[i]).enabled && !rules[i].is_well_formed()
                && rules[i].id@ == x;
        assert((rules.push(r)[i]).enabled && !rules.push(r)[i].is_well_formed()
            && rules.push(r)[i].id@ == x);
    }
    if r.enabled && !r.is_well_formed() && r.id@ == x {
        assert((rules.push(r)[rules.len() as int]).enabled);
    }
}

proof fn lemma_union_push(
    rules: Seq<NotificationAutomation>,
    r: NotificationAutomation,
    c: Seq<char>,
)
    ensures
        immediate_union_has(rules.push(r), c) <==> (immediate_union_has(rules, c) || (rule_active(r)
            && r.automation_type == AutomationType::Immediate && str_seq_contains(r.chat_ids@, c))),
{
    if immediate_union_has(rules.push(r), c) {
        let i = choose|i: int|
            0 <= i < rules.push(r).len() && rule_active(#[trigger] rules.push(r)[i])
                && rules.push(r)[i].automation_type == AutomationType::Immediate
                && str_seq_contains(rules.push(r)[i].chat_ids@, c);
        if i < rules.len() {
            assert(rule_active(rules[i]) && rules[i].automation_type == AutomationType::Immediate
                && str_seq_contains(rules[i].chat_ids@, c));
        }
    }
    if immediate_union_has(rules, c) {
        let i = choose|i: int|
            0 <= i < rules.len() && rule_active(#[trigger] rules[i]) && rules[i].automation_type
                == AutomationType::Immediate && str_seq_contains(rules[i].chat_ids@, c);
        assert(rule_active(rules.push(r)[i]) && rules.push(r)[i].automation_type
            == AutomationType::Immediate && str_seq_contains(rules.push(r)[i].chat_ids@, c));
    }
    if rule_active(r) && r.automation_type == AutomationType::Immediate && str_seq_contains(
        r.chat_ids@,
        c,
    ) {
        assert(rule_active(rules.push(r)[rules.len() as int]));
    }
}

proof fn lemma_tracked_push(
    rules: Seq<NotificationAutomation>,
    r: NotificationAutomation,
    c: Seq<char>,
)
    ensures
        tracked_chat(rules.push(r), c) <==> (tracked_chat(rules, c) || (rule_active(r)
            && str_seq_contains(r.chat_ids@, c))),
{
    if tracked_chat(rules.push(r), c) {
        let i = choose|i: int|
            0 <= i < rules.push(r).len() && rule_active(#[trigger] rules.push(r)[i])
                && str_seq_contains(rules.push(r)[i].chat_ids@, c);
        if i < rules.len() {
            assert(rule_active(rules[i]) && str_seq_contains(rules[i].chat_ids@, c));
        }
    }
    if tracked_chat(rules, c) {
        let i = choose|i: int|
            0 <= i < rules.len() && rule_active(#[trigger] rules[i]) && str_seq_contains(
                rules[i].chat_ids@,
                c,
            );
        assert(rule_active(rules.push(r)[i]) && str_seq_contains(rules.push(r)[i].chat_ids@, c));
    }
    if rule_active(r) && str_seq_contains(r.chat_ids@, c) {
        assert(rule_active(rules.push(r)[rules.len() as int]));
    }
}

/// Decides `active_id(automations@, id@)`.
pub fn find_active_id(automations: &Vec<NotificationAutomation>, id: &String) -> (r: bool)
    ensures
        r == active_id(automations@, id@),
{
    let mut i: usize = 0;
    while i < automations.len()
        invariant
            i <= automations@.len(),
            !active_id(automations@.take(i as int), id@),
        decreases automations@.len() - i,
    {
        let a = &automations[i];
        if a.enabled && a.check_well_formed() && a.id == *id {
            proof {
                assert(rule_active(automations@[i as int]) && automations@[i as int].id@ == id@);
            }
            return true;
        }
        proof {
            lemma_active_id_push(automations@.take(i as int), automations@[i as int], id@);
            assert(automations@.take(i + 1 as int) =~= automations@.take(i as int).push(
                automations@[i as int],
            ));
        }
        i += 1;
    }
    proof {
        assert(automations@.take(automations@.len() as int) =~= automations@);
    }
    false
}

/// The running ids that are no longer active: the watchers to cancel.
fn collect_to_stop(old_ids: &Vec<String>, automations: &Vec<NotificationAutomation>) -> (r: Vec<
    String,
>)
    ensures
        forall|x: Seq<char>|
            str_seq_contains(r@, x) <==> (str_seq_contains(old_ids@, x) && !active_id(
                automations@,
                x,
            )),
{
    let mut out: Vec<String> = Vec::new();
    let mut i: usize = 0;
    while i < old_ids.len()
        invariant
            i <= old_ids@.len(),
            forall|x: Seq<char>|
                str_seq_contains(out@, x) <==> (str_seq_contains(old_ids@.take(i as int), x)
                    && !active_id(automations@, x)),
        decreases old_ids@.len() - i,
    {
        let ghost prev = out@;
        let ghost t0 = old_ids@.take(i as int);
        let ghost t1 = old_ids@.take(i + 1 as int);
        proof {
            assert(t1 =~= t0.push(old_ids@[i as int]));
        }
        if !find_active_id(automations, &old_ids[i]) {
            out.push(old_ids[i].clone());
            proof {
                assert forall|x: Seq<char>|
                    str_seq_contains(out@, x) <==> (str_seq_contains(t1, x) && !active_id(
                        automations@,
                        x,
                    )) by {
                    lemma_push_contains(prev, old_ids@[i as int], x);
                    lemma_push_contains(t0, old_ids@[i as int], x);
                }
            }
        } else {
            proof {
                assert forall|x: Seq<char>|
                    str_seq_contains(out@, x) <==> (str_seq_contains(t1, x) && !active_id(
                        automations@,
                        x,
                    )) by {
                    lemma_push_contains(t0, old_ids@[i as int], x);
                }
            }
        }
        i += 1;
    }
    proof {
        assert(old_ids@.take(old_ids@.len() as int) =~= old_ids@);
    }
    out
}

/// The ids of active loop rules, split by whether they are already
/// running: survivors (restarted) when `surviving` is true, fresh starts
/// otherwise.
fn collect_loop_ids(
    automations: &Vec<NotificationAutomation>,
    old_ids: &Vec<String>,
    surviving: bool,
) -> (r: Vec<String>)
    ensures
        forall|x: Seq<char>|
            str_seq_contains(r@, x) <==> (active_loop_id(automations@, x) && (surviving
                == str_seq_contains(old_ids@, x))),
{
    let mut out: Vec<String> = Vec::new();
    let mut i: usize = 0;
    while i < automations.len()
        invariant
            i <= automations@.len(),
            forall|x: Seq<char>|
                str_seq_contains(out@, x) <==> (active_loop_id(automations@.take(i as int), x) && (
                surviving == str_seq_contains(old_ids@, x))),
        decreases automations@.len() - i,
    {
        let ghost prev = out@;
        let ghost t0 = automations@.take(i as int);
        let ghost t1 = automations@.take(i + 1 as int);
        let ghost rr = automations@[i as int];
        proof {
            assert(t1 =~= t0.push(rr));
        }
        let a = &automations[i];
        let is_loop_active = a.enabled && a.check_well_formed() && a.automation_type
            == AutomationType::Loop;
        if is_loop_active && contains_id(old_ids, &a.id) == surviving {
            out.push(a.id.clone());
            proof {
                assert forall|x: Seq<char>|
                    str_seq_contains(out@, x) <==> (active_loop_id(t1, x) && (surviving
                        == str_seq_contains(old_ids@, x))) by {
                    lemma_push_contains(prev, rr.id, x);
                    lemma_active_loop_id_push(t0, rr, x);
                }
            }
        } else {
            proof {
                assert forall|x: Seq<char>|
                    str_seq_contains(out@, x) <==> (active_loop_id(t1, x) && (surviving
                        == str_seq_contains(old_ids@, x))) by {
                    lemma_active_loop_id_push(t0, rr, x);
                }
            }
        }
        i += 1;
    }
    proof {
        assert(automations@.take(automations@.len() as int) =~= automations@);
    }
    out
}

/// The ids of enabled rules that are malformed: reported and excluded.
fn collect_skipped(automations: &Vec<NotificationAutomation>) -> (r: Vec<String>)
    ensures
        forall|x: Seq<char>| str_seq_contains(r@, x) <==> skipped_id(automations@, x),
{
    let mut out: Vec<String> = Vec::new();
    let mut i: usize = 0;
    while i < automations.len()
        invariant
            i <= automations@.len(),
            forall|x: Seq<char>|
                str_seq_contains(out@, x) <==> skipped_id(automations@.take(i as int), x),
        decreases automations@.len() - i,
    {
        let ghost prev = out@;
        let ghost t0 = automations@.take(i as int);
        let ghost t1 = automations@.take(i + 1 as int);
        let ghost rr = automations@[i as int];
        proof {
            assert(t1 =~= t0.push(rr));
        }
        let a = &automations[i];
        if a.enabled && !a.check_well_formed() {
            out.push(a.id.clone());
            proof {
                assert forall|x: Seq<char>|
                    str_seq_contains(out@, x) <==> skipped_id(t1, x) by {
                    lemma_push_contains(prev, rr.id, x);
                    lemma_skipped_id_push(t0, rr, x);
                }
            }
        } else {
            proof {
                assert forall|x: Seq<char>|
                    str_seq_contains(out@, x) <==> skipped_id(t1, x) by {
                    lemma_skipped_id_push(t0, rr, x);
                }
            }
        }
        i += 1;
    }
    proof {
        assert(automations@.take(automations@.len() as int) =~= automations@);
    }
    out
}

/// The ids of all active rules: what the next reconciliation counts as
/// running.
fn collect_applied(automations: &Vec<NotificationAutomation>) -> (r: Vec<String>)
    ensures
        forall|x: Seq<char>| str_seq_contains(r@, x) <==> active_id(automations@, x),
{
    let mut out: Vec<String> = Vec::new();
    let mut i: usize = 0;
    while i < automations.len()
        invariant
            i <= automations@.len(),
            forall|x: Seq<char>|
                str_seq_contains(out@, x) <==> active_id(automations@.take(i as int), x),
        decreases automations@.len() - i,
    {
        let ghost prev = out@;
        let ghost t0 = automations@.take(i as int);
        let ghost t1 = automations@.take(i + 1 as int);
        let ghost rr = automations@[i as int];
        proof {
            assert(t1 =~= t0.push(rr));
        }
        let a = &automations[i];
        if a.enabled && a.check_well_formed() {
            out.push(a.id.clone());
            proof {
                assert forall|x: Seq<char>|
                    str_seq_contains(out@, x) <==> active_id(t1, x) by {
                    lemma_push_contains(prev, rr.id, x);
                    lemma_active_id_push(t0, rr, x);
                }
            }
        } else {
            proof {
                assert forall|x: Seq<char>|
                    str_seq_contains(out@, x) <==> active_id(t1, x) by {
                    lemma_active_id_push(t0, rr, x);
                }
            }
        }
        i += 1;
    }
    proof {
        assert(automations@.take(automations@.len() as int) =~= automations@);
    }
    out
}

/// The chats of active immediate rules, with repetitions.
fn collect_immediate_chats(automations: &Vec<NotificationAutomation>) -> (r: Vec<String>)
    ensures
        forall|c: Seq<char>| str_seq_contains(r@, c) <==> immediate_union_has(automations@, c),
{
    let mut out: Vec<String> = Vec::new();
    let mut i: usize = 0;
    while i < automations.len()
        invariant
            i <= automations@.len(),
            forall|c: Seq<char>|
                str_seq_contains(out@, c) <==> immediate_union_has(automations@.take(i as int), c),
        decreases automations@.len() - i,
    {
        let ghost prev = out@;
        let ghost t0 = automations@.take(i as int);
        let ghost t1 = automations@.take(i + 1 as int);
        let ghost rr = automations@[i as int];
        proof {
            assert(t1 =~= t0.push(rr));
        }
        let a = &automations[i];
        if a.enabled && a.check_well_formed() && a.automation_type == AutomationType::Immediate {
            append_ids(&mut out, &a.chat_ids);
            proof {
                assert forall|c: Seq<char>|
                    str_seq_contains(out@, c) <==> immediate_union_has(t1, c) by {
                    lemma_concat_contains(prev, rr.chat_ids@, c);
                    lemma_union_push(t0, rr, c);
                }
            }
        } else {
            proof {
                assert forall|c: Seq<char>|
                    str_seq_contains(out@, c) <==> immediate_union_has(t1, c) by {
                    lemma_union_push(t0, rr, c);
                }
            }
        }
        i += 1;
    }
    proof {
        assert(automations@.take(automations@.len() as int) =~= automations@);
    }
    out
}

/// The chats of all active rules, with repetitions: the cache keeps
/// entries for these only.
fn collect_tracked_chats(automations: &Vec<NotificationAutomation>) -> (r: Vec<String>)
    ensures
        forall|c: Seq<char>| str_seq_contains(r@, c) <==> tracked_chat(automations@, c),
{
    let mut out: Vec<String> = Vec::new();
    let mut i: usize = 0;
    while i < automations.len()
        invariant
            i <= automations@.len(),
            forall|c: Seq<char>|
                str_seq_contains(out@, c) <==> tracked_chat(automations@.take(i as int), c),
        decreases automations@.len() - i,
    {
        let ghost prev = out@;
        let ghost t0 = automations@.take(i as int);
        let ghost t1 = automations@.take(i + 1 as int);
        let ghost rr = automations@[i as int];
        proof {
            assert(t1 =~= t0.push(rr));
        }
        let a = &automations[i];
        if a.enabled && a.check_well_formed() {
            append_ids(&mut out, &a.chat_ids);
            proof {
                assert forall|c: Seq<char>|
                    str_seq_contains(out@, c) <==> tracked_chat(t1, c) by {
                    lemma_concat_contains(prev, rr.chat_ids@, c);
                    lemma_tracked_push(t0, rr, c);
                }
            }
        } else {
            proof {
                assert forall|c: Seq<char>|
                    str_seq_contains(out@, c) <==> tracked_chat(t1, c) by {
                    lemma_tracked_push(t0, rr, c);
                }
            }
        }
        i += 1;
    }
    proof {
        assert(automations@.take(automations@.len() as int) =~= automations@);
    }
    out
}

/// What reconciliation decides for the single shared immediate watcher.
#[derive(Debug)]
pub enum ImmediateAction {
    /// No chats need watching and no watcher was running: nothing to do.
    Keep,
    /// No chats need watching any more: cancel the running watcher.
    Stop,
    /// Cancel the running watcher, if any, and start one scoped to these
    /// chats.
    Replace(Vec<String>),
}

/// The operations one reconciliation performs. `to_stop` watchers are
/// cancelled; `to_restart` loop watchers are cancelled and recreated with
/// fresh state under the same id; `to_start` loop watchers are created;
/// `immediate` says what happens to the shared immediate watcher;
/// cache entries for chats outside `tracked_chats` are pruned; `skipped`
/// rules are reported as misconfigured; `applied_ids` is what the next
/// reconciliation takes as running.
pub struct ReconcilePlan {
    pub to_stop: Vec<String>,
    pub to_restart: Vec<String>,
    pub to_start: Vec<String>,
    pub immediate: ImmediateAction,
    pub tracked_chats: Vec<String>,
    pub skipped: Vec<String>,
    pub applied_ids: Vec<String>,
}

/// Diffs the running watcher ids against the snapshot's rules and plans
/// the watcher operations.
///
/// `old_ids` are the rule ids applied by the previous reconciliation, and
/// `immediate_running` says whether the shared immediate watcher runs.
pub fn reconcile(
    old_ids: &Vec<String>,
    automations: &Vec<NotificationAutomation>,
    immediate_running: bool,
) -> (plan: ReconcilePlan)
    ensures
        forall|x: Seq<char>|
            str_seq_contains(plan.to_stop@, x) <==> (str_seq_contains(old_ids@, x) && !active_id(
                automations@,
                x,
            )),
        forall|x: Seq<char>|
            str_seq_contains(plan.to_restart@, x) <==> (active_loop_id(automations@, x)
                && str_seq_contains(old_ids@, x)),
        forall|x: Seq<char>|
            str_seq_contains(plan.to_start@, x) <==> (active_loop_id(automations@, x)
                && !str_seq_contains(old_ids@, x)),
        forall|x: Seq<char>| str_seq_contains(plan.skipped@, x) <==> skipped_id(automations@, x),
        forall|x: Seq<char>|
            str_seq_contains(plan.applied_ids@, x) <==> active_id(automations@, x),
        forall|c: Seq<char>|
            str_seq_contains(plan.tracked_chats@, c) <==> tracked_chat(automations@, c),
        forall|i: int, j: int|
            0 <= i < j < plan.tracked_chats@.len() ==> plan.tracked_chats@[i]@
                != plan.tracked_chats@[j]@,
        match plan.immediate {
            ImmediateAction::Keep => !immediate_running && (forall|c: Seq<char>|
                !immediate_union_has(automations@, c)),
            ImmediateAction::Stop => immediate_running && (forall|c: Seq<char>|
                !immediate_union_has(automations@, c)),
            ImmediateAction::Replace(u) => {
                &&& u@.len() > 0
                &&& (forall|c: Seq<char>|
                    str_seq_contains(u@, c) <==> immediate_union_has(automations@, c))
                &&& (forall|i: int, j: int| 0 <= i < j < u@.len() ==> u@[i]@ != u@[j]@)
            },
        },
{
    let to_stop = collect_to_stop(old_ids, automations);
    let to_restart = collect_loop_ids(automations, old_ids, true);
    let to_start = collect_loop_ids(automations, old_ids, false);
    let skipped = collect_skipped(automations);
    let applied_ids = collect_applied(automations);
    let raw_immediate = collect_immediate_chats(automations);
    let union = dedup_ids(&raw_immediate);
    let raw_tracked = collect_tracked_chats(automations);
    let tracked_chats = dedup_ids(&raw_tracked);
    let immediate: ImmediateAction = if union.len() > 0 {
        ImmediateAction::Replace(union)
    } else {
        proof {
            assert forall|c: Seq<char>| !immediate_union_has(automations@, c) by {
                if immediate_union_has(automations@, c) {
                    assert(str_seq_contains(union@, c));
                }
            }
        }
        if immediate_running {
            ImmediateAction::Stop
        } else {
            ImmediateAction::Keep
        }
    };
    ReconcilePlan { to_stop, to_restart, to_start, immediate, tracked_chats, skipped, applied_ids }
}

/// Reconciling an already-applied snapshot again cancels nothing and
/// starts nothing fresh: every running id is still active, so no watcher
/// is stopped, and every active loop rule is already running, so none is
/// freshly started. Surviving rules are still conservatively restarted,
/// since a survivor's content may have changed.
pub proof fn lemma_reconcile_idempotent(old_ids: Seq<String>, rules: Seq<NotificationAutomation>)
    requires
        forall|x: Seq<char>| str_seq_contains(old_ids, x) <==> active_id(rules, x),
    ensures
        forall|x: Seq<char>| !(str_seq_contains(old_ids, x) && !active_id(rules, x)),
        forall|x: Seq<char>| !(active_loop_id(rules, x) && !str_seq_contains(old_ids, x)),
{
    assert forall|x: Seq<char>| active_loop_id(rules, x) implies str_seq_contains(old_ids, x) by {
        let i = choose|i: int|
            0 <= i < rules.len() && rule_active(#[trigger] rules[i]) && rules[i].automation_type
                == AutomationType::Loop && rules[i].id@ == x;
        assert(rule_active(rules[i]) && rules[i].id@ == x);
        assert(active_id(rules, x));
    }
}

/// A malformed rule is inert: wherever it stands among the others, every
/// reconciliation predicate reads through it, so it neither starts nor
/// stops anything and the valid rules are treated exactly as without it.
/// (Its id is still reported on the skipped list when it is enabled.)
pub proof fn lemma_malformed_rule_inert(
    pre: Seq<NotificationAutomation>,
    bad: NotificationAutomation,
    post: Seq<NotificationAutomation>,
    x: Seq<char>,
)
    requires
        !bad.is_well_formed(),
    ensures
        active_id(pre + seq![bad] + post, x) == active_id(pre + post, x),
        active_loop_id(pre + seq![bad] + post, x) == active_loop_id(pre + post, x),
        immediate_union_has(pre + seq![bad] + post, x) == immediate_union_has(pre + post, x),
        tracked_chat(pre + seq![bad] + post, x) == tracked_chat(pre + post, x),
{
    let with_bad = pre + seq![bad] + post;
    let without = pre + post;
    assert forall|i: int| 0 <= i < without.len() implies #[trigger] without[i] == (if i < pre.len() {
        with_bad[i]
    } else {
        with_bad[i + 1]
    }) by {}
    assert forall|i: int|
        0 <= i < with_bad.len() && i != pre.len() implies #[trigger] with_bad[i] == (if i
        < pre.len() {
        without[i]
    } else {
        without[i - 1]
    }) by {}
    assert(with_bad[pre.len() as int] == bad);
    assert(!rule_active(bad));
    if active_id(with_bad, x) {
        let i = choose|i: int|
            0 <= i < with_bad.len() && rule_active(#[trigger] with_bad[i]) && with_bad[i].id@ == x;
        if i < pre.len() {
            assert(rule_active(without[i]) && without[i].id@ == x);
        } else {
            assert(i != pre.len());
            assert(rule_active(without[i - 1]) && without[i - 1].id@ == x);
        }
    }
    if active_id(without, x) {
        let i = choose|i: int|
            0 <= i < without.len() && rule_active(#[trigger] without[i]) && without[i].id@ == x;
        if i < pre.len() {
            assert(rule_active(with_bad[i]) && with_bad[i].id@ == x);
        } else {
            assert(rule_active(with_bad[i + 1]) && with_bad[i + 1].id@ == x);
        }
    }
    if active_loop_id(with_bad, x) {
        let i = choose|i: int|
            0 <= i < with_bad.len() && rule_active(#[trigger] with_bad[i])
                && with_bad[i].automation_type == AutomationType::Loop && with_bad[i].id@ == x;
        if i < pre.len() {
            assert(rule_active(without[i]) && without[i].automation_type == AutomationType::Loop
                && without[i].id@ == x);
        } else {
            assert(rule_active(without[i - 1]) && without[i - 1].automation_type
                == AutomationType::Loop && without[i - 1].id@ == x);
        }
    }
    if active_loop_id(without, x) {
        let i = choose|i: int|
            0 <= i < without.len() && rule_active(#[trigger] without[i])
                && without[i].automation_type == AutomationType::Loop && without[i].id@ == x;
        if i < pre.len() {
            assert(rule_active(with_bad[i]) && with_bad[i].automation_type == AutomationType::Loop
                && with_bad[i].id@ == x);
        } else {
            assert(rule_active(with_bad[i + 1]) && with_bad[i + 1].automation_type
                == AutomationType::Loop && with_bad[i + 1].id@ == x);
        }
    }
    if immediate_union_has(with_bad, x) {
        let i = choose|i: int|
            0 <= i < with_bad.len() && rule_active(#[trigger] with_bad[i])
                && with_bad[i].automation_type == AutomationType::Immediate && str_seq_contains(
                with_bad[i].chat_ids@,
                x,
            );
        if i < pre.len() {
            assert(rule_active(without[i]) && without[i].automation_type
                == AutomationType::Immediate && str_seq_contains(without[i].chat_ids@, x));
        } else {
            assert(rule_active(without[i - 1]) && without[i - 1].automation_type
                == AutomationType::Immediate && str_seq_contains(without[i - 1].chat_ids@, x));
        }
    }
    if immediate_union_has(without, x) {
        let i = choose|i: int|
            0 <= i < without.len() && rule_active(#[trigger] without[i])
                && without[i].automation_type == AutomationType::Immediate && str_seq_contains(
                without[i].chat_ids@,
                x,
            );
        if i < pre.len() {
            assert(rule_active(with_bad[i]) && with_bad[i].automation_type
                == AutomationType::Immediate && str_seq_contains(with_bad[i].chat_ids@, x));
        } else {
            assert(rule_active(with_bad[i + 1]) && with_bad[i + 1].automation_type
                == AutomationType::Immediate && str_seq_contains(with_bad[i + 1].chat_ids@, x));
        }
    }
    if tracked_chat(with_bad, x) {
        let i = choose|i: int|
            0 <= i < with_bad.len() && rule_active(#[trigger] with_bad[i]) && str_seq_contains(
                with_bad[i].chat_ids@,
                x,
            );
        if i < pre.len() {
            assert(rule_active(without[i]) && str_seq_contains(without[i].chat_ids@, x));
        } else {
            assert(rule_active(without[i - 1]) && str_seq_contains(without[i - 1].chat_ids@, x));
        }
    }
    if tracked_chat(without, x) {
        let i = choose|i: int|
            0 <= i < without.len() && rule_active(#[trigger] without[i]) && str_seq_contains(
                without[i].chat_ids@,
                x,
            );
        if i < pre.len() {
            assert(rule_active(with_bad[i]) && str_seq_contains(with_bad[i].chat_ids@, x));
        } else {
            assert(rule_active(with_bad[i + 1]) && str_seq_contains(with_bad[i + 1].chat_ids@, x));
        }
    }
}

} // verus!
