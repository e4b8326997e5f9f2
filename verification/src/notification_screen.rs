//! The automations screen: the rule list, the rule-editing form, the chat
//! selector and the loop-policy form, with their key handling. Drawing,
//! chat fetching and saving happen outside the library: each handler
//! returns what the caller must do next, and fetched chat pages come back
//! through `chats_loaded`.

use vstd::prelude::*;

use crate::config::Config;
use crate::keys::Key;
use crate::models::{
    AutomationType, LoopConfig, LoopUntil, NotificationAutomation, same_rule,
};
use crate::text::{
    clone_ids, contains_id, contains_substr, lower_of, lowercase, parse_u64, push_char, pop_char,
    spec_parse_u64, str_contains, str_seq_contains, u64_to_string, dec_digits,
};

verus! {

/// A chat the selector offers: the id and the display name.
#[derive(Debug)]
pub struct ChatSelector {
    pub available_chats: Vec<(String, String)>,
    pub filter: String,
    pub selected_index: usize,
    pub scroll_offset: usize,
    pub loading: bool,
    pub cursor: Option<String>,
    pub has_more: bool,
}

/// A chat matches the filter when its lowercased name contains the
/// lowercased filter.
pub open spec fn chat_matches(name: Seq<char>, filter: Seq<char>) -> bool {
    contains_substr(lower_of(name), lower_of(filter))
}

/// The chats whose names match the filter, in order.
pub open spec fn spec_filtered(chats: Seq<(String, String)>, filter: Seq<char>) -> Seq<
    (String, String),
>
    decreases chats.len(),
{
    if chats.len() == 0 {
        Seq::empty()
    } else if chat_matches(chats.last().1@, filter) {
        spec_filtered(chats.drop_last(), filter).push(chats.last())
    } else {
        spec_filtered(chats.drop_last(), filter)
    }
}

impl ChatSelector {
    /// An empty selector about to load its first page.
    pub fn new() -> (r: Self)
        ensures
            r.available_chats@.len() == 0,
            r.filter@.len() == 0,
            r.selected_index == 0,
            r.scroll_offset == 0,
            !r.loading,
            r.cursor is None,
            r.has_more,
    {
        ChatSelector {
            available_chats: Vec::new(),
            filter: String::new(),
            selected_index: 0,
            scroll_offset: 0,
            loading: false,
            cursor: None,
            has_more: true,
        }
    }

    /// The chats to show: everything when the filter is empty, otherwise
    /// those whose lowercased name contains the lowercased filter.
    pub fn filtered_chats(&self) -> (r: Vec<(String, String)>)
        ensures
            r@ == if self.filter@.len() == 0 {
                self.available_chats@
            } else {
                spec_filtered(self.available_chats@, self.filter@)
            },
    {
        let mut out: Vec<(String, String)> = Vec::new();
        if self.filter.as_str().is_empty() {
            let mut i: usize = 0;
            while i < self.available_chats.len()
                invariant
                    i <= self.available_chats@.len(),
                    out@ == self.available_chats@.take(i as int),
                decreases self.available_chats@.len() - i,
            {
                let pair = &self.available_chats[i];
                out.push((pair.0.clone(), pair.1.clone()));
                proof {
                    assert(self.available_chats@.take(i + 1 as int) =~= self.available_chats@.take(
                        i as int,
                    ).push(self.available_chats@[i as int]));
                }
                i += 1;
            }
            proof {
                assert(self.available_chats@.take(self.available_chats@.len() as int)
                    =~= self.available_chats@);
            }
            out
        } else {
            let needle = lowercase(self.filter.as_str());
            let mut i: usize = 0;
            while i < self.available_chats.len()
                invariant
                    i <= self.available_chats@.len(),
                    needle@ == lower_of(self.filter@),
                    out@ == spec_filtered(self.available_chats@.take(i as int), self.filter@),
                decreases self.available_chats@.len() - i,
            {
                proof {
                    assert(self.available_chats@.take(i + 1 as int).drop_last()
                        =~= self.available_chats@.take(i as int));
                    assert(self.available_chats@.take(i + 1 as int).last()
                        == self.available_chats@[i as int]);
                }
                let pair = &self.available_chats[i];
                let hay = lowercase(pair.1.as_str());
                if str_contains(hay.as_str(), needle.as_str()) {
                    out.push((pair.0.clone(), pair.1.clone()));
                }
                i += 1;
            }
            proof {
                assert(self.available_chats@.take(self.available_chats@.len() as int)
                    =~= self.available_chats@);
            }
            out
        }
    }
}

/// The rule-editing form. Numeric fields are kept as digit strings while
/// they are edited; `selected_field` is the field the cursor is on.
#[derive(Debug)]
pub struct AutomationForm {
    pub id: Option<String>,
    pub name: String,
    pub chat_ids: Vec<String>,
    pub automation_type: AutomationType,
    pub loop_until: LoopUntil,
    pub loop_time: String,
    pub check_interval: String,
    pub notification_sound: String,
    pub focus_chat: bool,
    pub enabled: bool,
    pub selected_field: usize,
}

/// The loop policy a form denotes: present only for loop rules, with the
/// time limit read from the digits and the poll interval falling back to
/// its default.
pub open spec fn spec_form_policy(form: AutomationForm) -> Option<LoopConfig> {
    if form.automation_type == AutomationType::Loop {
        Some(
            LoopConfig {
                until: form.loop_until,
                time: spec_parse_u64(form.loop_time@),
                check_interval: match spec_parse_u64(form.check_interval@) {
                    Some(v) => v,
                    None => 3000,
                },
            },
        )
    } else {
        None
    }
}

/// The rule a form builds: its fields carried over, the sound only when
/// one is named, and — for a fresh rule — some 36-character generated id.
pub open spec fn built_rule(form: AutomationForm, r: NotificationAutomation) -> bool {
    &&& match form.id {
        Some(id) => r.id == id,
        None => r.id@.len() == 36,
    }
    &&& r.name == form.name
    &&& r.chat_ids@ == form.chat_ids@
    &&& r.automation_type == form.automation_type
    &&& r.notification_sound == if form.notification_sound@.len() > 0 {
        Some(form.notification_sound)
    } else {
        None::<String>
    }
    &&& r.focus_chat == form.focus_chat
    &&& r.loop_config == spec_form_policy(form)
    &&& r.enabled == form.enabled
    &&& r.ntfy_config is None
}

/// An empty form for a fresh immediate rule, as `AutomationForm::new`
/// makes it.
pub open spec fn fresh_form(f: AutomationForm) -> bool {
    &&& f.id is None
    &&& f.name@.len() == 0
    &&& f.chat_ids@.len() == 0
    &&& f.automation_type == AutomationType::Immediate
    &&& f.loop_until == LoopUntil::MessageSeen
    &&& f.loop_time@.len() == 0
    &&& f.check_interval@ == "3000"@
    &&& f.notification_sound@.len() == 0
    &&& !f.focus_chat
    &&& f.enabled
    &&& f.selected_field == 0
}

/// The form that shows rule `a`: its fields carried over, numeric fields
/// written in decimal, a missing loop policy shown as the defaults, and
/// the cursor on the first field.
pub open spec fn form_of_rule(a: NotificationAutomation, f: AutomationForm) -> bool {
    &&& f.id is Some && f.id->Some_0 == a.id
    &&& f.name == a.name
    &&& f.chat_ids@ == a.chat_ids@
    &&& f.automation_type == a.automation_type
    &&& match a.loop_config {
        Some(lc) => {
            &&& f.loop_until == lc.until
            &&& f.loop_time@ == match lc.time {
                Some(t) => dec_digits(t as nat),
                None => Seq::<char>::empty(),
            }
            &&& f.check_interval@ == dec_digits(lc.check_interval as nat)
        },
        None => {
            &&& f.loop_until == LoopUntil::MessageSeen
            &&& f.loop_time@.len() == 0
            &&& f.check_interval@ == "3000"@
        },
    }
    &&& f.notification_sound@ == match a.notification_sound {
        Some(p) => p@,
        None => Seq::<char>::empty(),
    }
    &&& f.focus_chat == a.focus_chat
    &&& f.enabled == a.enabled
    &&& f.selected_field == 0
}

/// The two forms agree on every field but the cursor.
pub open spec fn form_eq_but_cursor(a: AutomationForm, b: AutomationForm) -> bool {
    &&& a.id == b.id
    &&& a.name == b.name
    &&& a.chat_ids@ == b.chat_ids@
    &&& a.automation_type == b.automation_type
    &&& a.loop_until == b.loop_until
    &&& a.loop_time == b.loop_time
    &&& a.check_interval == b.check_interval
    &&& a.notification_sound == b.notification_sound
    &&& a.focus_chat == b.focus_chat
    &&& a.enabled == b.enabled
}

/// The two forms agree on every field but the name and the sound.
pub open spec fn form_eq_but_texts(a: AutomationForm, b: AutomationForm) -> bool {
    &&& a.id == b.id
    &&& a.chat_ids@ == b.chat_ids@
    &&& a.automation_type == b.automation_type
    &&& a.loop_until == b.loop_until
    &&& a.loop_time == b.loop_time
    &&& a.check_interval == b.check_interval
    &&& a.focus_chat == b.focus_chat
    &&& a.enabled == b.enabled
    &&& a.selected_field == b.selected_field
}

/// The two forms agree on every field but the toggles: the kind, the
/// focus flag and the enabled flag.
pub open spec fn form_eq_but_toggles(a: AutomationForm, b: AutomationForm) -> bool {
    &&& a.id == b.id
    &&& a.name == b.name
    &&& a.chat_ids@ == b.chat_ids@
    &&& a.loop_until == b.loop_until
    &&& a.loop_time == b.loop_time
    &&& a.check_interval == b.check_interval
    &&& a.notification_sound == b.notification_sound
    &&& a.selected_field == b.selected_field
}

/// The two forms agree on every field but the chat list.
pub open spec fn form_eq_but_chats(a: AutomationForm, b: AutomationForm) -> bool {
    &&& a.id == b.id
    &&& a.name == b.name
    &&& a.automation_type == b.automation_type
    &&& a.loop_until == b.loop_until
    &&& a.loop_time == b.loop_time
    &&& a.check_interval == b.check_interval
    &&& a.notification_sound == b.notification_sound
    &&& a.focus_chat == b.focus_chat
    &&& a.enabled == b.enabled
    &&& a.selected_field == b.selected_field
}

/// The rule form a form edits goes back to: editing keeps the edited
/// rule's form, adding keeps the draft.
pub open spec fn form_state(is_editing: bool, f: AutomationForm) -> ScreenState {
    if is_editing {
        ScreenState::EditingAutomation(f)
    } else {
        ScreenState::AddingAutomation(f)
    }
}

/// The two selectors agree on everything but the cursor and the scroll
/// position.
pub open spec fn sel_eq_but_nav(a: ChatSelector, b: ChatSelector) -> bool {
    &&& a.available_chats@ == b.available_chats@
    &&& a.filter == b.filter
    &&& a.loading == b.loading
    &&& a.cursor == b.cursor
    &&& a.has_more == b.has_more
}

/// The two selectors agree on everything but the filter, the cursor and
/// the scroll position.
pub open spec fn sel_eq_but_filter(a: ChatSelector, b: ChatSelector) -> bool {
    &&& a.available_chats@ == b.available_chats@
    &&& a.loading == b.loading
    &&& a.cursor == b.cursor
    &&& a.has_more == b.has_more
}

/// The chats a selector shows: everything when the filter is empty,
/// otherwise the matching ones.
pub open spec fn spec_shown(s: ChatSelector) -> Seq<(String, String)> {
    if s.filter@.len() == 0 {
        s.available_chats@
    } else {
        spec_filtered(s.available_chats@, s.filter@)
    }
}

/// The form carried by a state of the expected editing mode, if any.
pub open spec fn form_in_state(st: ScreenState, is_editing: bool) -> Option<AutomationForm> {
    match st {
        ScreenState::EditingAutomation(f) => if is_editing {
            Some(f)
        } else {
            None
        },
        ScreenState::AddingAutomation(f) => if !is_editing {
            Some(f)
        } else {
            None
        },
        _ => None,
    }
}

/// Finds the first rule whose id is `id`.
pub fn find_rule_position(rules: &Vec<NotificationAutomation>, id: &String) -> (r: Option<usize>)
    ensures
        match r {
            Some(p) => {
                &&& p < rules@.len()
                &&& rules@[p as int].id@ == id@
                &&& forall|k: int| 0 <= k < p ==> (#[trigger] rules@[k]).id@ != id@
            },
            None => forall|k: int| 0 <= k < rules@.len() ==> (#[trigger] rules@[k]).id@ != id@,
        },
{
    let mut i: usize = 0;
    while i < rules.len()
        invariant
            i <= rules@.len(),
            forall|k: int| 0 <= k < i ==> (#[trigger] rules@[k]).id@ != id@,
        decreases rules@.len() - i,
    {
        if rules[i].id == *id {
            return Some(i);
        }
        i += 1;
    }
    None
}

/// Relies on `uuid::Uuid::new_v4` and its hyphenated `Display` form: a
/// fresh random identifier, 36 characters long.
#[verifier::external_body]
fn fresh_rule_id() -> (r: String)
    ensures
        r@.len() == 36,
{
    uuid::Uuid::new_v4().to_string()
}

impl AutomationForm {
    /// An empty form for a fresh immediate rule.
    pub fn new() -> (r: Self)
        ensures
            fresh_form(r),
    {
        AutomationForm {
            id: None,
            name: String::new(),
            chat_ids: Vec::new(),
            automation_type: AutomationType::Immediate,
            loop_until: LoopUntil::MessageSeen,
            loop_time: String::new(),
            check_interval: "3000".to_owned(),
            notification_sound: String::new(),
            focus_chat: false,
            enabled: true,
            selected_field: 0,
        }
    }

    /// A form pre-filled from an existing rule, numeric fields written in
    /// decimal and a missing loop policy shown as the defaults.
    pub fn from_automation(a: &NotificationAutomation) -> (r: Self)
        ensures
            form_of_rule(*a, r),
    {
        let (loop_until, loop_time, check_interval): (LoopUntil, String, String) =
            match &a.loop_config {
            Some(lc) => (
                lc.until,
                match lc.time {
                    Some(t) => u64_to_string(t),
                    None => String::new(),
                },
                u64_to_string(lc.check_interval),
            ),
            None => (LoopUntil::MessageSeen, String::new(), "3000".to_owned()),
        };
        AutomationForm {
            id: Some(a.id.clone()),
            name: a.name.clone(),
            chat_ids: clone_ids(&a.chat_ids),
            automation_type: a.automation_type,
            loop_until,
            loop_time,
            check_interval,
            notification_sound: match &a.notification_sound {
                Some(p) => p.clone(),
                None => String::new(),
            },
            focus_chat: a.focus_chat,
            enabled: a.enabled,
            selected_field: 0,
        }
    }

    /// The rule this form builds; a form without an id gets a generated
    /// one.
    pub fn to_automation(&self) -> (r: NotificationAutomation)
        ensures
            built_rule(*self, r),
    {
        let loop_config: Option<LoopConfig> = if self.automation_type == AutomationType::Loop {
            Some(
                LoopConfig {
                    until: self.loop_until,
                    time: parse_u64(self.loop_time.as_str()),
                    check_interval: match parse_u64(self.check_interval.as_str()) {
                        Some(v) => v,
                        None => 3000,
                    },
                },
            )
        } else {
            None
        };
        NotificationAutomation {
            id: match &self.id {
                Some(id) => id.clone(),
                None => fresh_rule_id(),
            },
            name: self.name.clone(),
            chat_ids: clone_ids(&self.chat_ids),
            automation_type: self.automation_type,
            notification_sound: if !self.notification_sound.as_str().is_empty() {
                Some(self.notification_sound.clone())
            } else {
                None
            },
            focus_chat: self.focus_chat,
            loop_config,
            enabled: self.enabled,
            ntfy_config: None,
        }
    }

    /// The form's field count: name, chats, type, sound, focus and
    /// enabled. The loop policy has its own screen.
    pub fn field_count(&self) -> (n: usize)
        ensures
            n == 6,
    {
        6
    }

    /// The loop screen's field count: the stop condition and the poll
    /// interval, plus the time limit under `ForATime`.
    pub fn loop_field_count(&self) -> (n: usize)
        ensures
            n == if self.loop_until == LoopUntil::ForATime {
                3int
            } else {
                2int
            },
    {
        if self.loop_until == LoopUntil::ForATime {
            3
        } else {
            2
        }
    }
}

/// Where the automations screen is: the list, one of the two form modes,
/// the chat selector, or the loop-policy form.
#[derive(Debug)]
pub enum ScreenState {
    List,
    EditingAutomation(AutomationForm),
    AddingAutomation(AutomationForm),
    SelectingChats(AutomationForm, ChatSelector),
    ConfiguringLoop(AutomationForm),
}

/// What the caller must do after a key press was handled.
#[derive(Debug)]
pub enum ScreenAction {
    /// Nothing beyond redrawing.
    Redraw,
    /// Leave the screen.
    Exit,
    /// Persist the automations to the configuration and keep going.
    Save,
    /// Fetch one page of chats from this cursor and hand the page to
    /// `chats_loaded`.
    LoadChats(Option<String>),
}

/// The automations screen.
#[derive(Debug)]
pub struct NotificationScreen {
    pub automations: Vec<NotificationAutomation>,
    pub selected_index: usize,
    pub message: String,
    pub state: ScreenState,
}

impl NotificationScreen {
    /// The list cursor stays on a rule while there are any.
    pub open spec fn list_wf(self) -> bool {
        if self.automations@.len() == 0 {
            self.selected_index == 0
        } else {
            self.selected_index < self.automations@.len()
        }
    }

    /// A fresh screen over the configured rules, on the list.
    pub fn new(automations: Vec<NotificationAutomation>) -> (r: Self)
        ensures
            r.automations == automations,
            r.selected_index == 0,
            r.message@.len() == 0,
            r.state is List,
            r.list_wf(),
    {
        NotificationScreen {
            automations,
            selected_index: 0,
            message: String::new(),
            state: ScreenState::List,
        }
    }

    /// Writes the screen's rules into the configuration, leaving the API
    /// settings alone. Persisting the file is the caller's business.
    pub fn save_to_config(&self, config: &mut Config)
        ensures
            final(config).api == old(config).api,
            final(config).notifications.automations@.len() == self.automations@.len(),
            forall|i: int|
                0 <= i < self.automations@.len() ==> same_rule(
                    #[trigger] final(config).notifications.automations@[i],
                    self.automations@[i],
                ),
    {
        let mut rules: Vec<NotificationAutomation> = Vec::new();
        let mut i: usize = 0;
        while i < self.automations.len()
            invariant
                i <= self.automations@.len(),
                rules@.len() == i,
                forall|j: int|
                    0 <= j < i ==> same_rule(#[trigger] rules@[j], self.automations@[j]),
            decreases self.automations@.len() - i,
        {
            rules.push(self.automations[i].duplicate());
            i += 1;
        }
        config.notifications.automations = rules;
    }

    /// One key on the rule list: the arrows move the cursor with
    /// wraparound, `n` opens an empty form, enter opens the selected
    /// rule's form, `d` deletes the selected rule — the caller persists —
    /// and escape or `q` leaves the screen.
    pub fn handle_list_key(&mut self, key: Key) -> (a: ScreenAction)
        requires
            old(self).list_wf(),
        ensures
            final(self).list_wf(),
            match key {
                Key::Esc => a is Exit && *final(self) == *old(self),
                Key::Up => {
                    &&& a is Redraw
                    &&& final(self).automations == old(self).automations
                    &&& final(self).message == old(self).message
                    &&& final(self).state == old(self).state
                    &&& final(self).selected_index as int == if old(self).selected_index > 0 {
                        old(self).selected_index - 1
                    } else if old(self).automations@.len() > 0 {
                        old(self).automations@.len() - 1
                    } else {
                        0int
                    }
                },
                Key::Down => {
                    &&& a is Redraw
                    &&& final(self).automations == old(self).automations
                    &&& final(self).message == old(self).message
                    &&& final(self).state == old(self).state
                    &&& final(self).selected_index as int == if old(self).automations@.len() > 0 {
                        (old(self).selected_index + 1) % (old(self).automations@.len() as int)
                    } else {
                        old(self).selected_index as int
                    }
                },
                Key::Enter => {
                    &&& a is Redraw
                    &&& final(self).automations == old(self).automations
                    &&& final(self).message == old(self).message
                    &&& final(self).selected_index == old(self).selected_index
                    &&& if old(self).automations@.len() > 0 {
                        match final(self).state {
                            ScreenState::EditingAutomation(f) => form_of_rule(
                                old(self).automations@[old(self).selected_index as int],
                                f,
                            ),
                            _ => false,
                        }
                    } else {
                        final(self).state == old(self).state
                    }
                },
                Key::Char(c) => if c == 'q' {
                    a is Exit && *final(self) == *old(self)
                } else if c == 'n' || c == 'N' {
                    &&& a is Redraw
                    &&& final(self).automations == old(self).automations
                    &&& final(self).message == old(self).message
                    &&& final(self).selected_index == old(self).selected_index
                    &&& match final(self).state {
                        ScreenState::AddingAutomation(f) => fresh_form(f),
                        _ => false,
                    }
                } else if c == 'd' || c == 'D' {
                    if old(self).automations@.len() == 0 {
                        a is Redraw && *final(self) == *old(self)
                    } else {
                        &&& a is Save
                        &&& final(self).automations@ == old(self).automations@.remove(
                            old(self).selected_index as int,
                        )
                        &&& final(self).selected_index as int == if old(self).selected_index
                            + 1 == old(self).automations@.len() && old(self).selected_index > 0 {
                            old(self).selected_index - 1
                        } else {
                            old(self).selected_index as int
                        }
                        &&& final(self).message@ == "Deleted automation: "@ + old(
                            self,
                        ).automations@[old(self).selected_index as int].name@
                        &&& final(self).state == old(self).state
                    }
                } else {
                    a is Redraw && *final(self) == *old(self)
                },
                _ => a is Redraw && *final(self) == *old(self),
            },
    {
        match key {
            Key::Esc => ScreenAction::Exit,
            Key::Up => {
                if self.selected_index > 0 {
                    self.selected_index = self.selected_index - 1;
                } else if self.automations.len() > 0 {
                    self.selected_index = self.automations.len() - 1;
                }
                ScreenAction::Redraw
            },
            Key::Down => {
                if self.automations.len() > 0 {
                    self.selected_index = (self.selected_index + 1) % self.automations.len();
                }
                ScreenAction::Redraw
            },
            Key::Enter => {
                if self.automations.len() > 0 {
                    let form = AutomationForm::from_automation(&self.automations[self.selected_index]);
                    self.state = ScreenState::EditingAutomation(form);
                }
                ScreenAction::Redraw
            },
            Key::Char(c) => {
                if c == 'q' {
                    ScreenAction::Exit
                } else if c == 'n' || c == 'N' {
                    self.state = ScreenState::AddingAutomation(AutomationForm::new());
                    ScreenAction::Redraw
                } else if c == 'd' || c == 'D' {
                    if self.automations.len() == 0 {
                        ScreenAction::Redraw
                    } else {
                        let deleted = self.automations.remove(self.selected_index);
                        if self.selected_index >= self.automations.len() && self.selected_index > 0 {
                            self.selected_index = self.selected_index - 1;
                        }
                        self.message = "Deleted automation: ".to_owned().concat(
                            deleted.name.as_str(),
                        );
                        ScreenAction::Save
                    }
                } else {
                    ScreenAction::Redraw
                }
            },
            _ => ScreenAction::Redraw,
        }
    }

    /// One key on the rule form: tab and the arrows move between fields,
    /// space toggles the kind and the flags, characters and backspace
    /// edit the name and the sound, and enter acts on the field the
    /// cursor is on — opening the chat selector or the loop-policy form,
    /// or submitting the rule, which the caller persists. Escape abandons
    /// the form.
    pub fn handle_form_key(&mut self, form: AutomationForm, is_editing: bool, key: Key) -> (a:
        ScreenAction)
        ensures
            final(self).selected_index == old(self).selected_index,
            match key {
                Key::Esc => {
                    &&& a is Redraw
                    &&& final(self).automations == old(self).automations
                    &&& final(self).message@.len() == 0
                    &&& final(self).state is List
                },
                Key::Enter => if form.selected_field == 1 {
                    &&& a == ScreenAction::LoadChats(None::<String>)
                    &&& final(self).automations == old(self).automations
                    &&& final(self).message == old(self).message
                    &&& match final(self).state {
                        ScreenState::SelectingChats(f2, s) => {
                            &&& f2 == form
                            &&& s.available_chats@.len() == 0
                            &&& s.filter@.len() == 0
                            &&& s.selected_index == 0
                            &&& s.scroll_offset == 0
                            &&& s.loading
                            &&& s.cursor is None
                            &&& s.has_more
                        },
                        _ => false,
                    }
                } else if form.selected_field == 2 && form.automation_type
                    == AutomationType::Loop {
                    &&& a is Redraw
                    &&& final(self).automations == old(self).automations
                    &&& final(self).message == old(self).message
                    &&& final(self).state == ScreenState::ConfiguringLoop(form)
                } else if form.name@.len() == 0 {
                    &&& a is Redraw
                    &&& final(self).automations == old(self).automations
                    &&& final(self).message@ == "Name cannot be empty!"@
                    &&& final(self).state == form_state(is_editing, form)
                } else {
                    &&& a is Save
                    &&& final(self).state is List
                    &&& exists|r: NotificationAutomation|
                        #[trigger] built_rule(form, r) && (if is_editing {
                            if (exists|k: int|
                                0 <= k < old(self).automations@.len() && (#[trigger] old(
                                    self,
                                ).automations@[k]).id@ == r.id@) {
                                &&& final(self).message@ == "Automation updated!"@
                                &&& exists|p: int|
                                    {
                                        &&& 0 <= p < old(self).automations@.len()
                                        &&& (#[trigger] old(self).automations@[p]).id@ == r.id@
                                        &&& forall|k2: int|
                                            0 <= k2 < p ==> (#[trigger] old(
                                                self,
                                            ).automations@[k2]).id@ != r.id@
                                        &&& final(self).automations@ == old(
                                            self,
                                        ).automations@.update(p, r)
                                    }
                            } else {
                                &&& final(self).automations@ == old(self).automations@
                                &&& final(self).message == old(self).message
                            }
                        } else {
                            &&& final(self).automations@ == old(self).automations@.push(r)
                            &&& final(self).message@ == "Automation created!"@
                        })
                },
                Key::Tab | Key::Down => {
                    &&& a is Redraw
                    &&& final(self).automations == old(self).automations
                    &&& final(self).message == old(self).message
                    &&& ({
                        let of2 = form_in_state(final(self).state, is_editing);
                        &&& of2 is Some
                        &&& form_eq_but_cursor(of2->Some_0, form)
                        &&& of2->Some_0.selected_field as int == (form.selected_field + 1) % 6
                    })
                },
                Key::BackTab | Key::Up => {
                    &&& a is Redraw
                    &&& final(self).automations == old(self).automations
                    &&& final(self).message == old(self).message
                    &&& ({
                        let of2 = form_in_state(final(self).state, is_editing);
                        &&& of2 is Some
                        &&& form_eq_but_cursor(of2->Some_0, form)
                        &&& of2->Some_0.selected_field as int == if form.selected_field > 0 {
                            form.selected_field - 1
                        } else {
                            5int
                        }
                    })
                },
                Key::Backspace => {
                    &&& a is Redraw
                    &&& final(self).automations == old(self).automations
                    &&& final(self).message == old(self).message
                    &&& ({
                        let of2 = form_in_state(final(self).state, is_editing);
                        &&& of2 is Some
                        &&& form_eq_but_texts(of2->Some_0, form)
                        &&& if form.selected_field == 0 {
                            of2->Some_0.name@ == (if form.name@.len() > 0 {
                                form.name@.drop_last()
                            } else {
                                form.name@
                            }) && of2->Some_0.notification_sound == form.notification_sound
                        } else if form.selected_field == 3 {
                            of2->Some_0.notification_sound@ == (if form.notification_sound@.len()
                                > 0 {
                                form.notification_sound@.drop_last()
                            } else {
                                form.notification_sound@
                            }) && of2->Some_0.name == form.name
                        } else {
                            of2->Some_0.name == form.name && of2->Some_0.notification_sound
                                == form.notification_sound
                        }
                    })
                },
                Key::Char(c) => if c == ' ' {
                    &&& a is Redraw
                    &&& final(self).automations == old(self).automations
                    &&& final(self).message == old(self).message
                    &&& ({
                        let of2 = form_in_state(final(self).state, is_editing);
                        &&& of2 is Some
                        &&& form_eq_but_toggles(of2->Some_0, form)
                        &&& if form.selected_field == 2 {
                            of2->Some_0.automation_type == (match form.automation_type {
                                AutomationType::Immediate => AutomationType::Loop,
                                AutomationType::Loop => AutomationType::Immediate,
                            }) && of2->Some_0.focus_chat == form.focus_chat
                                && of2->Some_0.enabled == form.enabled
                        } else if form.selected_field == 4 {
                            of2->Some_0.focus_chat == !form.focus_chat
                                && of2->Some_0.automation_type == form.automation_type
                                && of2->Some_0.enabled == form.enabled
                        } else if form.selected_field == 5 {
                            of2->Some_0.enabled == !form.enabled && of2->Some_0.automation_type
                                == form.automation_type && of2->Some_0.focus_chat
                                == form.focus_chat
                        } else {
                            of2->Some_0.automation_type == form.automation_type
                                && of2->Some_0.focus_chat == form.focus_chat
                                && of2->Some_0.enabled == form.enabled
                        }
                    })
                } else {
                    &&& a is Redraw
                    &&& final(self).automations == old(self).automations
                    &&& final(self).message == old(self).message
                    &&& ({
                        let of2 = form_in_state(final(self).state, is_editing);
                        &&& of2 is Some
                        &&& form_eq_but_texts(of2->Some_0, form)
                        &&& if form.selected_field == 0 {
                            of2->Some_0.name@ == form.name@.push(c)
                                && of2->Some_0.notification_sound == form.notification_sound
                        } else if form.selected_field == 3 {
                            of2->Some_0.notification_sound@ == form.notification_sound@.push(c)
                                && of2->Some_0.name == form.name
                        } else {
                            of2->Some_0.name == form.name && of2->Some_0.notification_sound
                                == form.notification_sound
                        }
                    })
                },
            },
    {
        let mut form = form;
        match key {
            Key::Esc => {
                self.state = ScreenState::List;
                self.message = String::new();
                ScreenAction::Redraw
            },
            Key::Enter => {
                if form.selected_field == 1 {
                    let mut selector = ChatSelector::new();
                    selector.loading = true;
                    self.state = ScreenState::SelectingChats(form, selector);
                    return ScreenAction::LoadChats(None);
                }
                if form.selected_field == 2 && form.automation_type == AutomationType::Loop {
                    self.state = ScreenState::ConfiguringLoop(form);
                    return ScreenAction::Redraw;
                }
                if form.name.as_str().is_empty() {
                    self.message = "Name cannot be empty!".to_owned();
                    self.state = if is_editing {
                        ScreenState::EditingAutomation(form)
                    } else {
                        ScreenState::AddingAutomation(form)
                    };
                    return ScreenAction::Redraw;
                }
                let automation = form.to_automation();
                proof {
                    assert(built_rule(form, automation));
                }
                if is_editing {
                    match find_rule_position(&self.automations, &automation.id) {
                        Some(pos) => {
                            self.automations.set(pos, automation);
                            self.message = "Automation updated!".to_owned();
                        },
                        None => {},
                    }
                } else {
                    self.automations.push(automation);
                    self.message = "Automation created!".to_owned();
                }
                self.state = ScreenState::List;
                ScreenAction::Save
            },
            Key::Tab | Key::Down => {
                let ghost sf0 = form.selected_field as int;
                let bumped = form.selected_field % 6 + 1;
                form.selected_field = bumped % 6;
                proof {
                    vstd::arithmetic::div_mod::lemma_add_mod_noop(sf0, 1, 6);
                }
                self.state = if is_editing {
                    ScreenState::EditingAutomation(form)
                } else {
                    ScreenState::AddingAutomation(form)
                };
                ScreenAction::Redraw
            },
            Key::BackTab | Key::Up => {
                if form.selected_field > 0 {
                    form.selected_field = form.selected_field - 1;
                } else {
                    form.selected_field = 5;
                }
                self.state = if is_editing {
                    ScreenState::EditingAutomation(form)
                } else {
                    ScreenState::AddingAutomation(form)
                };
                ScreenAction::Redraw
            },
            Key::Backspace => {
                if form.selected_field == 0 {
                    let _ = pop_char(&mut form.name);
                } else if form.selected_field == 3 {
                    let _ = pop_char(&mut form.notification_sound);
                }
                self.state = if is_editing {
                    ScreenState::EditingAutomation(form)
                } else {
                    ScreenState::AddingAutomation(form)
                };
                ScreenAction::Redraw
            },
            Key::Char(c) => {
                if c == ' ' {
                    if form.selected_field == 2 {
                        form.automation_type = match form.automation_type {
                            AutomationType::Immediate => AutomationType::Loop,
                            AutomationType::Loop => AutomationType::Immediate,
                        };
                    } else if form.selected_field == 4 {
                        form.focus_chat = !form.focus_chat;
                    } else if form.selected_field == 5 {
                        form.enabled = !form.enabled;
                    }
                } else {
                    if form.selected_field == 0 {
                        push_char(&mut form.name, c);
                    } else if form.selected_field == 3 {
                        push_char(&mut form.notification_sound, c);
                    }
                }
                self.state = if is_editing {
                    ScreenState::EditingAutomation(form)
                } else {
                    ScreenState::AddingAutomation(form)
                };
                ScreenAction::Redraw
            },
        }
    }

    /// One key on the loop-policy form: tab and the arrows move between
    /// the fields, space cycles the stop condition, digits edit the time
    /// fields, enter validates — under `ForATime` a time limit is
    /// required — and returns to the rule form, as escape does without
    /// validating.
    pub fn handle_loop_config_key(&mut self, form: AutomationForm, key: Key) -> (a: ScreenAction)
        ensures
            final(self).automations == old(self).automations,
            final(self).selected_index == old(self).selected_index,
            a is Redraw,
            match key {
                Key::Esc => final(self).message == old(self).message && final(self).state == (
                if form.id is Some {
                    ScreenState::EditingAutomation(form)
                } else {
                    ScreenState::AddingAutomation(form)
                }),
                Key::Enter => if form.loop_until == LoopUntil::ForATime && form.loop_time@.len()
                    == 0 {
                    &&& final(self).message@
                        == "Loop Time is required when 'For A Time' is selected!"@
                    &&& final(self).state == ScreenState::ConfiguringLoop(form)
                } else {
                    &&& final(self).message@ == "Loop settings configured!"@
                    &&& final(self).state == (if form.id is Some {
                        ScreenState::EditingAutomation(form)
                    } else {
                        ScreenState::AddingAutomation(form)
                    })
                },
                Key::Tab | Key::Down => final(self).message == old(self).message && final(self).state == ScreenState::ConfiguringLoop(
                    AutomationForm {
                        selected_field: ((form.selected_field as int + 1) % (
                        if form.loop_until == LoopUntil::ForATime {
                            3int
                        } else {
                            2int
                        })) as usize,
                        ..form
                    },
                ),
                Key::BackTab | Key::Up => final(self).message == old(self).message && final(self).state == ScreenState::ConfiguringLoop(
                    AutomationForm {
                        selected_field: (if form.selected_field > 0 {
                            form.selected_field - 1
                        } else {
                            (if form.loop_until == LoopUntil::ForATime {
                                3int
                            } else {
                                2int
                            }) - 1
                        }) as usize,
                        ..form
                    },
                ),
                Key::Char(c) => if c == ' ' {
                    final(self).message == old(self).message && final(self).state
                        == ScreenState::ConfiguringLoop(
                        if form.selected_field == 0 {
                            AutomationForm {
                                loop_until: match form.loop_until {
                                    LoopUntil::MessageSeen => LoopUntil::Answer,
                                    LoopUntil::Answer => LoopUntil::ForATime,
                                    LoopUntil::ForATime => LoopUntil::MessageSeen,
                                },
                                ..form
                            }
                        } else {
                            form
                        },
                    )
                } else {
                    final(self).message == old(self).message && (match final(self).state {
                        ScreenState::ConfiguringLoop(f2) => {
                            &&& if 48 <= c as u32 <= 57 {
                                if form.loop_until == LoopUntil::ForATime && form.selected_field
                                    == 1 {
                                    f2.loop_time@ == form.loop_time@.push(c) && f2.check_interval
                                        == form.check_interval
                                } else if form.loop_until == LoopUntil::ForATime
                                    && form.selected_field == 2 {
                                    f2.check_interval@ == form.check_interval@.push(c)
                                        && f2.loop_time == form.loop_time
                                } else if form.loop_until != LoopUntil::ForATime
                                    && form.selected_field == 1 {
                                    f2.check_interval@ == form.check_interval@.push(c)
                                        && f2.loop_time == form.loop_time
                                } else {
                                    f2.loop_time == form.loop_time && f2.check_interval
                                        == form.check_interval
                                }
                            } else {
                                f2.loop_time == form.loop_time && f2.check_interval
                                    == form.check_interval
                            }
                            &&& f2.id == form.id
                            &&& f2.name == form.name
                            &&& f2.chat_ids@ == form.chat_ids@
                            &&& f2.automation_type == form.automation_type
                            &&& f2.loop_until == form.loop_until
                            &&& f2.notification_sound == form.notification_sound
                            &&& f2.focus_chat == form.focus_chat
                            &&& f2.enabled == form.enabled
                            &&& f2.selected_field == form.selected_field
                        },
                        _ => false,
                    })
                },
                Key::Backspace => final(self).message == old(self).message && (
                match final(self).state {
                    ScreenState::ConfiguringLoop(f2) => {
                        &&& if form.loop_until == LoopUntil::ForATime && form.selected_field == 1 {
                            f2.loop_time@ == (if form.loop_time@.len() > 0 {
                                form.loop_time@.drop_last()
                            } else {
                                form.loop_time@
                            }) && f2.check_interval == form.check_interval
                        } else if form.loop_until == LoopUntil::ForATime && form.selected_field
                            == 2 {
                            f2.check_interval@ == (if form.check_interval@.len() > 0 {
                                form.check_interval@.drop_last()
                            } else {
                                form.check_interval@
                            }) && f2.loop_time == form.loop_time
                        } else if form.loop_until != LoopUntil::ForATime && form.selected_field
                            == 1 {
                            f2.check_interval@ == (if form.check_interval@.len() > 0 {
                                form.check_interval@.drop_last()
                            } else {
                                form.check_interval@
                            }) && f2.loop_time == form.loop_time
                        } else {
                            f2.loop_time == form.loop_time && f2.check_interval
                                == form.check_interval
                        }
                        &&& f2.id == form.id
                        &&& f2.name == form.name
                        &&& f2.chat_ids@ == form.chat_ids@
                        &&& f2.automation_type == form.automation_type
                        &&& f2.loop_until == form.loop_until
                        &&& f2.notification_sound == form.notification_sound
                        &&& f2.focus_chat == form.focus_chat
                        &&& f2.enabled == form.enabled
                        &&& f2.selected_field == form.selected_field
                    },
                    _ => false,
                }),
                _ => final(self).message == old(self).message && final(self).state
                    == ScreenState::ConfiguringLoop(form),
            },
    {
        let mut form = form;
        match key {
            Key::Esc => {
                self.state = if form.id.is_some() {
                    ScreenState::EditingAutomation(form)
                } else {
                    ScreenState::AddingAutomation(form)
                };
                ScreenAction::Redraw
            },
            Key::Enter => {
                if form.loop_until == LoopUntil::ForATime && form.loop_time.as_str().is_empty() {
                    self.message =
                        "Loop Time is required when 'For A Time' is selected!".to_owned();
                    self.state = ScreenState::ConfiguringLoop(form);
                } else {
                    self.message = "Loop settings configured!".to_owned();
                    self.state = if form.id.is_some() {
                        ScreenState::EditingAutomation(form)
                    } else {
                        ScreenState::AddingAutomation(form)
                    };
                }
                ScreenAction::Redraw
            },
            Key::Tab | Key::Down => {
                let ghost sf0 = form.selected_field as int;
                let max_field = form.loop_field_count();
                let bumped = form.selected_field % max_field + 1;
                form.selected_field = bumped % max_field;
                proof {
                    vstd::arithmetic::div_mod::lemma_add_mod_noop(sf0, 1, max_field as int);
                }
                self.state = ScreenState::ConfiguringLoop(form);
                ScreenAction::Redraw
            },
            Key::BackTab | Key::Up => {
                let max_field = form.loop_field_count();
                if form.selected_field > 0 {
                    form.selected_field = form.selected_field - 1;
                } else {
                    form.selected_field = max_field - 1;
                }
                self.state = ScreenState::ConfiguringLoop(form);
                ScreenAction::Redraw
            },
            Key::Backspace => {
                let is_for_time = form.loop_until == LoopUntil::ForATime;
                if is_for_time && form.selected_field == 1 {
                    let _ = pop_char(&mut form.loop_time);
                } else if is_for_time && form.selected_field == 2 {
                    let _ = pop_char(&mut form.check_interval);
                } else if !is_for_time && form.selected_field == 1 {
                    let _ = pop_char(&mut form.check_interval);
                }
                self.state = ScreenState::ConfiguringLoop(form);
                ScreenAction::Redraw
            },
            Key::Char(c) => {
                if c == ' ' {
                    if form.selected_field == 0 {
                        form.loop_until = match form.loop_until {
                            LoopUntil::MessageSeen => LoopUntil::Answer,
                            LoopUntil::Answer => LoopUntil::ForATime,
                            LoopUntil::ForATime => LoopUntil::MessageSeen,
                        };
                    }
                } else {
                    let cu = c as u32;
                    if 48 <= cu && cu <= 57 {
                        let is_for_time = form.loop_until == LoopUntil::ForATime;
                        if is_for_time && form.selected_field == 1 {
                            push_char(&mut form.loop_time, c);
                        } else if is_for_time && form.selected_field == 2 {
                            push_char(&mut form.check_interval, c);
                        } else if !is_for_time && form.selected_field == 1 {
                            push_char(&mut form.check_interval, c);
                        }
                    }
                }
                self.state = ScreenState::ConfiguringLoop(form);
                ScreenAction::Redraw
            },
            _ => {
                self.state = ScreenState::ConfiguringLoop(form);
                ScreenAction::Redraw
            },
        }
    }

    /// One key on the chat selector: the arrows move the cursor and keep
    /// it visible, nearing the end of an unfiltered list asks the caller
    /// for the next page, enter adds the highlighted chat to the form
    /// once, space or `d` removes the last added chat, typing and
    /// backspace edit the filter, and escape returns to the rule form.
    pub fn handle_chat_selector_key(
        &mut self,
        form: AutomationForm,
        selector: ChatSelector,
        key: Key,
    ) -> (a: ScreenAction)
        ensures
            final(self).automations == old(self).automations,
            final(self).selected_index == old(self).selected_index,
            final(self).message == old(self).message,
            match key {
                Key::Esc => a is Redraw && final(self).state == form_state(
                    form.id is Some,
                    form,
                ),
                Key::Enter => {
                    &&& a is Redraw
                    &&& match final(self).state {
                        ScreenState::SelectingChats(f2, s2) => {
                            &&& s2 == selector
                            &&& ({
                                let shown = spec_shown(selector);
                                if shown.len() > 0 && selector.selected_index < shown.len() {
                                    let cid = shown[selector.selected_index as int].0;
                                    &&& form_eq_but_chats(f2, form)
                                    &&& f2.chat_ids@ == if str_seq_contains(
                                        form.chat_ids@,
                                        cid@,
                                    ) {
                                        form.chat_ids@
                                    } else {
                                        form.chat_ids@.push(cid)
                                    }
                                } else {
                                    f2 == form
                                }
                            })
                        },
                        _ => false,
                    }
                },
                Key::Up => {
                    &&& a is Redraw
                    &&& match final(self).state {
                        ScreenState::SelectingChats(f2, s2) => {
                            &&& f2 == form
                            &&& sel_eq_but_nav(s2, selector)
                            &&& if selector.selected_index > 0 {
                                s2.selected_index == selector.selected_index - 1
                                    && s2.scroll_offset == (
                                if selector.selected_index - 1 < selector.scroll_offset {
                                    (selector.selected_index - 1) as usize
                                } else {
                                    selector.scroll_offset
                                })
                            } else {
                                s2.selected_index == selector.selected_index && s2.scroll_offset
                                    == selector.scroll_offset
                            }
                        },
                        _ => false,
                    }
                },
                Key::Down => {
                    let shown = spec_shown(selector);
                    let sel1: int = if shown.len() > 0 && selector.selected_index < shown.len()
                        - 1 {
                        selector.selected_index + 1
                    } else {
                        selector.selected_index as int
                    };
                    let near_end: bool = sel1 >= (if selector.available_chats@.len() >= 5 {
                        selector.available_chats@.len() - 5
                    } else {
                        0int
                    });
                    let load: bool = selector.filter@.len() == 0 && selector.has_more
                        && !selector.loading && near_end;
                    &&& (if load {
                        a == ScreenAction::LoadChats(selector.cursor)
                    } else {
                        a is Redraw
                    })
                    &&& match final(self).state {
                        ScreenState::SelectingChats(f2, s2) => {
                            &&& f2 == form
                            &&& s2.available_chats@ == selector.available_chats@
                            &&& s2.filter == selector.filter
                            &&& s2.cursor == selector.cursor
                            &&& s2.has_more == selector.has_more
                            &&& s2.scroll_offset == selector.scroll_offset
                            &&& s2.selected_index as int == sel1
                            &&& s2.loading == (selector.loading || load)
                        },
                        _ => false,
                    }
                },
                Key::Backspace => {
                    &&& a is Redraw
                    &&& match final(self).state {
                        ScreenState::SelectingChats(f2, s2) => {
                            &&& f2 == form
                            &&& sel_eq_but_filter(s2, selector)
                            &&& s2.filter@ == (if selector.filter@.len() > 0 {
                                selector.filter@.drop_last()
                            } else {
                                selector.filter@
                            })
                            &&& s2.selected_index == 0
                            &&& s2.scroll_offset == 0
                        },
                        _ => false,
                    }
                },
                Key::Char(c) => if c == ' ' || c == 'd' || c == 'D' {
                    &&& a is Redraw
                    &&& match final(self).state {
                        ScreenState::SelectingChats(f2, s2) => {
                            &&& s2 == selector
                            &&& form_eq_but_chats(f2, form)
                            &&& f2.chat_ids@ == (if form.chat_ids@.len() > 0 {
                                form.chat_ids@.drop_last()
                            } else {
                                form.chat_ids@
                            })
                        },
                        _ => false,
                    }
                } else {
                    &&& a is Redraw
                    &&& match final(self).state {
                        ScreenState::SelectingChats(f2, s2) => {
                            &&& f2 == form
                            &&& sel_eq_but_filter(s2, selector)
                            &&& s2.filter@ == selector.filter@.push(c)
                            &&& s2.selected_index == 0
                            &&& s2.scroll_offset == 0
                        },
                        _ => false,
                    }
                },
                _ => a is Redraw && final(self).state == ScreenState::SelectingChats(
                    form,
                    selector,
                ),
            },
    {
        let mut form = form;
        let mut selector = selector;
        match key {
            Key::Esc => {
                self.state = if form.id.is_some() {
                    ScreenState::EditingAutomation(form)
                } else {
                    ScreenState::AddingAutomation(form)
                };
                ScreenAction::Redraw
            },
            Key::Enter => {
                let shown = selector.filtered_chats();
                if shown.len() > 0 && selector.selected_index < shown.len() {
                    let cid = &shown[selector.selected_index].0;
                    if !contains_id(&form.chat_ids, cid) {
                        form.chat_ids.push(cid.clone());
                    }
                }
                self.state = ScreenState::SelectingChats(form, selector);
                ScreenAction::Redraw
            },
            Key::Up => {
                if selector.selected_index > 0 {
                    selector.selected_index = selector.selected_index - 1;
                    if selector.selected_index < selector.scroll_offset {
                        selector.scroll_offset = selector.selected_index;
                    }
                }
                self.state = ScreenState::SelectingChats(form, selector);
                ScreenAction::Redraw
            },
            Key::Down => {
                let shown = selector.filtered_chats();
                if shown.len() > 0 && selector.selected_index < shown.len() - 1 {
                    selector.selected_index = selector.selected_index + 1;
                }
                let threshold = if selector.available_chats.len() >= 5 {
                    selector.available_chats.len() - 5
                } else {
                    0
                };
                let load = selector.filter.as_str().is_empty() && selector.has_more
                    && !selector.loading && selector.selected_index >= threshold;
                if load {
                    let cursor = match &selector.cursor {
                        Some(cur) => Some(cur.clone()),
                        None => None,
                    };
                    selector.loading = true;
                    self.state = ScreenState::SelectingChats(form, selector);
                    ScreenAction::LoadChats(cursor)
                } else {
                    self.state = ScreenState::SelectingChats(form, selector);
                    ScreenAction::Redraw
                }
            },
            Key::Backspace => {
                let _ = pop_char(&mut selector.filter);
                selector.selected_index = 0;
                selector.scroll_offset = 0;
                self.state = ScreenState::SelectingChats(form, selector);
                ScreenAction::Redraw
            },
            Key::Char(c) => {
                if c == ' ' || c == 'd' || c == 'D' {
                    let _ = form.chat_ids.pop();
                    self.state = ScreenState::SelectingChats(form, selector);
                    ScreenAction::Redraw
                } else {
                    push_char(&mut selector.filter, c);
                    selector.selected_index = 0;
                    selector.scroll_offset = 0;
                    self.state = ScreenState::SelectingChats(form, selector);
                    ScreenAction::Redraw
                }
            },
            _ => {
                self.state = ScreenState::SelectingChats(form, selector);
                ScreenAction::Redraw
            },
        }
    }

    /// Hands a fetched page of chats to the selector: the page is
    /// appended, the cursor and the has-more flag are taken over, and
    /// loading ends. Outside the selector the page is dropped.
    pub fn chats_loaded(&mut self, chats: Vec<(String, String)>, cursor: Option<String>, has_more: bool)
        ensures
            final(self).automations == old(self).automations,
            final(self).selected_index == old(self).selected_index,
            final(self).message == old(self).message,
            match old(self).state {
                ScreenState::SelectingChats(f, s) => match final(self).state {
                    ScreenState::SelectingChats(f2, s2) => {
                        &&& f2 == f
                        &&& s2.available_chats@ == s.available_chats@ + chats@
                        &&& s2.cursor == cursor
                        &&& s2.has_more == has_more
                        &&& !s2.loading
                        &&& s2.filter == s.filter
                        &&& s2.selected_index == s.selected_index
                        &&& s2.scroll_offset == s.scroll_offset
                    },
                    _ => false,
                },
                _ => final(self).state == old(self).state,
            },
    {
        let mut st = ScreenState::List;
        core::mem::swap(&mut st, &mut self.state);
        match st {
            ScreenState::SelectingChats(f, s) => {
                let mut s2 = s;
                let mut page = chats;
                s2.available_chats.append(&mut page);
                s2.cursor = cursor;
                s2.has_more = has_more;
                s2.loading = false;
                self.state = ScreenState::SelectingChats(f, s2);
            },
            other => {
                self.state = other;
            },
        }
    }
}

} // verus!
