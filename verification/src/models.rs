//! Automation rules: the declarative configuration a user writes.
//!
//! A rule maps a set of chat ids to a notification behaviour. Loop rules
//! re-evaluate a notify condition on a timer until the condition resolves;
//! immediate rules fire once per new message. A rule is well formed when a
//! loop policy is present exactly for loop rules, and a `ForATime` policy
//! carries its time limit.

use vstd::prelude::*;

verus! {

/// Settings for forwarding a notification to an ntfy-style push service.
#[derive(Debug, Clone)]
pub struct NtfyConfig {
    pub enabled: bool,
    pub url: String,
    pub message: String,
    pub priority: u8,
}

/// The priority an ntfy notification gets when none is configured.
pub fn default_priority() -> (r: u8)
    ensures
        r == 5,
{
    5
}

impl Default for NtfyConfig {
    fn default() -> (r: Self)
        ensures
            !r.enabled,
            r.url@ == Seq::<char>::empty(),
            r.message@ == "New message from {sender} in {chat_name}"@,
            r.priority == 5,
    {
        NtfyConfig {
            enabled: false,
            url: String::new(),
            message: "New message from {sender} in {chat_name}".to_owned(),
            priority: 5,
        }
    }
}

/// Whether a rule polls in a loop or fires once per new message.
#[derive(Debug, Clone, Copy, PartialEq, Eq, Structural)]
pub enum AutomationType {
    Loop,
    Immediate,
}

impl AutomationType {
    /// A human-readable name for the variant.
    pub fn label(&self) -> (s: String)
        ensures
            s@ == match *self {
                AutomationType::Loop => "Loop"@,
                AutomationType::Immediate => "Immediate"@,
            },
    {
        match *self {
            AutomationType::Loop => "Loop".to_owned(),
            AutomationType::Immediate => "Immediate".to_owned(),
        }
    }
}

/// The condition under which a loop rule stops notifying.
#[derive(Debug, Clone, Copy, PartialEq, Eq, Structural)]
pub enum LoopUntil {
    MessageSeen,
    Answer,
    ForATime,
}

impl LoopUntil {
    /// A human-readable name for the variant.
    pub fn label(&self) -> (s: String)
        ensures
            s@ == match *self {
                LoopUntil::MessageSeen => "Message Seen"@,
                LoopUntil::Answer => "Answer"@,
                LoopUntil::ForATime => "For A Time"@,
            },
    {
        match *self {
            LoopUntil::MessageSeen => "Message Seen".to_owned(),
            LoopUntil::Answer => "Answer".to_owned(),
            LoopUntil::ForATime => "For A Time".to_owned(),
        }
    }
}

/// How a loop rule polls: the stop condition, its optional time limit in
/// milliseconds, and the poll interval in milliseconds.
#[derive(Debug, Clone, Copy)]
pub struct LoopConfig {
    pub until: LoopUntil,
    pub time: Option<u64>,
    pub check_interval: u64,
}

impl LoopConfig {
    /// A `ForATime` policy must carry its time limit.
    pub open spec fn is_well_formed(self) -> bool {
        self.until == LoopUntil::ForATime ==> self.time is Some
    }
}

/// The poll interval a loop rule gets when none is configured.
pub fn default_check_interval() -> (r: u64)
    ensures
        r == 3000,
{
    3000
}

impl NtfyConfig {
    /// A field-for-field copy.
    pub fn duplicate(&self) -> (r: Self)
        ensures
            r == *self,
    {
        NtfyConfig {
            enabled: self.enabled,
            url: self.url.clone(),
            message: self.message.clone(),
            priority: self.priority,
        }
    }
}

/// One user-declared automation rule. Identity is `id`: two rules are the
/// same automation across reloads exactly when their ids match.
#[derive(Debug, Clone)]
pub struct NotificationAutomation {
    pub id: String,
    pub name: String,
    pub chat_ids: Vec<String>,
    pub automation_type: AutomationType,
    pub notification_sound: Option<String>,
    pub focus_chat: bool,
    pub loop_config: Option<LoopConfig>,
    pub enabled: bool,
    pub ntfy_config: Option<NtfyConfig>,
}

/// The two rules have the same observable content: every field agrees,
/// with the chat id list compared element by element.
pub open spec fn same_rule(a: NotificationAutomation, b: NotificationAutomation) -> bool {
    &&& a.id == b.id
    &&& a.name == b.name
    &&& a.chat_ids@ == b.chat_ids@
    &&& a.automation_type == b.automation_type
    &&& a.notification_sound == b.notification_sound
    &&& a.focus_chat == b.focus_chat
    &&& a.loop_config == b.loop_config
    &&& a.enabled == b.enabled
    &&& a.ntfy_config == b.ntfy_config
}

impl NotificationAutomation {
    /// A loop policy is present exactly for loop rules, and is itself well
    /// formed. A rule failing this is misconfigured and is skipped by
    /// reconciliation.
    pub open spec fn is_well_formed(self) -> bool {
        match self.automation_type {
            AutomationType::Loop => match self.loop_config {
                Some(lc) => lc.is_well_formed(),
                None => false,
            },
            AutomationType::Immediate => self.loop_config is None,
        }
    }

    /// Decides `is_well_formed` executably.
    pub fn check_well_formed(&self) -> (b: bool)
        ensures
            b == self.is_well_formed(),
    {
        match self.automation_type {
            AutomationType::Loop => match &self.loop_config {
                Some(lc) => !(lc.until == LoopUntil::ForATime) || lc.time.is_some(),
                None => false,
            },
            AutomationType::Immediate => self.loop_config.is_none(),
        }
    }

    /// A field-for-field copy; only the chat id list is a fresh
    /// allocation, with the same contents.
    pub fn duplicate(&self) -> (r: Self)
        ensures
            same_rule(r, *self),
    {
        NotificationAutomation {
            id: self.id.clone(),
            name: self.name.clone(),
            chat_ids: crate::text::clone_ids(&self.chat_ids),
            automation_type: self.automation_type,
            notification_sound: match &self.notification_sound {
                Some(p) => Some(p.clone()),
                None => None,
            },
            focus_chat: self.focus_chat,
            loop_config: self.loop_config,
            enabled: self.enabled,
            ntfy_config: match &self.ntfy_config {
                Some(n) => Some(n.duplicate()),
                None => None,
            },
        }
    }

    /// A fresh immediate rule over the given chats: enabled, with no sound,
    /// no focus action, and no loop policy.
    pub fn new(id: String, name: String, chat_ids: Vec<String>) -> (r: Self)
        ensures
            r.id@ == id@,
            r.name@ == name@,
            r.chat_ids@ == chat_ids@,
            r.automation_type == AutomationType::Immediate,
            r.notification_sound is None,
            !r.focus_chat,
            r.loop_config is None,
            r.enabled,
            r.ntfy_config is None,
            r.is_well_formed(),
    {
        NotificationAutomation {
            id,
            name,
            chat_ids,
            automation_type: AutomationType::Immediate,
            notification_sound: None,
            focus_chat: false,
            loop_config: None,
            enabled: true,
            ntfy_config: None,
        }
    }
}

} // verus!
