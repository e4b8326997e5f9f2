//! The configuration: the chat client's API endpoint and the automation
//! rules. Snapshots of this are what the reload channel delivers; reading
//! and writing the file is the caller's business.

use vstd::prelude::*;

use crate::models::NotificationAutomation;

verus! {

/// Connection settings for the chat client's local API.
#[derive(Debug, Clone)]
pub struct ApiConfig {
    pub url: String,
    pub token: String,
}

impl Default for ApiConfig {
    /// The client's default local endpoint, with no token yet.
    fn default() -> (r: Self)
        ensures
            r.url@ == "http://localhost:23373"@,
            r.token@ == Seq::<char>::empty(),
    {
        ApiConfig { url: "http://localhost:23373".to_owned(), token: String::new() }
    }
}

/// The automation rules, in declaration order.
#[derive(Debug, Clone)]
pub struct NotificationsConfig {
    pub automations: Vec<NotificationAutomation>,
}

impl Default for NotificationsConfig {
    fn default() -> (r: Self)
        ensures
            r.automations@ == Seq::<NotificationAutomation>::empty(),
    {
        NotificationsConfig { automations: Vec::new() }
    }
}

/// One configuration snapshot.
#[derive(Debug, Clone)]
pub struct Config {
    pub api: ApiConfig,
    pub notifications: NotificationsConfig,
}

impl Default for Config {
    fn default() -> (r: Self)
        ensures
            r.api.url@ == "http://localhost:23373"@,
            r.api.token@ == Seq::<char>::empty(),
            r.notifications.automations@ == Seq::<NotificationAutomation>::empty(),
    {
        Config { api: ApiConfig::default(), notifications: NotificationsConfig::default() }
    }
}

/// How many of the rules are enabled.
pub open spec fn count_enabled(rules: Seq<NotificationAutomation>) -> nat
    decreases rules.len(),
{
    if rules.len() == 0 {
        0
    } else {
        count_enabled(rules.drop_last()) + if rules.last().enabled {
            1nat
        } else {
            0nat
        }
    }
}

impl Config {
    /// API credentials are configured when both the token and the URL are
    /// set.
    pub fn is_api_configured(&self) -> (b: bool)
        ensures
            b == (self.api.token@.len() > 0 && self.api.url@.len() > 0),
    {
        !self.api.token.as_str().is_empty() && !self.api.url.as_str().is_empty()
    }

    /// Whether `new` moves to another endpoint or token, so that the
    /// client connection must be rebuilt.
    pub fn api_changed(&self, new: &Config) -> (b: bool)
        ensures
            b == (self.api.url@ != new.api.url@ || self.api.token@ != new.api.token@),
    {
        self.api.url != new.api.url || self.api.token != new.api.token
    }

    /// Counts the enabled rules, as the status report shows them.
    pub fn enabled_count(&self) -> (n: usize)
        ensures
            n == count_enabled(self.notifications.automations@),
    {
        let rules = &self.notifications.automations;
        let mut n: usize = 0;
        let mut i: usize = 0;
        while i < rules.len()
            invariant
                i <= rules@.len(),
                n == count_enabled(rules@.take(i as int)),
                n <= i,
            decreases rules@.len() - i,
        {
            proof {
                assert(rules@.take(i + 1 as int).drop_last() =~= rules@.take(i as int));
                assert(rules@.take(i + 1 as int).last() == rules@[i as int]);
            }
            if rules[i].enabled {
                n += 1;
            }
            i += 1;
        }
        proof {
            assert(rules@.take(rules@.len() as int) =~= rules@);
        }
        n
    }
}

} // verus!
