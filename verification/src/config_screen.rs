//! The configuration screen's state: the URL and token inputs, which one
//! is active, and a status message. Drawing and saving happen outside the
//! library; keys come in as plain values.

use vstd::prelude::*;

use crate::config::{ApiConfig, Config};
use crate::keys::Key;
use crate::text::{push_char, pop_char};

verus! {

/// Which input the cursor is in.
#[derive(Debug, Clone, Copy, PartialEq, Eq, Structural)]
pub enum InputField {
    Url,
    Token,
}

/// The connection-settings form.
#[derive(Debug)]
pub struct ConfigScreen {
    pub config: Config,
    pub active_field: InputField,
    pub url_input: String,
    pub token_input: String,
    pub message: String,
}

impl ConfigScreen {
    /// A form pre-filled from the configuration, cursor on the URL.
    pub fn new(config: Config) -> (r: Self)
        ensures
            r.url_input@ == config.api.url@,
            r.token_input@ == config.api.token@,
            r.active_field == InputField::Url,
            r.message@ == Seq::<char>::empty(),
            r.config == config,
    {
        let url_input = config.api.url.clone();
        let token_input = config.api.token.clone();
        ConfigScreen {
            config,
            active_field: InputField::Url,
            url_input,
            token_input,
            message: String::new(),
        }
    }

    /// Edits the form: tab switches fields, characters and backspace edit
    /// the active input, enter finishes once both inputs are filled, and
    /// escape cancels. Returns whether the screen is done.
    pub fn handle_key(&mut self, key: Key) -> (done: bool)
        ensures
            final(self).config == old(self).config,
            match key {
                Key::Tab => {
                    &&& !done
                    &&& final(self).active_field != old(self).active_field
                    &&& final(self).url_input@ == old(self).url_input@
                    &&& final(self).token_input@ == old(self).token_input@
                    &&& final(self).message@ == old(self).message@
                },
                Key::Backspace => {
                    &&& !done
                    &&& final(self).active_field == old(self).active_field
                    &&& final(self).message@.len() == 0
                    &&& match old(self).active_field {
                        InputField::Url => final(self).url_input@ == (if old(
                            self,
                        ).url_input@.len() > 0 {
                            old(self).url_input@.drop_last()
                        } else {
                            old(self).url_input@
                        }) && final(self).token_input@ == old(self).token_input@,
                        InputField::Token => final(self).token_input@ == (if old(
                            self,
                        ).token_input@.len() > 0 {
                            old(self).token_input@.drop_last()
                        } else {
                            old(self).token_input@
                        }) && final(self).url_input@ == old(self).url_input@,
                    }
                },
                Key::Char(c) => {
                    &&& !done
                    &&& final(self).active_field == old(self).active_field
                    &&& final(self).message@.len() == 0
                    &&& match old(self).active_field {
                        InputField::Url => final(self).url_input@ == old(self).url_input@.push(c)
                            && final(self).token_input@ == old(self).token_input@,
                        InputField::Token => final(self).token_input@ == old(
                            self,
                        ).token_input@.push(c) && final(self).url_input@ == old(self).url_input@,
                    }
                },
                Key::Enter => if old(self).url_input@.len() > 0 && old(self).token_input@.len()
                    > 0 {
                    done && *final(self) == *old(self)
                } else {
                    &&& !done
                    &&& final(self).url_input@ == old(self).url_input@
                    &&& final(self).token_input@ == old(self).token_input@
                    &&& final(self).active_field == old(self).active_field
                    &&& final(self).message@ == "Please fill in both URL and token"@
                },
                Key::Esc => {
                    &&& done
                    &&& final(self).url_input@ == old(self).url_input@
                    &&& final(self).token_input@ == old(self).token_input@
                    &&& final(self).active_field == old(self).active_field
                    &&& final(self).message@ == "Configuration cancelled"@
                },
                _ => !done && *final(self) == *old(self),
            },
    {
        match key {
            Key::Tab => {
                self.active_field = match self.active_field {
                    InputField::Url => InputField::Token,
                    InputField::Token => InputField::Url,
                };
                false
            },
            Key::Backspace => {
                match self.active_field {
                    InputField::Url => {
                        let _ = pop_char(&mut self.url_input);
                    },
                    InputField::Token => {
                        let _ = pop_char(&mut self.token_input);
                    },
                }
                self.message = String::new();
                false
            },
            Key::Char(c) => {
                match self.active_field {
                    InputField::Url => push_char(&mut self.url_input, c),
                    InputField::Token => push_char(&mut self.token_input, c),
                }
                self.message = String::new();
                false
            },
            Key::Enter => {
                if !self.url_input.as_str().is_empty() && !self.token_input.as_str().is_empty() {
                    true
                } else {
                    self.message = "Please fill in both URL and token".to_owned();
                    false
                }
            },
            Key::Esc => {
                self.message = "Configuration cancelled".to_owned();
                true
            },
            _ => false,
        }
    }

    /// The configuration as edited: the form's URL and token over the
    /// original rules. Consumes the finished screen.
    pub fn into_config(self) -> (r: Config)
        ensures
            r.api.url@ == self.url_input@,
            r.api.token@ == self.token_input@,
            r.notifications == self.config.notifications,
    {
        Config {
            api: ApiConfig { url: self.url_input, token: self.token_input },
            notifications: self.config.notifications,
        }
    }
}

} // verus!
