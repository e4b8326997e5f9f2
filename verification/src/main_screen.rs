//! The main menu's state: a fixed list of modules plus the configuration
//! and exit entries, with a cursor. Drawing and event reading happen
//! outside the library; keys come in as plain values.

use vstd::prelude::*;

use crate::config::Config;
use crate::keys::Key;

verus! {

/// What the user picked on the main menu.
#[derive(Debug, Clone, Copy, PartialEq, Eq, Structural)]
pub enum MenuOption {
    Module(usize),
    ChangeConfiguration,
    Exit,
}

/// The main menu: module entries, then "change configuration", then
/// "exit".
#[derive(Debug)]
pub struct MainScreen {
    pub _config: Config,
    pub selected_index: usize,
    pub modules: Vec<String>,
    pub message: String,
}

impl MainScreen {
    /// The cursor stays on one of the menu entries.
    pub open spec fn wf(self) -> bool {
        self.modules@.len() == 2 && self.selected_index < self.modules@.len() + 2
    }

    /// The option the cursor is on.
    pub open spec fn spec_selected_option(self) -> MenuOption {
        if self.selected_index < self.modules@.len() {
            MenuOption::Module(self.selected_index)
        } else if self.selected_index == self.modules@.len() {
            MenuOption::ChangeConfiguration
        } else {
            MenuOption::Exit
        }
    }

    /// A fresh menu over the two modules, cursor on the first entry.
    pub fn new(config: Config) -> (r: Self)
        ensures
            r.wf(),
            r.selected_index == 0,
            r.message@ == Seq::<char>::empty(),
            r.modules@.len() == 2,
            r.modules@[0]@ == "Notification Manager"@,
            r.modules@[1]@ == "Auto Response"@,
            r._config == config,
    {
        let mut modules: Vec<String> = Vec::new();
        modules.push("Notification Manager".to_owned());
        modules.push("Auto Response".to_owned());
        MainScreen { _config: config, selected_index: 0, modules, message: String::new() }
    }

    /// How many entries the menu shows: the modules plus "change
    /// configuration" and "exit".
    pub fn total_items(&self) -> (n: usize)
        requires
            self.wf(),
        ensures
            n == self.modules@.len() + 2,
    {
        self.modules.len() + 2
    }

    /// The option the cursor is on.
    pub fn get_selected_option(&self) -> (r: MenuOption)
        ensures
            r == self.spec_selected_option(),
    {
        if self.selected_index < self.modules.len() {
            MenuOption::Module(self.selected_index)
        } else if self.selected_index == self.modules.len() {
            MenuOption::ChangeConfiguration
        } else {
            MenuOption::Exit
        }
    }

    /// Moves the cursor, or resolves the menu: arrows wrap around; enter
    /// returns the selection and reports it in the status message; escape
    /// and `q` exit.
    pub fn handle_key(&mut self, key: Key) -> (r: Option<MenuOption>)
        requires
            old(self).wf(),
        ensures
            final(self).wf(),
            final(self).modules@ == old(self).modules@,
            final(self)._config == old(self)._config,
            match key {
                Key::Up => {
                    &&& r is None
                    &&& final(self).message@.len() == 0
                    &&& final(self).selected_index as int == if old(self).selected_index > 0 {
                        old(self).selected_index - 1
                    } else {
                        old(self).modules@.len() as int + 1
                    }
                },
                Key::Down => {
                    &&& r is None
                    &&& final(self).message@.len() == 0
                    &&& final(self).selected_index as int == (old(self).selected_index + 1) % (old(
                        self,
                    ).modules@.len() as int + 2)
                },
                Key::Enter => {
                    &&& r == Some(old(self).spec_selected_option())
                    &&& final(self).selected_index == old(self).selected_index
                    &&& final(self).message@ == match old(self).spec_selected_option() {
                        MenuOption::Module(i) => "Selected: "@ + old(self).modules@[i as int]@,
                        MenuOption::ChangeConfiguration => "Opening configuration..."@,
                        MenuOption::Exit => "Exiting..."@,
                    }
                },
                Key::Esc => r == Some(MenuOption::Exit) && *final(self) == *old(self),
                Key::Char(c) => if c == 'q' {
                    r == Some(MenuOption::Exit) && *final(self) == *old(self)
                } else {
                    r is None && *final(self) == *old(self)
                },
                _ => r is None && *final(self) == *old(self),
            },
    {
        match key {
            Key::Up => {
                if self.selected_index > 0 {
                    self.selected_index = self.selected_index - 1;
                } else {
                    self.selected_index = self.total_items() - 1;
                }
                self.message = String::new();
                None
            },
            Key::Down => {
                self.selected_index = (self.selected_index + 1) % self.total_items();
                self.message = String::new();
                None
            },
            Key::Enter => {
                let choice = self.get_selected_option();
                self.message = match choice {
                    MenuOption::Module(i) => "Selected: ".to_owned().concat(
                        self.modules[i].as_str(),
                    ),
                    MenuOption::ChangeConfiguration => "Opening configuration...".to_owned(),
                    MenuOption::Exit => "Exiting...".to_owned(),
                };
                Some(choice)
            },
            Key::Esc => Some(MenuOption::Exit),
            Key::Char(c) => {
                if c == 'q' {
                    Some(MenuOption::Exit)
                } else {
                    None
                }
            },
            _ => None,
        }
    }
}

} // verus!
