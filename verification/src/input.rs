//! Routing of key presses: which operation a key stands for on each screen.

use vstd::prelude::*;
use crate::model::{AppMode, AppView, Operation};
use crate::state::App;

verus! {

/// A key press, reduced to what the application tells apart.
#[derive(Debug, Clone, Copy, PartialEq, Eq, Structural)]
pub enum Key {
    Char(char),
    Enter,
    Esc,
    Backspace,
    Up,
    Down,
    Left,
    Right,
    /// Any other key.
    Other,
}

/// What the input loop does after a key press.
#[derive(Debug, Clone, Copy, PartialEq, Eq, Structural)]
pub enum Action {
    /// Go on with the next key.
    Continue,
    /// Leave the application.
    Quit,
}

/// What a key press asks for.
pub enum Command {
    /// Leave the application.
    Quit,
    /// Apply an operation.
    Apply(Operation),
    /// Nothing: the key has no meaning on this screen.
    Ignore,
}

/// Index of the menu item that starts an attempt.
pub const MENU_START: usize = 0;

/// Index of the menu item that shows the statistics.
pub const MENU_STATS: usize = 1;

/// Index of the menu item that shows the settings.
pub const MENU_SETTINGS: usize = 2;

/// What `key`, pressed at `now`, asks for on the menu with the cursor at
/// `selection`: `q` quits, the arrows move the cursor, Enter opens the item
/// under it.
pub open spec fn menu_command(selection: usize, key: Key, now: u64) -> Command {
    match key {
        Key::Char(c) => if c == 'q' {
            Command::Quit
        } else {
            Command::Ignore
        },
        Key::Enter => if selection == MENU_START {
            Command::Apply(Operation::StartTest { now })
        } else if selection == MENU_STATS {
            Command::Apply(Operation::OpenStats)
        } else if selection == MENU_SETTINGS {
            Command::Apply(Operation::OpenSettings)
        } else {
            Command::Ignore
        },
        Key::Up => Command::Apply(Operation::MenuUp),
        Key::Down => Command::Apply(Operation::MenuDown),
        _ => Command::Ignore,
    }
}

/// What `key`, pressed at `now`, asks for during an attempt: characters are
/// typed, Backspace takes one back, Esc gives up.
pub open spec fn test_command(key: Key, now: u64) -> Command {
    match key {
        Key::Esc => Command::Apply(Operation::ReturnToMenu),
        Key::Char(c) => Command::Apply(Operation::TypeChar { c, now }),
        Key::Backspace => Command::Apply(Operation::Backspace),
        _ => Command::Ignore,
    }
}

/// What `key` asks for on the results and statistics screens: Esc and
/// Enter return to the menu.
pub open spec fn report_command(key: Key) -> Command {
    match key {
        Key::Esc => Command::Apply(Operation::ReturnToMenu),
        Key::Enter => Command::Apply(Operation::ReturnToMenu),
        _ => Command::Ignore,
    }
}

/// What `key` asks for on the settings screen: Up and Down move the cursor,
/// Left and Right adjust the field under it, Esc and Enter return to the
/// menu.
pub open spec fn settings_command(key: Key) -> Command {
    match key {
        Key::Esc => Command::Apply(Operation::ReturnToMenu),
        Key::Enter => Command::Apply(Operation::ReturnToMenu),
        Key::Up => Command::Apply(Operation::SettingsUp),
        Key::Down => Command::Apply(Operation::SettingsDown),
        Key::Left => Command::Apply(Operation::ModifySetting { increase: false }),
        Key::Right => Command::Apply(Operation::ModifySetting { increase: true }),
        _ => Command::Ignore,
    }
}

impl AppView {
    /// What `key`, pressed at `now`, asks for in this state.
    pub open spec fn command_for(self, key: Key, now: u64) -> Command {
        match self.mode {
            AppMode::Menu => menu_command(self.menu_selection, key, now),
            AppMode::Test => test_command(key, now),
            AppMode::Results => report_command(key),
            AppMode::Stats => report_command(key),
            AppMode::Settings => settings_command(key),
        }
    }

    /// The state after `key` is pressed at `now`.
    pub open spec fn after_key(self, key: Key, now: u64) -> AppView {
        match self.command_for(key, now) {
            Command::Apply(op) => self.apply(op),
            _ => self,
        }
    }

    /// What the input loop does after `key` is pressed at `now`.
    pub open spec fn action_for(self, key: Key, now: u64) -> Action {
        match self.command_for(key, now) {
            Command::Quit => Action::Quit,
            _ => Action::Continue,
        }
    }
}

/// Only `q` on the menu leaves the application, and it changes nothing.
pub proof fn lemma_quit_only_from_menu(state: AppView, key: Key, now: u64)
    ensures
        state.action_for(key, now) == Action::Quit <==> state.mode == AppMode::Menu && key
            == Key::Char('q'),
        state.action_for(key, now) == Action::Quit ==> state.after_key(key, now) == state,
{
}

/// No key changes the settings or the text while an attempt runs.
pub proof fn lemma_attempt_keeps_settings(state: AppView, key: Key, now: u64)
    requires
        state.mode == AppMode::Test,
    ensures
        state.after_key(key, now).settings == state.settings,
        state.after_key(key, now).test_text == state.test_text,
{
}

impl App {
    /// Handles a key pressed at the moment of the call.
    pub fn handle_key(&mut self, key: Key) -> (action: Action)
        ensures
            exists|now: u64|
                final(self)@ == #[trigger] old(self)@.after_key(key, now) && action == old(
                    self,
                )@.action_for(key, now),
            final(self)@.wf(),
    {
        let now: u64 = self.now();
        self.handle_key_at(key, now)
    }

    /// Handles `key` pressed at `now`: applies the operation that the key
    /// stands for on the screen shown, and says whether to go on.
    pub fn handle_key_at(&mut self, key: Key, now: u64) -> (action: Action)
        ensures
            final(self)@ == old(self)@.after_key(key, now),
            action == old(self)@.action_for(key, now),
            final(self)@.wf(),
    {
        match self.mode() {
            AppMode::Menu => {
                match key {
                    Key::Char(c) => {
                        if c == 'q' {
                            return Action::Quit;
                        }
                    },
                    Key::Enter => {
                        let selection: usize = self.menu_selection();
                        if selection == MENU_START {
                            self.start_test_at(now);
                        } else if selection == MENU_STATS {
                            self.open_stats();
                        } else if selection == MENU_SETTINGS {
                            self.open_settings();
                        }
                    },
                    Key::Up => self.menu_up(),
                    Key::Down => self.menu_down(),
                    _ => {},
                }
            },
            AppMode::Test => {
                match key {
                    Key::Esc => self.return_to_menu(),
                    Key::Char(c) => self.type_char_at(c, now),
                    Key::Backspace => self.backspace(),
                    _ => {},
                }
            },
            AppMode::Results | AppMode::Stats => {
                match key {
                    Key::Esc | Key::Enter => self.return_to_menu(),
                    _ => {},
                }
            },
            AppMode::Settings => {
                match key {
                    Key::Esc | Key::Enter => self.return_to_menu(),
                    Key::Up => self.settings_up(),
                    Key::Down => self.settings_down(),
                    Key::Left => self.modify_setting(false),
                    Key::Right => self.modify_setting(true),
                    _ => {},
                }
            },
        }
        Action::Continue
    }
}

} // verus!
