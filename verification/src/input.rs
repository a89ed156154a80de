//! The keyboard: what each key does to the session.

use crate::page::AppPage;
use crate::session::{AppState, Effect, SessionView};
use vstd::prelude::*;

verus! {

/// A key of the keyboard, as far as the dashboard tells keys apart.
#[derive(Debug, Clone, Copy, PartialEq, Eq, Structural)]
pub enum Key {
    Left,
    Right,
    Up,
    Down,
    Enter,
    Esc,
    /// A key that types the character.
    Char(char),
    /// Any other key.
    Other,
}

/// What happened to the key.
#[derive(Debug, Clone, Copy, PartialEq, Eq, Structural)]
pub enum KeyKind {
    Press,
    Repeat,
    Release,
}

/// Whether `key` types `lower` or `upper`.
pub open spec fn types_letter(key: Key, lower: char, upper: char) -> bool {
    key == Key::Char(lower) || key == Key::Char(upper)
}

/// The session after a key event. Only presses count. Left and Right move
/// to the previous and the next page, Up and Down scroll, Enter loads the
/// configuration on the Config page while none is held, `r` reloads it on
/// the Config page, `l` loads the logs on the Log page. Every other event
/// leaves the session as it is.
pub open spec fn after_key(s: SessionView, key: Key, kind: KeyKind) -> SessionView {
    if kind != KeyKind::Press {
        s
    } else if key == Key::Left {
        s.moved_to(s.current_page.spec_previous())
    } else if key == Key::Right {
        s.moved_to(s.current_page.spec_next())
    } else if key == Key::Up {
        s.scrolled_up()
    } else if key == Key::Down {
        s.scrolled_down()
    } else if key == Key::Enter && s.current_page == AppPage::Config && s.configs is None {
        s.load_started()
    } else if types_letter(key, 'r', 'R') && s.current_page == AppPage::Config {
        s.reload_requested()
    } else if types_letter(key, 'l', 'L') && s.current_page == AppPage::Log {
        s.logs_started()
    } else {
        s
    }
}

/// What the caller has to do after a key event: fetch where the event
/// started a load, end the session on a press of `q` or Escape, else
/// nothing.
pub open spec fn key_effect(s: SessionView, key: Key, kind: KeyKind) -> Effect {
    if kind != KeyKind::Press {
        Effect::Idle
    } else if key == Key::Left {
        s.move_effect(s.current_page.spec_previous())
    } else if key == Key::Right {
        s.move_effect(s.current_page.spec_next())
    } else if key == Key::Enter && s.current_page == AppPage::Config && s.configs is None {
        Effect::FetchConfigs
    } else if types_letter(key, 'r', 'R') && s.current_page == AppPage::Config {
        Effect::FetchConfigs
    } else if types_letter(key, 'l', 'L') && s.current_page == AppPage::Log {
        Effect::FetchLogs
    } else if types_letter(key, 'q', 'Q') || key == Key::Esc {
        Effect::Quit
    } else {
        Effect::Idle
    }
}

/// Whether `key` types `lower` or `upper`.
fn is_letter(key: Key, lower: char, upper: char) -> (b: bool)
    ensures
        b == types_letter(key, lower, upper),
{
    match key {
        Key::Char(c) => c == lower || c == upper,
        _ => false,
    }
}

impl AppState {
    /// Handles one key event and says what the caller has to do next.
    pub fn handle_key(&mut self, key: Key, kind: KeyKind) -> (effect: Effect)
        ensures
            final(self)@ == after_key(old(self)@, key, kind),
            effect == key_effect(old(self)@, key, kind),
    {
        if kind != KeyKind::Press {
            return Effect::Idle;
        }
        match key {
            Key::Left => self.previous_page(),
            Key::Right => self.next_page(),
            Key::Up => {
                self.scroll_up();
                Effect::Idle
            },
            Key::Down => {
                self.scroll_down();
                Effect::Idle
            },
            Key::Enter => {
                if self.current_page == AppPage::Config && self.configs.is_none() {
                    self.load_configs()
                } else {
                    Effect::Idle
                }
            },
            Key::Esc => Effect::Quit,
            _ => {
                if is_letter(key, 'r', 'R') {
                    if self.current_page == AppPage::Config {
                        self.reload_request()
                    } else {
                        Effect::Idle
                    }
                } else if is_letter(key, 'l', 'L') {
                    if self.current_page == AppPage::Log {
                        self.load_logs()
                    } else {
                        Effect::Idle
                    }
                } else if is_letter(key, 'q', 'Q') {
                    Effect::Quit
                } else {
                    Effect::Idle
                }
            },
        }
    }
}

} // verus!
