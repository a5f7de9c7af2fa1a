//! Key bindings: which action a key press asks for on each screen, and how
//! the app carries an action out.
use crate::app::{
    backed, confirmed, menu_moved_down, menu_moved_up, rules_fit_board, scrolled_down, scrolled_up,
    App, Screen,
};
use crate::gameplay::{move_allowed, move_at_cursor, move_confirmed, navigated};
use crate::navigation::NavDir;
use vstd::prelude::*;

verus! {

/// A key press, as far as the bindings tell keys apart.
#[derive(Clone, Copy, Debug, PartialEq, Eq)]
pub enum Key {
    Up,
    Down,
    Left,
    Right,
    Enter,
    Esc,
    /// A printable character (a space included).
    Char(char),
    /// Any other key.
    Other,
}

/// High-level actions derived from raw key events.
#[derive(Clone, Copy, Debug, PartialEq, Eq, Structural)]
pub enum Action {
    // Navigation (menus and title)
    MenuUp,
    MenuDown,
    Confirm,
    Back,
    // Gameplay
    SelectPrev,
    SelectNext,
    ConfirmMove,
    ToggleLog,
    QuitPrompt,
    // Scrollable overlays
    ScrollUp,
    ScrollDown,
    // Game over
    NewGame,
    Quit,
}

/// Whether `key` is the character `c`.
pub open spec fn is_char(key: Key, c: char) -> bool {
    key == Key::Char(c)
}

/// The key bindings of each screen.
pub open spec fn key_action(key: Key, screen: Screen) -> Option<Action> {
    match screen {
        Screen::Title => if key == Key::Up || is_char(key, 'k') {
            Some(Action::MenuUp)
        } else if key == Key::Down || is_char(key, 'j') {
            Some(Action::MenuDown)
        } else if key == Key::Enter || is_char(key, ' ') {
            Some(Action::Confirm)
        } else if is_char(key, 'q') || key == Key::Esc {
            Some(Action::Quit)
        } else {
            None
        },
        Screen::DifficultySelect { .. } => if key == Key::Up || is_char(key, 'k') {
            Some(Action::MenuUp)
        } else if key == Key::Down || is_char(key, 'j') {
            Some(Action::MenuDown)
        } else if key == Key::Enter {
            Some(Action::Confirm)
        } else if key == Key::Esc {
            Some(Action::Back)
        } else {
            None
        },
        Screen::DiceOff { .. } => if key == Key::Enter || is_char(key, ' ') {
            Some(Action::Confirm)
        } else if key == Key::Esc {
            Some(Action::QuitPrompt)
        } else {
            None
        },
        Screen::Game => if key == Key::Up || is_char(key, 'k') || key == Key::Left || is_char(key, 'h') {
            Some(Action::SelectPrev)
        } else if key == Key::Down || is_char(key, 'j') || key == Key::Right {
            Some(Action::SelectNext)
        } else if key == Key::Enter {
            Some(Action::ConfirmMove)
        } else if is_char(key, 'l') {
            Some(Action::ToggleLog)
        } else if key == Key::Esc {
            Some(Action::QuitPrompt)
        } else {
            None
        },
        Screen::PauseMenu { .. } => if key == Key::Up || is_char(key, 'k') {
            Some(Action::MenuUp)
        } else if key == Key::Down || is_char(key, 'j') {
            Some(Action::MenuDown)
        } else if key == Key::Enter || is_char(key, ' ') {
            Some(Action::Confirm)
        } else if key == Key::Esc || is_char(key, 'r') {
            Some(Action::Back)
        } else {
            None
        },
        Screen::Help { .. } => if key == Key::Esc || key == Key::Enter || is_char(key, ' ') || is_char(key, 'q') {
            Some(Action::Back)
        } else if key == Key::Up || is_char(key, 'k') {
            Some(Action::ScrollUp)
        } else if key == Key::Down || is_char(key, 'j') {
            Some(Action::ScrollDown)
        } else {
            None
        },
        Screen::GameOver => if is_char(key, 'n') || is_char(key, 'N') || key == Key::Enter {
            Some(Action::NewGame)
        } else if is_char(key, 'q') || is_char(key, 'Q') || key == Key::Esc {
            Some(Action::Quit)
        } else {
            None
        },
    }
}

/// Whether two keys are the same key.
fn same_key(a: Key, b: Key) -> (r: bool)
    ensures
        r == (a == b),
{
    match (a, b) {
        (Key::Up, Key::Up) => true,
        (Key::Down, Key::Down) => true,
        (Key::Left, Key::Left) => true,
        (Key::Right, Key::Right) => true,
        (Key::Enter, Key::Enter) => true,
        (Key::Esc, Key::Esc) => true,
        (Key::Char(x), Key::Char(y)) => x == y,
        (Key::Other, Key::Other) => true,
        _ => false,
    }
}

/// Maps a key press to an `Action` given the current screen.
/// Returns `None` for keys that have no binding in this context.
pub fn map_key(key: Key, screen: &Screen) -> (r: Option<Action>)
    ensures
        r == key_action(key, *screen),
{
    let up = same_key(key, Key::Up);
    let down = same_key(key, Key::Down);
    let left = same_key(key, Key::Left);
    let right = same_key(key, Key::Right);
    let enter = same_key(key, Key::Enter);
    let esc = same_key(key, Key::Esc);
    let ch = |c: char| -> (r: bool)
        ensures
            r == is_char(key, c),
        { same_key(key, Key::Char(c)) };
    match screen {
        Screen::Title => if up || ch('k') {
            Some(Action::MenuUp)
        } else if down || ch('j') {
            Some(Action::MenuDown)
        } else if enter || ch(' ') {
            Some(Action::Confirm)
        } else if ch('q') || esc {
            Some(Action::Quit)
        } else {
            None
        },
        Screen::DifficultySelect { .. } => if up || ch('k') {
            Some(Action::MenuUp)
        } else if down || ch('j') {
            Some(Action::MenuDown)
        } else if enter {
            Some(Action::Confirm)
        } else if esc {
            Some(Action::Back)
        } else {
            None
        },
        Screen::DiceOff { .. } => if enter || ch(' ') {
            Some(Action::Confirm)
        } else if esc {
            Some(Action::QuitPrompt)
        } else {
            None
        },
        Screen::Game => if up || ch('k') || left || ch('h') {
            Some(Action::SelectPrev)
        } else if down || ch('j') || right {
            Some(Action::SelectNext)
        } else if enter {
            Some(Action::ConfirmMove)
        } else if ch('l') {
            Some(Action::ToggleLog)
        } else if esc {
            Some(Action::QuitPrompt)
        } else {
            None
        },
        Screen::PauseMenu { .. } => if up || ch('k') {
            Some(Action::MenuUp)
        } else if down || ch('j') {
            Some(Action::MenuDown)
        } else if enter || ch(' ') {
            Some(Action::Confirm)
        } else if esc || ch('r') {
            Some(Action::Back)
        } else {
            None
        },
        Screen::Help { .. } => if esc || enter || ch(' ') || ch('q') {
            Some(Action::Back)
        } else if up || ch('k') {
            Some(Action::ScrollUp)
        } else if down || ch('j') {
            Some(Action::ScrollDown)
        } else {
            None
        },
        Screen::GameOver => if ch('n') || ch('N') || enter {
            Some(Action::NewGame)
        } else if ch('q') || ch('Q') || esc {
            Some(Action::Quit)
        } else {
            None
        },
    }
}

/// The effect of an action on the app. Selecting the previous or next
/// square moves the cursor up or down the board.
pub open spec fn action_done(old: App, new: App, action: Action) -> bool {
    match action {
        Action::Quit => new == (App { should_quit: true, ..old }),
        Action::NewGame => new == (App { screen: Screen::DifficultySelect { selected: 0 }, ..old }),
        Action::Confirm => confirmed(old, new),
        Action::Back => new == backed(old),
        Action::MenuUp => new == menu_moved_up(old),
        Action::MenuDown => new == menu_moved_down(old),
        Action::SelectPrev => new == navigated(old, NavDir::Up),
        Action::SelectNext => new == navigated(old, NavDir::Down),
        Action::ConfirmMove => move_confirmed(old, new),
        Action::ToggleLog => new == (App { log_visible: !old.log_visible, ..old }),
        Action::QuitPrompt => new == if old.game_state is Some {
            App { screen: Screen::PauseMenu { selected: 0 }, ..old }
        } else {
            old
        },
        Action::ScrollUp => new == scrolled_up(old),
        Action::ScrollDown => new == scrolled_down(old),
    }
}

/// What an action needs of the app: a difficulty menu selection within the
/// three levels to confirm it; to confirm a move, rules whose squares lie on
/// the board and a move under the cursor that the app can apply.
pub open spec fn action_ready(app: App, action: Action) -> bool {
    &&& action == Action::Confirm ==> (app.screen matches Screen::DifficultySelect { selected } ==> selected < 3)
    &&& action == Action::ConfirmMove ==> {
        &&& rules_fit_board(app)
        &&& app.animation is None ==> (move_at_cursor(app) matches Some(mv) ==> move_allowed(app, mv))
    }
}

impl App {
    /// Carries out an action.
    pub fn handle_action(&mut self, action: Action)
        requires
            action_ready(*old(self), action),
        ensures
            action_done(*old(self), *final(self), action),
    {
        match action {
            Action::Quit => self.quit(),
            Action::NewGame => self.start_new_game(),
            Action::Confirm => self.handle_confirm(),
            Action::Back => self.handle_back(),
            Action::MenuUp => self.handle_menu_up(),
            Action::MenuDown => self.handle_menu_down(),
            Action::SelectPrev => self.handle_nav(NavDir::Up),
            Action::SelectNext => self.handle_nav(NavDir::Down),
            Action::ConfirmMove => self.handle_confirm_move(),
            Action::ToggleLog => self.log_visible = !self.log_visible,
            Action::QuitPrompt => self.open_pause(),
            Action::ScrollUp => self.help_scroll_up(),
            Action::ScrollDown => self.help_scroll_down(),
        }
    }
}

} // verus!
