use ur_core::app::{App, DiceOffState, Screen};
use ur_core::dice::Dice;
use ur_core::input::{map_key, Action, Key};

#[test]
fn test_space_in_game_returns_none_after_roll_removed() {
    let action = map_key(Key::Char(' '), &Screen::Game);
    assert_eq!(action, None);
}

#[test]
fn test_enter_maps_to_confirm_on_title() {
    let action = map_key(Key::Enter, &Screen::Title);
    assert_eq!(action, Some(Action::Confirm));
}

#[test]
fn test_escape_maps_to_back_on_difficulty() {
    let action = map_key(Key::Esc, &Screen::DifficultySelect { selected: 0 });
    assert_eq!(action, Some(Action::Back));
}

#[test]
fn test_l_toggles_log_in_game() {
    let action = map_key(Key::Char('l'), &Screen::Game);
    assert_eq!(action, Some(Action::ToggleLog));
}

#[test]
fn test_n_starts_new_game_on_gameover() {
    let action = map_key(Key::Char('n'), &Screen::GameOver);
    assert_eq!(action, Some(Action::NewGame));
}

#[test]
fn test_unrecognised_key_returns_none() {
    let action = map_key(Key::Char('z'), &Screen::Game);
    assert_eq!(action, None);
}

#[test]
fn test_escape_maps_to_quit_prompt_in_game() {
    let action = map_key(Key::Esc, &Screen::Game);
    assert_eq!(action, Some(Action::QuitPrompt));
}

#[test]
fn test_j_maps_to_select_next_in_game() {
    let action = map_key(Key::Char('j'), &Screen::Game);
    assert_eq!(action, Some(Action::SelectNext));
}

#[test]
fn test_right_maps_to_select_next_in_game() {
    let action = map_key(Key::Right, &Screen::Game);
    assert_eq!(action, Some(Action::SelectNext));
}

#[test]
fn test_k_maps_to_select_prev_in_game() {
    let action = map_key(Key::Char('k'), &Screen::Game);
    assert_eq!(action, Some(Action::SelectPrev));
}

#[test]
fn test_h_maps_to_select_prev_in_game() {
    let action = map_key(Key::Char('h'), &Screen::Game);
    assert_eq!(action, Some(Action::SelectPrev));
}

#[test]
fn test_j_maps_to_menu_down_on_difficulty() {
    let action = map_key(Key::Char('j'), &Screen::DifficultySelect { selected: 0 });
    assert_eq!(action, Some(Action::MenuDown));
}

#[test]
fn test_k_maps_to_menu_up_on_difficulty() {
    let action = map_key(Key::Char('k'), &Screen::DifficultySelect { selected: 1 });
    assert_eq!(action, Some(Action::MenuUp));
}

#[test]
fn test_esc_maps_to_back_on_help() {
    let action = map_key(Key::Esc, &Screen::Help { from_game: false });
    assert_eq!(action, Some(Action::Back));
}

#[test]
fn test_up_down_scroll_on_help() {
    let screen = Screen::Help { from_game: true };
    assert_eq!(map_key(Key::Up, &screen), Some(Action::ScrollUp));
    assert_eq!(map_key(Key::Down, &screen), Some(Action::ScrollDown));
}

#[test]
fn test_uppercase_q_quits_on_gameover() {
    let action = map_key(Key::Char('Q'), &Screen::GameOver);
    assert_eq!(action, Some(Action::Quit));
}

#[test]
fn test_uppercase_n_new_game_on_gameover() {
    let action = map_key(Key::Char('N'), &Screen::GameOver);
    assert_eq!(action, Some(Action::NewGame));
}

#[test]
fn test_q_quits_on_title() {
    let action = map_key(Key::Char('q'), &Screen::Title);
    assert_eq!(action, Some(Action::Quit));
}

#[test]
fn test_space_confirms_on_diceoff() {
    let action = map_key(
        Key::Char(' '),
        &Screen::DiceOff {
            state: DiceOffState {
                p1_frames: 0,
                p2_frames: 0,
                p1_final: Dice(2),
                p2_final: Dice(1),
                p1_display: Dice(0),
                p2_display: Dice(0),
                winner: None,
                acknowledged: false,
            },
        },
    );
    assert_eq!(action, Some(Action::Confirm));
}

#[test]
fn pause_menu_r_resumes_and_other_keys_are_unbound() {
    let pause = Screen::PauseMenu { selected: 0 };
    assert_eq!(map_key(Key::Char('r'), &pause), Some(Action::Back));
    assert_eq!(map_key(Key::Char(' '), &pause), Some(Action::Confirm));
    assert_eq!(map_key(Key::Other, &pause), None);
    assert_eq!(map_key(Key::Left, &Screen::Title), None);
    assert_eq!(map_key(Key::Char(' '), &Screen::DifficultySelect { selected: 2 }), None);
}

#[test]
fn handle_action_dispatches_to_the_app() {
    let mut app = App::new();
    app.handle_action(Action::MenuDown);
    assert_eq!(app.title_selected, 1);
    app.handle_action(Action::MenuUp);
    assert_eq!(app.title_selected, 0);
    app.handle_action(Action::Confirm);
    assert!(matches!(app.screen, Screen::DifficultySelect { selected: 0 }));
    app.handle_action(Action::Back);
    assert!(matches!(app.screen, Screen::Title));
    app.handle_action(Action::ToggleLog);
    assert!(app.log_visible);
    app.handle_action(Action::ScrollDown);
    app.handle_action(Action::ScrollDown);
    app.handle_action(Action::ScrollUp);
    assert_eq!(app.help_scroll, 1);
    app.handle_action(Action::QuitPrompt);
    assert!(matches!(app.screen, Screen::Title), "no pause menu without a game");
    app.handle_action(Action::Quit);
    assert!(app.should_quit);
}
