use rand::rngs::StdRng;
use rand::SeedableRng;
use ur_core::animation::Animation;
use ur_core::app::{difficulty_depth, App, DiceOffState, GameStats, Screen};
use ur_core::board::Square;
use ur_core::dice::Dice;
use ur_core::player::{Piece, Player};
use ur_core::state::{GamePhase, GameRules, GameState, Move, PieceLocation};

fn game_app(state: GameState) -> App {
    let mut app = App::new();
    app.screen = Screen::Game;
    app.game_state = Some(state);
    app
}

fn texts(app: &App) -> Vec<String> {
    app.log.iter().map(|e| e.text.clone()).collect()
}

#[test]
fn difficulty_levels_map_to_search_depths() {
    assert_eq!(difficulty_depth(0), 2);
    assert_eq!(difficulty_depth(1), 4);
    assert_eq!(difficulty_depth(2), 6);
}

#[test]
fn game_stats_default_is_empty() {
    let s = GameStats::default();
    assert_eq!(s.moves, 0);
    assert_eq!(s.captures, [0, 0]);
    assert!(s.start_time.is_none() && s.end_time.is_none());
}

#[test]
fn app_default_is_a_new_app() {
    let app = App::default();
    assert!(matches!(app.screen, Screen::Title));
    assert_eq!(app.difficulty, 4);
    assert_eq!(app.turn_log[0].len(), 1);
    assert!(app.turn_log[1][0].is_empty());
}

#[test]
fn confirm_difficulty_takes_the_level_and_starts_the_dice_off() {
    let mut app = App::new();
    app.screen = Screen::DifficultySelect { selected: 2 };
    app.confirm_difficulty();
    assert_eq!(app.difficulty, 6);
    match &app.screen {
        Screen::DiceOff { state } => {
            assert_eq!((state.p1_frames, state.p2_frames), (18, 18));
            assert!(state.p1_final.value() <= 4 && state.p2_final.value() <= 4);
            assert_eq!((state.p1_display, state.p2_display), (Dice(0), Dice(0)));
            assert!(state.winner.is_none() && !state.acknowledged);
        }
        _ => panic!("expected the dice-off"),
    }
}

#[test]
fn confirm_on_title_and_pause_menus() {
    let mut app = App::new();
    app.title_selected = 1;
    app.help_scroll = 9;
    app.handle_confirm();
    assert!(matches!(app.screen, Screen::Help { from_game: false }));
    assert_eq!(app.help_scroll, 0);
    app.handle_confirm();
    assert!(matches!(app.screen, Screen::Title));
    app.title_selected = 2;
    app.handle_confirm();
    assert!(app.should_quit);

    let mut app = App::new();
    app.screen = Screen::PauseMenu { selected: 1 };
    app.handle_confirm();
    assert!(matches!(app.screen, Screen::Help { from_game: true }));
    app.handle_confirm();
    assert!(matches!(app.screen, Screen::PauseMenu { selected: 0 }));
    app.handle_confirm();
    assert!(matches!(app.screen, Screen::Game));
}

#[test]
fn confirming_a_decided_dice_off_begins_the_game() {
    let mut app = App::new();
    app.screen = Screen::DiceOff {
        state: DiceOffState {
            p1_frames: 0,
            p2_frames: 0,
            p1_final: Dice(3),
            p2_final: Dice(1),
            p1_display: Dice(3),
            p2_display: Dice(1),
            winner: Some(Player::Player1),
            acknowledged: false,
        },
    };
    app.handle_confirm();
    assert!(matches!(app.screen, Screen::Game));
    let gs = app.game_state.as_ref().unwrap();
    assert_eq!(gs.current_player, Player::Player1);
    assert_eq!(gs.unplayed, [7, 7]);
    assert!(app.pending_roll && app.roll_after.is_some());
    assert!(app.stats.start_time.is_some());
}

#[test]
fn an_undecided_dice_off_ignores_confirm() {
    let mut app = App::new();
    app.screen = Screen::DiceOff {
        state: DiceOffState {
            p1_frames: 5,
            p2_frames: 5,
            p1_final: Dice(3),
            p2_final: Dice(1),
            p1_display: Dice(0),
            p2_display: Dice(0),
            winner: None,
            acknowledged: false,
        },
    };
    app.handle_confirm();
    assert!(matches!(app.screen, Screen::DiceOff { .. }));
    assert!(app.game_state.is_none());
}

#[test]
fn ai_going_first_rolls_and_requests_a_move() {
    let mut app = App::new();
    app.difficulty = 2;
    app.rng = StdRng::seed_from_u64(1);
    app.begin_game(Player::Player2);
    let roll = app.dice_roll.expect("the AI rolled");
    assert_eq!(texts(&app), vec![format!("Rolled {}", roll.value())]);
    assert_eq!(app.last_roll, [None, Some(roll)]);
    assert_eq!(app.turn_log[1].len(), 2);
    assert!(matches!(app.animation, Some(Animation::DiceRoll { frames_remaining: 30, display: Dice(0), .. })));
    assert!(app.ai_thinking, "the AI is thinking from the start of its turn");
    if roll.value() > 0 {
        let req = app.ai_request.as_ref().expect("a move is requested");
        assert_eq!((req.roll, req.depth), (roll, 2));
        assert_eq!(req.state.current_player, Player::Player2);
    } else {
        assert!(app.ai_request.is_none());
    }
}

#[test]
fn moving_to_a_square_logs_its_step() {
    let rules = GameRules::finkel();
    let mut app = game_app(GameState::new(&rules));
    app.dice_roll = Some(Dice(2));
    let mv = Move {
        piece: Piece::new(Player::Player1, 0),
        from: PieceLocation::Unplayed,
        to: PieceLocation::OnBoard(Square::new(2, 2)),
    };
    assert!(app.can_take_move(&mv));
    app.apply_move(mv);
    assert_eq!(texts(&app)[0], "Moved to 2");
    assert_eq!(app.last_event[0].as_deref(), Some("Moved to 2"));
    assert_eq!(app.turn_log[0][0], vec!["Moved to 2".to_string()]);
    assert_eq!(app.stats.moves, 1);
    assert_eq!(app.last_roll[0], Some(Dice(2)));
    assert!(app.dice_roll.is_some(), "the AI has rolled for its turn");
    assert_eq!(app.game_state.as_ref().unwrap().current_player, Player::Player2);
    // the walk animation is replaced by the AI's dice animation once its turn starts
    assert!(matches!(app.animation, Some(Animation::DiceRoll { .. })));
}

#[test]
fn landing_on_a_rosette_logs_an_extra_turn() {
    let rules = GameRules::finkel();
    let mut s = GameState::new(&rules);
    s.board.set(Square::new(2, 2), Some(Piece::new(Player::Player1, 0)));
    s.unplayed[0] = 6;
    let mut app = game_app(s);
    app.dice_roll = Some(Dice(2));
    let mv = Move {
        piece: Piece::new(Player::Player1, 0),
        from: PieceLocation::OnBoard(Square::new(2, 2)),
        to: PieceLocation::OnBoard(Square::new(2, 0)),
    };
    app.apply_move(mv);
    assert_eq!(texts(&app), vec!["Moved to rosette at 4".to_string(), "Extra turn!".to_string()]);
    assert!(app.pending_roll && app.rosette_reroll && app.roll_after.is_none());
    match &app.animation {
        Some(Animation::PieceMove { remaining, frames_per_step: 7, frames_this_step: 7, is_player1: true }) => {
            assert_eq!(*remaining, vec![Square::new(2, 1), Square::new(2, 0)]);
        }
        other => panic!("expected a piece walk, got {:?}", other),
    }
}

#[test]
fn capturing_logs_counts_and_flashes() {
    let rules = GameRules::finkel();
    let mut s = GameState::new(&rules);
    s.board.set(Square::new(1, 0), Some(Piece::new(Player::Player1, 0)));
    s.board.set(Square::new(1, 1), Some(Piece::new(Player::Player2, 0)));
    s.unplayed = [6, 6];
    let mut app = game_app(s);
    app.rng = StdRng::seed_from_u64(3);
    let mv = Move {
        piece: Piece::new(Player::Player1, 0),
        from: PieceLocation::OnBoard(Square::new(1, 0)),
        to: PieceLocation::OnBoard(Square::new(1, 1)),
    };
    app.apply_move(mv);
    assert_eq!(texts(&app)[0], "Captured piece at 6!");
    assert_eq!(app.stats.captures, [1, 0]);
    assert_eq!(app.game_state.as_ref().unwrap().unplayed[1], 7);
}

#[test]
fn scoring_the_last_piece_ends_the_game() {
    let rules = GameRules::finkel();
    let mut s = GameState::new(&rules);
    s.scored[0] = 6;
    s.unplayed[0] = 0;
    s.board.set(Square::new(2, 6), Some(Piece::new(Player::Player1, 6)));
    let mut app = game_app(s);
    app.dice_roll = Some(Dice(1));
    let mv = Move { piece: Piece::new(Player::Player1, 6), from: PieceLocation::OnBoard(Square::new(2, 6)), to: PieceLocation::Scored };
    app.apply_move(mv);
    assert_eq!(texts(&app), vec!["Scored!".to_string()]);
    assert!(matches!(app.screen, Screen::GameOver));
    assert!(app.stats.end_time.is_some());
    assert_eq!(app.game_state.as_ref().unwrap().phase, GamePhase::GameOver(Player::Player1));
}

#[test]
fn apply_move_without_a_game_does_nothing() {
    let mut app = App::new();
    let mv = Move { piece: Piece::new(Player::Player1, 0), from: PieceLocation::Unplayed, to: PieceLocation::Scored };
    app.apply_move(mv);
    assert!(app.game_state.is_none());
    assert_eq!(app.stats.moves, 0);
    assert!(app.log.is_empty());
}

#[test]
fn can_take_move_checks_the_move_and_the_counters() {
    let rules = GameRules::finkel();
    let mut app = game_app(GameState::new(&rules));
    let enter = Move { piece: Piece::new(Player::Player1, 0), from: PieceLocation::Unplayed, to: PieceLocation::OnBoard(Square::new(2, 3)) };
    assert!(app.can_take_move(&enter));
    let bogus = Move { piece: Piece::new(Player::Player1, 0), from: PieceLocation::OnBoard(Square::new(1, 1)), to: PieceLocation::Scored };
    assert!(!app.can_take_move(&bogus));
    app.stats.moves = u32::MAX;
    assert!(!app.can_take_move(&enter));
}

#[test]
fn legal_move_at_cursor_finds_the_move_of_the_square() {
    let rules = GameRules::finkel();
    let mut s = GameState::new(&rules);
    s.board.set(Square::new(1, 0), Some(Piece::new(Player::Player1, 0)));
    s.unplayed[0] = 6;
    let mut app = game_app(s.clone());
    app.legal_moves = s.legal_moves(Dice(1));
    app.cursor_path_pos = 5;
    let mv = *app.legal_move_at_cursor().unwrap();
    assert_eq!(mv.from, PieceLocation::OnBoard(Square::new(1, 0)));
    app.cursor_path_pos = 0;
    assert_eq!(app.legal_move_at_cursor().unwrap().from, PieceLocation::Unplayed);
    app.cursor_path_pos = 7;
    assert!(app.legal_move_at_cursor().is_none());
    app.cursor_path_pos = 15;
    assert!(app.legal_move_at_cursor().is_none());
}

#[test]
fn confirm_move_applies_the_move_under_the_cursor() {
    let rules = GameRules::finkel();
    let s = GameState::new(&rules);
    let mut app = game_app(s.clone());
    app.rng = StdRng::seed_from_u64(5);
    app.dice_roll = Some(Dice(1));
    app.legal_moves = s.legal_moves(Dice(1));
    app.cursor_path_pos = 0;
    app.animation = Some(Animation::Done);
    app.handle_confirm_move();
    assert_eq!(app.stats.moves, 0, "an animation holds the move back");
    app.animation = None;
    app.handle_confirm_move();
    assert_eq!(app.stats.moves, 1);
    assert_eq!(app.game_state.as_ref().unwrap().board.get(Square::new(2, 3)), Some(Piece::new(Player::Player1, 0)));
}

#[test]
fn on_animation_done_offers_moves_and_clamps_the_cursor() {
    let rules = GameRules::finkel();
    let mut app = game_app(GameState::new(&rules));
    app.dice_roll = Some(Dice(4));
    app.cursor_path_pos = 40;
    app.on_animation_done();
    assert_eq!(app.legal_moves.len(), 1);
    assert_eq!(app.cursor_path_pos, 15);
    assert!(app.forfeit_after.is_none());
    assert_eq!(app.turn_log[0][0], vec!["Rolled 4".to_string()]);
}

#[test]
fn on_animation_done_waits_for_the_ai() {
    let rules = GameRules::finkel();
    let mut gs = GameState::new(&rules);
    gs.current_player = Player::Player2;
    let mut app = game_app(gs);
    app.dice_roll = Some(Dice(1));
    app.ai_thinking = true;
    app.on_animation_done();
    assert!(app.forfeit_after.is_none());
    assert!(app.log.is_empty());
    assert!(app.legal_moves.is_empty() && app.ai_thinking);
    assert_eq!(app.turn_log[1][0], vec!["Rolled 1".to_string()]);
}

#[test]
fn an_ai_roll_without_moves_stops_the_thinking_and_forfeits() {
    let rules = GameRules::finkel();
    let mut gs = GameState::new(&rules);
    gs.current_player = Player::Player2;
    let mut app = game_app(gs);
    app.dice_roll = Some(Dice(0));
    app.ai_thinking = true;
    app.on_animation_done();
    assert!(!app.ai_thinking);
    assert!(app.forfeit_after.is_some());
    assert_eq!(texts(&app), vec!["No moves!".to_string()]);
    assert_eq!(app.log[0].player, Some(Player::Player2));
    assert_eq!(app.turn_log[1][0], vec!["Rolled 0".to_string(), "No moves!".to_string()]);
}

#[test]
fn no_moves_is_logged_and_noted() {
    let rules = GameRules::finkel();
    let mut app = game_app(GameState::new(&rules));
    app.dice_roll = Some(Dice(0));
    app.on_animation_done();
    assert_eq!(texts(&app), vec!["No moves!".to_string()]);
    assert_eq!(app.log[0].player, Some(Player::Player1));
    assert_eq!(app.turn_log[0][0], vec!["Rolled 0".to_string(), "No moves!".to_string()]);
}

#[test]
fn forfeit_in_a_finished_game_keeps_the_state() {
    let rules = GameRules::finkel();
    let mut gs = GameState::new(&rules);
    gs.phase = GamePhase::GameOver(Player::Player2);
    let mut app = game_app(gs);
    app.dice_roll = Some(Dice(3));
    app.forfeit_if_due(true);
    assert!(app.forfeit_after.is_none());
    app.forfeit_after = Some(std::time::Instant::now());
    app.forfeit_if_due(true);
    assert!(app.forfeit_after.is_none());
    assert!(app.dice_roll.is_none());
    assert_eq!(app.last_roll[0], Some(Dice(3)));
    assert_eq!(app.game_state.as_ref().unwrap().phase, GamePhase::GameOver(Player::Player2));
}

#[test]
fn forfeit_by_the_ai_schedules_the_human_roll() {
    let rules = GameRules::finkel();
    let mut gs = GameState::new(&rules);
    gs.current_player = Player::Player2;
    let mut app = game_app(gs);
    app.dice_roll = Some(Dice(0));
    app.forfeit_after = Some(std::time::Instant::now());
    app.forfeit_if_due(false);
    assert!(app.forfeit_after.is_some(), "not yet due");
    app.forfeit_if_due(true);
    assert_eq!(app.game_state.as_ref().unwrap().current_player, Player::Player1);
    assert!(app.pending_roll && app.roll_after.is_some());
    assert_eq!(app.last_roll[1], Some(Dice(0)));
}

#[test]
fn roll_if_due_respects_the_deadline() {
    let rules = GameRules::finkel();
    let mut app = game_app(GameState::new(&rules));
    app.pending_roll = true;
    app.roll_after = Some(std::time::Instant::now());
    app.roll_if_due(false);
    assert!(app.pending_roll && app.dice_roll.is_none());
    app.roll_if_due(true);
    assert!(!app.pending_roll && app.roll_after.is_none());
    let roll = app.dice_roll.unwrap();
    assert_eq!(texts(&app), vec![format!("Rolled {}", roll.value())]);
    assert_eq!(app.turn_log[0].len(), 2);
}

#[test]
fn turn_history_keeps_three_past_turns() {
    let rules = GameRules::finkel();
    let mut app = game_app(GameState::new(&rules));
    for _ in 0..8 {
        app.pending_roll = true;
        app.roll_after = None;
        app.animation = None;
        app.roll_if_due(false);
    }
    assert_eq!(app.turn_log[0].len(), 4);
}

#[test]
fn a_rosette_reroll_extends_the_current_turn() {
    let rules = GameRules::finkel();
    let mut app = game_app(GameState::new(&rules));
    let turn = vec!["Rolled 2".to_string(), "Moved to rosette at 4".to_string(), "Extra turn!".to_string()];
    app.turn_log[0] = vec![turn.clone()];
    app.pending_roll = true;
    app.rosette_reroll = true;
    app.roll_after = None;
    app.roll_if_due(false);
    assert!(!app.pending_roll && !app.rosette_reroll);
    assert!(app.dice_roll.is_some());
    assert_eq!(app.turn_log[0], vec![turn]);
}

#[test]
fn an_ai_rosette_landing_extends_its_turn() {
    let rules = GameRules::finkel();
    let mut s = GameState::new(&rules);
    s.current_player = Player::Player2;
    let path = rules.path_for(Player::Player2);
    let from = path.get(1).unwrap();
    let to = path.get(3).unwrap();
    assert!(rules.board_shape.is_rosette(to));
    s.board.set(from, Some(Piece::new(Player::Player2, 0)));
    s.unplayed[1] = 6;
    let mut app = game_app(s);
    app.ai_thinking = true;
    app.dice_roll = Some(Dice(2));
    let mv = Move { piece: Piece::new(Player::Player2, 0), from: PieceLocation::OnBoard(from), to: PieceLocation::OnBoard(to) };
    assert!(app.can_take_move(&mv));
    app.apply_move(mv);
    assert_eq!(app.game_state.as_ref().unwrap().current_player, Player::Player2);
    assert!(app.ai_thinking && app.dice_roll.is_some());
    assert_eq!(app.turn_log[1].len(), 1, "no new turn is started");
    assert_eq!(app.turn_log[1][0][0], "Moved to rosette at 4");
}

#[test]
fn a_move_that_no_roll_allows_is_refused() {
    let rules = GameRules::finkel();
    let mut s = GameState::new(&rules);
    s.board.set(Square::new(1, 0), Some(Piece::new(Player::Player1, 0)));
    s.unplayed[0] = 6;
    let jump = Move {
        piece: Piece::new(Player::Player1, 0),
        from: PieceLocation::OnBoard(Square::new(1, 0)),
        to: PieceLocation::OnBoard(Square::new(1, 7)),
    };
    for roll in 0u8..=4 {
        assert!(!s.legal_moves(Dice(roll)).contains(&jump));
    }
    assert!(s.legal_moves(Dice(0)).is_empty());
    assert!(s.move_is_applicable(&jump), "its checks alone would pass");
    assert!(!s.move_is_legal(&jump));
    let app = game_app(s.clone());
    assert!(!app.can_take_move(&jump));
    let step = s.legal_moves(Dice(1))[1];
    assert!(s.move_is_legal(&step));
}

#[test]
fn the_ai_move_is_collected_after_its_dice_animation() {
    let rules = GameRules::finkel();
    let mut gs = GameState::new(&rules);
    gs.current_player = Player::Player2;
    let mut app = game_app(gs.clone());
    app.ai_thinking = true;
    app.dice_roll = Some(Dice(1));
    app.animation = Some(Animation::DiceRoll { frames_remaining: 3, final_value: Dice(1), display: Dice(0) });
    assert!(!app.awaiting_ai_move());
    app.animation = None;
    assert!(app.awaiting_ai_move());
    let mv = gs.legal_moves(Dice(1))[0];
    app.accept_ai_move(mv);
    assert!(!app.ai_thinking && app.ai_request.is_none());
    assert_eq!(app.game_state.as_ref().unwrap().current_player, Player::Player1);
    assert_eq!(app.stats.moves, 1);
}

#[test]
fn a_lost_ai_search_skips_the_turn_message() {
    let mut app = App::new();
    app.ai_thinking = true;
    app.ai_move_lost();
    assert!(!app.ai_thinking);
    assert_eq!(app.log[0].player, Some(Player::Player2));
    assert_eq!(app.log[0].text, "error — turn skipped");
}

#[test]
fn open_pause_needs_a_game() {
    let mut app = App::new();
    app.open_pause();
    assert!(matches!(app.screen, Screen::Title));
    let mut app = game_app(GameState::new(&GameRules::finkel()));
    app.open_pause();
    assert!(matches!(app.screen, Screen::PauseMenu { selected: 0 }));
}

#[test]
fn scrolling_saturates_at_both_ends() {
    let mut app = App::new();
    app.help_scroll_up();
    assert_eq!(app.help_scroll, 0);
    app.help_scroll = u16::MAX;
    app.help_scroll_down();
    assert_eq!(app.help_scroll, u16::MAX);
    app.help_scroll = 4;
    app.help_scroll_down();
    app.help_scroll_up();
    assert_eq!(app.help_scroll, 4);
}

#[test]
fn menus_move_and_back_navigates() {
    let mut app = App::new();
    app.handle_menu_down();
    app.handle_menu_down();
    app.handle_menu_down();
    assert_eq!(app.title_selected, 2);
    app.screen = Screen::PauseMenu { selected: 1 };
    app.handle_menu_down();
    app.handle_menu_up();
    assert!(matches!(app.screen, Screen::PauseMenu { selected: 1 }));
    app.screen = Screen::Help { from_game: true };
    app.handle_back();
    assert!(matches!(app.screen, Screen::PauseMenu { selected: 0 }));
    app.screen = Screen::Help { from_game: false };
    app.handle_back();
    assert!(matches!(app.screen, Screen::Title));
    app.screen = Screen::DiceOff {
        state: DiceOffState {
            p1_frames: 1,
            p2_frames: 1,
            p1_final: Dice(1),
            p2_final: Dice(2),
            p1_display: Dice(0),
            p2_display: Dice(0),
            winner: None,
            acknowledged: false,
        },
    };
    app.handle_back();
    assert!(matches!(app.screen, Screen::DifficultySelect { selected: 0 }));
    app.screen = Screen::GameOver;
    app.handle_back();
    assert!(matches!(app.screen, Screen::GameOver));
}

#[test]
fn every_offered_move_can_be_taken() {
    let rules = GameRules::finkel();
    let mut s = GameState::new(&rules);
    s.board.set(Square::new(1, 0), Some(Piece::new(Player::Player1, 0)));
    s.board.set(Square::new(1, 2), Some(Piece::new(Player::Player2, 0)));
    s.unplayed = [6, 6];
    for roll in 1u8..=4 {
        let mut app = game_app(s.clone());
        app.dice_roll = Some(Dice(roll));
        app.on_animation_done();
        assert!(!app.legal_moves.is_empty());
        for mv in app.legal_moves.clone() {
            assert!(app.can_take_move(&mv), "roll {roll}: {mv:?}");
        }
    }
}
