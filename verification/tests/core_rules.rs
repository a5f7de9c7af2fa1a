use rand::rngs::StdRng;
use rand::SeedableRng;
use ur_core::board::{BoardShape, Path, Square};
use ur_core::dice::Dice;
use ur_core::player::{Piece, Player};
use ur_core::state::{GamePhase, GameRules, GameState, Move, PieceLocation};

/// Probability of each dice outcome. Index is the roll value (0–4).
const DICE_PROBABILITIES: [f64; 5] = [1.0 / 16.0, 4.0 / 16.0, 6.0 / 16.0, 4.0 / 16.0, 1.0 / 16.0];

fn player1_path() -> Path {
    Path::new(vec![
        Square::new(2, 3), Square::new(2, 2), Square::new(2, 1), Square::new(2, 0),
        Square::new(1, 0), Square::new(1, 1), Square::new(1, 2), Square::new(1, 3),
        Square::new(1, 4), Square::new(1, 5), Square::new(1, 6), Square::new(1, 7),
        Square::new(2, 7), Square::new(2, 6),
    ])
}

fn player2_path() -> Path {
    Path::new(vec![
        Square::new(0, 3), Square::new(0, 2), Square::new(0, 1), Square::new(0, 0),
        Square::new(1, 0), Square::new(1, 1), Square::new(1, 2), Square::new(1, 3),
        Square::new(1, 4), Square::new(1, 5), Square::new(1, 6), Square::new(1, 7),
        Square::new(0, 7), Square::new(0, 6),
    ])
}

// ── Players ──────────────────────────────────────────────────────────────────

#[test]
fn test_player1_opponent_is_player2() {
    assert_eq!(Player::Player1.opponent(), Player::Player2);
}

#[test]
fn test_player2_opponent_is_player1() {
    assert_eq!(Player::Player2.opponent(), Player::Player1);
}

#[test]
fn test_opponent_is_involution() {
    assert_eq!(Player::Player1.opponent().opponent(), Player::Player1);
    assert_eq!(Player::Player2.opponent().opponent(), Player::Player2);
}

#[test]
fn test_player_index_player1_is_0() {
    assert_eq!(Player::Player1.index(), 0);
}

#[test]
fn test_player_index_player2_is_1() {
    assert_eq!(Player::Player2.index(), 1);
}

#[test]
fn piece_new_keeps_owner_and_index() {
    let p = Piece::new(Player::Player2, 5);
    assert_eq!(p.player, Player::Player2);
    assert_eq!(p.index, 5);
}

// ── Board ────────────────────────────────────────────────────────────────────

#[test]
fn test_path_player1_covers_correct_squares() {
    let path = player1_path();
    assert_eq!(path.len(), 14);
    assert_eq!(path.get(0), Some(Square::new(2, 3)));
    assert_eq!(path.get(1), Some(Square::new(2, 2)));
    assert_eq!(path.get(2), Some(Square::new(2, 1)));
    assert_eq!(path.get(3), Some(Square::new(2, 0)));
    for col in 0u8..8 {
        assert_eq!(path.get(4 + col as usize), Some(Square::new(1, col)));
    }
    assert_eq!(path.get(12), Some(Square::new(2, 7)));
    assert_eq!(path.get(13), Some(Square::new(2, 6)));
}

#[test]
fn test_path_player2_covers_correct_squares() {
    let path = player2_path();
    assert_eq!(path.len(), 14);
    assert_eq!(path.get(0), Some(Square::new(0, 3)));
    assert_eq!(path.get(1), Some(Square::new(0, 2)));
    assert_eq!(path.get(2), Some(Square::new(0, 1)));
    assert_eq!(path.get(3), Some(Square::new(0, 0)));
    for col in 0u8..8 {
        assert_eq!(path.get(4 + col as usize), Some(Square::new(1, col)));
    }
    assert_eq!(path.get(12), Some(Square::new(0, 7)));
    assert_eq!(path.get(13), Some(Square::new(0, 6)));
}

#[test]
fn test_shared_row_is_columns_0_through_7() {
    let p1 = player1_path();
    let p2 = player2_path();
    for col in 0u8..8 {
        let sq = Square::new(1, col);
        assert!(p1.index_of(sq).is_some(), "Player1 path missing shared square (1,{})", col);
        assert!(p2.index_of(sq).is_some(), "Player2 path missing shared square (1,{})", col);
    }
}

#[test]
fn test_rosette_positions() {
    let shape = BoardShape::finkel();
    let expected_rosettes = vec![
        Square::new(0, 0),
        Square::new(0, 6),
        Square::new(1, 3),
        Square::new(2, 0),
        Square::new(2, 6),
    ];
    for sq in &expected_rosettes {
        assert!(shape.is_rosette(*sq), "expected rosette at ({},{})", sq.row, sq.col);
    }
    assert_eq!(shape.rosettes().len(), 5);
}

#[test]
fn test_invalid_squares_row0_cols_4_5() {
    let shape = BoardShape::finkel();
    assert!(!shape.is_valid(Square::new(0, 4)), "(0,4) should be invalid");
    assert!(!shape.is_valid(Square::new(0, 5)), "(0,5) should be invalid");
}

#[test]
fn test_invalid_squares_row2_cols_4_5() {
    let shape = BoardShape::finkel();
    assert!(!shape.is_valid(Square::new(2, 4)), "(2,4) should be invalid");
    assert!(!shape.is_valid(Square::new(2, 5)), "(2,5) should be invalid");
}

#[test]
fn test_valid_square_count_is_20() {
    let shape = BoardShape::finkel();
    assert_eq!(shape.valid_squares().len(), 20);
}

#[test]
fn test_path_index_of_roundtrip() {
    let path = player1_path();
    for (i, &sq) in path.squares().iter().enumerate() {
        assert_eq!(path.index_of(sq), Some(i));
        assert_eq!(path.get(path.index_of(sq).unwrap()), Some(sq));
    }
}

#[test]
fn path_edges_are_empty_or_absent() {
    let empty = Path::new(Vec::new());
    assert!(empty.is_empty());
    assert_eq!(empty.get(0), None);
    assert_eq!(empty.index_of(Square::new(1, 1)), None);
    let path = player1_path();
    assert!(!path.is_empty());
    assert_eq!(path.get(14), None);
    assert_eq!(path.index_of(Square::new(0, 0)), None);
}

#[test]
fn finkel_valid_squares_are_the_h_shape() {
    let shape = BoardShape::finkel();
    for row in 0u8..3 {
        for col in 0u8..8 {
            let expected = row == 1 || (col != 4 && col != 5);
            assert_eq!(shape.is_valid(Square::new(row, col)), expected, "({row},{col})");
        }
    }
    assert!(!shape.is_valid(Square::new(3, 0)));
}

#[test]
fn finkel_rules_use_the_finkel_paths() {
    let rules = GameRules::finkel();
    assert_eq!(rules.path_for(Player::Player1).squares(), player1_path().squares());
    assert_eq!(rules.path_for(Player::Player2).squares(), player2_path().squares());
    assert_eq!(rules.piece_count, 7);
    assert!(rules.rosettes_grant_extra_turn);
    assert!(rules.rosettes_are_safe);
}

// ── Dice ─────────────────────────────────────────────────────────────────────

#[test]
fn test_dice_value_always_0_to_4() {
    let mut rng = StdRng::seed_from_u64(0);
    for _ in 0..10_000 {
        let roll = Dice::roll(&mut rng);
        assert!(roll.value() <= 4, "roll {} out of range", roll.value());
    }
}

#[test]
fn test_dice_probabilities_sum_to_1() {
    let sum: f64 = DICE_PROBABILITIES.iter().sum();
    assert!((sum - 1.0).abs() < 1e-10, "probabilities sum to {}, not 1.0", sum);
}

#[test]
fn test_dice_probability_distribution_matches_binomial() {
    let mut rng = StdRng::seed_from_u64(42);
    let n = 100_000usize;
    let mut counts = [0usize; 5];
    for _ in 0..n {
        counts[Dice::roll(&mut rng).value() as usize] += 1;
    }
    for (val, &count) in counts.iter().enumerate() {
        let observed = count as f64 / n as f64;
        let expected = DICE_PROBABILITIES[val];
        let diff = (observed - expected).abs();
        assert!(
            diff < 0.02,
            "roll {} observed {:.4} expected {:.4} diff {:.4} > 2%",
            val,
            observed,
            expected,
            diff
        );
    }
}

#[test]
fn test_dice_roll_is_deterministic_given_seed() {
    let mut rng_a = StdRng::seed_from_u64(999);
    let mut rng_b = StdRng::seed_from_u64(999);
    for _ in 0..1000 {
        assert_eq!(Dice::roll(&mut rng_a), Dice::roll(&mut rng_b));
    }
}

#[test]
fn dice_new_accepts_only_0_to_4() {
    for v in 0u8..=4 {
        assert_eq!(Dice::new(v), Some(Dice(v)));
    }
    assert_eq!(Dice::new(5), None);
    assert_eq!(Dice::new(255), None);
}

#[test]
fn dice_from_dice_counts_marked_sides() {
    assert_eq!(Dice::from_dice(false, false, false, false), Dice(0));
    assert_eq!(Dice::from_dice(true, false, true, false), Dice(2));
    assert_eq!(Dice::from_dice(true, true, true, true), Dice(4));
    // every one of the 16 outcomes: 1, 4, 6, 4, 1 ways to roll 0..4
    let mut ways = [0u32; 5];
    for bits in 0u8..16 {
        let d = Dice::from_dice(bits & 1 != 0, bits & 2 != 0, bits & 4 != 0, bits & 8 != 0);
        ways[d.value() as usize] += 1;
    }
    assert_eq!(ways, [1, 4, 6, 4, 1]);
}

// ── Legal move generation ────────────────────────────────────────────────────

#[test]
fn test_game_state_new_initial_conditions() {
    let rules = GameRules::finkel();
    let state = GameState::new(&rules);
    assert_eq!(state.unplayed[Player::Player1.index()], 7);
    assert_eq!(state.unplayed[Player::Player2.index()], 7);
    assert_eq!(state.scored[Player::Player1.index()], 0);
    assert_eq!(state.scored[Player::Player2.index()], 0);
    assert_eq!(state.current_player, Player::Player1);
    assert_eq!(state.phase, GamePhase::WaitingForRoll);
    assert!(!state.is_finished());
    assert_eq!(state.winner(), None);
}

#[test]
fn test_no_legal_moves_roll_0() {
    let rules = GameRules::finkel();
    let state = GameState::new(&rules);
    assert!(state.legal_moves(Dice::new(0).unwrap()).is_empty());
}

#[test]
fn test_no_legal_moves_no_pieces() {
    let rules = GameRules::finkel();
    let mut state = GameState::new(&rules);
    state.unplayed[Player::Player1.index()] = 0;
    for roll in 1u8..=4 {
        assert!(
            state.legal_moves(Dice::new(roll).unwrap()).is_empty(),
            "expected no moves for roll {roll}"
        );
    }
}

#[test]
fn test_no_legal_moves_all_destinations_blocked() {
    let rules = GameRules::finkel();
    let mut s = GameState::new(&rules);
    let path = rules.path_for(Player::Player1);
    s.board.set(path.get(3).unwrap(), Some(Piece::new(Player::Player1, 0)));
    s.board.set(path.get(4).unwrap(), Some(Piece::new(Player::Player1, 1)));
    s.board.set(path.get(5).unwrap(), Some(Piece::new(Player::Player1, 2)));
    s.board.set(path.get(6).unwrap(), Some(Piece::new(Player::Player1, 3)));
    s.board.set(path.get(7).unwrap(), Some(Piece::new(Player::Player1, 4)));
    s.unplayed[Player::Player1.index()] = 0;
    for roll in 1u8..=4 {
        let moves = s.legal_moves(Dice::new(roll).unwrap());
        assert!(
            moves.iter().all(|m| m.from != PieceLocation::OnBoard(path.get(3).unwrap())),
            "piece at path[3] should have no move for roll {roll} — all targets friendly"
        );
    }
}

#[test]
fn test_can_enter_piece_from_pool() {
    let rules = GameRules::finkel();
    let state = GameState::new(&rules);
    let moves = state.legal_moves(Dice::new(1).unwrap());
    assert!(!moves.is_empty());
    let entry_sq = rules.path_for(Player::Player1).get(0).unwrap();
    assert!(moves
        .iter()
        .any(|m| m.from == PieceLocation::Unplayed && m.to == PieceLocation::OnBoard(entry_sq)));
}

#[test]
fn test_cannot_enter_when_entry_occupied_by_friendly() {
    let rules = GameRules::finkel();
    let state = GameState::new(&rules);
    let mut s = state.clone();
    let entry_sq = rules.path_for(Player::Player1).get(0).unwrap();
    s.board.set(entry_sq, Some(Piece::new(Player::Player1, 0)));
    let moves = s.legal_moves(Dice::new(1).unwrap());
    assert!(
        !moves
            .iter()
            .any(|m| m.from == PieceLocation::Unplayed && m.to == PieceLocation::OnBoard(entry_sq)),
        "should not be able to enter when entry square is friendly-occupied"
    );
}

#[test]
fn test_can_enter_onto_opponent_non_rosette() {
    let rules = GameRules::finkel();
    let entry_sq = rules.path_for(Player::Player1).get(0).unwrap();
    assert!(!rules.board_shape.is_rosette(entry_sq));
    let mut s = GameState::new(&rules);
    s.board.set(entry_sq, Some(Piece::new(Player::Player2, 0)));
    s.unplayed[Player::Player2.index()] = 6;
    let moves = s.legal_moves(Dice::new(1).unwrap());
    assert!(
        moves
            .iter()
            .any(|m| m.from == PieceLocation::Unplayed && m.to == PieceLocation::OnBoard(entry_sq)),
        "entering onto an opponent-occupied non-rosette square should be legal (capture on entry)"
    );
}

#[test]
fn test_bearing_off_requires_exact_roll() {
    let rules = GameRules::finkel();
    let state = GameState::new(&rules);
    let path = rules.path_for(Player::Player1);
    let last_sq = path.get(13).unwrap();
    let mut s = state.clone();
    s.board.set(last_sq, Some(Piece::new(Player::Player1, 0)));
    s.unplayed[Player::Player1.index()] = 6;
    let moves = s.legal_moves(Dice::new(1).unwrap());
    assert!(
        moves
            .iter()
            .any(|m| m.from == PieceLocation::OnBoard(last_sq) && m.to == PieceLocation::Scored),
        "roll=1 from last square should produce a bear-off move"
    );
}

#[test]
fn test_overshoot_not_allowed() {
    let rules = GameRules::finkel();
    let path = rules.path_for(Player::Player1);
    let last_sq = path.get(13).unwrap();
    let mut s = GameState::new(&rules);
    s.board.set(last_sq, Some(Piece::new(Player::Player1, 0)));
    s.unplayed[Player::Player1.index()] = 6;
    let moves = s.legal_moves(Dice::new(2).unwrap());
    assert!(
        moves.iter().all(|m| m.from != PieceLocation::OnBoard(last_sq)),
        "roll=2 from last square should not produce any move for that piece"
    );
}

#[test]
fn test_capture_on_bridge_is_legal() {
    let rules = GameRules::finkel();
    let mut s = GameState::new(&rules);
    let p1_sq = rules.path_for(Player::Player1).get(4).unwrap();
    let p2_sq = rules.path_for(Player::Player2).get(5).unwrap();
    assert_eq!(p1_sq, Square::new(1, 0));
    assert_eq!(p2_sq, Square::new(1, 1));
    s.board.set(p1_sq, Some(Piece::new(Player::Player1, 0)));
    s.board.set(p2_sq, Some(Piece::new(Player::Player2, 0)));
    s.unplayed = [6, 6];
    let moves = s.legal_moves(Dice::new(1).unwrap());
    assert!(
        moves
            .iter()
            .any(|m| m.from == PieceLocation::OnBoard(p1_sq) && m.to == PieceLocation::OnBoard(p2_sq)),
        "landing on opponent's non-rosette square should be legal"
    );
}

#[test]
fn test_capture_blocked_by_rosette() {
    let rules = GameRules::finkel();
    let mut s = GameState::new(&rules);
    let p1_sq = Square::new(1, 2);
    let rosette = Square::new(1, 3);
    assert!(rules.board_shape.is_rosette(rosette));
    s.board.set(p1_sq, Some(Piece::new(Player::Player1, 0)));
    s.board.set(rosette, Some(Piece::new(Player::Player2, 0)));
    s.unplayed = [6, 6];
    let moves = s.legal_moves(Dice::new(1).unwrap());
    assert!(
        moves.iter().all(|m| m.to != PieceLocation::OnBoard(rosette)),
        "should not be able to capture opponent on rosette"
    );
}

#[test]
fn test_friendly_square_blocked() {
    let rules = GameRules::finkel();
    let mut s = GameState::new(&rules);
    let sq0 = Square::new(1, 0);
    let sq1 = Square::new(1, 1);
    s.board.set(sq0, Some(Piece::new(Player::Player1, 0)));
    s.board.set(sq1, Some(Piece::new(Player::Player1, 1)));
    s.unplayed[Player::Player1.index()] = 5;
    let moves = s.legal_moves(Dice::new(1).unwrap());
    assert!(
        moves
            .iter()
            .all(|m| !(m.from == PieceLocation::OnBoard(sq0) && m.to == PieceLocation::OnBoard(sq1))),
        "should not move to friendly-occupied square"
    );
}

#[test]
fn test_rosette_safe_from_capture() {
    let rules = GameRules::finkel();
    let mut s = GameState::new(&rules);
    let rosette = Square::new(2, 0);
    assert!(rules.board_shape.is_rosette(rosette));
    s.board.set(rosette, Some(Piece::new(Player::Player1, 0)));
    s.unplayed[Player::Player1.index()] = 6;
    s.current_player = Player::Player2;
    let p1_rosette = Square::new(1, 3);
    assert!(rules.board_shape.is_rosette(p1_rosette));
    let p2_start = rules.path_for(Player::Player2).get(6).unwrap();
    let mut s2 = GameState::new(&rules);
    s2.board.set(p2_start, Some(Piece::new(Player::Player2, 0)));
    s2.board.set(p1_rosette, Some(Piece::new(Player::Player1, 0)));
    s2.unplayed = [6, 6];
    s2.current_player = Player::Player2;
    let moves = s2.legal_moves(Dice::new(1).unwrap());
    assert!(
        moves.iter().all(|m| m.to != PieceLocation::OnBoard(p1_rosette)),
        "Player2 should not be able to capture Player1 on the bridge rosette"
    );
}

#[test]
fn entering_piece_takes_the_lowest_free_index() {
    let rules = GameRules::finkel();
    let mut s = GameState::new(&rules);
    s.board.set(Square::new(1, 0), Some(Piece::new(Player::Player1, 0)));
    s.board.set(Square::new(1, 5), Some(Piece::new(Player::Player1, 2)));
    s.unplayed[0] = 5;
    let moves = s.legal_moves(Dice(2));
    let enter = moves.iter().find(|m| m.from == PieceLocation::Unplayed).unwrap();
    assert_eq!(enter.piece, Piece::new(Player::Player1, 1));
    assert_eq!(enter.to, PieceLocation::OnBoard(Square::new(2, 2)));
}

#[test]
fn legal_moves_list_entry_first_then_board_order() {
    let rules = GameRules::finkel();
    let mut s = GameState::new(&rules);
    s.board.set(Square::new(1, 0), Some(Piece::new(Player::Player1, 0)));
    s.unplayed[0] = 6;
    let moves = s.legal_moves(Dice(2));
    assert_eq!(
        moves,
        vec![
            Move {
                piece: Piece::new(Player::Player1, 1),
                from: PieceLocation::Unplayed,
                to: PieceLocation::OnBoard(Square::new(2, 2)),
            },
            Move {
                piece: Piece::new(Player::Player1, 0),
                from: PieceLocation::OnBoard(Square::new(1, 0)),
                to: PieceLocation::OnBoard(Square::new(1, 2)),
            },
        ]
    );
}

// ── Move application ─────────────────────────────────────────────────────────

#[test]
fn test_piece_advances_correct_number_of_squares() {
    let rules = GameRules::finkel();
    let mut s = GameState::new(&rules);
    let start_sq = rules.path_for(Player::Player1).get(4).unwrap();
    let expected_sq = rules.path_for(Player::Player1).get(7).unwrap();
    s.board.set(start_sq, Some(Piece::new(Player::Player1, 0)));
    s.unplayed[Player::Player1.index()] = 6;
    let moves = s.legal_moves(Dice::new(3).unwrap());
    let mv = moves.iter().find(|m| m.from == PieceLocation::OnBoard(start_sq)).unwrap().clone();
    assert_eq!(mv.to, PieceLocation::OnBoard(expected_sq));
    let result = s.apply_move(mv);
    assert_eq!(result.new_state.board.get(expected_sq), Some(Piece::new(Player::Player1, 0)));
    assert_eq!(result.new_state.board.get(start_sq), None);
}

#[test]
fn test_capture_returns_opponent_piece_to_pool() {
    let rules = GameRules::finkel();
    let mut s = GameState::new(&rules);
    let p1_sq = Square::new(1, 0);
    let p2_sq = Square::new(1, 1);
    s.board.set(p1_sq, Some(Piece::new(Player::Player1, 0)));
    s.board.set(p2_sq, Some(Piece::new(Player::Player2, 0)));
    s.unplayed = [6, 6];
    let moves = s.legal_moves(Dice::new(1).unwrap());
    let capture_mv = moves
        .iter()
        .find(|m| m.from == PieceLocation::OnBoard(p1_sq) && m.to == PieceLocation::OnBoard(p2_sq))
        .unwrap()
        .clone();
    let result = s.apply_move(capture_mv);
    assert_eq!(result.new_state.unplayed[Player::Player2.index()], 7);
    assert_eq!(result.new_state.board.get(p2_sq), Some(Piece::new(Player::Player1, 0)));
    assert_eq!(result.new_state.board.get(p1_sq), None);
}

#[test]
fn test_capture_metadata_is_set() {
    let rules = GameRules::finkel();
    let mut s = GameState::new(&rules);
    let p1_sq = Square::new(1, 0);
    let p2_sq = Square::new(1, 1);
    let p2_piece = Piece::new(Player::Player2, 0);
    s.board.set(p1_sq, Some(Piece::new(Player::Player1, 0)));
    s.board.set(p2_sq, Some(p2_piece));
    s.unplayed = [6, 6];
    let moves = s.legal_moves(Dice::new(1).unwrap());
    let capture_mv = moves.iter().find(|m| m.to == PieceLocation::OnBoard(p2_sq)).unwrap().clone();
    let result = s.apply_move(capture_mv);
    assert_eq!(result.captured, Some(p2_piece));
}

#[test]
fn test_rosette_grants_extra_turn() {
    let rules = GameRules::finkel();
    let mut s = GameState::new(&rules);
    let start_sq = rules.path_for(Player::Player1).get(2).unwrap();
    let rosette_sq = rules.path_for(Player::Player1).get(3).unwrap();
    assert!(rules.board_shape.is_rosette(rosette_sq));
    s.board.set(start_sq, Some(Piece::new(Player::Player1, 0)));
    s.unplayed[Player::Player1.index()] = 6;
    let moves = s.legal_moves(Dice::new(1).unwrap());
    let mv = moves.iter().find(|m| m.to == PieceLocation::OnBoard(rosette_sq)).unwrap().clone();
    let result = s.apply_move(mv);
    assert_eq!(result.new_state.current_player, Player::Player1);
    assert_eq!(result.new_state.phase, GamePhase::WaitingForRoll);
    assert!(result.landed_on_rosette);
}

#[test]
fn test_non_rosette_passes_turn() {
    let rules = GameRules::finkel();
    let mut s = GameState::new(&rules);
    s.unplayed[Player::Player1.index()] = 7;
    let moves = s.legal_moves(Dice::new(1).unwrap());
    let enter_mv = moves.iter().find(|m| m.from == PieceLocation::Unplayed).unwrap().clone();
    let target = rules.path_for(Player::Player1).get(0).unwrap();
    assert!(!rules.board_shape.is_rosette(target));
    assert_eq!(enter_mv.to, PieceLocation::OnBoard(target));
    let result = s.apply_move(enter_mv);
    assert_eq!(result.new_state.current_player, Player::Player2);
    assert!(!result.landed_on_rosette);
}

#[test]
fn test_scoring_a_piece() {
    let rules = GameRules::finkel();
    let mut s = GameState::new(&rules);
    let last_sq = rules.path_for(Player::Player1).get(13).unwrap();
    s.board.set(last_sq, Some(Piece::new(Player::Player1, 0)));
    s.unplayed[Player::Player1.index()] = 6;
    let moves = s.legal_moves(Dice::new(1).unwrap());
    let bear_off = moves.iter().find(|m| m.to == PieceLocation::Scored).unwrap().clone();
    let result = s.apply_move(bear_off);
    assert!(result.piece_scored);
    assert_eq!(result.new_state.scored[Player::Player1.index()], 1);
}

#[test]
fn test_win_detection_all_7_scored() {
    let rules = GameRules::finkel();
    let mut s = GameState::new(&rules);
    s.scored[Player::Player1.index()] = 6;
    s.unplayed[Player::Player1.index()] = 0;
    let last_sq = rules.path_for(Player::Player1).get(13).unwrap();
    s.board.set(last_sq, Some(Piece::new(Player::Player1, 0)));
    let moves = s.legal_moves(Dice::new(1).unwrap());
    let bear_off = moves.iter().find(|m| m.to == PieceLocation::Scored).unwrap().clone();
    let result = s.apply_move(bear_off);
    assert!(result.game_over);
    assert!(result.new_state.is_finished());
    assert_eq!(result.new_state.winner(), Some(Player::Player1));
}

#[test]
fn illegal_moves_are_not_applicable() {
    let rules = GameRules::finkel();
    let state = GameState::new(&rules);
    // A piece that is not on the board.
    let absent = Move {
        piece: Piece::new(Player::Player1, 0),
        from: PieceLocation::OnBoard(Square::new(1, 0)),
        to: PieceLocation::OnBoard(Square::new(1, 1)),
    };
    assert!(!state.move_is_applicable(&absent));
    // A scored piece cannot move.
    let from_scored = Move {
        piece: Piece::new(Player::Player1, 0),
        from: PieceLocation::Scored,
        to: PieceLocation::OnBoard(Square::new(1, 0)),
    };
    assert!(!state.move_is_applicable(&from_scored));
    // A piece cannot move back to the pool.
    let mut s = GameState::new(&rules);
    let src = rules.path_for(Player::Player1).get(4).unwrap();
    s.board.set(src, Some(Piece::new(Player::Player1, 0)));
    s.unplayed[0] = 6;
    let to_pool = Move { piece: Piece::new(Player::Player1, 0), from: PieceLocation::OnBoard(src), to: PieceLocation::Unplayed };
    assert!(!s.move_is_applicable(&to_pool));
    // Every legal move is applicable.
    for roll in 0u8..=4 {
        for mv in s.legal_moves(Dice(roll)) {
            assert!(s.move_is_applicable(&mv));
        }
    }
}

// ── Turn forfeiture ──────────────────────────────────────────────────────────

#[test]
fn test_forfeit_turn_advances_to_opponent() {
    let rules = GameRules::finkel();
    let state = GameState::new(&rules);
    assert_eq!(state.current_player, Player::Player1);
    let next = state.forfeit_turn().unwrap();
    assert_eq!(next.current_player, Player::Player2);
}

#[test]
fn test_forfeit_turn_returns_none_when_game_over() {
    let rules = GameRules::finkel();
    let mut state = GameState::new(&rules);
    state.phase = GamePhase::GameOver(Player::Player1);
    assert!(state.forfeit_turn().is_none());
}

#[test]
fn test_forfeit_turn_when_no_legal_moves() {
    let rules = GameRules::finkel();
    let s = GameState::new(&rules);
    assert!(s.legal_moves(Dice::new(0).unwrap()).is_empty());
    let after_forfeit = s.forfeit_turn().expect("forfeit_turn should return Some in a live game");
    assert_eq!(after_forfeit.current_player, Player::Player2);
    assert_eq!(after_forfeit.phase, GamePhase::WaitingForRoll);
    assert_eq!(s.current_player, Player::Player1);
}

#[test]
fn pass_turn_keeps_the_board() {
    let rules = GameRules::finkel();
    let mut s = GameState::new(&rules);
    s.board.set(Square::new(1, 4), Some(Piece::new(Player::Player1, 0)));
    let p = s.pass_turn();
    assert_eq!(p.current_player(), Player::Player2);
    assert_eq!(p.board, s.board);
    assert_eq!(p.unplayed, s.unplayed);
}

fn finkel_with(extra_turn: bool, safe: bool) -> GameRules {
    let mut rules = GameRules::finkel();
    rules.rosettes_grant_extra_turn = extra_turn;
    rules.rosettes_are_safe = safe;
    rules
}

#[test]
fn test_rosettes_grant_extra_turn_false_switches_player() {
    let rules = finkel_with(false, true);
    let mut s = GameState::new(&rules);
    let path = rules.path_for(Player::Player1);
    assert!(rules.board_shape.is_rosette(path.get(3).unwrap()), "path[3] should be a rosette");
    s.board.set(path.get(0).unwrap(), Some(Piece::new(Player::Player1, 0)));
    s.unplayed[Player::Player1.index()] = 6;
    let moves = s.legal_moves(Dice::new(3).unwrap());
    let mv = moves
        .iter()
        .find(|m| m.to == PieceLocation::OnBoard(path.get(3).unwrap()))
        .expect("should be able to move to rosette");
    let result = s.apply_move(mv.clone());
    assert!(result.landed_on_rosette);
    assert_eq!(
        result.new_state.current_player,
        Player::Player2,
        "with rosettes_grant_extra_turn=false, turn should switch"
    );
}

#[test]
fn test_rosettes_are_safe_false_allows_capture_on_rosette() {
    let rules = finkel_with(true, false);
    let mut s = GameState::new(&rules);
    let p1_path = rules.path_for(Player::Player1);
    let rosette = p1_path.get(7).unwrap();
    assert!(rules.board_shape.is_rosette(rosette));
    s.board.set(rosette, Some(Piece::new(Player::Player2, 0)));
    s.unplayed[Player::Player2.index()] = 6;
    s.board.set(p1_path.get(6).unwrap(), Some(Piece::new(Player::Player1, 0)));
    s.unplayed[Player::Player1.index()] = 6;
    let moves = s.legal_moves(Dice::new(1).unwrap());
    let capture_mv = moves.iter().find(|m| m.to == PieceLocation::OnBoard(rosette));
    assert!(
        capture_mv.is_some(),
        "with rosettes_are_safe=false, capturing on a rosette should be a legal move"
    );
    let result = s.apply_move(capture_mv.unwrap().clone());
    assert!(result.captured.is_some());
}

#[test]
fn test_rosettes_are_safe_true_blocks_capture_on_rosette() {
    let rules = finkel_with(true, true);
    let mut s = GameState::new(&rules);
    let p1_path = rules.path_for(Player::Player1);
    let rosette = p1_path.get(7).unwrap();
    assert!(rules.board_shape.is_rosette(rosette));
    s.board.set(rosette, Some(Piece::new(Player::Player2, 0)));
    s.unplayed[Player::Player2.index()] = 6;
    s.board.set(p1_path.get(6).unwrap(), Some(Piece::new(Player::Player1, 0)));
    s.unplayed[Player::Player1.index()] = 6;
    let moves = s.legal_moves(Dice::new(1).unwrap());
    let capture_mv = moves.iter().find(|m| m.to == PieceLocation::OnBoard(rosette));
    assert!(
        capture_mv.is_none(),
        "with rosettes_are_safe=true, landing on an opponent's rosette should be blocked"
    );
}

#[test]
fn move_path_lists_the_squares_passed() {
    let rules = GameRules::finkel();
    let enter = Move {
        piece: Piece::new(Player::Player1, 0),
        from: PieceLocation::Unplayed,
        to: PieceLocation::OnBoard(Square::new(2, 1)),
    };
    assert_eq!(rules.move_path(&enter), vec![Square::new(2, 3), Square::new(2, 2), Square::new(2, 1)]);
    let step = Move {
        piece: Piece::new(Player::Player2, 0),
        from: PieceLocation::OnBoard(Square::new(1, 6)),
        to: PieceLocation::OnBoard(Square::new(0, 7)),
    };
    assert_eq!(rules.move_path(&step), vec![Square::new(1, 7), Square::new(0, 7)]);
    let bear_off = Move {
        piece: Piece::new(Player::Player1, 0),
        from: PieceLocation::OnBoard(Square::new(2, 6)),
        to: PieceLocation::Scored,
    };
    assert!(rules.move_path(&bear_off).is_empty());
}

#[test]
fn board_new_is_empty_and_set_get_round_trip() {
    let mut b = ur_core::state::Board::new();
    assert_eq!(b.get(Square::new(1, 3)), None);
    b.set(Square::new(1, 3), Some(Piece::new(Player::Player2, 4)));
    assert_eq!(b.get(Square::new(1, 3)), Some(Piece::new(Player::Player2, 4)));
    assert_eq!(b.get(Square::new(1, 4)), None);
    assert_eq!(ur_core::state::Board::default(), ur_core::state::Board::new());
}

#[test]
fn passing_twice_gives_the_turn_back() {
    let rules = GameRules::finkel();
    let mut s = GameState::new(&rules);
    s.board.set(Square::new(2, 1), Some(Piece::new(Player::Player1, 0)));
    s.unplayed[0] = 6;
    assert_eq!(s.pass_turn().pass_turn(), s);
}

#[test]
fn rules_fit_checks_every_square_of_the_rules() {
    let mut rules = GameRules::finkel();
    assert!(ur_core::state::rules_fit(&rules));
    rules.path_player2 = ur_core::board::Path::new(vec![Square::new(0, 3), Square::new(2, 8)]);
    assert!(!ur_core::state::rules_fit(&rules));
    let mut rules = GameRules::finkel();
    rules.path_player1 = ur_core::board::Path::new(vec![Square::new(2, 7)]);
    assert!(ur_core::state::rules_fit(&rules));
}
