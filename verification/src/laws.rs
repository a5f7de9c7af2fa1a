//! Properties of the rules that span several operations: what the move list
//! contains, that every listed move can be applied, and the invariants that
//! every legal move and every forfeit keep.
use crate::board::{finkel_valid_squares, is_first_index, lemma_first_index, seq_index_of, Square};
use crate::player::{index_of_player, lemma_opponent_involution, opponent_of, Piece, Player};
use crate::state::{
    applied, board_moves, can_apply, can_land, cell_of, ends_game, entering_piece, entry_move, in_bounds,
    finkel_path1, finkel_path2, finkel_rules, initial_state, legal_moves_of, move_path_of, lifted, moves_in_bounds, occupant, opt_seq, passed, path_of,
    placed, rules_in_bounds, square_move, target_in_bounds, well_shaped,
    GamePhase, Move, PieceLocation, RulesModel, StateModel,
};
use vstd::prelude::*;

verus! {

/// The move rules in words: a roll of at least one moves exactly one of the
/// current player's pieces by the roll. A piece enters from the pool onto the
/// path square `roll - 1` (the entering piece takes the lowest free index);
/// a piece on a valid square advances `roll` squares along its path, bearing
/// off only by landing exactly one past the end. The destination must be one
/// the player may land on: empty, or an opponent piece that no safe rosette
/// protects.
pub open spec fn is_legal_move(s: StateModel, roll: int, mv: Move) -> bool {
    let p = s.current;
    let path = path_of(s.rules, p);
    &&& roll >= 1
    &&& match mv.from {
        PieceLocation::Unplayed => {
            &&& s.unplayed[index_of_player(p)] > 0
            &&& roll - 1 < path.len()
            &&& mv.to == PieceLocation::OnBoard(path[roll - 1])
            &&& can_land(s, path[roll - 1])
            &&& mv.piece == entering_piece(s)
        },
        PieceLocation::OnBoard(f) => {
            &&& s.rules.shape.valid.contains(f)
            &&& occupant(s, f) == Some(mv.piece)
            &&& mv.piece.player == p
            &&& exists|i: int|
                is_first_index(path, f, i) && ((i + roll == path.len() && mv.to == PieceLocation::Scored) || (
                i + roll < path.len() && mv.to == PieceLocation::OnBoard(path[i + roll]) && can_land(
                    s,
                    path[i + roll],
                )))
        },
        PieceLocation::Scored => false,
    }
}

/// A piece move appears in the moves of a list of squares exactly when it is
/// the move of one of those squares.
proof fn lemma_board_moves_contains(s: StateModel, roll: int, squares: Seq<Square>, mv: Move)
    ensures
        board_moves(s, roll, squares).contains(mv) <==> exists|i: int|
            0 <= i < squares.len() && square_move(s, roll, #[trigger] squares[i]) == Some(mv),
    decreases squares.len(),
{
    if squares.len() > 0 {
        let init = squares.drop_last();
        lemma_board_moves_contains(s, roll, init, mv);
        let a = board_moves(s, roll, init);
        let b = opt_seq(square_move(s, roll, squares.last()));
        assert(board_moves(s, roll, squares) == a + b);
        if board_moves(s, roll, squares).contains(mv) {
            let k = choose|k: int| 0 <= k < (a + b).len() && (a + b)[k] == mv;
            if k < a.len() {
                assert(a.contains(mv));
                let i = choose|i: int| 0 <= i < init.len() && square_move(s, roll, #[trigger] init[i]) == Some(mv);
                assert(squares[i] == init[i]);
            } else {
                assert(square_move(s, roll, squares[squares.len() - 1]) == Some(mv));
            }
        }
        if exists|i: int| 0 <= i < squares.len() && square_move(s, roll, #[trigger] squares[i]) == Some(mv) {
            let i = choose|i: int| 0 <= i < squares.len() && square_move(s, roll, #[trigger] squares[i]) == Some(mv);
            if i < squares.len() - 1 {
                assert(init[i] == squares[i]);
                assert(a.contains(mv));
                let k = choose|k: int| 0 <= k < a.len() && a[k] == mv;
                assert((a + b)[k] == mv);
            } else {
                assert(b[0] == mv);
                assert((a + b)[a.len() as int] == mv);
            }
        }
    }
}

/// A square's move is legal, and it moves the piece on that square.
proof fn lemma_square_move_legal(s: StateModel, roll: int, x: Square, mv: Move)
    requires
        roll >= 1,
        s.rules.shape.valid.contains(x),
        square_move(s, roll, x) == Some(mv),
    ensures
        is_legal_move(s, roll, mv),
        mv.from == PieceLocation::OnBoard(x),
{
    let path = path_of(s.rules, s.current);
    lemma_first_index(path, x);
    let i = seq_index_of(path, x).unwrap();
    assert(is_first_index(path, x, i));
}

/// The list of legal moves holds exactly the moves that the rules allow.
pub proof fn lemma_legal_moves_are_the_rules(s: StateModel, roll: u8, mv: Move)
    ensures
        legal_moves_of(s, roll as int).contains(mv) <==> is_legal_move(s, roll as int, mv),
{
    let roll = roll as int;
    if roll != 0 {
        let e = opt_seq(entry_move(s, roll));
        let b = board_moves(s, roll, s.rules.shape.valid);
        lemma_board_moves_contains(s, roll, s.rules.shape.valid, mv);
        assert(legal_moves_of(s, roll) == e + b);
        if legal_moves_of(s, roll).contains(mv) {
            let k = choose|k: int| 0 <= k < (e + b).len() && (e + b)[k] == mv;
            if k < e.len() {
                assert(entry_move(s, roll) == Some(mv));
            } else {
                assert(b[k - e.len()] == mv);
                assert(b.contains(mv));
                let i = choose|i: int|
                    0 <= i < s.rules.shape.valid.len() && square_move(s, roll, #[trigger] s.rules.shape.valid[i]) == Some(mv);
                lemma_square_move_legal(s, roll, s.rules.shape.valid[i], mv);
            }
        }
        if is_legal_move(s, roll, mv) {
            match mv.from {
                PieceLocation::Unplayed => {
                    assert(entry_move(s, roll) == Some(mv));
                    assert((e + b)[0] == mv);
                },
                PieceLocation::OnBoard(f) => {
                    let path = path_of(s.rules, s.current);
                    let i = choose|i: int|
                        is_first_index(path, f, i) && ((i + roll == path.len() && mv.to == PieceLocation::Scored) || (
                        i + roll < path.len() && mv.to == PieceLocation::OnBoard(path[i + roll]) && can_land(
                            s,
                            path[i + roll],
                        )));
                    lemma_first_index(path, f);
                    assert(seq_index_of(path, f) == Some(i));
                    assert(square_move(s, roll, f) == Some(mv));
                    let j = choose|j: int| 0 <= j < s.rules.shape.valid.len() && s.rules.shape.valid[j] == f;
                    assert(b.contains(mv));
                    let k = choose|k: int| 0 <= k < b.len() && b[k] == mv;
                    assert((e + b)[e.len() + k] == mv);
                },
                PieceLocation::Scored => {},
            }
        }
    }
}

/// 1 when the cell holds a piece of `p`, 0 otherwise.
pub open spec fn owned_by(c: Option<Piece>, p: Player) -> int {
    match c {
        Some(pc) => if pc.player == p { 1 } else { 0 },
        None => 0,
    }
}

/// The number of cells holding a piece of `p`.
pub open spec fn pieces_on_board(cells: Seq<Option<Piece>>, p: Player) -> int
    decreases cells.len(),
{
    if cells.len() == 0 {
        0
    } else {
        pieces_on_board(cells.drop_last(), p) + owned_by(cells.last(), p)
    }
}

/// Each of `p`'s pieces is in exactly one place: the pool, the board, or the
/// scored pile.
pub open spec fn conserved_for(s: StateModel, p: Player) -> bool {
    pieces_on_board(s.cells, p) + s.unplayed[index_of_player(p)] + s.scored[index_of_player(p)] == s.rules.piece_count
}

/// The invariant of every reachable game state: pieces are conserved for both
/// players; while the game runs nobody has scored every piece; once it is over
/// the winner has scored every piece and the loser has not.
pub open spec fn game_invariant(s: StateModel) -> bool {
    &&& well_shaped(s)
    &&& conserved_for(s, Player::Player1)
    &&& conserved_for(s, Player::Player2)
    &&& match s.phase {
        GamePhase::WaitingForRoll => s.scored[0] < s.rules.piece_count && s.scored[1] < s.rules.piece_count,
        GamePhase::GameOver(w) => s.scored[index_of_player(w)] == s.rules.piece_count && s.scored[index_of_player(
            opponent_of(w),
        )] < s.rules.piece_count,
    }
}

proof fn lemma_count_bounds(cells: Seq<Option<Piece>>, p: Player)
    ensures
        0 <= pieces_on_board(cells, p) <= cells.len(),
    decreases cells.len(),
{
    if cells.len() > 0 {
        lemma_count_bounds(cells.drop_last(), p);
    }
}

/// Changing one cell changes the count by what left and what arrived.
proof fn lemma_count_update(cells: Seq<Option<Piece>>, c: int, v: Option<Piece>, p: Player)
    requires
        0 <= c < cells.len(),
    ensures
        pieces_on_board(cells.update(c, v), p) == pieces_on_board(cells, p) - owned_by(cells[c], p) + owned_by(v, p),
    decreases cells.len(),
{
    let n = cells.len();
    let u = cells.update(c, v);
    if c == n - 1 {
        assert(u.drop_last() =~= cells.drop_last());
    } else {
        lemma_count_update(cells.drop_last(), c, v, p);
        assert(u.drop_last() =~= cells.drop_last().update(c, v));
    }
}

/// A cell that holds a piece of `p` counts toward `p`'s pieces on the board.
proof fn lemma_count_positive(cells: Seq<Option<Piece>>, c: int, p: Player)
    requires
        0 <= c < cells.len(),
        owned_by(cells[c], p) == 1,
    ensures
        pieces_on_board(cells, p) >= 1,
{
    lemma_count_update(cells, c, None, p);
    lemma_count_bounds(cells.update(c, None), p);
}

/// The only player other than `p` is `p`'s opponent.
proof fn lemma_other_player(p: Player, q: Player)
    requires
        q != p,
    ensures
        q == opponent_of(p),
{
}

/// Every move in the list of legal moves passes the checks of `apply_move`,
/// provided pieces are conserved (which bounds the counters).
pub proof fn lemma_legal_move_applies(s: StateModel, roll: u8, mv: Move)
    requires
        conserved_for(s, Player::Player1),
        conserved_for(s, Player::Player2),
        moves_in_bounds(s, roll as int),
        legal_moves_of(s, roll as int).contains(mv),
    ensures
        can_apply(s, mv),
{
    lemma_legal_moves_are_the_rules(s, roll, mv);
    let r = roll as int;
    let p = s.current;
    let o = opponent_of(p);
    let pi = index_of_player(p);
    let oi = index_of_player(o);
    let path = path_of(s.rules, p);
    lemma_opponent_involution(p);
    let s1 = lifted(s, mv);
    match mv.from {
        PieceLocation::Unplayed => {
            let t = path[r - 1];
            assert(in_bounds(t));
            assert(s1.cells == s.cells);
            if let Some(pc) = occupant(s, t) {
                lemma_other_player(p, pc.player);
                lemma_count_positive(s.cells, cell_of(t), o);
                lemma_count_bounds(s.cells, p);
                assert(s1.unplayed[oi] == s.unplayed[oi]);
            }
        },
        PieceLocation::OnBoard(f) => {
            let j = choose|j: int| 0 <= j < s.rules.shape.valid.len() && s.rules.shape.valid[j] == f;
            assert(in_bounds(s.rules.shape.valid[j]));
            assert(target_in_bounds(s, r, s.rules.shape.valid[j]));
            let i = choose|i: int|
                is_first_index(path, f, i) && ((i + r == path.len() && mv.to == PieceLocation::Scored) || (i + r
                    < path.len() && mv.to == PieceLocation::OnBoard(path[i + r]) && can_land(s, path[i + r])));
            lemma_first_index(path, f);
            assert(seq_index_of(path, f) == Some(i));
            lemma_count_positive(s.cells, cell_of(f), p);
            match mv.to {
                PieceLocation::OnBoard(t) => {
                    assert(in_bounds(t));
                    if cell_of(t) != cell_of(f) {
                        assert(occupant(s1, t) == occupant(s, t));
                        if let Some(pc) = occupant(s, t) {
                            lemma_other_player(p, pc.player);
                            lemma_count_positive(s.cells, cell_of(t), o);
                        }
                    }
                },
                _ => {},
            }
        },
        PieceLocation::Scored => {},
    }
}

/// Applying any legal move conserves pieces: when each player's pieces are
/// all accounted for (pool, board, scored), they still are after the move, so
/// nobody has scored more pieces than they own, and a move that ends the game
/// leaves the mover with no piece on the board or in the pool.
pub proof fn lemma_legal_move_conserves(s: StateModel, roll: u8, mv: Move)
    requires
        conserved_for(s, Player::Player1),
        conserved_for(s, Player::Player2),
        moves_in_bounds(s, roll as int),
        legal_moves_of(s, roll as int).contains(mv),
    ensures
        conserved_for(applied(s, mv), Player::Player1),
        conserved_for(applied(s, mv), Player::Player2),
        applied(s, mv).scored[0] <= s.rules.piece_count,
        applied(s, mv).scored[1] <= s.rules.piece_count,
        ends_game(s, mv) ==> pieces_on_board(applied(s, mv).cells, s.current) == 0
            && applied(s, mv).unplayed[index_of_player(s.current)] == 0,
{
    lemma_legal_move_applies(s, roll, mv);
    lemma_legal_moves_are_the_rules(s, roll, mv);
    let p = s.current;
    let o = opponent_of(p);
    lemma_opponent_involution(p);
    let pi = index_of_player(p);
    let oi = index_of_player(o);
    let s1 = lifted(s, mv);
    let s2 = placed(s, mv);
    // Taking the piece from its source.
    match mv.from {
        PieceLocation::OnBoard(f) => {
            lemma_count_update(s.cells, cell_of(f), None, p);
            lemma_count_update(s.cells, cell_of(f), None, o);
        },
        _ => {},
    }
    assert(conserved_for(s1, o));
    // Putting it at its destination.
    match mv.to {
        PieceLocation::OnBoard(t) => {
            lemma_count_update(s1.cells, cell_of(t), Some(mv.piece), p);
            lemma_count_update(s1.cells, cell_of(t), Some(mv.piece), o);
            assert(mv.piece.player == p);
            assert(conserved_for(s2, p));
            assert(conserved_for(s2, o));
        },
        PieceLocation::Scored => {
            match mv.from {
                PieceLocation::OnBoard(f) => {
                    lemma_count_positive(s.cells, cell_of(f), p);
                },
                _ => {},
            }
            lemma_count_bounds(s1.cells, p);
            assert(conserved_for(s2, p));
            assert(conserved_for(s2, o));
        },
        PieceLocation::Unplayed => {},
    }
    lemma_count_bounds(s2.cells, p);
    lemma_count_bounds(s2.cells, o);
    let n = applied(s, mv);
    assert(n.cells == s2.cells && n.unplayed == s2.unplayed && n.scored == s2.scored);
    assert(conserved_for(n, Player::Player1));
    assert(conserved_for(n, Player::Player2));
}

/// Applying any legal move to a running game keeps the game invariant: no
/// piece is created or lost (a captured piece goes back to its owner's pool),
/// and the game ends exactly when the mover scores their last piece.
pub proof fn lemma_legal_move_keeps_invariant(s: StateModel, roll: u8, mv: Move)
    requires
        game_invariant(s),
        s.phase == GamePhase::WaitingForRoll,
        moves_in_bounds(s, roll as int),
        legal_moves_of(s, roll as int).contains(mv),
    ensures
        game_invariant(applied(s, mv)),
{
    lemma_legal_move_conserves(s, roll, mv);
    lemma_legal_move_applies(s, roll, mv);
    lemma_opponent_involution(s.current);
    let p = s.current;
    let o = opponent_of(p);
    let pi = index_of_player(p);
    let oi = index_of_player(o);
    let s1 = lifted(s, mv);
    let s2 = placed(s, mv);
    let n = applied(s, mv);
    assert(s1.cells.len() == 24 && s1.unplayed.len() == 2 && s1.scored.len() == 2);
    assert(well_shaped(s2));
    assert(well_shaped(n));
    assert(s2.scored[oi] == s.scored[oi]);
    assert(n.scored == s2.scored);
    assert(n.scored[pi] <= s.rules.piece_count);
}

/// Some valid square of the rules lies on board cell `c`.
pub open spec fn valid_cell(r: RulesModel, c: int) -> bool {
    exists|i: int| 0 <= i < r.shape.valid.len() && cell_of(#[trigger] r.shape.valid[i]) == c
}

/// The number of cells of valid squares that hold a piece of `p`.
pub open spec fn pieces_on_valid(cells: Seq<Option<Piece>>, r: RulesModel, p: Player) -> int
    decreases cells.len(),
{
    if cells.len() == 0 {
        0
    } else {
        pieces_on_valid(cells.drop_last(), r, p) + if valid_cell(r, cells.len() - 1) {
            owned_by(cells.last(), p)
        } else {
            0
        }
    }
}

/// Each of `p`'s pieces is in exactly one place: the pool, a valid square of
/// the board, or the scored pile.
pub open spec fn conserved_on_valid(s: StateModel, p: Player) -> bool {
    pieces_on_valid(s.cells, s.rules, p) + s.unplayed[index_of_player(p)] + s.scored[index_of_player(p)]
        == s.rules.piece_count
}

/// Every square of both paths is a valid square of the board.
pub open spec fn paths_on_valid(r: RulesModel) -> bool {
    &&& forall|i: int| 0 <= i < r.path1.len() ==> r.shape.valid.contains(#[trigger] r.path1[i])
    &&& forall|i: int| 0 <= i < r.path2.len() ==> r.shape.valid.contains(#[trigger] r.path2[i])
}

proof fn lemma_valid_count_bounds(cells: Seq<Option<Piece>>, r: RulesModel, p: Player)
    ensures
        0 <= pieces_on_valid(cells, r, p) <= cells.len(),
    decreases cells.len(),
{
    if cells.len() > 0 {
        lemma_valid_count_bounds(cells.drop_last(), r, p);
    }
}

/// Changing one cell changes the count by what left and what arrived, when
/// the cell belongs to a valid square, and not at all otherwise.
proof fn lemma_valid_count_update(cells: Seq<Option<Piece>>, r: RulesModel, c: int, v: Option<Piece>, p: Player)
    requires
        0 <= c < cells.len(),
    ensures
        pieces_on_valid(cells.update(c, v), r, p) == pieces_on_valid(cells, r, p) + if valid_cell(r, c) {
            owned_by(v, p) - owned_by(cells[c], p)
        } else {
            0
        },
    decreases cells.len(),
{
    let n = cells.len();
    let u = cells.update(c, v);
    if c == n - 1 {
        assert(u.drop_last() =~= cells.drop_last());
    } else {
        lemma_valid_count_update(cells.drop_last(), r, c, v, p);
        assert(u.drop_last() =~= cells.drop_last().update(c, v));
    }
}

/// A valid square's cell holding a piece of `p` counts toward `p`'s pieces.
proof fn lemma_valid_count_positive(cells: Seq<Option<Piece>>, r: RulesModel, c: int, p: Player)
    requires
        0 <= c < cells.len(),
        valid_cell(r, c),
        owned_by(cells[c], p) == 1,
    ensures
        pieces_on_valid(cells, r, p) >= 1,
{
    lemma_valid_count_update(cells, r, c, None, p);
    lemma_valid_count_bounds(cells.update(c, None), r, p);
}

/// A valid square lies on a valid cell.
proof fn lemma_valid_square_cell(r: RulesModel, x: Square)
    requires
        r.shape.valid.contains(x),
    ensures
        valid_cell(r, cell_of(x)),
{
    let i = choose|i: int| 0 <= i < r.shape.valid.len() && r.shape.valid[i] == x;
    assert(cell_of(r.shape.valid[i]) == cell_of(x));
}

/// Applying any legal move conserves pieces counted on the valid squares:
/// when every path square is a valid square and each player's pieces are all
/// in the pool, on a valid square or scored, they still are after the move,
/// nobody has scored more pieces than they own, and a move that ends the game
/// leaves the mover with no piece on a valid square or in the pool.
pub proof fn lemma_legal_move_conserves_valid(s: StateModel, roll: u8, mv: Move)
    requires
        conserved_on_valid(s, Player::Player1),
        conserved_on_valid(s, Player::Player2),
        paths_on_valid(s.rules),
        moves_in_bounds(s, roll as int),
        legal_moves_of(s, roll as int).contains(mv),
    ensures
        conserved_on_valid(applied(s, mv), Player::Player1),
        conserved_on_valid(applied(s, mv), Player::Player2),
        applied(s, mv).scored[0] <= s.rules.piece_count,
        applied(s, mv).scored[1] <= s.rules.piece_count,
        ends_game(s, mv) ==> pieces_on_valid(applied(s, mv).cells, s.rules, s.current) == 0
            && applied(s, mv).unplayed[index_of_player(s.current)] == 0,
{
    lemma_legal_moves_are_the_rules(s, roll, mv);
    let r = s.rules;
    let p = s.current;
    let o = opponent_of(p);
    lemma_opponent_involution(p);
    let pi = index_of_player(p);
    let oi = index_of_player(o);
    let path = path_of(r, p);
    let s1 = lifted(s, mv);
    let s2 = placed(s, mv);
    assert(forall|i: int| 0 <= i < path.len() ==> r.shape.valid.contains(#[trigger] path[i]));
    lemma_valid_count_bounds(s.cells, r, p);
    lemma_valid_count_bounds(s.cells, r, o);
    // Taking the piece from its source.
    match mv.from {
        PieceLocation::OnBoard(f) => {
            lemma_valid_square_cell(r, f);
            let j = choose|j: int| 0 <= j < r.shape.valid.len() && r.shape.valid[j] == f;
            assert(in_bounds(r.shape.valid[j]));
            lemma_valid_count_update(s.cells, r, cell_of(f), None, p);
            lemma_valid_count_update(s.cells, r, cell_of(f), None, o);
            lemma_valid_count_positive(s.cells, r, cell_of(f), p);
            assert(pieces_on_valid(s1.cells, r, p) == pieces_on_valid(s.cells, r, p) - 1);
            assert(pieces_on_valid(s1.cells, r, o) == pieces_on_valid(s.cells, r, o));
        },
        _ => {},
    }
    // Putting it at its destination.
    match mv.to {
        PieceLocation::OnBoard(t) => {
            let k: int = match mv.from {
                PieceLocation::OnBoard(f) => {
                    let i = choose|i: int|
                        is_first_index(path, f, i) && ((i + roll == path.len() && mv.to == PieceLocation::Scored)
                            || (i + roll < path.len() && mv.to == PieceLocation::OnBoard(path[i + roll]) && can_land(
                            s,
                            path[i + roll],
                        )));
                    i + roll
                },
                _ => roll - 1,
            };
            assert(0 <= k < path.len() && path[k] == t && can_land(s, t));
            assert(r.shape.valid.contains(path[k]));
            lemma_valid_square_cell(r, t);
            let j = choose|j: int| 0 <= j < r.shape.valid.len() && r.shape.valid[j] == t;
            assert(in_bounds(r.shape.valid[j]));
            let ct = cell_of(t);
            if let Some(pc) = occupant(s1, t) {
                assert(s1.cells[ct] == s.cells[ct]);
                assert(pc.player == o);
                lemma_valid_count_positive(s.cells, r, ct, o);
                assert(s1.unplayed[oi] == s.unplayed[oi]);
            }
            lemma_valid_count_update(s1.cells, r, ct, Some(mv.piece), p);
            lemma_valid_count_update(s1.cells, r, ct, Some(mv.piece), o);
            assert(mv.piece.player == p);
            assert(conserved_on_valid(s2, p));
            assert(conserved_on_valid(s2, o));
        },
        PieceLocation::Scored => {
            assert(s1.scored[pi] == s.scored[pi]);
            assert(conserved_on_valid(s2, p));
            assert(conserved_on_valid(s2, o));
        },
        PieceLocation::Unplayed => {},
    }
    lemma_valid_count_bounds(s2.cells, r, p);
    lemma_valid_count_bounds(s2.cells, r, o);
    let n = applied(s, mv);
    assert(n.cells == s2.cells && n.unplayed == s2.unplayed && n.scored == s2.scored && n.rules == r);
    assert(conserved_on_valid(n, Player::Player1));
    assert(conserved_on_valid(n, Player::Player2));
}

/// The standard Finkel paths run over valid squares only.
pub proof fn lemma_finkel_paths_on_valid()
    ensures
        paths_on_valid(finkel_rules()),
{
    let v = finkel_valid_squares();
    let p1 = finkel_path1();
    let p2 = finkel_path2();
    assert forall|i: int| 0 <= i < p1.len() implies v.contains(#[trigger] p1[i]) by {
        if i == 0 {
            assert(v[17] == p1[0]);
        } else if i == 1 {
            assert(v[16] == p1[1]);
        } else if i == 2 {
            assert(v[15] == p1[2]);
        } else if i == 3 {
            assert(v[14] == p1[3]);
        } else if i == 4 {
            assert(v[6] == p1[4]);
        } else if i == 5 {
            assert(v[7] == p1[5]);
        } else if i == 6 {
            assert(v[8] == p1[6]);
        } else if i == 7 {
            assert(v[9] == p1[7]);
        } else if i == 8 {
            assert(v[10] == p1[8]);
        } else if i == 9 {
            assert(v[11] == p1[9]);
        } else if i == 10 {
            assert(v[12] == p1[10]);
        } else if i == 11 {
            assert(v[13] == p1[11]);
        } else if i == 12 {
            assert(v[19] == p1[12]);
        } else if i == 13 {
            assert(v[18] == p1[13]);
        }
    }
    assert forall|i: int| 0 <= i < p2.len() implies v.contains(#[trigger] p2[i]) by {
        if i == 0 {
            assert(v[3] == p2[0]);
        } else if i == 1 {
            assert(v[2] == p2[1]);
        } else if i == 2 {
            assert(v[1] == p2[2]);
        } else if i == 3 {
            assert(v[0] == p2[3]);
        } else if i == 4 {
            assert(v[6] == p2[4]);
        } else if i == 5 {
            assert(v[7] == p2[5]);
        } else if i == 6 {
            assert(v[8] == p2[6]);
        } else if i == 7 {
            assert(v[9] == p2[7]);
        } else if i == 8 {
            assert(v[10] == p2[8]);
        } else if i == 9 {
            assert(v[11] == p2[9]);
        } else if i == 10 {
            assert(v[12] == p2[10]);
        } else if i == 11 {
            assert(v[13] == p2[11]);
        } else if i == 12 {
            assert(v[5] == p2[12]);
        } else if i == 13 {
            assert(v[4] == p2[13]);
        }
    }
}

/// A new game satisfies the invariant when each player has at least one piece.
pub proof fn lemma_initial_state_invariant(r: RulesModel)
    requires
        r.piece_count >= 1,
    ensures
        game_invariant(initial_state(r)),
        pieces_on_board(initial_state(r).cells, Player::Player1) == 0,
        pieces_on_board(initial_state(r).cells, Player::Player2) == 0,
{
    let s = initial_state(r);
    lemma_empty_count(s.cells, Player::Player1);
    lemma_empty_count(s.cells, Player::Player2);
}

proof fn lemma_empty_count(cells: Seq<Option<Piece>>, p: Player)
    requires
        forall|i: int| 0 <= i < cells.len() ==> cells[i] is None,
    ensures
        pieces_on_board(cells, p) == 0,
    decreases cells.len(),
{
    if cells.len() > 0 {
        lemma_empty_count(cells.drop_last(), p);
    }
}

/// Forfeiting a turn of a running game keeps the invariant.
pub proof fn lemma_forfeit_keeps_invariant(s: StateModel)
    requires
        game_invariant(s),
        s.phase == GamePhase::WaitingForRoll,
    ensures
        game_invariant(passed(s)),
{
}

/// When the game is over, the winner has scored every piece and has none left
/// on the board or in the pool, while the loser has not scored every piece.
pub proof fn lemma_winner_has_finished(s: StateModel, w: Player)
    requires
        game_invariant(s),
        s.phase == GamePhase::GameOver(w),
    ensures
        s.scored[index_of_player(w)] == s.rules.piece_count,
        pieces_on_board(s.cells, w) == 0,
        s.unplayed[index_of_player(w)] == 0,
        s.scored[index_of_player(opponent_of(w))] < s.rules.piece_count,
{
    lemma_count_bounds(s.cells, w);
}

/// Passing the turn twice in a running game gives the turn back: the state
/// is the same as before.
pub proof fn lemma_pass_twice(s: StateModel)
    requires
        s.phase == GamePhase::WaitingForRoll,
    ensures
        passed(passed(s)) == s,
{
    lemma_opponent_involution(s.current);
}

/// One turn of a game: with `roll`, the player to move applies the legal move
/// picked by `choice` (counted round the list of legal moves), or forfeits
/// the turn when there is none.
pub open spec fn turn_taken(s: StateModel, roll: u8, choice: nat) -> StateModel {
    let moves = legal_moves_of(s, roll as int);
    if moves.len() == 0 {
        passed(s)
    } else {
        applied(s, moves[(choice % moves.len()) as int])
    }
}

/// The state reached by playing `turns` (each a roll and a choice of move)
/// from `s`, stopping once the game is over.
pub open spec fn played(s: StateModel, turns: Seq<(u8, nat)>) -> StateModel
    decreases turns.len(),
{
    if turns.len() == 0 || s.phase is GameOver {
        s
    } else {
        played(turn_taken(s, turns[0].0, turns[0].1), turns.drop_first())
    }
}

/// Every game played from the start, whatever the rolls and whichever legal
/// moves are chosen, keeps the game invariant: pieces are conserved, and a
/// finished game has been won by the player who scored every piece.
pub proof fn lemma_played_games_keep_invariant(r: RulesModel, turns: Seq<(u8, nat)>)
    requires
        r.piece_count >= 1,
        rules_in_bounds(r),
    ensures
        game_invariant(played(initial_state(r), turns)),
        played(initial_state(r), turns).rules == r,
{
    lemma_initial_state_invariant(r);
    lemma_play_keeps_invariant(initial_state(r), turns);
}

proof fn lemma_play_keeps_invariant(s: StateModel, turns: Seq<(u8, nat)>)
    requires
        game_invariant(s),
        rules_in_bounds(s.rules),
    ensures
        game_invariant(played(s, turns)),
        played(s, turns).rules == s.rules,
    decreases turns.len(),
{
    if turns.len() > 0 && s.phase is WaitingForRoll {
        let (roll, choice) = turns[0];
        let moves = legal_moves_of(s, roll as int);
        if moves.len() == 0 {
            lemma_forfeit_keeps_invariant(s);
        } else {
            let k = (choice % moves.len()) as int;
            assert(moves.contains(moves[k]));
            crate::state::lemma_rules_in_bounds_moves(s, roll);
            lemma_legal_move_keeps_invariant(s, roll, moves[k]);
        }
        lemma_play_keeps_invariant(turn_taken(s, roll, choice), turns.drop_first());
    }
}

/// Every game played from the start under rules whose paths run over valid
/// squares, whatever the rolls and whichever legal moves are chosen, conserves
/// each player's pieces counted in the pool, on the valid squares and scored.
pub proof fn lemma_played_games_conserve_on_valid(r: RulesModel, turns: Seq<(u8, nat)>)
    requires
        r.piece_count >= 1,
        rules_in_bounds(r),
        paths_on_valid(r),
    ensures
        conserved_on_valid(played(initial_state(r), turns), Player::Player1),
        conserved_on_valid(played(initial_state(r), turns), Player::Player2),
{
    let s = initial_state(r);
    lemma_initial_state_invariant(r);
    lemma_empty_valid_count(s.cells, r, Player::Player1);
    lemma_empty_valid_count(s.cells, r, Player::Player2);
    lemma_play_conserves_on_valid(s, turns);
}

proof fn lemma_empty_valid_count(cells: Seq<Option<Piece>>, r: RulesModel, p: Player)
    requires
        forall|i: int| 0 <= i < cells.len() ==> cells[i] is None,
    ensures
        pieces_on_valid(cells, r, p) == 0,
    decreases cells.len(),
{
    if cells.len() > 0 {
        lemma_empty_valid_count(cells.drop_last(), r, p);
    }
}

proof fn lemma_play_conserves_on_valid(s: StateModel, turns: Seq<(u8, nat)>)
    requires
        game_invariant(s),
        conserved_on_valid(s, Player::Player1),
        conserved_on_valid(s, Player::Player2),
        rules_in_bounds(s.rules),
        paths_on_valid(s.rules),
    ensures
        conserved_on_valid(played(s, turns), Player::Player1),
        conserved_on_valid(played(s, turns), Player::Player2),
    decreases turns.len(),
{
    if turns.len() > 0 && s.phase is WaitingForRoll {
        let (roll, choice) = turns[0];
        let moves = legal_moves_of(s, roll as int);
        if moves.len() == 0 {
            lemma_forfeit_keeps_invariant(s);
        } else {
            let k = (choice % moves.len()) as int;
            assert(moves.contains(moves[k]));
            crate::state::lemma_rules_in_bounds_moves(s, roll);
            lemma_legal_move_keeps_invariant(s, roll, moves[k]);
            lemma_legal_move_conserves_valid(s, roll, moves[k]);
        }
        lemma_play_conserves_on_valid(turn_taken(s, roll, choice), turns.drop_first());
    }
}

/// `walk` is the stretch of `path` that starts at position `a`.
pub open spec fn is_segment_at(walk: Seq<Square>, path: Seq<Square>, a: int) -> bool {
    &&& 0 <= a && a + walk.len() <= path.len()
    &&& forall|i: int| 0 <= i < walk.len() ==> #[trigger] walk[i] == path[a + i]
}

/// After any move that does not end the game, the mover keeps the turn
/// exactly when the move lands on a rosette of the rules and the rules grant
/// extra turns; after every other move (a capture included) the opponent
/// moves next. A move that ends the game makes the mover the winner.
pub proof fn lemma_turn_passes_unless_rosette(s: StateModel, mv: Move)
    ensures
        ends_game(s, mv) ==> applied(s, mv).phase == GamePhase::GameOver(s.current),
        !ends_game(s, mv) ==> applied(s, mv).phase == GamePhase::WaitingForRoll,
        !ends_game(s, mv) ==> (applied(s, mv).current == s.current <==> (s.rules.extra_turn
            && mv.to is OnBoard && s.rules.shape.rosettes.contains(mv.to->OnBoard_0))),
        applied(s, mv).current != s.current ==> applied(s, mv).current == opponent_of(s.current),
{
    lemma_opponent_involution(s.current);
}

/// The squares a move walks through are consecutive squares of the moving
/// piece's own path, ending at the destination: an entry walks from the first
/// square of the path up to the first arrival at the destination, and a move
/// along the board walks the squares right after its source.
pub proof fn lemma_move_path_follows_own_path(r: RulesModel, mv: Move)
    ensures
        ({
            let path = path_of(r, mv.piece.player);
            let walk = move_path_of(r, mv);
            &&& mv.from is Unplayed && mv.to is OnBoard && path.contains(mv.to->OnBoard_0) ==> {
                &&& walk.len() >= 1
                &&& walk.last() == mv.to->OnBoard_0
                &&& !walk.drop_last().contains(mv.to->OnBoard_0)
                &&& forall|i: int| 0 <= i < walk.len() ==> #[trigger] walk[i] == path[i]
            }
            &&& walk.len() > 0 ==> mv.to is OnBoard && walk.last() == mv.to->OnBoard_0
            &&& mv.from is OnBoard && walk.len() > 0 ==> exists|a: int|
                1 <= a && #[trigger] is_segment_at(walk, path, a) && path[a - 1] == mv.from->OnBoard_0
        }),
{
    let path = path_of(r, mv.piece.player);
    let walk = move_path_of(r, mv);
    if let PieceLocation::OnBoard(t) = mv.to {
        lemma_first_index(path, t);
        if let Some(d) = seq_index_of(path, t) {
            assert(path[d] == t);
            match mv.from {
                PieceLocation::Unplayed => {
                    assert(walk =~= path.subrange(0, d + 1));
                    assert(walk.drop_last() =~= path.subrange(0, d));
                    if walk.drop_last().contains(t) {
                        let j = choose|j: int| 0 <= j < walk.drop_last().len() && walk.drop_last()[j] == t;
                        assert(path[j] == t);
                    }
                },
                PieceLocation::OnBoard(f) => {
                    lemma_first_index(path, f);
                    if let Some(i) = seq_index_of(path, f) {
                        if i + 1 <= d {
                            assert(path[i] == f);
                            let a = i + 1;
                            assert(forall|k: int| 0 <= k < walk.len() ==> #[trigger] walk[k] == path[a + k]);
                            assert(is_segment_at(walk, path, a));
                        }
                    }
                },
                _ => {},
            }
        }
    }
}

} // verus!
