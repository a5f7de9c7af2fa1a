use crate::board::{
    finkel_rosettes, finkel_valid_squares, seq_index_of, sq, BoardShape, Path, ShapeModel, Square,
};
use crate::dice::Dice;
use crate::player::{index_of_player, opponent_of, Piece, Player};
use vstd::prelude::*;

verus! {

/// Where a piece is relative to the board.
#[derive(Clone, Copy, Debug, PartialEq, Eq, Hash, Structural)]
pub enum PieceLocation {
    /// Not yet entered; waiting in the player's pool.
    Unplayed,
    /// On the board at the given square.
    OnBoard(Square),
    /// Exited the board; scored.
    Scored,
}

/// A legal move: which piece moves, from where, to where.
#[derive(Clone, Copy, Debug, PartialEq, Eq, Hash, Structural)]
pub struct Move {
    /// The piece being moved.
    pub piece: Piece,
    /// Where the piece is moving from.
    pub from: PieceLocation,
    /// Where the piece is moving to.
    pub to: PieceLocation,
}

/// Which phase the game is currently in.
///
/// Dice are not stored in the phase. The caller rolls and passes the result
/// into `GameState::legal_moves` directly.
#[derive(Clone, Copy, Debug, PartialEq, Eq, Hash, Structural)]
pub enum GamePhase {
    /// The current player must roll the dice.
    WaitingForRoll,
    /// The game is over; this player won.
    GameOver(Player),
}

// ── Abstract models ─────────────────────────────────────────────────────────

/// Abstract contents of a ruleset.
#[verifier::ext_equal]
pub struct RulesModel {
    pub shape: ShapeModel,
    pub path1: Seq<Square>,
    pub path2: Seq<Square>,
    pub piece_count: u8,
    pub extra_turn: bool,
    pub rosettes_safe: bool,
}

/// Abstract contents of a game state. `cells` has one entry per board cell
/// (24 of them, indexed `row * 8 + col`); `unplayed` and `scored` have one
/// entry per player.
#[verifier::ext_equal]
pub struct StateModel {
    pub rules: RulesModel,
    pub cells: Seq<Option<Piece>>,
    pub unplayed: Seq<u8>,
    pub scored: Seq<u8>,
    pub current: Player,
    pub phase: GamePhase,
}

/// The board cell that holds a square.
pub open spec fn cell_of(s: Square) -> int {
    s.row * 8 + s.col
}

/// A square whose cell lies inside the 24-cell board array.
pub open spec fn in_bounds(s: Square) -> bool {
    cell_of(s) < 24
}

/// The path a player's pieces follow.
pub open spec fn path_of(r: RulesModel, p: Player) -> Seq<Square> {
    match p {
        Player::Player1 => r.path1,
        Player::Player2 => r.path2,
    }
}

/// Whether a square is a rosette under the given rules.
pub open spec fn rosette_at(r: RulesModel, s: Square) -> bool {
    r.shape.rosettes.contains(s)
}

/// The piece occupying a square.
pub open spec fn occupant(s: StateModel, x: Square) -> Option<Piece> {
    s.cells[cell_of(x)]
}

/// Whether the current player may land on `x`: it is empty, or it holds an
/// opponent piece that is not protected by a safe rosette.
pub open spec fn can_land(s: StateModel, x: Square) -> bool {
    match occupant(s, x) {
        None => true,
        Some(pc) => pc.player != s.current && !(s.rules.rosettes_safe && rosette_at(s.rules, x)),
    }
}

/// Whether some valid square holds the current player's piece with index `k`.
pub open spec fn index_in_use(s: StateModel, k: int) -> bool {
    exists|i: int|
        0 <= i < s.rules.shape.valid.len() && in_bounds(#[trigger] s.rules.shape.valid[i])
            && occupant(s, s.rules.shape.valid[i]) == Some(Piece { player: s.current, index: k as u8 })
            && 0 <= k < 256
}

/// `k` is the smallest piece index not used by the current player's pieces on the board.
pub open spec fn is_entering_index(s: StateModel, k: int) -> bool {
    &&& 0 <= k < 256
    &&& !index_in_use(s, k)
    &&& forall|j: int| 0 <= j < k ==> index_in_use(s, j)
}

/// The index given to the next piece that enters the board.
pub open spec fn entering_index(s: StateModel) -> int {
    choose|k: int| is_entering_index(s, k)
}

/// The piece that enters the board next.
pub open spec fn entering_piece(s: StateModel) -> Piece {
    Piece { player: s.current, index: entering_index(s) as u8 }
}

/// The move that enters a piece from the pool with `roll`, if it is legal.
pub open spec fn entry_move(s: StateModel, roll: int) -> Option<Move> {
    let p = s.current;
    let path = path_of(s.rules, p);
    if s.unplayed[index_of_player(p)] > 0 && 1 <= roll && roll - 1 < path.len() && can_land(
        s,
        path[roll - 1],
    ) {
        Some(Move { piece: entering_piece(s), from: PieceLocation::Unplayed, to: PieceLocation::OnBoard(path[roll - 1]) })
    } else {
        None
    }
}

/// The move of the current player's piece on `x` with `roll`, if it is legal:
/// an exact bear-off, or a step to a square it may land on.
pub open spec fn square_move(s: StateModel, roll: int, x: Square) -> Option<Move> {
    let p = s.current;
    let path = path_of(s.rules, p);
    match occupant(s, x) {
        Some(pc) => if pc.player == p {
            match seq_index_of(path, x) {
                Some(i) => if i + roll == path.len() {
                    Some(Move { piece: pc, from: PieceLocation::OnBoard(x), to: PieceLocation::Scored })
                } else if i + roll < path.len() && can_land(s, path[i + roll]) {
                    Some(Move { piece: pc, from: PieceLocation::OnBoard(x), to: PieceLocation::OnBoard(path[i + roll]) })
                } else {
                    None
                },
                None => None,
            }
        } else {
            None
        },
        None => None,
    }
}

/// An optional move as a sequence of zero or one moves.
pub open spec fn opt_seq(m: Option<Move>) -> Seq<Move> {
    match m {
        Some(x) => seq![x],
        None => Seq::empty(),
    }
}

/// The moves of the pieces on `squares`, in the order of `squares`.
pub open spec fn board_moves(s: StateModel, roll: int, squares: Seq<Square>) -> Seq<Move>
    decreases squares.len(),
{
    if squares.len() == 0 {
        Seq::empty()
    } else {
        board_moves(s, roll, squares.drop_last()) + opt_seq(square_move(s, roll, squares.last()))
    }
}

/// All legal moves for the current player with `roll`: the entry move first,
/// then the moves of the pieces on the board in the order of the valid squares.
/// A roll of zero gives no moves.
pub open spec fn legal_moves_of(s: StateModel, roll: int) -> Seq<Move> {
    if roll == 0 {
        Seq::empty()
    } else {
        opt_seq(entry_move(s, roll)) + board_moves(s, roll, s.rules.shape.valid)
    }
}

/// Every square that move generation reads from the board lies inside the
/// board array: the valid squares, and the path squares it may land on.
pub open spec fn moves_in_bounds(s: StateModel, roll: int) -> bool {
    let p = s.current;
    let path = path_of(s.rules, p);
    &&& s.cells.len() == 24
    &&& s.unplayed.len() == 2
    &&& s.scored.len() == 2
    &&& forall|i: int| 0 <= i < s.rules.shape.valid.len() ==> in_bounds(#[trigger] s.rules.shape.valid[i])
    &&& (s.unplayed[index_of_player(p)] > 0 && 1 <= roll && roll - 1 < path.len()) ==> in_bounds(path[roll - 1])
    &&& forall|i: int|
        0 <= i < s.rules.shape.valid.len() ==> #[trigger] target_in_bounds(s, roll, s.rules.shape.valid[i])
}

/// The square a piece on `x` would move to lies inside the board array.
pub open spec fn target_in_bounds(s: StateModel, roll: int, x: Square) -> bool {
    let path = path_of(s.rules, s.current);
    match occupant(s, x) {
        Some(pc) => pc.player == s.current ==> match seq_index_of(path, x) {
            Some(i) => i + roll < path.len() ==> in_bounds(path[i + roll]),
            None => true,
        },
        None => true,
    }
}

/// All squares of the board shape and of both paths lie inside the board array.
pub open spec fn rules_in_bounds(r: RulesModel) -> bool {
    &&& forall|i: int| 0 <= i < r.shape.valid.len() ==> in_bounds(#[trigger] r.shape.valid[i])
    &&& forall|i: int| 0 <= i < r.path1.len() ==> in_bounds(#[trigger] r.path1[i])
    &&& forall|i: int| 0 <= i < r.path2.len() ==> in_bounds(#[trigger] r.path2[i])
}

/// A state of the right shape.
pub open spec fn well_shaped(s: StateModel) -> bool {
    &&& s.cells.len() == 24
    &&& s.unplayed.len() == 2
    &&& s.scored.len() == 2
}

// ── Move application ────────────────────────────────────────────────────────

/// The state with the moving piece taken from its source.
pub open spec fn lifted(s: StateModel, mv: Move) -> StateModel {
    let pi = index_of_player(s.current);
    match mv.from {
        PieceLocation::Unplayed => StateModel {
            unplayed: s.unplayed.update(pi, (s.unplayed[pi] - 1) as u8),
            ..s
        },
        PieceLocation::OnBoard(f) => StateModel { cells: s.cells.update(cell_of(f), None), ..s },
        PieceLocation::Scored => s,
    }
}

/// The opponent piece that the move captures, if any.
pub open spec fn captured_by(s: StateModel, mv: Move) -> Option<Piece> {
    match mv.to {
        PieceLocation::OnBoard(t) => occupant(lifted(s, mv), t),
        _ => None,
    }
}

/// Whether the move ends on a rosette.
pub open spec fn lands_on_rosette(s: StateModel, mv: Move) -> bool {
    match mv.to {
        PieceLocation::OnBoard(t) => rosette_at(s.rules, t),
        _ => false,
    }
}

/// The state with the piece placed at its destination (capturing or scoring).
pub open spec fn placed(s: StateModel, mv: Move) -> StateModel {
    let s1 = lifted(s, mv);
    let pi = index_of_player(s.current);
    let oi = index_of_player(opponent_of(s.current));
    match mv.to {
        PieceLocation::OnBoard(t) => StateModel {
            cells: s1.cells.update(cell_of(t), Some(mv.piece)),
            unplayed: if occupant(s1, t) is Some {
                s1.unplayed.update(oi, (s1.unplayed[oi] + 1) as u8)
            } else {
                s1.unplayed
            },
            ..s1
        },
        PieceLocation::Scored => StateModel {
            scored: s1.scored.update(pi, (s1.scored[pi] + 1) as u8),
            ..s1
        },
        PieceLocation::Unplayed => s1,
    }
}

/// Whether the move scores the mover's last piece.
pub open spec fn ends_game(s: StateModel, mv: Move) -> bool {
    placed(s, mv).scored[index_of_player(s.current)] == s.rules.piece_count
}

/// The state after the move, with the turn advanced: the game ends when the
/// mover has scored every piece; a rosette landing keeps the turn when the
/// rules grant an extra turn; otherwise the opponent moves next.
pub open spec fn applied(s: StateModel, mv: Move) -> StateModel {
    let s2 = placed(s, mv);
    if ends_game(s, mv) {
        StateModel { phase: GamePhase::GameOver(s.current), ..s2 }
    } else if lands_on_rosette(s, mv) && s.rules.extra_turn {
        StateModel { phase: GamePhase::WaitingForRoll, ..s2 }
    } else {
        StateModel { phase: GamePhase::WaitingForRoll, current: opponent_of(s.current), ..s2 }
    }
}

/// The move can be applied without violating any of its checks: the piece is
/// at its source, the destination holds no friendly piece once the piece has
/// left, scored pieces do not move and pieces do not move back to the pool,
/// and no counter overflows.
pub open spec fn can_apply(s: StateModel, mv: Move) -> bool {
    let pi = index_of_player(s.current);
    let oi = index_of_player(opponent_of(s.current));
    let s1 = lifted(s, mv);
    &&& well_shaped(s)
    &&& match mv.from {
        PieceLocation::Unplayed => s.unplayed[pi] > 0,
        PieceLocation::OnBoard(f) => in_bounds(f) && occupant(s, f) == Some(mv.piece),
        PieceLocation::Scored => false,
    }
    &&& match mv.to {
        PieceLocation::OnBoard(t) => in_bounds(t) && match occupant(s1, t) {
            Some(pc) => pc.player == opponent_of(s.current) && s1.unplayed[oi] < 255,
            None => true,
        },
        PieceLocation::Scored => s1.scored[pi] < 255,
        PieceLocation::Unplayed => false,
    }
}

/// The move is one of the legal moves for some roll of the dice.
pub open spec fn legal_for_some_roll(s: StateModel, mv: Move) -> bool {
    exists|roll: u8| 1 <= roll <= 4 && #[trigger] legal_moves_of(s, roll as int).contains(mv)
}

/// The state after the current player gives up the turn.
pub open spec fn passed(s: StateModel) -> StateModel {
    StateModel { current: opponent_of(s.current), phase: GamePhase::WaitingForRoll, ..s }
}

/// The start of a game under `r`: empty board, all pieces in the pools,
/// Player 1 to roll.
pub open spec fn initial_state(r: RulesModel) -> StateModel {
    StateModel {
        rules: r,
        cells: Seq::new(24, |i: int| None),
        unplayed: seq![r.piece_count, r.piece_count],
        scored: seq![0u8, 0u8],
        current: Player::Player1,
        phase: GamePhase::WaitingForRoll,
    }
}

/// The squares a piece passes through for a move: the path squares after its
/// source, up to and including its destination. Bear-off moves, and moves whose
/// squares are not on the mover's path, pass through no square.
pub open spec fn move_path_of(r: RulesModel, mv: Move) -> Seq<Square> {
    let path = path_of(r, mv.piece.player);
    match mv.to {
        PieceLocation::OnBoard(t) => match seq_index_of(path, t) {
            Some(d) => match mv.from {
                PieceLocation::OnBoard(f) => match seq_index_of(path, f) {
                    Some(i) => if i + 1 <= d { path.subrange(i + 1, d + 1) } else { Seq::empty() },
                    None => Seq::empty(),
                },
                PieceLocation::Unplayed => path.subrange(0, d + 1),
                PieceLocation::Scored => Seq::empty(),
            },
            None => Seq::empty(),
        },
        _ => Seq::empty(),
    }
}

/// The Finkel paths and ruleset.
pub open spec fn finkel_path1() -> Seq<Square> {
    seq![
        sq(2, 3), sq(2, 2), sq(2, 1), sq(2, 0),
        sq(1, 0), sq(1, 1), sq(1, 2), sq(1, 3), sq(1, 4), sq(1, 5), sq(1, 6), sq(1, 7),
        sq(2, 7), sq(2, 6),
    ]
}

pub open spec fn finkel_path2() -> Seq<Square> {
    seq![
        sq(0, 3), sq(0, 2), sq(0, 1), sq(0, 0),
        sq(1, 0), sq(1, 1), sq(1, 2), sq(1, 3), sq(1, 4), sq(1, 5), sq(1, 6), sq(1, 7),
        sq(0, 7), sq(0, 6),
    ]
}

pub open spec fn finkel_rules() -> RulesModel {
    RulesModel {
        shape: ShapeModel { valid: finkel_valid_squares(), rosettes: finkel_rosettes() },
        path1: finkel_path1(),
        path2: finkel_path2(),
        piece_count: 7,
        extra_turn: true,
        rosettes_safe: true,
    }
}

} // verus!

verus! {

/// Full ruleset configuration.
#[derive(Debug, PartialEq, Eq, Hash)]
pub struct GameRules {
    /// Which squares exist and which are rosettes.
    pub board_shape: BoardShape,
    /// The ordered path Player 1's pieces follow from entry to exit.
    pub path_player1: Path,
    /// The ordered path Player 2's pieces follow from entry to exit.
    pub path_player2: Path,
    /// Number of pieces per player (typically 7).
    pub piece_count: u8,
    /// Whether landing on a rosette grants the player an extra turn.
    pub rosettes_grant_extra_turn: bool,
    /// Whether pieces on rosettes are immune to capture.
    pub rosettes_are_safe: bool,
}

impl View for GameRules {
    type V = RulesModel;

    open spec fn view(&self) -> RulesModel {
        RulesModel {
            shape: self.board_shape@,
            path1: self.path_player1@,
            path2: self.path_player2@,
            piece_count: self.piece_count,
            extra_turn: self.rosettes_grant_extra_turn,
            rosettes_safe: self.rosettes_are_safe,
        }
    }
}

impl Clone for GameRules {
    fn clone(&self) -> (r: Self)
        ensures
            r@ == self@,
    {
        GameRules {
            board_shape: self.board_shape.clone(),
            path_player1: self.path_player1.clone(),
            path_player2: self.path_player2.clone(),
            piece_count: self.piece_count,
            rosettes_grant_extra_turn: self.rosettes_grant_extra_turn,
            rosettes_are_safe: self.rosettes_are_safe,
        }
    }
}

/// Builds a path from its squares, given as (row, column) pairs.
fn path_from(squares: [(u8, u8); 14]) -> (r: Path)
    ensures
        r@.len() == 14,
        forall|i: int| 0 <= i < 14 ==> #[trigger] r@[i] == sq(squares@[i].0, squares@[i].1),
{
    let mut v: Vec<Square> = Vec::new();
    let mut i: usize = 0;
    while i < 14
        invariant
            i <= 14,
            v@.len() == i,
            forall|j: int| 0 <= j < i ==> #[trigger] v@[j] == sq(squares@[j].0, squares@[j].1),
        decreases 14 - i,
    {
        let (row, col) = squares[i];
        v.push(Square::new(row, col));
        i = i + 1;
    }
    Path::new(v)
}

impl GameRules {
    /// Returns the default Finkel ruleset.
    pub fn finkel() -> (r: Self)
        ensures
            r@ == finkel_rules(),
    {
        let board_shape = BoardShape::finkel();
        let path_player1 = path_from(
            [(2, 3), (2, 2), (2, 1), (2, 0), (1, 0), (1, 1), (1, 2), (1, 3), (1, 4), (1, 5), (1, 6), (1, 7), (2, 7), (2, 6)],
        );
        let path_player2 = path_from(
            [(0, 3), (0, 2), (0, 1), (0, 0), (1, 0), (1, 1), (1, 2), (1, 3), (1, 4), (1, 5), (1, 6), (1, 7), (0, 7), (0, 6)],
        );
        assert(path_player1@ =~= finkel_path1());
        assert(path_player2@ =~= finkel_path2());
        Self {
            board_shape,
            path_player1,
            path_player2,
            piece_count: 7,
            rosettes_grant_extra_turn: true,
            rosettes_are_safe: true,
        }
    }

    /// Returns the path for the given player.
    pub fn path_for(&self, player: Player) -> (r: &Path)
        ensures
            r@ == path_of(self@, player),
    {
        match player {
            Player::Player1 => &self.path_player1,
            Player::Player2 => &self.path_player2,
        }
    }

    /// Computes the sequence of board squares a piece travels through for `mv`.
    ///
    /// Returns intermediate squares (not the source) up to and including the
    /// destination. Bear-off and scored moves return an empty `Vec`.
    pub fn move_path(&self, mv: &Move) -> (r: Vec<Square>)
        ensures
            r@ == move_path_of(self@, *mv),
    {
        let to_sq = match mv.to {
            PieceLocation::OnBoard(sq) => sq,
            _ => return Vec::new(),
        };
        let path = self.path_for(mv.piece.player);
        let path_len = path.len();
        let dest_idx = match path.index_of(to_sq) {
            Some(i) => i,
            None => return Vec::new(),
        };
        proof {
            crate::board::lemma_first_index(path@, to_sq);
        }
        let start_idx = match mv.from {
            PieceLocation::OnBoard(from_sq) => {
                proof {
                    crate::board::lemma_first_index(path@, from_sq);
                }
                match path.index_of(from_sq) {
                    Some(i) => i + 1,
                    None => return Vec::new(),
                }
            },
            PieceLocation::Unplayed => 0,
            PieceLocation::Scored => return Vec::new(),
        };
        let mut out: Vec<Square> = Vec::new();
        if start_idx > dest_idx {
            return out;
        }
        let mut i: usize = start_idx;
        while i <= dest_idx
            invariant
                start_idx <= i <= dest_idx + 1,
                dest_idx < path@.len(),
                path_len == path@.len(),
                out@ == path@.subrange(start_idx as int, i as int),
            decreases dest_idx + 1 - i,
        {
            match path.get(i) {
                Some(s) => out.push(s),
                None => {},
            }
            i = i + 1;
            assert(out@ =~= path@.subrange(start_idx as int, i as int));
        }
        out
    }
}

/// The board: tracks which piece occupies each square.
///
/// Internally uses a flat 24-element array (3 rows × 8 cols, indexed `row * 8 + col`).
#[derive(Clone, Copy, Debug, PartialEq, Eq, Hash)]
pub struct Board {
    cells: [Option<Piece>; 24],
}

impl View for Board {
    type V = Seq<Option<Piece>>;

    closed spec fn view(&self) -> Seq<Option<Piece>> {
        self.cells@
    }
}

/// The board holds 24 cells.
pub broadcast proof fn lemma_board_len(b: Board)
    ensures
        #[trigger] b@.len() == 24,
{
}

impl Board {
    /// Creates an empty board with all cells unoccupied.
    pub fn new() -> (r: Self)
        ensures
            r@ == Seq::new(24, |i: int| None::<Piece>),
    {
        let r = Self { cells: [None; 24] };
        assert(r@ =~= Seq::new(24, |i: int| None::<Piece>));
        r
    }

    /// Returns the piece occupying `sq`, or `None` if the square is empty.
    pub fn get(&self, sq: Square) -> (r: Option<Piece>)
        requires
            in_bounds(sq),
        ensures
            r == self@[cell_of(sq)],
    {
        self.cells[sq.row as usize * 8 + sq.col as usize]
    }

    /// Places `piece` on `sq` (or empties it).
    pub fn set(&mut self, sq: Square, piece: Option<Piece>)
        requires
            in_bounds(sq),
        ensures
            final(self)@ == old(self)@.update(cell_of(sq), piece),
    {
        self.cells[sq.row as usize * 8 + sq.col as usize] = piece;
    }
}

impl Default for Board {
    fn default() -> (r: Self)
        ensures
            r@ == Seq::new(24, |i: int| None::<Piece>),
    {
        Self::new()
    }
}

} // verus!

verus! {

/// Outcome of applying a move to a game state.
#[derive(Debug, PartialEq, Eq, Hash)]
pub struct MoveResult {
    /// The new game state after the move.
    pub new_state: GameState,
    /// The opponent's piece that was captured, if any.
    pub captured: Option<Piece>,
    /// True if the piece landed on a rosette (grants an extra turn).
    pub landed_on_rosette: bool,
    /// True if the piece exited the board and was scored.
    pub piece_scored: bool,
    /// True if this move ended the game.
    pub game_over: bool,
}

impl Clone for MoveResult {
    fn clone(&self) -> (r: Self)
        ensures
            r.new_state@ == self.new_state@,
            r.captured == self.captured,
            r.landed_on_rosette == self.landed_on_rosette,
            r.piece_scored == self.piece_scored,
            r.game_over == self.game_over,
    {
        MoveResult {
            new_state: self.new_state.clone(),
            captured: self.captured,
            landed_on_rosette: self.landed_on_rosette,
            piece_scored: self.piece_scored,
            game_over: self.game_over,
        }
    }
}

/// The complete, immutable snapshot of a game at a point in time.
#[derive(Debug, PartialEq, Eq, Hash)]
pub struct GameState {
    /// The ruleset governing this game (board shape, paths, piece count, rosette rules).
    pub rules: GameRules,
    /// Current board occupancy — which piece sits on each square.
    pub board: Board,
    /// Number of unplayed pieces for each player. Index via `Player::index()`.
    pub unplayed: [u8; 2],
    /// Number of scored pieces for each player. Index via `Player::index()`.
    pub scored: [u8; 2],
    /// Whose turn it is.
    pub current_player: Player,
    /// Current phase of the game (waiting for roll, or game over).
    pub phase: GamePhase,
}

impl View for GameState {
    type V = StateModel;

    open spec fn view(&self) -> StateModel {
        StateModel {
            rules: self.rules@,
            cells: self.board@,
            unplayed: self.unplayed@,
            scored: self.scored@,
            current: self.current_player,
            phase: self.phase,
        }
    }
}

/// Every game state has 24 cells and two pool and score counters.
pub proof fn lemma_state_shape(s: &GameState)
    ensures
        well_shaped(s@),
{
    lemma_board_len(s.board);
}

impl Clone for GameState {
    fn clone(&self) -> (r: Self)
        ensures
            r@ == self@,
    {
        GameState {
            rules: self.rules.clone(),
            board: self.board,
            unplayed: self.unplayed,
            scored: self.scored,
            current_player: self.current_player,
            phase: self.phase,
        }
    }
}

/// The cell of a valid square that holds the current player's piece with index `j`.
spec fn cell_in_use(s: StateModel, j: int) -> int {
    let i = choose|i: int|
        0 <= i < s.rules.shape.valid.len() && in_bounds(#[trigger] s.rules.shape.valid[i])
            && occupant(s, s.rules.shape.valid[i]) == Some(Piece { player: s.current, index: j as u8 })
            && 0 <= j < 256;
    cell_of(s.rules.shape.valid[i])
}

/// The board has 24 cells, and a cell holds one piece, so at most 24 distinct
/// piece indices can be in use at once.
proof fn lemma_indices_in_use_bound(s: StateModel, n: int)
    requires
        forall|j: int| 0 <= j < n ==> index_in_use(s, j),
    ensures
        n <= 24,
{
    if n > 24 {
        let a = vstd::set_lib::set_int_range(0, 25);
        let b = vstd::set_lib::set_int_range(0, 24);
        let f = |j: int| cell_in_use(s, j);
        vstd::set_lib::lemma_int_range(0, 25);
        vstd::set_lib::lemma_int_range(0, 24);
        assert forall|j: int| a.contains(j) implies #[trigger] b.contains(f(j)) by {
            assert(index_in_use(s, j));
        }
        assert forall|x: int, y: int| a.contains(x) && a.contains(y) && #[trigger] f(x) == #[trigger] f(y) implies x == y by {
            assert(index_in_use(s, x));
            assert(index_in_use(s, y));
            assert((x as u8) == (y as u8));
        }
        assert(vstd::relations::injective_on(f, a));
        vstd::set_lib::lemma_map_size(a, a.map(f), f);
        assert(a.map(f).subset_of(b));
        vstd::set_lib::lemma_len_subset(a.map(f), b);
    }
}

/// At most one index satisfies the definition of the entering index.
proof fn lemma_entering_index_unique(s: StateModel, k: int)
    requires
        is_entering_index(s, k),
    ensures
        entering_index(s) == k,
{
    let c = entering_index(s);
    assert(is_entering_index(s, c));
    if c < k {
        assert(index_in_use(s, c));
    } else if k < c {
        assert(index_in_use(s, k));
    }
}

impl GameState {
    /// Creates a new game in the initial state with all pieces unplayed.
    pub fn new(rules: &GameRules) -> (r: Self)
        ensures
            r@ == initial_state(rules@),
    {
        let r = Self {
            rules: rules.clone(),
            board: Board::new(),
            unplayed: [rules.piece_count, rules.piece_count],
            scored: [0, 0],
            current_player: Player::Player1,
            phase: GamePhase::WaitingForRoll,
        };
        assert(r@.unplayed =~= seq![rules.piece_count, rules.piece_count]);
        assert(r@.scored =~= seq![0u8, 0u8]);
        r
    }

    /// Returns all legal moves for the current player given `roll`.
    ///
    /// Returns an empty `Vec` if no moves are possible (turn is forfeit).
    pub fn legal_moves(&self, roll: Dice) -> (r: Vec<Move>)
        requires
            roll.0 == 0 || moves_in_bounds(self@, roll.0 as int),
        ensures
            r@ == legal_moves_of(self@, roll.0 as int),
    {
        if roll.value() == 0 {
            return Vec::new();
        }
        let roll = roll.value() as usize;
        let mut moves: Vec<Move> = Vec::new();
        self.collect_entry_move(roll, &mut moves);
        self.collect_board_moves(roll, &mut moves);
        moves
    }

    /// Appends a move entering a piece from the unplayed pool, if legal.
    fn collect_entry_move(&self, roll: usize, moves: &mut Vec<Move>)
        requires
            1 <= roll <= 255,
            moves_in_bounds(self@, roll as int),
        ensures
            final(moves)@ == old(moves)@ + opt_seq(entry_move(self@, roll as int)),
    {
        let player = self.current_player;
        if self.unplayed[player.index()] == 0 {
            assert(old(moves)@ + opt_seq(entry_move(self@, roll as int)) =~= old(moves)@);
            return;
        }
        // An unplayed piece is at logical position -1 (before path[0]).
        // Moving `roll` squares lands it at path[roll - 1].
        let path = self.rules.path_for(player);
        let target_idx = roll - 1;
        if target_idx < path.len() {
            let target_sq = path.get(target_idx).unwrap();
            if self.can_land_on(target_sq) {
                let piece = self.next_entering_piece();
                moves.push(Move { piece, from: PieceLocation::Unplayed, to: PieceLocation::OnBoard(target_sq) });
                return;
            }
        }
        assert(old(moves)@ + opt_seq(entry_move(self@, roll as int)) =~= old(moves)@);
    }

    /// Appends all legal moves for pieces already on the board.
    fn collect_board_moves(&self, roll: usize, moves: &mut Vec<Move>)
        requires
            1 <= roll <= 255,
            moves_in_bounds(self@, roll as int),
        ensures
            final(moves)@ == old(moves)@ + board_moves(self@, roll as int, self@.rules.shape.valid),
    {
        let player = self.current_player;
        let path = self.rules.path_for(player);
        let path_len = path.len();
        let squares = self.rules.board_shape.valid_squares();
        let ghost valid = self@.rules.shape.valid;
        let mut k: usize = 0;
        while k < squares.len()
            invariant
                k <= squares@.len(),
                squares@ == valid,
                valid == self@.rules.shape.valid,
                path@ == path_of(self@.rules, player),
                path_len == path@.len(),
                player == self@.current,
                1 <= roll <= 255,
                moves_in_bounds(self@, roll as int),
                moves@ == old(moves)@ + board_moves(self@, roll as int, valid.take(k as int)),
            decreases squares.len() - k,
        {
            let sq = squares[k];
            proof {
                assert(in_bounds(valid[k as int]));
                assert(target_in_bounds(self@, roll as int, valid[k as int]));
                assert(valid.take(k + 1).drop_last() =~= valid.take(k as int));
                assert(valid.take(k + 1).last() == sq);
                crate::board::lemma_first_index(path@, sq);
            }
            let ghost before = moves@;
            let piece_opt = self.board.get(sq);
            match piece_opt {
                Some(piece) => {
                    if piece.player == player {
                        match path.index_of(sq) {
                            Some(path_idx) => {
                                // Steps left before the piece leaves the board.
                                let remaining = path_len - path_idx;
                                if roll == remaining {
                                    // Exact bear-off
                                    moves.push(Move { piece, from: PieceLocation::OnBoard(sq), to: PieceLocation::Scored });
                                } else if roll < remaining {
                                    let new_path_idx = path_idx + roll;
                                    let target_sq = path.get(new_path_idx).unwrap();
                                    if self.can_land_on(target_sq) {
                                        moves.push(Move { piece, from: PieceLocation::OnBoard(sq), to: PieceLocation::OnBoard(target_sq) });
                                    }
                                }
                                // else: overshoot — not a legal move, skip
                            },
                            None => {},
                        }
                    }
                },
                None => {},
            }
            proof {
                assert(moves@ =~= before + opt_seq(square_move(self@, roll as int, sq)));
            }
            k = k + 1;
        }
        assert(valid.take(squares@.len() as int) =~= valid);
    }

    /// Applies `mv` to this state and returns the result.
    ///
    /// The move must be legal: one of the legal moves for some roll (see
    /// `move_is_legal`). Its checks must hold as well (see `can_apply`): the
    /// piece is at `from`, the destination holds no friendly piece, and no
    /// counter overflows.
    pub fn apply_move(&self, mv: Move) -> (r: MoveResult)
        requires
            can_apply(self@, mv),
            legal_for_some_roll(self@, mv),
        ensures
            r.new_state@ == applied(self@, mv),
            r.captured == captured_by(self@, mv),
            r.landed_on_rosette == lands_on_rosette(self@, mv),
            r.piece_scored == (mv.to is Scored),
            r.game_over == ends_game(self@, mv),
    {
        let player = self.current_player;
        let pi = player.index();
        let oi = player.opponent().index();
        let mut new_state = self.clone();
        let mut captured: Option<Piece> = None;
        let mut piece_scored = false;

        // ── Remove piece from source ─────────────────────────────────────────────
        match mv.from {
            PieceLocation::Unplayed => {
                new_state.unplayed[pi] = new_state.unplayed[pi] - 1;
            },
            PieceLocation::OnBoard(sq) => {
                new_state.board.set(sq, None);
            },
            PieceLocation::Scored => {
                proof {
                    assert(false);
                }
            },
        }
        assert(new_state@ =~= lifted(self@, mv));

        // ── Place piece at destination ───────────────────────────────────────────
        let landed_on_rosette = match mv.to {
            PieceLocation::OnBoard(sq) => {
                // Capture opponent piece if present
                match new_state.board.get(sq) {
                    Some(occupant) => {
                        captured = Some(occupant);
                        new_state.unplayed[oi] = new_state.unplayed[oi] + 1;
                    },
                    None => {},
                }
                new_state.board.set(sq, Some(mv.piece));
                new_state.rules.board_shape.is_rosette(sq)
            },
            PieceLocation::Scored => {
                new_state.scored[pi] = new_state.scored[pi] + 1;
                piece_scored = true;
                false
            },
            PieceLocation::Unplayed => {
                proof {
                    assert(false);
                }
                false
            },
        };
        assert(new_state@ =~= placed(self@, mv));

        // ── Advance turn ─────────────────────────────────────────────────────────
        let game_over = new_state.scored[pi] == new_state.rules.piece_count;
        if game_over {
            new_state.phase = GamePhase::GameOver(player);
        } else if landed_on_rosette && new_state.rules.rosettes_grant_extra_turn {
            // Same player rolls again — phase resets, current_player unchanged
            new_state.phase = GamePhase::WaitingForRoll;
        } else {
            new_state.current_player = player.opponent();
            new_state.phase = GamePhase::WaitingForRoll;
        }
        assert(new_state@ =~= applied(self@, mv));
        MoveResult { new_state, captured, landed_on_rosette, piece_scored, game_over }
    }

    /// Whether `mv` is one of the legal moves for some roll of the dice.
    pub fn move_is_legal(&self, mv: &Move) -> (r: bool)
        requires
            rules_in_bounds(self@.rules),
        ensures
            r == legal_for_some_roll(self@, *mv),
    {
        proof {
            lemma_state_shape(self);
        }
        let mut roll: u8 = 1;
        while roll <= 4
            invariant
                1 <= roll <= 5,
                rules_in_bounds(self@.rules),
                well_shaped(self@),
                forall|k: u8| 1 <= k < roll ==> !#[trigger] legal_moves_of(self@, k as int).contains(*mv),
            decreases 5 - roll,
        {
            proof {
                lemma_rules_in_bounds_moves(self@, roll);
            }
            let moves = self.legal_moves(Dice(roll));
            if moves_contain(&moves, mv) {
                assert(legal_moves_of(self@, roll as int).contains(*mv));
                return true;
            }
            roll = roll + 1;
        }
        false
    }

    /// Whether `mv` can be applied to this state (see `apply_move`).
    pub fn move_is_applicable(&self, mv: &Move) -> (r: bool)
        ensures
            r == can_apply(self@, *mv),
    {
        proof {
            lemma_state_shape(self);
        }
        let pi = self.current_player.index();
        let oi = self.current_player.opponent().index();
        let mut lifted_state = self.clone();
        match mv.from {
            PieceLocation::Unplayed => {
                if self.unplayed[pi] == 0 {
                    return false;
                }
                lifted_state.unplayed[pi] = lifted_state.unplayed[pi] - 1;
            },
            PieceLocation::OnBoard(f) => {
                if !square_in_bounds(f) {
                    return false;
                }
                if self.board.get(f) != Some(mv.piece) {
                    return false;
                }
                lifted_state.board.set(f, None);
            },
            PieceLocation::Scored => {
                return false;
            },
        }
        assert(lifted_state@ =~= lifted(self@, *mv));
        match mv.to {
            PieceLocation::OnBoard(t) => {
                if !square_in_bounds(t) {
                    return false;
                }
                match lifted_state.board.get(t) {
                    Some(pc) => pc.player == self.current_player.opponent() && lifted_state.unplayed[oi] < 255,
                    None => true,
                }
            },
            PieceLocation::Scored => lifted_state.scored[pi] < 255,
            PieceLocation::Unplayed => false,
        }
    }

    /// Passes the turn to the opponent without a move.
    ///
    /// Call this when `legal_moves()` returns empty (turn forfeited).
    pub fn pass_turn(&self) -> (r: GameState)
        ensures
            r@ == passed(self@),
    {
        let mut new_state = self.clone();
        new_state.current_player = self.current_player.opponent();
        new_state.phase = GamePhase::WaitingForRoll;
        new_state
    }

    /// Advances to the next player's turn without applying a move.
    ///
    /// Used when `legal_moves` returns empty (roll of 0 or no valid squares).
    /// Returns `None` if the game is already over.
    pub fn forfeit_turn(&self) -> (r: Option<Self>)
        ensures
            match r {
                Some(n) => self@.phase == GamePhase::WaitingForRoll && n@ == passed(self@),
                None => self@.phase is GameOver,
            },
    {
        match &self.phase {
            GamePhase::GameOver(_) => None,
            _ => Some(self.pass_turn()),
        }
    }

    /// Returns true if the game is over.
    pub fn is_finished(&self) -> (r: bool)
        ensures
            r == (self.phase is GameOver),
    {
        match self.phase {
            GamePhase::GameOver(_) => true,
            _ => false,
        }
    }

    /// Returns the winning player, or `None` if the game is not over.
    pub fn winner(&self) -> (r: Option<Player>)
        ensures
            r == match self.phase {
                GamePhase::GameOver(p) => Some(p),
                _ => None,
            },
    {
        match self.phase {
            GamePhase::GameOver(player) => Some(player),
            _ => None,
        }
    }

    /// Returns whose turn it is.
    pub fn current_player(&self) -> (r: Player)
        ensures
            r == self.current_player,
    {
        self.current_player
    }

    // ── Private helpers ──────────────────────────────────────────────────────

    /// Returns whether some valid square holds the current player's piece with index `k`.
    fn index_on_board(&self, k: u8) -> (r: bool)
        requires
            forall|i: int| 0 <= i < self@.rules.shape.valid.len() ==> in_bounds(#[trigger] self@.rules.shape.valid[i]),
        ensures
            r == index_in_use(self@, k as int),
    {
        let squares = self.rules.board_shape.valid_squares();
        let target = Piece::new(self.current_player, k);
        let mut i: usize = 0;
        while i < squares.len()
            invariant
                i <= squares@.len(),
                squares@ == self@.rules.shape.valid,
                target == (Piece { player: self@.current, index: k }),
                forall|i: int| 0 <= i < self@.rules.shape.valid.len() ==> in_bounds(#[trigger] self@.rules.shape.valid[i]),
                forall|j: int| 0 <= j < i ==> occupant(self@, #[trigger] squares@[j]) != Some(target),
            decreases squares.len() - i,
        {
            let sq = squares[i];
            assert(in_bounds(self@.rules.shape.valid[i as int]));
            if self.board.get(sq) == Some(target) {
                assert(index_in_use(self@, k as int));
                return true;
            }
            i = i + 1;
        }
        assert forall|j: int| !(0 <= j < self@.rules.shape.valid.len() && in_bounds(#[trigger] self@.rules.shape.valid[j])
            && occupant(self@, self@.rules.shape.valid[j]) == Some(Piece { player: self@.current, index: k as int as u8 })
            && 0 <= k < 256) by {
            if 0 <= j < self@.rules.shape.valid.len() {
                assert(occupant(self@, squares@[j]) != Some(target));
            }
        }
        false
    }

    /// Returns a piece from the current player's unplayed pool.
    ///
    /// Assigns the lowest piece index not currently on a valid square for this player.
    fn next_entering_piece(&self) -> (r: Piece)
        requires
            forall|i: int| 0 <= i < self@.rules.shape.valid.len() ==> in_bounds(#[trigger] self@.rules.shape.valid[i]),
        ensures
            r == entering_piece(self@),
    {
        let mut next: u8 = 0;
        loop
            invariant
                next <= 24,
                forall|i: int| 0 <= i < self@.rules.shape.valid.len() ==> in_bounds(#[trigger] self@.rules.shape.valid[i]),
                forall|j: int| 0 <= j < next ==> index_in_use(self@, j),
            decreases 25 - next,
        {
            if !self.index_on_board(next) {
                proof {
                    assert(is_entering_index(self@, next as int));
                    lemma_entering_index_unique(self@, next as int);
                }
                return Piece::new(self.current_player, next);
            }
            proof {
                lemma_indices_in_use_bound(self@, next + 1);
            }
            next = next + 1;
        }
    }

    /// Returns whether the current player can land on `sq`.
    ///
    /// Returns false if the square is occupied by a friendly piece,
    /// or if it is a rosette occupied by an opponent piece (safe from capture).
    fn can_land_on(&self, sq: Square) -> (r: bool)
        requires
            in_bounds(sq),
        ensures
            r == can_land(self@, sq),
    {
        match self.board.get(sq) {
            None => true,
            Some(piece) => {
                if piece.player == self.current_player {
                    false  // friendly occupant
                } else {
                    // opponent occupant: capturable unless rosette is safe
                    !(self.rules.rosettes_are_safe && self.rules.board_shape.is_rosette(sq))
                }
            },
        }
    }
}

/// Whether a square's cell lies inside the board array.
pub fn square_in_bounds(sq: Square) -> (r: bool)
    ensures
        r == in_bounds(sq),
{
    (sq.row as u32) * 8 + (sq.col as u32) < 24
}

/// Every square of `squares` lies inside the board array.
spec fn squares_in_bounds_spec(squares: Seq<Square>) -> bool {
    forall|i: int| 0 <= i < squares.len() ==> in_bounds(#[trigger] squares[i])
}

/// Whether every square of `squares` lies inside the board array.
fn squares_in_bounds(squares: &[Square]) -> (r: bool)
    ensures
        r == squares_in_bounds_spec(squares@),
{
    let mut i: usize = 0;
    while i < squares.len()
        invariant
            i <= squares@.len(),
            forall|j: int| 0 <= j < i ==> in_bounds(#[trigger] squares@[j]),
        decreases squares@.len() - i,
    {
        if !square_in_bounds(squares[i]) {
            return false;
        }
        i = i + 1;
    }
    true
}

/// Whether every square of the rules (the board shape's valid squares and
/// both paths) lies inside the board array.
pub fn rules_fit(rules: &GameRules) -> (r: bool)
    ensures
        r == rules_in_bounds(rules@),
{
    let valid = rules.board_shape.valid_squares();
    let path1 = rules.path_player1.squares();
    let path2 = rules.path_player2.squares();
    let r = squares_in_bounds(valid) && squares_in_bounds(path1) && squares_in_bounds(path2);
    proof {
        let m = rules@;
        assert(valid@ == m.shape.valid && path1@ == m.path1 && path2@ == m.path2);
        if !r {
            if !squares_in_bounds_spec(valid@) {
                let i = choose|i: int| 0 <= i < valid@.len() && !in_bounds(#[trigger] valid@[i]);
                assert(!in_bounds(m.shape.valid[i]));
            } else if !squares_in_bounds_spec(path1@) {
                let i = choose|i: int| 0 <= i < path1@.len() && !in_bounds(#[trigger] path1@[i]);
                assert(!in_bounds(m.path1[i]));
            } else {
                let i = choose|i: int| 0 <= i < path2@.len() && !in_bounds(#[trigger] path2@[i]);
                assert(!in_bounds(m.path2[i]));
            }
        }
    }
    r
}


/// Whether `moves` holds `mv`.
fn moves_contain(moves: &Vec<Move>, mv: &Move) -> (r: bool)
    ensures
        r == moves@.contains(*mv),
{
    let mut i: usize = 0;
    while i < moves.len()
        invariant
            i <= moves.len(),
            forall|j: int| 0 <= j < i ==> moves@[j] != *mv,
        decreases moves.len() - i,
    {
        if moves[i] == *mv {
            return true;
        }
        i = i + 1;
    }
    false
}

/// Under rules whose squares all lie inside the board array, move generation
/// reads only cells of the board, whatever the state and the roll.
pub proof fn lemma_rules_in_bounds_moves(s: StateModel, roll: u8)
    requires
        rules_in_bounds(s.rules),
        well_shaped(s),
    ensures
        moves_in_bounds(s, roll as int),
{
    let roll = roll as int;
    let path = path_of(s.rules, s.current);
    assert(forall|i: int| 0 <= i < path.len() ==> in_bounds(#[trigger] path[i]));
    assert forall|i: int| 0 <= i < s.rules.shape.valid.len() implies #[trigger] target_in_bounds(
        s,
        roll,
        s.rules.shape.valid[i],
    ) by {
        let x = s.rules.shape.valid[i];
        crate::board::lemma_first_index(path, x);
        if let Some(k) = seq_index_of(path, x) {
            if 0 <= k + roll < path.len() {
                assert(in_bounds(path[k + roll]));
            }
        }
    }
}

/// The squares of the Finkel board and paths all lie inside the board array.
pub proof fn lemma_finkel_in_bounds()
    ensures
        rules_in_bounds(finkel_rules()),
{
}

} // verus!
