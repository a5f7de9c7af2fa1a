//! What the game screen shows, decided from the app state: the dice of each
//! player's panel, the size of the board cells and the game-over summary.
use crate::animation::Animation;
use crate::app::App;
use crate::board::{seq_get, seq_index_of, Square};
use crate::dice::Dice;
use crate::gameplay::move_at_cursor;
use crate::navigation::CURSOR_BEAR_OFF;
use crate::player::{index_of_player, Piece, Player};
use crate::state::{cell_of, in_bounds, path_of, Board, GameRules, GamePhase, PieceLocation};
use std::time::Duration;
use vstd::prelude::*;

verus! {

/// Describes what the dice widget inside a player panel should show.
#[derive(Debug, Clone, Copy, PartialEq, Structural)]
pub enum PanelDice {
    /// Nothing to show (panel is inactive and no prior roll to display).
    Hidden,
    /// Auto-roll is queued; waiting for the delay to elapse (carry a tick counter for animation).
    Pending(u32),
    /// Dice roll animation is in progress; carries `frames_remaining` for the rolling pattern.
    Animating(u32),
    /// Roll landed with legal moves available; carries the final value.
    Result(Dice),
    /// Roll landed with no legal moves; displayed in red before auto-forfeit.
    NoMoves(Dice),
    /// Opponent's last roll, shown dimmed in the inactive panel.
    LastRoll(Dice),
    /// Rosette extra turn granted; immediate re-roll incoming.
    RosettePending,
}

/// The dice a player's panel shows. The player to move sees the rosette
/// re-roll or the pending roll coming, the rolling dice, the roll without
/// moves, or the roll; the other player sees their last roll.
pub open spec fn panel_dice(app: App, player: Player) -> PanelDice {
    match app.game_state {
        None => PanelDice::Hidden,
        Some(gs) => if gs.current_player == player {
            if app.rosette_reroll && app.pending_roll {
                PanelDice::RosettePending
            } else if app.pending_roll {
                PanelDice::Pending(app.frame_count)
            } else {
                match app.dice_roll {
                    Some(roll) => if app.animation matches Some(Animation::DiceRoll { .. }) {
                        PanelDice::Animating(app.frame_count)
                    } else if app.forfeit_after is Some {
                        PanelDice::NoMoves(roll)
                    } else {
                        PanelDice::Result(roll)
                    },
                    None => PanelDice::Hidden,
                }
            }
        } else {
            match app.last_roll[index_of_player(player)] {
                Some(roll) => PanelDice::LastRoll(roll),
                None => PanelDice::Hidden,
            }
        },
    }
}

/// Computes what the dice widget of `player`'s panel shows.
pub fn compute_panel_dice(app: &App, player: Player) -> (r: PanelDice)
    ensures
        r == panel_dice(*app, player),
{
    let gs = match &app.game_state {
        Some(gs) => gs,
        None => return PanelDice::Hidden,
    };

    if gs.current_player == player {
        // Active player — show current roll state.
        if app.rosette_reroll && app.pending_roll {
            return PanelDice::RosettePending;
        }
        if app.pending_roll {
            return PanelDice::Pending(app.frame_count);
        }
        if let Some(roll) = app.dice_roll {
            if let Some(Animation::DiceRoll { .. }) = &app.animation {
                return PanelDice::Animating(app.frame_count);
            }
            if app.forfeit_after.is_some() {
                return PanelDice::NoMoves(roll);
            }
            return PanelDice::Result(roll);
        }
        PanelDice::Hidden
    } else {
        // Inactive panel — show the player's last roll dimmed.
        if let Some(roll) = app.last_roll[player.index()] {
            return PanelDice::LastRoll(roll);
        }
        PanelDice::Hidden
    }
}

/// Computes cell dimensions from available grid height.
///
/// Returns `(cell_w, cell_h)`. Only odd heights (1, 3, 5) are used so
/// symbols always land on a true center row. Cell width is `2*h + 1`
/// for a roughly-square look in a monospace terminal.
pub fn cell_dims(grid_h: u16) -> (r: (u16, u16))
    ensures
        r.1 == if grid_h >= 49 {
            5u16
        } else if grid_h >= 33 {
            3u16
        } else {
            1u16
        },
        r.0 == 2 * r.1 + 1,
{
    // 8 cells + 9 border rows → ch=5 needs 49, ch=3 needs 33, ch=1 needs 17
    let ch: u16 = if grid_h >= 49 {
        5
    } else if grid_h >= 33 {
        3
    } else {
        1
    };
    let cw = ch * 2 + 1;
    (cw, ch)
}

/// The screen column of the board's grid column for board row `row`: rows
/// are drawn right to left, so row 2 is the leftmost column; rows past 2 are
/// drawn in the leftmost column too.
pub open spec fn screen_column(row: int) -> int {
    if row <= 2 {
        2 - row
    } else {
        0
    }
}

/// The top-left character of a cell drawn `cw` wide and `ch` high, on a board
/// whose top-left corner is at `(bx, by)`: one border line before each cell,
/// columns of the board top to bottom from 7 down to 0.
pub open spec fn cell_origin_of(bx: int, by: int, cw: int, ch: int, sq: Square) -> (int, int) {
    (bx + screen_column(sq.row as int) * (cw + 1) + 1, by + (7 - sq.col) * (ch + 1) + 1)
}

/// Where the cell of `sq` starts on the screen (see `cell_origin_of`).
pub fn cell_origin(bx: u16, by: u16, cw: u16, ch: u16, sq: Square) -> (r: (u16, u16))
    requires
        sq.col <= 7,
        bx + 3 * (cw + 1) <= u16::MAX,
        by + 8 * (ch + 1) <= u16::MAX,
    ensures
        (r.0 as int, r.1 as int) == cell_origin_of(bx as int, by as int, cw as int, ch as int, sq),
{
    let sc: u16 = if sq.row <= 2 {
        2 - sq.row as u16
    } else {
        0
    };
    let down: u16 = 7 - sq.col as u16;
    assert(sc * (cw + 1) <= 2 * (cw + 1)) by (nonlinear_arith)
        requires
            sc <= 2,
    ;
    assert(down * (ch + 1) <= 7 * (ch + 1)) by (nonlinear_arith)
        requires
            down <= 7,
    ;
    (bx + sc * (cw + 1) + 1, by + down * (ch + 1) + 1)
}

/// Data needed to render the game-over screen.
pub struct GameOverData<'a> {
    /// True if the human player (Player 1) won.
    pub winner_is_human: bool,
    /// Total number of moves made in the game.
    pub moves: u32,
    /// Time elapsed since the game started.
    pub elapsed: Duration,
    /// Capture counts: index 0 = Player 1, index 1 = Player 2.
    pub captures: &'a [u32; 2],
}

/// The game-over summary of the app: whether Player 1 won the game, the
/// number of moves and the capture counts, with the time `elapsed` measured
/// by the caller.
pub fn game_over_data<'a>(app: &'a App, elapsed: Duration) -> (r: GameOverData<'a>)
    ensures
        r.winner_is_human == (app.game_state matches Some(gs) && gs.phase == GamePhase::GameOver(Player::Player1)),
        r.moves == app.stats.moves,
        r.elapsed == elapsed,
        *r.captures == app.stats.captures,
{
    let winner_is_human = match &app.game_state {
        Some(gs) => match gs.phase {
            GamePhase::GameOver(p) => p == Player::Player1,
            _ => false,
        },
        None => false,
    };
    GameOverData { winner_is_human, moves: app.stats.moves, elapsed, captures: &app.stats.captures }
}


/// What the board highlights for the cursor.
#[derive(Debug, Clone, Copy, PartialEq, Structural)]
pub struct CursorHighlight {
    /// The path square under the cursor.
    pub selected_square: Option<Square>,
    /// Where the move under the cursor lands on the board.
    pub target_square: Option<Square>,
    /// The cursor is on the pool of unplayed pieces.
    pub pool_selected: bool,
    /// The cursor is on the bear-off slot.
    pub bear_off_selected: bool,
    /// The move under the cursor scores its piece.
    pub target_will_score: bool,
}

/// The highlight of the cursor on the board of a game in progress.
pub open spec fn cursor_highlight_of(app: App) -> Option<CursorHighlight> {
    match app.game_state {
        None => None,
        Some(gs) => Some(
            CursorHighlight {
                selected_square: if app.cursor_path_pos == 0 {
                    None
                } else {
                    seq_get(path_of(gs@.rules, gs.current_player), app.cursor_path_pos - 1)
                },
                target_square: match move_at_cursor(app) {
                    Some(mv) => match mv.to {
                        PieceLocation::OnBoard(t) => Some(t),
                        _ => None,
                    },
                    None => None,
                },
                pool_selected: app.cursor_path_pos == 0,
                bear_off_selected: app.cursor_path_pos == CURSOR_BEAR_OFF,
                target_will_score: move_at_cursor(app) matches Some(mv) && mv.to is Scored,
            },
        ),
    }
}

/// Computes the cursor's highlight on the board (`None` without a game).
pub fn cursor_highlight(app: &App) -> (r: Option<CursorHighlight>)
    ensures
        r == cursor_highlight_of(*app),
{
    let gs = match &app.game_state {
        Some(gs) => gs,
        None => return None,
    };
    let path = gs.rules.path_for(gs.current_player);
    let selected_square = if app.cursor_path_pos == 0 {
        None
    } else {
        path.get(app.cursor_path_pos - 1)
    };
    let cursor_move = app.legal_move_at_cursor();
    let target_square = match cursor_move {
        Some(mv) => match mv.to {
            PieceLocation::OnBoard(sq) => Some(sq),
            _ => None,
        },
        None => None,
    };
    let target_will_score = match cursor_move {
        Some(mv) => match mv.to {
            PieceLocation::Scored => true,
            _ => false,
        },
        None => false,
    };
    Some(CursorHighlight {
        selected_square,
        target_square,
        pool_selected: app.cursor_path_pos == 0,
        bear_off_selected: app.cursor_path_pos == CURSOR_BEAR_OFF,
        target_will_score,
    })
}


/// The mark drawn in a board square.
#[derive(Debug, Clone, Copy, PartialEq, Structural)]
pub enum CellMark {
    Blank,
    /// The rosette star.
    Star,
    /// A piece of the player.
    Piece(Player),
    /// A captured piece flashing.
    Flash,
    /// A piece of the player walking through.
    Walker(Player),
}

/// The background of a board square.
#[derive(Debug, Clone, Copy, PartialEq, Structural)]
pub enum CellShade {
    Plain,
    Rosette,
    /// The square under the cursor.
    Selected,
    /// The square the move under the cursor lands on.
    Target,
}

/// How a board square is drawn.
#[derive(Debug, Clone, Copy, PartialEq, Structural)]
pub struct CellLook {
    pub mark: CellMark,
    pub shade: CellShade,
}

/// How a square is drawn, by priority: a capture flash (on its odd frames),
/// the walking piece, the cursor, the cursor's target, a piece (on its
/// rosette background), a rosette, or nothing.
pub open spec fn cell_look_of(
    rosette: bool,
    occupant: Option<Piece>,
    selected: bool,
    target: bool,
    flash: bool,
    walker: Option<Player>,
) -> CellLook {
    if flash {
        CellLook { mark: CellMark::Flash, shade: CellShade::Plain }
    } else if walker is Some {
        CellLook {
            mark: CellMark::Walker(walker.unwrap()),
            shade: if rosette { CellShade::Rosette } else { CellShade::Plain },
        }
    } else if selected || target {
        CellLook {
            mark: match occupant {
                Some(pc) => CellMark::Piece(pc.player),
                None => if rosette { CellMark::Star } else { CellMark::Blank },
            },
            shade: if selected { CellShade::Selected } else { CellShade::Target },
        }
    } else {
        match occupant {
            Some(pc) => CellLook {
                mark: CellMark::Piece(pc.player),
                shade: if rosette { CellShade::Rosette } else { CellShade::Plain },
            },
            None => if rosette {
                CellLook { mark: CellMark::Star, shade: CellShade::Rosette }
            } else {
                CellLook { mark: CellMark::Blank, shade: CellShade::Plain }
            },
        }
    }
}

/// Whether the animation flashes a capture on `sq` in this frame.
pub open spec fn flashes_on(animation: Option<&Animation>, sq: Square) -> bool {
    animation matches Some(Animation::CaptureFlash { square, frames_remaining }) && square == sq
        && frames_remaining % 2 == 1
}

/// The player whose walking piece the animation shows on `sq`, if any.
pub open spec fn walker_on(animation: Option<&Animation>, sq: Square) -> Option<Player> {
    match animation {
        Some(Animation::PieceMove { remaining, is_player1, .. }) => if remaining@.len() > 0 && remaining@[0] == sq {
            Some(if *is_player1 { Player::Player1 } else { Player::Player2 })
        } else {
            None
        },
        _ => None,
    }
}

/// Decides how the board square `sq` is drawn.
pub fn cell_look(
    rules: &GameRules,
    board: &Board,
    selected_square: Option<Square>,
    target_square: Option<Square>,
    animation: Option<&Animation>,
    sq: Square,
) -> (r: CellLook)
    requires
        in_bounds(sq),
    ensures
        r == cell_look_of(
            rules@.shape.rosettes.contains(sq),
            board@[cell_of(sq)],
            selected_square == Some(sq),
            target_square == Some(sq),
            flashes_on(animation, sq),
            walker_on(animation, sq),
        ),
{
    let flash = match animation {
        Some(Animation::CaptureFlash { square, frames_remaining }) => *square == sq && *frames_remaining % 2 == 1,
        _ => false,
    };
    let walker = match animation {
        Some(Animation::PieceMove { remaining, is_player1, .. }) => {
            if remaining.len() > 0 && remaining[0] == sq {
                Some(if *is_player1 { Player::Player1 } else { Player::Player2 })
            } else {
                None
            }
        },
        _ => None,
    };
    let rosette = rules.board_shape.is_rosette(sq);
    let occupant = board.get(sq);
    let selected = match selected_square {
        Some(s) => s == sq,
        None => false,
    };
    let target = match target_square {
        Some(s) => s == sq,
        None => false,
    };
    if flash {
        CellLook { mark: CellMark::Flash, shade: CellShade::Plain }
    } else if let Some(p) = walker {
        CellLook { mark: CellMark::Walker(p), shade: if rosette { CellShade::Rosette } else { CellShade::Plain } }
    } else if selected || target {
        let mark = match occupant {
            Some(pc) => CellMark::Piece(pc.player),
            None => if rosette {
                CellMark::Star
            } else {
                CellMark::Blank
            },
        };
        CellLook { mark, shade: if selected { CellShade::Selected } else { CellShade::Target } }
    } else {
        match occupant {
            Some(pc) => CellLook {
                mark: CellMark::Piece(pc.player),
                shade: if rosette { CellShade::Rosette } else { CellShade::Plain },
            },
            None => if rosette {
                CellLook { mark: CellMark::Star, shade: CellShade::Rosette }
            } else {
                CellLook { mark: CellMark::Blank, shade: CellShade::Plain }
            },
        }
    }
}

/// The step number shown in a square: its 1-based position on Player 2's
/// path in the top row, on Player 1's path elsewhere.
pub open spec fn step_label_of(r: crate::state::RulesModel, sq: Square) -> Option<nat> {
    let path = if sq.row == 0 { r.path2 } else { r.path1 };
    match seq_index_of(path, sq) {
        Some(i) => Some((i + 1) as nat),
        None => None,
    }
}

/// Computes the step number shown in a square.
pub fn step_label(rules: &GameRules, sq: Square) -> (r: Option<usize>)
    ensures
        match r {
            Some(n) => step_label_of(rules@, sq) == Some(n as nat),
            None => step_label_of(rules@, sq) is None,
        },
{
    let path = if sq.row == 0 {
        rules.path_for(Player::Player2)
    } else {
        rules.path_for(Player::Player1)
    };
    proof {
        crate::board::lemma_first_index(path@, sq);
    }
    let _path_len = path.len();  // bounds the step
    match path.index_of(sq) {
        Some(i) => Some(i + 1),
        None => None,
    }
}


/// The sixteen pip patterns that the rolling dice cycle through.
pub open spec fn rolling_pattern(k: int) -> u8 {
    if k == 0 {
        0b1010
    } else if k == 1 {
        0b0101
    } else if k == 2 {
        0b1100
    } else if k == 3 {
        0b0011
    } else if k == 4 {
        0b1001
    } else if k == 5 {
        0b0110
    } else if k == 6 {
        0b1111
    } else if k == 7 {
        0b0000
    } else if k == 8 {
        0b1110
    } else if k == 9 {
        0b0111
    } else if k == 10 {
        0b1011
    } else if k == 11 {
        0b1101
    } else if k == 12 {
        0b0001
    } else if k == 13 {
        0b1000
    } else if k == 14 {
        0b0100
    } else {
        0b0010
    }
}

/// Whether bit `i` of `p` is set.
pub open spec fn has_bit(p: u8, i: u8) -> bool {
    (p >> i) & 1u8 == 1u8
}

/// The pattern shown at position `k` of the cycle.
fn pattern_at(k: u32) -> (r: u8)
    requires
        k < 16,
    ensures
        r == rolling_pattern(k as int),
{
    if k == 0 {
        0b1010
    } else if k == 1 {
        0b0101
    } else if k == 2 {
        0b1100
    } else if k == 3 {
        0b0011
    } else if k == 4 {
        0b1001
    } else if k == 5 {
        0b0110
    } else if k == 6 {
        0b1111
    } else if k == 7 {
        0b0000
    } else if k == 8 {
        0b1110
    } else if k == 9 {
        0b0111
    } else if k == 10 {
        0b1011
    } else if k == 11 {
        0b1101
    } else if k == 12 {
        0b0001
    } else if k == 13 {
        0b1000
    } else if k == 14 {
        0b0100
    } else {
        0b0010
    }
}

/// The pips of rolling dice at `frame`: the pattern changes every two frames
/// and die `i` shows its pip when bit `i` of the pattern is set.
pub fn rolling_pips(frame: u32) -> (r: [bool; 4])
    ensures
        ({
            let p = rolling_pattern(((frame / 2) % 16) as int);
            &&& r[0] == has_bit(p, 0)
            &&& r[1] == has_bit(p, 1)
            &&& r[2] == has_bit(p, 2)
            &&& r[3] == has_bit(p, 3)
        }),
{
    let p = pattern_at((frame / 2) % 16);
    [(p >> 0u8) & 1u8 == 1u8, (p >> 1u8) & 1u8 == 1u8, (p >> 2u8) & 1u8 == 1u8, (p >> 3u8) & 1u8 == 1u8]
}

/// The pips of settled dice showing `value`: the first `value` dice.
pub fn value_pips(value: u8) -> (r: [bool; 4])
    ensures
        r[0] == (0 < value),
        r[1] == (1 < value),
        r[2] == (2 < value),
        r[3] == (3 < value),
{
    [0 < value, 1 < value, 2 < value, 3 < value]
}

} // verus!
