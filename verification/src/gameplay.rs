//! The turn flow of a game in progress: moves, their log entries and
//! animations, automatic dice rolls, forfeits and the AI's turns.
use crate::animation::Animation;
use crate::app::{
    ai_turn_started, clock_now, deadline_in, deadline_passed, deadline_set, lemma_log_chain, lemma_turn_chain,
    log_extended, note_turn_event, push_log, rolled_message, rolled_text, rules_fit_board,
    start_turn, state_of, turn_extended, turn_started, App, GameStats, Screen,
    AUTO_ROLL_DELAY_MS, CAPTURE_FLASH_FRAMES, DICE_ROLL_ANIMATION_FRAMES, FORFEIT_DISPLAY_MS,
    PIECE_STEP_FRAMES,
};
use crate::navigation::{nav_cursor, nav_target, NavDir, CURSOR_BEAR_OFF};
use crate::board::{seq_get, seq_index_of, Square};
use crate::dice::Dice;
use crate::player::{index_of_player, Player};
use crate::state::{
    applied, can_apply, captured_by, ends_game, lands_on_rosette, legal_for_some_roll, legal_moves_of, move_path_of,
    passed, path_of, GamePhase, GameRules, Move, PieceLocation, RulesModel, StateModel,
};
use crate::text::{decimal, decimal_between};
use vstd::prelude::*;

verus! {

/// The 1-based position of `t` on the path of `p`, or 0 when the path does
/// not hold it.
pub open spec fn step_of(r: RulesModel, p: Player, t: Square) -> nat {
    match seq_index_of(path_of(r, p), t) {
        Some(i) => (i + 1) as nat,
        None => 0,
    }
}

/// The event a move records in its player's panel: a capture, a rosette
/// landing or a plain move with the step it reached, or a scored piece.
/// A move back to the pool records nothing.
pub open spec fn move_event(r: RulesModel, mv: Move, captured: bool, rosette: bool) -> Option<Seq<char>> {
    match mv.to {
        PieceLocation::OnBoard(t) => Some(
            if captured {
                "Captured piece at "@ + decimal(step_of(r, mv.piece.player, t)) + "!"@
            } else if rosette {
                "Moved to rosette at "@ + decimal(step_of(r, mv.piece.player, t))
            } else {
                "Moved to "@ + decimal(step_of(r, mv.piece.player, t))
            },
        ),
        PieceLocation::Scored => Some("Scored!"@),
        PieceLocation::Unplayed => None,
    }
}

/// The log lines of a move: its event, followed by "Extra turn!" when it
/// lands on a rosette.
pub open spec fn move_texts(r: RulesModel, mv: Move, captured: bool, rosette: bool) -> Seq<Seq<char>> {
    match move_event(r, mv, captured, rosette) {
        Some(t) => if rosette && mv.to is OnBoard {
            seq![t, "Extra turn!"@]
        } else {
            seq![t]
        },
        None => Seq::empty(),
    }
}

impl App {
    /// Records an event of `player` in the event log and in the turn in
    /// progress of the history at `idx`.
    fn emit_event(&mut self, player: Player, idx: usize, text: String)
        requires
            idx < 2,
        ensures
            log_extended(old(self).log@, final(self).log@, Some(player), seq![text@]),
            turn_extended(old(self).turn_log[idx as int]@, final(self).turn_log[idx as int]@, seq![text@]),
            final(self).turn_log@ == old(self).turn_log@.update(idx as int, final(self).turn_log[idx as int]),
            *final(self) == (App { log: final(self).log, turn_log: final(self).turn_log, ..*old(self) }),
    {
        push_log(&mut self.log, Some(player), text.clone());
        note_turn_event(&mut self.turn_log[idx], text);
        assert(self.turn_log@ =~= old(self).turn_log@.update(idx as int, self.turn_log[idx as int]));
    }

    /// Logs a move and returns its panel event. Counts a capture for the
    /// moving piece's player.
    fn build_move_log(&mut self, rules: &GameRules, mv: &Move, captured: bool, rosette: bool, current_player: Player) -> (r:
        Option<String>)
        requires
            captured ==> old(self).stats.captures[index_of_player(mv.piece.player)] < u32::MAX,
        ensures
            match (r, move_event(rules@, *mv, captured, rosette)) {
                (Some(e), Some(t)) => e@ == t,
                (None, None) => true,
                _ => false,
            },
            log_extended(old(self).log@, final(self).log@, Some(current_player), move_texts(rules@, *mv, captured, rosette)),
            turn_extended(
                old(self).turn_log[index_of_player(mv.piece.player)]@,
                final(self).turn_log[index_of_player(mv.piece.player)]@,
                move_texts(rules@, *mv, captured, rosette),
            ),
            final(self).turn_log@ == old(self).turn_log@.update(
                index_of_player(mv.piece.player),
                final(self).turn_log[index_of_player(mv.piece.player)],
            ),
            final(self).stats.captures@ == if captured && mv.to is OnBoard {
                old(self).stats.captures@.update(
                    index_of_player(mv.piece.player),
                    (old(self).stats.captures[index_of_player(mv.piece.player)] + 1) as u32,
                )
            } else {
                old(self).stats.captures@
            },
            *final(self) == (App {
                log: final(self).log,
                turn_log: final(self).turn_log,
                stats: crate::app::GameStats { captures: final(self).stats.captures, ..old(self).stats },
                ..*old(self)
            }),
    {
        let idx = mv.piece.player.index();
        match mv.to {
            PieceLocation::OnBoard(sq) => {
                let path = rules.path_for(mv.piece.player);
                let _path_len = path.len();  // bounds the step
                proof {
                    crate::board::lemma_first_index(path@, sq);
                }
                let step: u64 = match path.index_of(sq) {
                    Some(i) => (i + 1) as u64,
                    None => 0,
                };
                let t = if captured {
                    self.stats.captures[idx] = self.stats.captures[idx] + 1;
                    decimal_between("Captured piece at ", step, "!")
                } else if rosette {
                    decimal_between("Moved to rosette at ", step, "")
                } else {
                    decimal_between("Moved to ", step, "")
                };
                proof {
                    reveal_strlit("");
                    assert(t@ == move_event(rules@, *mv, captured, rosette).unwrap());
                }
                let ghost mid = *self;
                self.emit_event(current_player, idx, t.clone());
                if rosette {
                    let ghost mid2 = *self;
                    self.emit_event(current_player, idx, String::from_str("Extra turn!"));
                    proof {
                        lemma_log_chain(mid.log@, mid2.log@, self.log@, Some(current_player), seq![t@], seq!["Extra turn!"@]);
                        lemma_turn_chain(
                            mid.turn_log[idx as int]@,
                            mid2.turn_log[idx as int]@,
                            self.turn_log[idx as int]@,
                            seq![t@],
                            seq!["Extra turn!"@],
                        );
                        assert(seq![t@] + seq!["Extra turn!"@] =~= move_texts(rules@, *mv, captured, rosette));
                        assert(self.turn_log@ =~= old(self).turn_log@.update(idx as int, self.turn_log[idx as int]));
                    }
                }
                assert(self.stats.captures@ =~= if captured && mv.to is OnBoard {
                    old(self).stats.captures@.update(idx as int, (old(self).stats.captures[idx as int] + 1) as u32)
                } else {
                    old(self).stats.captures@
                });
                Some(t)
            },
            PieceLocation::Scored => {
                let t = String::from_str("Scored!");
                self.emit_event(current_player, idx, t.clone());
                Some(t)
            },
            PieceLocation::Unplayed => {
                assert(self.log@ =~= old(self).log@.take(old(self).log@.len() as int));
                None
            },
        }
    }
}


/// What recording a move sets: the state after the move, one more move (and,
/// for a capture, one more capture of the moving piece's player), the log
/// lines of the move in the event log and in the mover's turn, the mover's
/// panel event and last roll. The roll and the list of legal moves are
/// cleared; nothing else changes.
pub open spec fn move_recorded(old: App, new: App, mv: Move) -> bool {
    let s = old.game_state.unwrap()@;
    let idx = index_of_player(mv.piece.player);
    let captured = captured_by(s, mv) is Some;
    let rosette = lands_on_rosette(s, mv);
    let texts = move_texts(s.rules, mv, captured, rosette);
    &&& state_of(new.game_state) == Some(applied(s, mv))
    &&& new.stats == (GameStats { moves: (old.stats.moves + 1) as u32, captures: new.stats.captures, ..old.stats })
    &&& new.stats.captures@ == if captured && mv.to is OnBoard {
        old.stats.captures@.update(idx, (old.stats.captures[idx] + 1) as u32)
    } else {
        old.stats.captures@
    }
    &&& log_extended(old.log@, new.log@, Some(s.current), texts)
    &&& turn_extended(old.turn_log[idx]@, new.turn_log[idx]@, texts)
    &&& new.turn_log@ == old.turn_log@.update(idx, new.turn_log[idx])
    &&& match move_event(s.rules, mv, captured, rosette) {
        Some(t) => new.last_event[idx] matches Some(e) && e@ == t,
        None => new.last_event[idx] is None,
    }
    &&& new.last_event@ == old.last_event@.update(idx, new.last_event[idx])
    &&& new.last_roll@ == old.last_roll@.update(idx, old.dice_roll)
    &&& new.legal_moves@.len() == 0
    &&& new == (App {
        game_state: new.game_state,
        stats: new.stats,
        log: new.log,
        turn_log: new.turn_log,
        last_event: new.last_event,
        last_roll: new.last_roll,
        dice_roll: None,
        legal_moves: new.legal_moves,
        ..old
    })
}

/// The animation a move starts: a flash on the square of a capture; else, when
/// no animation is running and the piece passes at least two squares, a walk
/// along them; else the running animation goes on.
pub open spec fn move_animation_set(old: Option<Animation>, new: Option<Animation>, r: RulesModel, mv: Move, captured: bool) -> bool {
    match mv.to {
        PieceLocation::OnBoard(t) if captured => new == Some(
            Animation::CaptureFlash { square: t, frames_remaining: CAPTURE_FLASH_FRAMES },
        ),
        _ => if old is None && move_path_of(r, mv).len() > 1 {
            &&& new matches Some(Animation::PieceMove { remaining, frames_per_step, frames_this_step, is_player1 })
            &&& remaining@ == move_path_of(r, mv)
            &&& frames_per_step == PIECE_STEP_FRAMES
            &&& frames_this_step == PIECE_STEP_FRAMES
            &&& is_player1 == (mv.piece.player == Player::Player1)
        } else {
            new == old
        },
    }
}

/// What follows a move in the turn flow: Player 2's turn starts at once;
/// Player 1's roll is scheduled, at once for a rosette re-roll (`reroll`) and
/// `AUTO_ROLL_DELAY_MS` after the clock's reading otherwise.
pub open spec fn turn_handed_over(old: App, new: App, next: Player, reroll: bool) -> bool {
    if next == Player::Player2 {
        exists|roll: Dice| #[trigger] ai_turn_started(old, new, roll, reroll)
    } else {
        &&& new == (App { pending_roll: true, rosette_reroll: reroll, roll_after: new.roll_after, ..old })
        &&& if reroll {
            new.roll_after is None
        } else {
            deadline_set(new.roll_after, AUTO_ROLL_DELAY_MS)
        }
    }
}

/// Whether the move is a rosette landing after which the same player rolls
/// again.
pub open spec fn rerolls(s: StateModel, mv: Move) -> bool {
    lands_on_rosette(s, mv) && applied(s, mv).current == s.current
}

/// The whole effect of a move on the app: it is recorded; a move that ends
/// the game stops the clock and shows the game-over screen; any other move
/// starts its animation and hands the turn over.
pub open spec fn move_applied(old: App, new: App, mv: Move) -> bool {
    let s = old.game_state.unwrap()@;
    exists|m: App|
        #[trigger] move_recorded(old, m, mv) && if ends_game(s, mv) {
            &&& new == (App {
                screen: Screen::GameOver,
                stats: GameStats { end_time: new.stats.end_time, ..m.stats },
                ..m
            })
            &&& new.stats.end_time is Some
        } else {
            exists|a: App|
                #[trigger] move_animation_set(m.animation, a.animation, s.rules, mv, captured_by(s, mv) is Some)
                    && a == (App { animation: a.animation, ..m })
                    && turn_handed_over(a, new, applied(s, mv).current, rerolls(s, mv))
        }
}

impl App {
    /// Applies a move to the current game state and handles turn transitions.
    pub fn apply_move(&mut self, mv: Move)
        requires
            rules_fit_board(*old(self)),
            move_allowed(*old(self), mv),
        ensures
            old(self).game_state is None ==> *final(self) == *old(self),
            old(self).game_state is Some ==> move_applied(*old(self), *final(self), mv),
    {
        let gs = match self.game_state.take() {
            Some(gs) => gs,
            None => return,
        };
        let ghost old_app = *old(self);
        let ghost s = gs@;
        let current_player = gs.current_player;
        let result = gs.apply_move(mv);
        self.stats.moves = self.stats.moves + 1;

        let player_idx = mv.piece.player.index();
        let captured = result.captured.is_some();
        let rosette = result.landed_on_rosette;
        let panel_event = self.build_move_log(&result.new_state.rules, &mv, captured, rosette, current_player);
        self.last_event[player_idx] = panel_event;

        let game_over = result.game_over;
        let next_player = result.new_state.current_player;
        self.game_state = Some(result.new_state);
        self.last_roll[player_idx] = self.dice_roll;
        self.dice_roll = None;
        self.legal_moves.clear();
        let ghost m = *self;
        assert(self.last_event@ =~= old_app.last_event@.update(player_idx as int, self.last_event[player_idx as int]));
        assert(self.last_roll@ =~= old_app.last_roll@.update(player_idx as int, old_app.dice_roll));
        assert(move_recorded(old_app, m, mv));

        if game_over {
            self.stats.end_time = Some(clock_now());
            self.screen = Screen::GameOver;
            return;
        }

        self.set_move_animation(&gs.rules, &mv, captured);
        let ghost a = *self;
        self.transition_turn(next_player, rosette && next_player == current_player);
        assert(move_animation_set(m.animation, a.animation, s.rules, mv, captured_by(s, mv) is Some));
    }

    /// Sets the cosmetic animation for a completed move (capture flash or piece walk).
    fn set_move_animation(&mut self, rules: &GameRules, mv: &Move, captured: bool)
        ensures
            move_animation_set(old(self).animation, final(self).animation, rules@, *mv, captured),
            *final(self) == (App { animation: final(self).animation, ..*old(self) }),
    {
        if captured {
            if let PieceLocation::OnBoard(sq) = mv.to {
                self.animation = Some(Animation::CaptureFlash { square: sq, frames_remaining: CAPTURE_FLASH_FRAMES });
            }
        }
        if self.animation.is_none() {
            let path_squares = rules.move_path(mv);
            if path_squares.len() > 1 {
                let is_player1 = mv.piece.player == Player::Player1;
                self.animation = Some(Animation::PieceMove {
                    remaining: path_squares,
                    frames_per_step: PIECE_STEP_FRAMES,
                    frames_this_step: PIECE_STEP_FRAMES,
                    is_player1,
                });
            }
        }
    }

    /// Schedules the next player's turn after a move completes.
    fn transition_turn(&mut self, next: Player, rosette: bool)
        requires
            rules_fit_board(*old(self)),
            old(self).game_state is Some,
        ensures
            turn_handed_over(*old(self), *final(self), next, rosette),
    {
        if next == Player::Player2 {
            self.begin_ai_turn(rosette);
        } else {
            self.pending_roll = true;
            self.rosette_reroll = rosette;
            self.roll_after = if rosette {
                None
            } else {
                Some(deadline_in(AUTO_ROLL_DELAY_MS))
            };
        }
    }
}


/// The effect of a finished animation. Once a dice roll has been shown, it is
/// noted in the current player's turn; then, when the roll has no legal move,
/// the AI stops thinking, "No moves!" is logged and noted and the forfeit is
/// scheduled `FORFEIT_DISPLAY_MS` after the clock's reading; otherwise, unless
/// the AI is choosing its move, the legal moves are offered (the cursor kept
/// on the grid). Without a roll or a game nothing changes.
pub open spec fn animation_finished(old: App, new: App) -> bool {
    match (old.dice_roll, old.game_state) {
        (Some(roll), Some(gs)) => {
            let s = gs@;
            let idx = index_of_player(s.current);
            let moves = legal_moves_of(s, roll.0 as int);
            let no_moves = moves.len() == 0;
            &&& turn_extended(
                old.turn_log[idx]@,
                new.turn_log[idx]@,
                if no_moves {
                    seq![rolled_text(roll.0), "No moves!"@]
                } else {
                    seq![rolled_text(roll.0)]
                },
            )
            &&& new.turn_log@ == old.turn_log@.update(idx, new.turn_log[idx])
            &&& if moves.len() == 0 {
                &&& log_extended(old.log@, new.log@, Some(s.current), seq!["No moves!"@])
                &&& deadline_set(new.forfeit_after, FORFEIT_DISPLAY_MS)
                &&& new == (App {
                    turn_log: new.turn_log,
                    log: new.log,
                    forfeit_after: new.forfeit_after,
                    ai_thinking: false,
                    ..old
                })
            } else if old.ai_thinking {
                new == (App { turn_log: new.turn_log, ..old })
            } else {
                &&& new.legal_moves@ == moves
                &&& new == (App {
                    turn_log: new.turn_log,
                    legal_moves: new.legal_moves,
                    cursor_path_pos: if old.cursor_path_pos < CURSOR_BEAR_OFF {
                        old.cursor_path_pos
                    } else {
                        CURSOR_BEAR_OFF
                    },
                    ..old
                })
            }
        },
        _ => new == old,
    }
}

/// Player 1's automatic roll is pending and nothing holds it back: it is
/// Player 1's turn and no animation is running.
pub open spec fn auto_roll_waiting(app: App) -> bool {
    &&& app.pending_roll
    &&& app.game_state matches Some(gs) && gs.current_player == Player::Player1
    &&& app.animation is None
}

/// Player 1's dice were rolled automatically with result `roll`: the roll is
/// shown and logged, and begins a new turn in Player 1's history unless it is
/// a rosette re-roll, which extends the turn in progress; the pending roll is
/// cleared.
pub open spec fn auto_rolled(old: App, new: App, roll: Dice) -> bool {
    &&& roll.0 <= 4
    &&& log_extended(old.log@, new.log@, Some(Player::Player1), seq![rolled_text(roll.0)])
    &&& if old.rosette_reroll {
        new.turn_log == old.turn_log
    } else {
        &&& turn_started(old.turn_log[0]@, new.turn_log[0]@)
        &&& new.turn_log[1] == old.turn_log[1]
    }
    &&& new == (App {
        pending_roll: false,
        rosette_reroll: false,
        roll_after: None,
        animation: Some(
            Animation::DiceRoll { frames_remaining: DICE_ROLL_ANIMATION_FRAMES, final_value: roll, display: Dice(0) },
        ),
        dice_roll: Some(roll),
        log: new.log,
        turn_log: new.turn_log,
        rng: new.rng,
        ..old
    })
}

/// The effect of the forfeit of a turn without moves: the forfeit and the
/// roll are cleared (the roll kept as the player's last roll). A finished
/// game stays as it is; otherwise the turn passes and the opponent's turn
/// begins: the AI's at once, Player 1's roll `AUTO_ROLL_DELAY_MS` after the
/// clock's reading.
pub open spec fn turn_forfeited(old: App, new: App) -> bool {
    match old.game_state {
        None => new == (App { forfeit_after: None, dice_roll: None, ..old }),
        Some(gs) => {
            let s = gs@;
            let rolls = old.last_roll@.update(index_of_player(s.current), old.dice_roll);
            if s.phase is GameOver {
                &&& new.last_roll@ == rolls
                &&& new == (App { forfeit_after: None, dice_roll: None, last_roll: new.last_roll, ..old })
            } else if passed(s).current == Player::Player2 {
                exists|m: App, roll: Dice|
                    {
                        &&& #[trigger] ai_turn_started(m, new, roll, false)
                        &&& m == (App {
                            forfeit_after: None,
                            dice_roll: None,
                            last_roll: m.last_roll,
                            game_state: m.game_state,
                            ..old
                        })
                        &&& m.last_roll@ == rolls
                        &&& state_of(m.game_state) == Some(passed(s))
                    }
            } else {
                &&& new.last_roll@ == rolls
                &&& state_of(new.game_state) == Some(passed(s))
                &&& new == (App {
                    forfeit_after: None,
                    dice_roll: None,
                    last_roll: new.last_roll,
                    game_state: new.game_state,
                    pending_roll: true,
                    roll_after: new.roll_after,
                    ..old
                })
                &&& deadline_set(new.roll_after, AUTO_ROLL_DELAY_MS)
            }
        },
    }
}

impl App {
    /// Called when the active animation completes.
    ///
    /// Computes legal moves from the rolled dice; forfeits the turn if none exist.
    pub fn on_animation_done(&mut self)
        requires
            rules_fit_board(*old(self)),
        ensures
            animation_finished(*old(self), *final(self)),
    {
        let roll = match self.dice_roll {
            Some(r) => r,
            None => return,
        };
        let gs = match self.game_state.as_ref() {
            Some(gs) => gs.clone(),
            None => return,
        };
        proof {
            crate::state::lemma_state_shape(&gs);
            crate::state::lemma_rules_in_bounds_moves(gs@, roll.0);
        }
        let idx = gs.current_player.index();
        let ghost t0 = self.turn_log[idx as int]@;
        note_turn_event(&mut self.turn_log[idx], rolled_message(roll.value()));
        let ghost t1 = self.turn_log[idx as int]@;
        assert(self.turn_log@ =~= old(self).turn_log@.update(idx as int, self.turn_log[idx as int]));
        let moves = gs.legal_moves(roll);
        if moves.len() > 0 && self.ai_thinking {
            return;
        }
        let current_player = gs.current_player;
        if moves.len() == 0 {
            self.ai_thinking = false;
            push_log(&mut self.log, Some(current_player), String::from_str("No moves!"));
            note_turn_event(&mut self.turn_log[idx], String::from_str("No moves!"));
            proof {
                lemma_turn_chain(t0, t1, self.turn_log[idx as int]@, seq![rolled_text(roll.0)], seq!["No moves!"@]);
                assert(seq![rolled_text(roll.0)] + seq!["No moves!"@] =~= seq![rolled_text(roll.0), "No moves!"@]);
            }
            assert(self.turn_log@ =~= old(self).turn_log@.update(idx as int, self.turn_log[idx as int]));
            self.forfeit_after = Some(deadline_in(FORFEIT_DISPLAY_MS));
        } else {
            self.legal_moves = moves;
            self.cursor_path_pos = if self.cursor_path_pos < CURSOR_BEAR_OFF {
                self.cursor_path_pos
            } else {
                CURSOR_BEAR_OFF
            };
        }
    }

    /// Fires Player 1's pending automatic roll when it is waiting and its
    /// deadline, if any, has been reached (`deadline_reached` tells whether the
    /// clock has reached `roll_after`).
    pub fn roll_if_due(&mut self, deadline_reached: bool)
        ensures
            auto_roll_waiting(*old(self)) && (old(self).roll_after is None || deadline_reached) ==> exists|roll: Dice|
                #[trigger] auto_rolled(*old(self), *final(self), roll),
            !(auto_roll_waiting(*old(self)) && (old(self).roll_after is None || deadline_reached)) ==> *final(self)
                == *old(self),
    {
        if !self.pending_roll {
            return;
        }
        let is_human_turn = match self.game_state.as_ref() {
            Some(gs) => gs.current_player == Player::Player1,
            None => false,
        };
        if !is_human_turn {
            return;
        }
        if self.animation.is_some() {
            return;
        }
        let ready = match self.roll_after {
            Some(_) => deadline_reached,
            None => true,
        };
        if !ready {
            return;
        }
        let ghost old_app = *self;
        let is_rosette_reroll = self.rosette_reroll;
        self.pending_roll = false;
        self.rosette_reroll = false;
        self.roll_after = None;
        let final_value = Dice::roll(&mut self.rng);
        self.animation = Some(Animation::DiceRoll {
            frames_remaining: DICE_ROLL_ANIMATION_FRAMES,
            final_value,
            display: Dice(0),
        });
        self.dice_roll = Some(final_value);
        push_log(&mut self.log, Some(Player::Player1), rolled_message(final_value.value()));
        // A rosette re-roll extends the turn in progress.
        if !is_rosette_reroll {
            start_turn(&mut self.turn_log[0]);
        }
        assert(auto_rolled(old_app, *self, final_value));
    }

    /// Called every tick. If `pending_roll` is set and the deadline has elapsed,
    /// fires the dice-roll animation automatically.
    pub fn tick_auto_roll(&mut self)
        ensures
            auto_roll_waiting(*old(self)) && old(self).roll_after is None ==> exists|roll: Dice|
                #[trigger] auto_rolled(*old(self), *final(self), roll),
            auto_roll_waiting(*old(self)) && old(self).roll_after is Some ==> *final(self) == *old(self) || exists|
                roll: Dice,
            | #[trigger] auto_rolled(*old(self), *final(self), roll),
            !auto_roll_waiting(*old(self)) ==> *final(self) == *old(self),
    {
        let reached = match self.roll_after {
            Some(t) => deadline_passed(t),
            None => true,
        };
        self.roll_if_due(reached);
    }

    /// Forfeits the current player's turn when a forfeit is scheduled and its
    /// time has come (`deadline_reached` tells whether the clock has reached
    /// `forfeit_after`), and starts the next player's turn.
    pub fn forfeit_if_due(&mut self, deadline_reached: bool)
        requires
            rules_fit_board(*old(self)),
        ensures
            old(self).forfeit_after is Some && deadline_reached ==> turn_forfeited(*old(self), *final(self)),
            !(old(self).forfeit_after is Some && deadline_reached) ==> *final(self) == *old(self),
    {
        if self.forfeit_after.is_none() || !deadline_reached {
            return;
        }
        self.forfeit_after = None;
        if let Some(gs) = self.game_state.as_ref() {
            self.last_roll[gs.current_player.index()] = self.dice_roll;
        }
        self.dice_roll = None;
        let gs = match self.game_state.take() {
            Some(gs) => gs,
            None => return,
        };
        assert(self.last_roll@ =~= old(self).last_roll@.update(index_of_player(gs@.current), old(self).dice_roll));
        match gs.forfeit_turn() {
            Some(new_gs) => {
                let next_player = new_gs.current_player;
                self.game_state = Some(new_gs);
                if next_player == Player::Player2 {
                    let ghost m = *self;
                    self.start_ai_turn();
                    proof {
                        let roll = choose|roll: Dice| #[trigger] ai_turn_started(m, *self, roll, false);
                        assert(ai_turn_started(m, *self, roll, false));
                    }
                } else {
                    self.pending_roll = true;
                    self.roll_after = Some(deadline_in(AUTO_ROLL_DELAY_MS));
                }
            },
            None => {
                self.game_state = Some(gs);
            },
        }
    }

    /// Called every tick. If `forfeit_after` has elapsed, forfeits the current
    /// player's turn and starts the next player's turn.
    pub fn tick_forfeit_delay(&mut self)
        requires
            rules_fit_board(*old(self)),
        ensures
            *final(self) == *old(self) || (old(self).forfeit_after is Some && turn_forfeited(*old(self), *final(self))),
    {
        let reached = match self.forfeit_after {
            Some(t) => deadline_passed(t),
            None => false,
        };
        self.forfeit_if_due(reached);
    }

    /// Rolls the dice for Player 1, starting a dice animation.
    ///
    /// Only allowed during Player1's turn, in `WaitingForRoll` phase, when no
    /// animation is currently running and no roll is already pending.
    pub fn handle_roll_dice(&mut self)
        ensures
            ({
                &&& old(self).game_state matches Some(gs) && gs.current_player == Player::Player1
                    && gs.phase == GamePhase::WaitingForRoll
                &&& old(self).animation is None
                &&& old(self).dice_roll is None
            }) ==> exists|roll: Dice|
                {
                    &&& roll.0 <= 4
                    &&& #[trigger] final(self).dice_roll == Some(roll)
                    &&& *final(self) == (App {
                        animation: Some(
                            Animation::DiceRoll {
                                frames_remaining: DICE_ROLL_ANIMATION_FRAMES,
                                final_value: roll,
                                display: Dice(0),
                            },
                        ),
                        dice_roll: Some(roll),
                        rng: final(self).rng,
                        ..*old(self)
                    })
                },
            !({
                &&& old(self).game_state matches Some(gs) && gs.current_player == Player::Player1
                    && gs.phase == GamePhase::WaitingForRoll
                &&& old(self).animation is None
                &&& old(self).dice_roll is None
            }) ==> *final(self) == *old(self),
    {
        let gs = match &self.game_state {
            Some(gs) => gs,
            None => return,
        };
        if gs.current_player != Player::Player1 {
            return;
        }
        if gs.phase != GamePhase::WaitingForRoll {
            return;
        }
        if self.animation.is_some() {
            return;
        }
        if self.dice_roll.is_some() {
            return;
        }
        let final_value = Dice::roll(&mut self.rng);
        self.animation = Some(Animation::DiceRoll {
            frames_remaining: DICE_ROLL_ANIMATION_FRAMES,
            final_value,
            display: Dice(0),
        });
        self.dice_roll = Some(final_value);
    }
}


/// A move the app can apply: with a game, the move is legal for some roll, its
/// checks hold, and neither the move count nor (for a capture) the capture
/// count is at its maximum.
pub open spec fn move_allowed(app: App, mv: Move) -> bool {
    app.game_state matches Some(gs) ==> {
        &&& legal_for_some_roll(gs@, mv)
        &&& can_apply(gs@, mv)
        &&& app.stats.moves < u32::MAX
        &&& captured_by(gs@, mv) is Some ==> app.stats.captures[index_of_player(mv.piece.player)] < u32::MAX
    }
}

/// The first move of `moves` that starts from `from`.
pub open spec fn first_move_from(moves: Seq<Move>, from: PieceLocation) -> Option<Move>
    decreases moves.len(),
{
    if moves.len() == 0 {
        None
    } else if moves[0].from == from {
        Some(moves[0])
    } else {
        first_move_from(moves.drop_first(), from)
    }
}

/// Where the cursor points on the current player's path: the pool at 0, the
/// path square `k - 1` at `k`; nowhere past the path or without a game.
pub open spec fn cursor_source(app: App) -> Option<PieceLocation> {
    match app.game_state {
        None => None,
        Some(gs) => if app.cursor_path_pos == 0 {
            Some(PieceLocation::Unplayed)
        } else {
            match seq_get(path_of(gs@.rules, gs.current_player), app.cursor_path_pos - 1) {
                Some(x) => Some(PieceLocation::OnBoard(x)),
                None => None,
            }
        },
    }
}

/// The legal move offered for the piece under the cursor.
pub open spec fn move_at_cursor(app: App) -> Option<Move> {
    match cursor_source(app) {
        Some(from) => first_move_from(app.legal_moves@, from),
        None => None,
    }
}

/// The app after moving the cursor one step in `dir`, which happens only
/// while legal moves are offered.
pub open spec fn navigated(a: App, dir: NavDir) -> App {
    if a.legal_moves@.len() == 0 {
        a
    } else {
        App { cursor_path_pos: nav_target(a.cursor_path_pos as int, dir) as usize, ..a }
    }
}

/// Confirming the move under the cursor applies it, unless an animation is
/// running or no legal move starts there.
pub open spec fn move_confirmed(old: App, new: App) -> bool {
    if old.animation is Some {
        new == old
    } else {
        match move_at_cursor(old) {
            Some(mv) => move_applied(old, new, mv),
            None => new == old,
        }
    }
}

impl App {
    /// Whether `apply_move` may be called with `mv` (see `move_allowed`).
    pub fn can_take_move(&self, mv: &Move) -> (r: bool)
        requires
            rules_fit_board(*self),
        ensures
            r == move_allowed(*self, *mv),
    {
        let gs = match self.game_state.as_ref() {
            Some(gs) => gs,
            None => return true,
        };
        if !gs.move_is_legal(mv) {
            return false;
        }
        if !gs.move_is_applicable(mv) {
            return false;
        }
        if self.stats.moves == u32::MAX {
            return false;
        }
        let captures = match mv.to {
            PieceLocation::OnBoard(t) => {
                let mut board = gs.board;
                if let PieceLocation::OnBoard(f) = mv.from {
                    board.set(f, None);
                }
                board.get(t).is_some()
            },
            _ => false,
        };
        !captures || self.stats.captures[mv.piece.player.index()] < u32::MAX
    }

    /// Moves the cursor one step in `dir` on the 2-D board grid.
    /// Only active when legal moves are available (i.e. human player's turn).
    pub fn handle_nav(&mut self, dir: NavDir)
        ensures
            *final(self) == navigated(*old(self), dir),
    {
        if self.legal_moves.len() == 0 {
            return;
        }
        self.cursor_path_pos = nav_cursor(self.cursor_path_pos, dir);
    }

    /// Returns the legal move whose source matches the current cursor position, if any.
    pub fn legal_move_at_cursor(&self) -> (r: Option<&Move>)
        ensures
            match r {
                Some(m) => move_at_cursor(*self) == Some(*m),
                None => move_at_cursor(*self) is None,
            },
    {
        let gs = match self.game_state.as_ref() {
            Some(gs) => gs,
            None => return None,
        };
        let from = if self.cursor_path_pos == 0 {
            PieceLocation::Unplayed
        } else {
            match gs.rules.path_for(gs.current_player).get(self.cursor_path_pos - 1) {
                Some(sq) => PieceLocation::OnBoard(sq),
                None => return None,
            }
        };
        let n = self.legal_moves.len();
        let mut i: usize = 0;
        assert(self.legal_moves@.subrange(0, n as int) =~= self.legal_moves@);
        while i < n
            invariant
                i <= n,
                n == self.legal_moves@.len(),
                cursor_source(*self) == Some(from),
                first_move_from(self.legal_moves@, from) == first_move_from(
                    self.legal_moves@.subrange(i as int, n as int),
                    from,
                ),
            decreases n - i,
        {
            if self.legal_moves[i].from == from {
                assert(self.legal_moves@.subrange(i as int, n as int)[0] == self.legal_moves@[i as int]);
                return Some(&self.legal_moves[i]);
            }
            assert(self.legal_moves@.subrange(i as int, n as int).drop_first() =~= self.legal_moves@.subrange(
                i + 1,
                n as int,
            ));
            i = i + 1;
        }
        None
    }

    /// Confirms the move at the current cursor position, if one exists.
    pub fn handle_confirm_move(&mut self)
        requires
            rules_fit_board(*old(self)),
            old(self).animation is None ==> (move_at_cursor(*old(self)) matches Some(mv) ==> move_allowed(*old(self), mv)),
        ensures
            move_confirmed(*old(self), *final(self)),
    {
        if self.animation.is_some() {
            return;
        }
        let mv = match self.legal_move_at_cursor() {
            Some(m) => *m,
            None => return,
        };
        self.apply_move(mv);
    }

    /// Whether the AI's chosen move should be collected now: the AI is
    /// choosing and the dice animation of its roll has finished.
    pub fn awaiting_ai_move(&self) -> (r: bool)
        ensures
            r == (self.ai_thinking && !(self.animation matches Some(Animation::DiceRoll { .. }))),
    {
        if !self.ai_thinking {
            return false;
        }
        match self.animation {
            Some(Animation::DiceRoll { .. }) => false,
            _ => true,
        }
    }

    /// Takes the move the AI chose: the search is over and the move is applied.
    pub fn accept_ai_move(&mut self, mv: Move)
        requires
            rules_fit_board(*old(self)),
            move_allowed(*old(self), mv),
        ensures
            old(self).game_state is None ==> *final(self) == (App { ai_request: None, ai_thinking: false, ..*old(self) }),
            old(self).game_state is Some ==> move_applied(
                App { ai_request: None, ai_thinking: false, ..*old(self) },
                *final(self),
                mv,
            ),
    {
        self.ai_request = None;
        self.ai_thinking = false;
        self.apply_move(mv);
    }

    /// The AI's search ended without a move: the search is dropped and the
    /// turn skip is logged.
    pub fn ai_move_lost(&mut self)
        ensures
            log_extended(old(self).log@, final(self).log@, Some(Player::Player2), seq!["error — turn skipped"@]),
            *final(self) == (App { ai_request: None, ai_thinking: false, log: final(self).log, ..*old(self) }),
    {
        self.ai_request = None;
        self.ai_thinking = false;
        push_log(&mut self.log, Some(Player::Player2), String::from_str("error — turn skipped"));
    }
}

} // verus!
