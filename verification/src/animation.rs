//! Frame-by-frame state of the cosmetic animations.
use crate::app::{rules_fit_board, App, DiceOffState, Screen, DICE_OFF_ANIMATION_FRAMES};
use crate::board::Square;
use crate::dice::Dice;
use crate::gameplay::{animation_finished, auto_roll_waiting, auto_rolled, turn_forfeited};
use crate::player::Player;
use rand::rngs::StdRng;
use vstd::prelude::*;

verus! {

/// Current animation state.
#[derive(Debug)]
pub enum Animation {
    /// Dice rolling — cycles display until frames_remaining hits 0.
    DiceRoll { frames_remaining: u32, final_value: Dice, display: Dice },
    /// Piece moving square by square along a path.
    PieceMove { remaining: Vec<Square>, frames_per_step: u32, frames_this_step: u32, is_player1: bool },
    /// Captured piece flashing before disappearing.
    CaptureFlash { square: Square, frames_remaining: u32 },
    /// AI is computing — spinner frame.
    AiThinking { frame: u32 },
    /// Animation finished — caller should clear this.
    Done,
}

/// Number of ticks until an animation that runs to an end reaches `Done`:
/// a dice roll or capture flash counts down its frames (at least one tick),
/// a piece walk spends `frames_per_step + 1` ticks per square still to visit
/// plus the current countdown and one final tick.
pub open spec fn ticks_to_finish(a: Animation) -> int {
    match a {
        Animation::DiceRoll { frames_remaining, .. } => if frames_remaining <= 1 {
            1
        } else {
            frames_remaining as int
        },
        Animation::PieceMove { remaining, frames_per_step, frames_this_step, .. } => frames_this_step + 1
            + remaining@.len() * (frames_per_step + 1),
        Animation::CaptureFlash { frames_remaining, .. } => if frames_remaining <= 1 {
            1
        } else {
            frames_remaining as int
        },
        _ => 0,
    }
}

/// Dice rolls, piece walks and capture flashes run to an end; the spinner and
/// `Done` do not.
pub open spec fn runs_to_end(a: Animation) -> bool {
    a is DiceRoll || a is PieceMove || a is CaptureFlash
}

/// An animation that can take one more tick: a rolling display that will
/// cycle again, and the spinner's frame, have room to grow.
pub open spec fn tick_ready(a: Animation) -> bool {
    &&& a matches Animation::DiceRoll { frames_remaining, display, .. } ==> (frames_remaining > 1 ==> display.0 < 255)
    &&& a matches Animation::AiThinking { frame } ==> frame < u32::MAX
}

/// One tick of an animation: dice and flashes count down to `Done`, the
/// rolling display cycles through 0–4, a piece walk waits its frames on each
/// square before moving on and ends after its last square, the spinner cycles
/// through four frames and `Done` stays done.
pub open spec fn animation_ticked(old: Animation, new: Animation) -> bool {
    match old {
        Animation::DiceRoll { frames_remaining: f, final_value: v, display: d } => if f <= 1 {
            new is Done
        } else {
            new matches Animation::DiceRoll { frames_remaining, final_value, display }
                && frames_remaining == f - 1 && final_value == v && display.0 == (d.0 + 1) % 5
        },
        Animation::PieceMove { remaining: rem, frames_per_step: fps, frames_this_step: fts, is_player1: p1 } => {
            if fts > 0 {
                new matches Animation::PieceMove { remaining, frames_per_step, frames_this_step, is_player1 }
                    && remaining@ == rem@ && frames_per_step == fps && frames_this_step == fts - 1
                    && is_player1 == p1
            } else if rem@.len() == 0 {
                new is Done
            } else {
                new matches Animation::PieceMove { remaining, frames_per_step, frames_this_step, is_player1 }
                    && remaining@ == rem@.drop_first() && frames_per_step == fps && frames_this_step == fps
                    && is_player1 == p1
            }
        },
        Animation::CaptureFlash { square: s, frames_remaining: f } => if f <= 1 {
            new is Done
        } else {
            new == Animation::CaptureFlash { square: s, frames_remaining: (f - 1) as u32 }
        },
        Animation::AiThinking { frame: f } => new == Animation::AiThinking { frame: ((f + 1) % 4) as u32 },
        Animation::Done => new is Done,
    }
}

/// Tick one animation frame. Transitions to `Done` when complete.
pub fn tick_animation(anim: &mut Animation)
    requires
        tick_ready(*old(anim)),
    ensures
        animation_ticked(*old(anim), *final(anim)),
        runs_to_end(*old(anim)) ==> if ticks_to_finish(*old(anim)) == 1 {
            *final(anim) is Done
        } else {
            runs_to_end(*final(anim)) && ticks_to_finish(*final(anim)) == ticks_to_finish(*old(anim)) - 1
        },
{
    match anim {
        Animation::DiceRoll { frames_remaining, final_value, display } => {
            if *frames_remaining <= 1 {
                *anim = Animation::Done;
            } else {
                *frames_remaining = *frames_remaining - 1;
                display.0 = (display.0 + 1) % 5;
            }
        },
        Animation::PieceMove { remaining, frames_per_step, frames_this_step, .. } => {
            if *frames_this_step > 0 {
                *frames_this_step = *frames_this_step - 1;
            } else if remaining.len() == 0 {
                *anim = Animation::Done;
            } else {
                let ghost before = remaining@;
                remaining.remove(0);
                assert(remaining@ =~= before.drop_first());
                *frames_this_step = *frames_per_step;
                // The outer `else if remaining.is_empty()` branch handles Done
                // after frames_this_step counts down, ensuring the final square is rendered.
                proof {
                    assert((before.len() - 1) * (*frames_per_step + 1) + (*frames_per_step + 1) == before.len()
                        * (*frames_per_step + 1)) by (nonlinear_arith);
                }
            }
        },
        Animation::CaptureFlash { frames_remaining, .. } => {
            if *frames_remaining <= 1 {
                *anim = Animation::Done;
            } else {
                *frames_remaining = *frames_remaining - 1;
            }
        },
        Animation::AiThinking { frame } => {
            *frame = (*frame + 1) % 4;
        },
        Animation::Done => {},
    }
}


/// Both animations are of the same kind among those that run to an end.
pub open spec fn same_kind(a: Animation, b: Animation) -> bool {
    ||| a is DiceRoll && b is DiceRoll
    ||| a is PieceMove && b is PieceMove
    ||| a is CaptureFlash && b is CaptureFlash
}

/// The animation `j` ticks into `run` is followed by its next tick.
pub open spec fn ticked_at(run: Seq<Animation>, j: int) -> bool {
    animation_ticked(run[j], run[j + 1])
}

/// `run` is a sequence of animations, each one tick after the one before.
pub open spec fn ticked_run(run: Seq<Animation>) -> bool {
    forall|j: int| 0 <= j < run.len() - 1 ==> #[trigger] ticked_at(run, j)
}

/// An animation that runs to an end has at least one tick to go.
proof fn lemma_ticks_positive(a: Animation)
    requires
        runs_to_end(a),
    ensures
        ticks_to_finish(a) >= 1,
{
    if let Animation::PieceMove { remaining, frames_per_step, .. } = a {
        let n = remaining@.len() as int;
        let f = frames_per_step as int;
        assert(n * (f + 1) >= 0) by (nonlinear_arith)
            requires
                n >= 0,
                f >= 0,
        ;
    }
}

/// One tick of an animation that runs to an end either finishes it, when one
/// tick was left, or keeps its kind with one tick less to go.
proof fn lemma_tick_step(a: Animation, b: Animation)
    requires
        runs_to_end(a),
        animation_ticked(a, b),
    ensures
        ticks_to_finish(a) == 1 ==> b is Done,
        ticks_to_finish(a) > 1 ==> runs_to_end(b) && same_kind(a, b) && ticks_to_finish(b) == ticks_to_finish(a) - 1,
{
    lemma_ticks_positive(a);
    match a {
        Animation::PieceMove { remaining: rem, frames_per_step: fps, frames_this_step: fts, .. } => {
            let n = rem@.len() as int;
            let f = fps as int;
            assert(n * (f + 1) >= 0) by (nonlinear_arith)
                requires
                    n >= 0,
                    f >= 0,
            ;
            if fts > 0 {
                if let Animation::PieceMove { remaining, frames_per_step, frames_this_step, .. } = b {
                    assert(remaining@.len() == n);
                    assert(ticks_to_finish(b) == frames_this_step + 1 + n * (f + 1));
                }
            } else if n > 0 {
                assert((n - 1) * (f + 1) + (f + 1) == n * (f + 1)) by (nonlinear_arith);
                if let Animation::PieceMove { remaining, frames_per_step, frames_this_step, .. } = b {
                    assert(remaining@.len() == n - 1);
                    assert(ticks_to_finish(b) == f + 1 + (n - 1) * (f + 1));
                }
            } else {
                assert(n * (f + 1) == 0) by (nonlinear_arith)
                    requires
                        n == 0,
                ;
            }
        },
        _ => {},
    }
}

/// What holds of the animation `j` ticks into a run.
proof fn lemma_run_at(run: Seq<Animation>, j: int)
    requires
        ticked_run(run),
        0 <= j < run.len(),
    ensures
        runs_to_end(run[0]) && j < ticks_to_finish(run[0]) ==> runs_to_end(run[j]) && same_kind(run[0], run[j])
            && ticks_to_finish(run[j]) == ticks_to_finish(run[0]) - j,
        runs_to_end(run[0]) && j >= ticks_to_finish(run[0]) ==> run[j] is Done,
        run[0] is AiThinking ==> run[j] is AiThinking,
        run[0] is Done ==> run[j] is Done,
    decreases j,
{
    if runs_to_end(run[0]) {
        lemma_ticks_positive(run[0]);
    }
    if j > 0 {
        lemma_run_at(run, j - 1);
        assert(ticked_at(run, j - 1));
        assert(animation_ticked(run[j - 1], run[j]));
        if runs_to_end(run[0]) && j - 1 < ticks_to_finish(run[0]) {
            lemma_tick_step(run[j - 1], run[j]);
        }
    }
}

/// Ticking an animation over and over: a dice roll or capture flash with `n`
/// frames left finishes after exactly `max(n, 1)` ticks, a piece walk after
/// exactly `frames_this_step + remaining.len() * (frames_per_step + 1) + 1`
/// ticks (`ticks_to_finish`), each keeping its kind until then and staying
/// `Done` afterwards; the spinner never finishes and `Done` stays done.
pub proof fn lemma_animation_runs_to_done(run: Seq<Animation>)
    requires
        ticked_run(run),
        run.len() > 0,
    ensures
        runs_to_end(run[0]) ==> forall|j: int|
            0 <= j < run.len() && j < ticks_to_finish(run[0]) ==> same_kind(run[0], #[trigger] run[j]),
        runs_to_end(run[0]) ==> forall|j: int|
            0 <= j < run.len() && j >= ticks_to_finish(run[0]) ==> #[trigger] run[j] is Done,
        run[0] is AiThinking ==> forall|j: int| 0 <= j < run.len() ==> #[trigger] run[j] is AiThinking,
        run[0] is Done ==> forall|j: int| 0 <= j < run.len() ==> #[trigger] run[j] is Done,
        run[0] matches Animation::DiceRoll { frames_remaining, .. } ==> ticks_to_finish(run[0]) == if frames_remaining
            <= 1 {
            1
        } else {
            frames_remaining as int
        },
        run[0] matches Animation::CaptureFlash { frames_remaining, .. } ==> ticks_to_finish(run[0]) == if frames_remaining
            <= 1 {
            1
        } else {
            frames_remaining as int
        },
        run[0] matches Animation::PieceMove { remaining, frames_per_step, frames_this_step, .. } ==> ticks_to_finish(
            run[0],
        ) == frames_this_step + remaining@.len() * (frames_per_step + 1) + 1,
{
    assert forall|j: int| 0 <= j < run.len() implies {
        &&& runs_to_end(run[0]) && j < ticks_to_finish(run[0]) ==> same_kind(run[0], #[trigger] run[j])
        &&& runs_to_end(run[0]) && j >= ticks_to_finish(run[0]) ==> run[j] is Done
        &&& run[0] is AiThinking ==> run[j] is AiThinking
        &&& run[0] is Done ==> run[j] is Done
    } by {
        lemma_run_at(run, j);
    }
}

/// One tick of a die of the dice-off: while it still rolls it counts down,
/// cycling its display and settling on its final value at the end.
pub open spec fn die_counted_down(frames: u32, display: Dice, fin: Dice) -> (u32, Dice) {
    if frames > 0 {
        let f = (frames - 1) as u32;
        (f, if f == 0 { fin } else { Dice(((display.0 + 1) % 5) as u8) })
    } else {
        (frames, display)
    }
}

/// A dice-off that can take one more tick: rolling displays have room to grow.
pub open spec fn dice_off_ready(d: DiceOffState) -> bool {
    &&& d.p1_frames > 0 ==> d.p1_display.0 < 255
    &&& d.p2_frames > 0 ==> d.p2_display.0 < 255
}

/// One tick of the dice-off. Both dice count down; once both have settled
/// with no winner yet, the higher final value wins, and a tie starts both dice
/// rolling again with fresh final values.
pub open spec fn dice_off_advanced(old: DiceOffState, new: DiceOffState) -> bool {
    let (f1, d1) = die_counted_down(old.p1_frames, old.p1_display, old.p1_final);
    let (f2, d2) = die_counted_down(old.p2_frames, old.p2_display, old.p2_final);
    let counted = DiceOffState { p1_frames: f1, p1_display: d1, p2_frames: f2, p2_display: d2, ..old };
    if f1 == 0 && f2 == 0 && old.winner is None {
        if old.p1_final.0 > old.p2_final.0 {
            new == DiceOffState { winner: Some(Player::Player1), ..counted }
        } else if old.p1_final.0 < old.p2_final.0 {
            new == DiceOffState { winner: Some(Player::Player2), ..counted }
        } else {
            &&& new.p1_final.0 <= 4
            &&& new.p2_final.0 <= 4
            &&& new == DiceOffState {
                p1_frames: DICE_OFF_ANIMATION_FRAMES,
                p2_frames: DICE_OFF_ANIMATION_FRAMES,
                p1_final: new.p1_final,
                p2_final: new.p2_final,
                p1_display: Dice(0),
                p2_display: Dice(0),
                ..counted
            }
        }
    } else {
        new == counted
    }
}

/// Advances the dice-off by one tick, rolling again on a tie.
pub fn advance_dice_off(state: &mut DiceOffState, rng: &mut StdRng)
    requires
        dice_off_ready(*old(state)),
    ensures
        dice_off_advanced(*old(state), *final(state)),
{
    if state.p1_frames > 0 {
        state.p1_frames = state.p1_frames - 1;
        state.p1_display.0 = (state.p1_display.0 + 1) % 5;
        if state.p1_frames == 0 {
            state.p1_display = state.p1_final;
        }
    }
    if state.p2_frames > 0 {
        state.p2_frames = state.p2_frames - 1;
        state.p2_display.0 = (state.p2_display.0 + 1) % 5;
        if state.p2_frames == 0 {
            state.p2_display = state.p2_final;
        }
    }
    // Determine winner once both animations complete
    if state.p1_frames == 0 && state.p2_frames == 0 && state.winner.is_none() {
        state.winner = if state.p1_final.0 > state.p2_final.0 {
            Some(Player::Player1)
        } else if state.p1_final.0 < state.p2_final.0 {
            Some(Player::Player2)
        } else {
            // tie — schedule re-roll below
            None
        };
        // On a tie, reset and re-roll after the UI has had a chance to show "Tie"
        if state.winner.is_none() {
            state.p1_frames = DICE_OFF_ANIMATION_FRAMES;
            state.p2_frames = DICE_OFF_ANIMATION_FRAMES;
            state.p1_final = Dice::roll(rng);
            state.p2_final = Dice::roll(rng);
            state.p1_display = Dice(0);
            state.p2_display = Dice(0);
        }
    }
}

/// The running animation of the app ticks; a finished one is cleared and
/// what its end brings about follows.
pub open spec fn animation_advanced(old: App, new: App) -> bool {
    match old.animation {
        None => new == old,
        Some(a) => exists|a2: Animation|
            #[trigger] animation_ticked(a, a2) && if a2 is Done {
                animation_finished(App { animation: None, ..old }, new)
            } else {
                new == (App { animation: Some(a2), ..old })
            },
    }
}

/// What can take one more frame: the running animation, the dice-off, and
/// the AI spinner while the AI is choosing.
pub open spec fn frame_ready(app: App) -> bool {
    &&& app.animation matches Some(a) ==> tick_ready(a)
    &&& app.screen matches Screen::DiceOff { state } ==> dice_off_ready(state)
    &&& app.ai_thinking ==> app.ai_spinner_frame < u32::MAX
}

/// The frame after `c`; the counter wraps around to 0.
pub open spec fn next_frame(c: u32) -> u32 {
    if c == u32::MAX {
        0
    } else {
        (c + 1) as u32
    }
}

/// One frame of the app: the frame counter advances (wrapping), the running
/// animation ticks, the dice-off ticks and, while the AI is choosing, its
/// spinner turns.
pub open spec fn frame_advanced(old: App, new: App) -> bool {
    let counted = App { frame_count: next_frame(old.frame_count), ..old };
    exists|m: App|
        #[trigger] animation_advanced(counted, m) && {
            &&& new == (App {
                screen: new.screen,
                rng: new.rng,
                ai_spinner_frame: if m.ai_thinking {
                    ((m.ai_spinner_frame + 1) % 4) as u32
                } else {
                    m.ai_spinner_frame
                },
                ..m
            })
            &&& match m.screen {
                Screen::DiceOff { state } => new.screen matches Screen::DiceOff { state: s2 } && dice_off_advanced(
                    state,
                    s2,
                ),
                _ => new.screen == m.screen && new.rng == m.rng,
            }
        }
}

impl App {
    /// Ticks the running animation; when it finishes it is cleared and
    /// `on_animation_done` follows.
    pub fn advance_animation(&mut self)
        requires
            rules_fit_board(*old(self)),
            old(self).animation matches Some(a) ==> tick_ready(a),
        ensures
            animation_advanced(*old(self), *final(self)),
    {
        let mut anim = match self.animation.take() {
            Some(a) => a,
            None => return,
        };
        tick_animation(&mut anim);
        match anim {
            Animation::Done => {
                self.on_animation_done();
            },
            _ => {
                self.animation = Some(anim);
            },
        }
    }
}

/// Advances the frame: the frame counter, the running animation, the dice-off
/// and the AI spinner. The caller then collects the AI's move, if one is
/// awaited, and runs `tick_timers`.
pub fn tick_frame(app: &mut App)
    requires
        rules_fit_board(*old(app)),
        frame_ready(*old(app)),
    ensures
        frame_advanced(*old(app), *final(app)),
{
    app.frame_count = app.frame_count.wrapping_add(1);
    assert(app.frame_count == next_frame(old(app).frame_count));
    app.advance_animation();
    let ghost m = *app;
    // Advance DiceOff screen animation
    if let Screen::DiceOff { state } = &mut app.screen {
        advance_dice_off(state, &mut app.rng);
    }
    // AI spinner
    if app.ai_thinking {
        app.ai_spinner_frame = (app.ai_spinner_frame + 1) % 4;
    }
    assert(animation_advanced(App { frame_count: next_frame(old(app).frame_count), ..*old(app) }, m));
}

/// A tick of Player 1's automatic roll: when it is waiting, it fires at once
/// without a deadline and may fire once the clock has reached its deadline;
/// otherwise nothing changes.
pub open spec fn auto_roll_ticked(old: App, new: App) -> bool {
    if auto_roll_waiting(old) {
        if old.roll_after is None {
            exists|roll: Dice| #[trigger] auto_rolled(old, new, roll)
        } else {
            new == old || exists|roll: Dice| #[trigger] auto_rolled(old, new, roll)
        }
    } else {
        new == old
    }
}

/// A tick of the scheduled forfeit: nothing changes, or the forfeit was due
/// and the turn is forfeited.
pub open spec fn forfeit_ticked(old: App, new: App) -> bool {
    new == old || (old.forfeit_after is Some && turn_forfeited(old, new))
}

/// The clock-driven steps of a tick: Player 1's automatic roll, then the
/// forfeit of a turn without moves.
pub fn tick_timers(app: &mut App)
    requires
        rules_fit_board(*old(app)),
    ensures
        exists|m: App| #[trigger] auto_roll_ticked(*old(app), m) && forfeit_ticked(m, *final(app)),
{
    app.tick_auto_roll();
    let ghost m = *app;
    app.tick_forfeit_delay();
    assert(auto_roll_ticked(*old(app), m));
}

} // verus!
