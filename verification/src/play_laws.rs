//! Properties of the app that span several operations: moves keep the game
//! invariant, the moves offered can be applied, menus and scrolling undo each
//! other, the turn history stays bounded, the dice-off is won by the higher
//! roll, a move's log entries belong to its player, the arrow keys act as
//! their vi counterparts and only a Quit entry quits.
use crate::animation::{dice_off_advanced, die_counted_down};
use crate::app::{
    ai_turn_started, backed, confirmed, game_begun, rolled_text, GameStats, menu_moved_down, menu_moved_up, scrolled_down, scrolled_up, state_of,
    turn_started, App, DiceOffState, Screen, DICE_OFF_ANIMATION_FRAMES, TURN_HISTORY,
};
use crate::dice::Dice;
use crate::gameplay::{
    move_allowed, move_animation_set, move_applied, move_recorded, move_texts, rerolls, turn_handed_over,
};
use crate::input::{key_action, Action, Key};
use crate::laws::{game_invariant, lemma_legal_move_applies, lemma_legal_move_keeps_invariant};
use crate::player::Player;
use crate::state::{
    applied, captured_by, ends_game, lands_on_rosette, lemma_rules_in_bounds_moves, legal_for_some_roll, legal_moves_of,
    rules_in_bounds, GamePhase, Move,
};
use vstd::prelude::*;

verus! {

/// Applying a legal move in the app leaves the game in the state the rules
/// give, which keeps the game invariant, whatever happens next in the turn
/// flow (game over, an extra roll, or the AI's turn starting).
pub proof fn lemma_app_move_keeps_invariant(old: App, new: App, roll: u8, mv: Move)
    requires
        old.game_state is Some,
        game_invariant(old.game_state.unwrap()@),
        old.game_state.unwrap()@.phase == GamePhase::WaitingForRoll,
        rules_in_bounds(old.game_state.unwrap()@.rules),
        legal_moves_of(old.game_state.unwrap()@, roll as int).contains(mv),
        move_applied(old, new, mv),
    ensures
        state_of(new.game_state) == Some(applied(old.game_state.unwrap()@, mv)),
        game_invariant(applied(old.game_state.unwrap()@, mv)),
{
    let s = old.game_state.unwrap()@;
    lemma_rules_in_bounds_moves(s, roll);
    lemma_legal_move_keeps_invariant(s, roll, mv);
    let m = choose|m: App|
        #[trigger] move_recorded(old, m, mv) && if ends_game(s, mv) {
            &&& new == (App {
                screen: Screen::GameOver,
                stats: crate::app::GameStats { end_time: new.stats.end_time, ..m.stats },
                ..m
            })
            &&& new.stats.end_time is Some
        } else {
            exists|a: App|
                #[trigger] move_animation_set(m.animation, a.animation, s.rules, mv, captured_by(s, mv) is Some)
                    && a == (App { animation: a.animation, ..m })
                    && crate::gameplay::turn_handed_over(a, new, applied(s, mv).current, crate::gameplay::rerolls(s, mv))
        };
    if !ends_game(s, mv) {
        let a = choose|a: App|
            #[trigger] move_animation_set(m.animation, a.animation, s.rules, mv, captured_by(s, mv) is Some)
                && a == (App { animation: a.animation, ..m })
                && crate::gameplay::turn_handed_over(a, new, applied(s, mv).current, crate::gameplay::rerolls(s, mv));
        if applied(s, mv).current == Player::Player2 {
            let r = choose|r: Dice| #[trigger] ai_turn_started(a, new, r, crate::gameplay::rerolls(s, mv));
            assert(ai_turn_started(a, new, r, crate::gameplay::rerolls(s, mv)));
        }
    }
}

/// When the moves offered are the legal moves of a game that keeps the
/// invariant, every one of them can be applied by the app (while the move and
/// capture counters have room).
pub proof fn lemma_offered_moves_allowed(app: App, roll: u8)
    requires
        roll <= 4,
        app.game_state is Some,
        game_invariant(app.game_state.unwrap()@),
        rules_in_bounds(app.game_state.unwrap()@.rules),
        app.legal_moves@ == legal_moves_of(app.game_state.unwrap()@, roll as int),
        app.stats.moves < u32::MAX,
        app.stats.captures[0] < u32::MAX,
        app.stats.captures[1] < u32::MAX,
    ensures
        forall|i: int| 0 <= i < app.legal_moves@.len() ==> move_allowed(app, #[trigger] app.legal_moves@[i]),
{
    let s = app.game_state.unwrap()@;
    lemma_rules_in_bounds_moves(s, roll);
    assert forall|i: int| 0 <= i < app.legal_moves@.len() implies move_allowed(app, #[trigger] app.legal_moves@[i]) by {
        assert(legal_moves_of(s, roll as int).contains(app.legal_moves@[i]));
        lemma_legal_move_applies(s, roll, app.legal_moves@[i]);
        assert(legal_for_some_roll(s, app.legal_moves@[i]));
    }
}

/// Scrolling the help screen down and then up again returns to where it was,
/// unless it could not scroll further down.
pub proof fn lemma_scroll_round_trip(a: App)
    requires
        a.help_scroll < u16::MAX,
    ensures
        scrolled_up(scrolled_down(a)) == a,
{
}

/// The selection of the current menu.
pub open spec fn menu_selection(a: App) -> Option<usize> {
    match a.screen {
        Screen::Title => Some(a.title_selected),
        Screen::DifficultySelect { selected } => Some(selected),
        Screen::PauseMenu { selected } => Some(selected),
        _ => None,
    }
}

/// In a menu, moving the selection down and back up returns to the same
/// entry unless it was the last one; moving it either way keeps it among the
/// three entries; outside the menus nothing moves.
pub proof fn lemma_menu_round_trip(a: App)
    ensures
        menu_selection(a) matches Some(sel) && sel < 2 ==> menu_moved_up(menu_moved_down(a)) == a,
        menu_selection(a) matches Some(sel) && sel <= 2 ==> {
            &&& menu_selection(menu_moved_up(a)) matches Some(up) && up <= 2
            &&& menu_selection(menu_moved_down(a)) matches Some(down) && down <= 2
        },
        menu_selection(a) is None ==> menu_moved_up(a) == a && menu_moved_down(a) == a,
{
}

/// Starting a new game from the title screen and going back returns to the
/// title screen with nothing else changed.
pub proof fn lemma_back_cancels_new_game(a: App)
    requires
        a.screen is Title,
    ensures
        backed(App { screen: Screen::DifficultySelect { selected: 0 }, ..a }) == a,
{
}

/// Starting a turn keeps at most `TURN_HISTORY` past turns in the history,
/// besides the new one in progress.
pub proof fn lemma_turn_history_bounded(old: Seq<Vec<String>>, new: Seq<Vec<String>>)
    requires
        turn_started(old, new),
        old.len() <= TURN_HISTORY + 1,
    ensures
        1 <= new.len() <= TURN_HISTORY + 1,
{
}

/// The dice-off is decided only once both dice have settled, in favour of the
/// higher roll; settled equal rolls start both dice rolling again.
pub proof fn lemma_dice_off_winner(old: DiceOffState, new: DiceOffState)
    requires
        dice_off_advanced(old, new),
        old.winner is None,
    ensures
        new.winner == Some(Player::Player1) ==> old.p1_final.0 > old.p2_final.0,
        new.winner == Some(Player::Player2) ==> old.p1_final.0 < old.p2_final.0,
        new.winner is Some ==> new.p1_frames == 0 && new.p2_frames == 0 && new.p1_final == old.p1_final
            && new.p2_final == old.p2_final,
        ({
            let (f1, d1) = die_counted_down(old.p1_frames, old.p1_display, old.p1_final);
            let (f2, d2) = die_counted_down(old.p2_frames, old.p2_display, old.p2_final);
            f1 == 0 && f2 == 0 && old.p1_final.0 == old.p2_final.0
        }) ==> new.winner is None && new.p1_frames == DICE_OFF_ANIMATION_FRAMES
            && new.p2_frames == DICE_OFF_ANIMATION_FRAMES,
{
}

/// The log entries from position `k` on are at most one roll of the dice by
/// the computer, and those from `start` up to `k` (at least one) are `mover`'s.
pub open spec fn logged_then_rolled(start: int, new: App, mover: Player, k: int) -> bool {
    &&& start < k <= new.log@.len() <= k + 1
    &&& forall|j: int| start <= j < k ==> (#[trigger] new.log@[j]).player == Some(mover)
    &&& k < new.log@.len() ==> new.log@[k].player == Some(Player::Player2) && new.dice_roll is Some
        && new.log@[k].text@ == rolled_text(new.dice_roll.unwrap().0)
}

/// Every log entry that a move records is attributed to the player who made
/// it (the player to move before it); the only other entry a move can add is
/// the computer's next roll, logged after them.
pub proof fn lemma_move_log_attribution(old: App, new: App, mv: Move)
    requires
        old.game_state is Some,
        move_allowed(old, mv),
        move_applied(old, new, mv),
    ensures
        exists|k: int| #[trigger]
            logged_then_rolled(old.log@.len() as int, new, old.game_state.unwrap().current_player, k),
{
    let s = old.game_state.unwrap()@;
    let mover = old.game_state.unwrap().current_player;
    let m = choose|m: App| #[trigger] move_recorded(old, m, mv) && if ends_game(s, mv) {
        &&& new == (App {
            screen: Screen::GameOver,
            stats: GameStats { end_time: new.stats.end_time, ..m.stats },
            ..m
        })
        &&& new.stats.end_time is Some
    } else {
        exists|a: App|
            #[trigger] move_animation_set(m.animation, a.animation, s.rules, mv, captured_by(s, mv) is Some)
                && a == (App { animation: a.animation, ..m })
                && turn_handed_over(a, new, applied(s, mv).current, rerolls(s, mv))
    };
    let k = m.log@.len() as int;
    let texts = move_texts(s.rules, mv, captured_by(s, mv) is Some, lands_on_rosette(s, mv));
    assert(texts.len() >= 1);
    assert(forall|j: int| old.log@.len() <= j < k ==> (#[trigger] m.log@[j]).player == Some(mover));
    if ends_game(s, mv) {
        assert(new.log == m.log);
        assert(logged_then_rolled(old.log@.len() as int, new, mover, k));
    } else {
        let a = choose|a: App|
            #[trigger] move_animation_set(m.animation, a.animation, s.rules, mv, captured_by(s, mv) is Some)
                && a == (App { animation: a.animation, ..m })
                && turn_handed_over(a, new, applied(s, mv).current, rerolls(s, mv));
        assert(a.log == m.log);
        if applied(s, mv).current == Player::Player2 {
            let roll = choose|roll: Dice| #[trigger] ai_turn_started(a, new, roll, rerolls(s, mv));
            assert(new.log@[k].player == Some(Player::Player2));
            assert(forall|j: int| old.log@.len() <= j < k ==> (#[trigger] new.log@[j]) == m.log@[j]);
            assert(logged_then_rolled(old.log@.len() as int, new, mover, k));
        } else {
            assert(new.log == a.log);
            assert(logged_then_rolled(old.log@.len() as int, new, mover, k));
        }
    }
}

/// On every screen the arrow keys act as their vi counterparts (Down as `j`,
/// Up as `k`); on the game screen Down and Right select the next piece and Up
/// and Left the previous one, and in the menus and the help screen Down and
/// Up move the selection or scroll.
pub proof fn lemma_arrow_keys(screen: Screen)
    ensures
        key_action(Key::Down, screen) == key_action(Key::Char('j'), screen),
        key_action(Key::Up, screen) == key_action(Key::Char('k'), screen),
        screen is Game ==> key_action(Key::Down, screen) == Some(Action::SelectNext) && key_action(Key::Right, screen)
            == Some(Action::SelectNext) && key_action(Key::Up, screen) == Some(Action::SelectPrev) && key_action(
            Key::Left,
            screen,
        ) == Some(Action::SelectPrev) && key_action(Key::Char('h'), screen) == Some(Action::SelectPrev),
        screen is Title || screen is DifficultySelect || screen is PauseMenu ==> key_action(Key::Down, screen) == Some(
            Action::MenuDown,
        ) && key_action(Key::Up, screen) == Some(Action::MenuUp),
        screen is Help ==> key_action(Key::Down, screen) == Some(Action::ScrollDown) && key_action(Key::Up, screen)
            == Some(Action::ScrollUp),
{
}

/// The highlighted menu entry is Quit: the third entry of the title menu or
/// of the pause menu.
pub open spec fn quit_selected(a: App) -> bool {
    ||| a.screen is Title && a.title_selected >= 2
    ||| a.screen is PauseMenu && a.screen->PauseMenu_selected >= 2
}

/// Confirming a menu entry quits exactly when the entry is Quit (the third
/// entry of the title menu or of the pause menu), and then nothing but the
/// quit flag changes; any other confirmation leaves the quit flag as it was.
pub proof fn lemma_confirm_quits_only_on_quit(old: App, new: App)
    requires
        confirmed(old, new),
    ensures
        quit_selected(old) ==> new.should_quit && new == (App { should_quit: true, ..old }),
        !quit_selected(old) ==> new.should_quit == old.should_quit,
        old.screen == (Screen::PauseMenu { selected: 0 }) ==> new.screen == Screen::Game,
{
    if let Screen::DiceOff { state } = old.screen {
        if let Some(first) = state.winner {
            if !state.acknowledged {
                assert(game_begun(old, new, first));
            }
        }
    }
}

} // verus!
