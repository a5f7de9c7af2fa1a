//! The application state of the terminal game and the decisions it makes on
//! each key press and clock tick. The caller performs what needs the outside
//! world: it draws the screen, reads keys, and runs the AI search requested in
//! `ai_request`, handing the chosen move back.
use crate::animation::Animation;
use crate::dice::Dice;
use crate::player::{index_of_player, Player};
use crate::state::{legal_moves_of, path_of, rules_in_bounds, GameRules, GameState, Move};
use crate::text::{decimal, decimal_between};
use rand::rngs::StdRng;
use rand::SeedableRng;
use std::time::Instant;
use vstd::prelude::*;

verus! {

/// A point in time of `std::time::Instant`.
#[verifier::external_type_specification]
#[verifier::external_body]
pub struct ExInstant(Instant);

/// Reads the monotonic clock (`Instant::now`). Nothing is stated of the result.
#[verifier::external_body]
pub(crate) fn clock_now() -> Instant {
    Instant::now()
}

/// What `Instant::checked_add` gives for `t` plus `ms` milliseconds: a
/// function of its arguments alone.
pub uninterp spec fn instant_plus_ms(t: Instant, ms: u64) -> Option<Instant>;

/// The instant `ms` milliseconds after `t` (`Instant::checked_add` with
/// `Duration::from_millis`), or `None` when it cannot be represented; named
/// `instant_plus_ms`.
#[verifier::external_body]
fn instant_after(t: Instant, ms: u64) -> (r: Option<Instant>)
    ensures
        r == instant_plus_ms(t, ms),
{
    t.checked_add(std::time::Duration::from_millis(ms))
}

/// Whether `now` is at or past `deadline` (`Instant`'s `>=`). Nothing is stated
/// of the result: instants are opaque.
#[verifier::external_body]
fn instant_reached(now: Instant, deadline: Instant) -> bool {
    now >= deadline
}

/// The error type of `rand` (`rand::Error`).
#[verifier::external_type_specification]
#[verifier::external_body]
pub struct ExRandError(rand::Error);

/// A generator seeded from the operating system's randomness
/// (`SeedableRng::from_rng` with `OsRng`), or the error that `OsRng` reports.
/// Nothing is stated of the generator: it is random.
#[verifier::external_body]
fn os_seeded_rng() -> Result<StdRng, rand::Error> {
    StdRng::from_rng(rand::rngs::OsRng)
}

/// A generator seeded with `seed` (`SeedableRng::seed_from_u64`). Nothing is
/// stated of the generator: its state is opaque.
#[verifier::external_body]
fn rng_from_seed(seed: u64) -> StdRng {
    StdRng::seed_from_u64(seed)
}

/// The seed of the dice when the operating system offers no randomness.
pub const FALLBACK_SEED: u64 = 0;

/// A fresh dice generator: seeded from the operating system, or with
/// `FALLBACK_SEED` when the system offers no randomness.
fn fresh_rng() -> StdRng {
    match os_seeded_rng() {
        Ok(rng) => rng,
        Err(_) => rng_from_seed(FALLBACK_SEED),
    }
}

/// The instant `ms` milliseconds after `now`, or `now` itself when that
/// cannot be represented.
pub open spec fn deadline_after(now: Instant, ms: u64) -> Instant {
    match instant_plus_ms(now, ms) {
        Some(t) => t,
        None => now,
    }
}

/// `d` is a deadline `ms` milliseconds after some reading of the clock.
pub open spec fn deadline_set(d: Option<Instant>, ms: u64) -> bool {
    exists|now: Instant| d == Some(#[trigger] deadline_after(now, ms))
}

/// The instant `ms` milliseconds from now (now itself if that overflows).
pub(crate) fn deadline_in(ms: u64) -> (r: Instant)
    ensures
        deadline_set(Some(r), ms),
{
    let now = clock_now();
    let r = match instant_after(now, ms) {
        Some(t) => t,
        None => now,
    };
    assert(Some(r) == Some(deadline_after(now, ms)));
    r
}

/// Whether the clock has reached `deadline`.
pub(crate) fn deadline_passed(deadline: Instant) -> bool {
    let now = clock_now();
    instant_reached(now, deadline)
}

/// A single entry in the game event log.
#[derive(Debug, PartialEq)]
pub struct LogEntry {
    /// Which player caused this event. `None` for system messages.
    pub player: Option<Player>,
    pub text: String,
}

impl Clone for LogEntry {
    fn clone(&self) -> (r: Self)
        ensures
            r == *self,
    {
        LogEntry { player: self.player, text: self.text.clone() }
    }
}

/// State for the first-player dice-off animation.
#[derive(Debug)]
pub struct DiceOffState {
    pub p1_frames: u32,
    pub p2_frames: u32,
    pub p1_final: Dice,
    pub p2_final: Dice,
    pub p1_display: Dice,
    pub p2_display: Dice,
    pub winner: Option<Player>,
    pub acknowledged: bool,
}

/// Which screen is currently active.
#[derive(Debug)]
pub enum Screen {
    Title,
    DifficultySelect { selected: usize },
    DiceOff { state: DiceOffState },
    Game,
    /// Pause overlay shown when pressing Esc during gameplay.
    /// `selected`: 0 = Resume, 1 = How to Play, 2 = Quit
    PauseMenu { selected: usize },
    /// Rules + key-binding help screen.
    /// `from_game`: true when reached via the pause menu; Back returns to PauseMenu.
    /// false when reached from the title screen; Back returns to Title.
    Help { from_game: bool },
    GameOver,
}

/// Number of animation ticks for the dice-off countdown (≈1.5 s at 12 fps).
pub const DICE_OFF_ANIMATION_FRAMES: u32 = 18;

/// Number of animation ticks for a dice roll animation (≈1 s at 30 fps).
pub const DICE_ROLL_ANIMATION_FRAMES: u32 = 30;

/// Delay in ms before the dice roll animation fires automatically.
pub const AUTO_ROLL_DELAY_MS: u64 = 300;

/// How long (ms) to display a no-moves result before forfeiting.
pub const FORFEIT_DISPLAY_MS: u64 = 1000;

/// Number of frames of the capture flash (≈0.6 s).
pub const CAPTURE_FLASH_FRAMES: u32 = 18;

/// Frames spent on each square of a piece walk (≈0.23 s per step at 30 fps).
pub const PIECE_STEP_FRAMES: u32 = 7;

/// Number of past turns kept per player in the turn history, besides the
/// turn in progress.
pub const TURN_HISTORY: usize = 3;

/// The search depth of each difficulty level (Easy, Medium, Hard).
pub open spec fn depth_of_difficulty(selected: int) -> u32 {
    if selected == 0 {
        2
    } else if selected == 1 {
        4
    } else {
        6
    }
}

/// Difficulty level maps to expectiminimax search depth: Easy 2, Medium 4, Hard 6.
pub fn difficulty_depth(selected: usize) -> (r: u32)
    requires
        selected < 3,
    ensures
        r == depth_of_difficulty(selected as int),
{
    if selected == 0 {
        2
    } else if selected == 1 {
        4
    } else {
        6
    }
}

/// Game statistics accumulated during play.
#[derive(Debug)]
pub struct GameStats {
    pub moves: u32,
    pub start_time: Option<Instant>,
    pub end_time: Option<Instant>,
    pub captures: [u32; 2],
}

impl Default for GameStats {
    fn default() -> (r: Self)
        ensures
            r.moves == 0,
            r.start_time is None,
            r.end_time is None,
            r.captures@ == seq![0u32, 0u32],
    {
        let r = GameStats { moves: 0, start_time: None, end_time: None, captures: [0, 0] };
        assert(r.captures@ =~= seq![0u32, 0u32]);
        r
    }
}

/// A search the AI should run: choose a move for `state` with `roll`,
/// looking `depth` plies ahead.
pub struct AiRequest {
    pub state: GameState,
    pub roll: Dice,
    pub depth: u32,
}

/// Top-level application state.
pub struct App {
    pub screen: Screen,
    pub should_quit: bool,
    pub difficulty: u32,
    pub game_state: Option<GameState>,
    pub dice_roll: Option<Dice>,
    pub legal_moves: Vec<Move>,
    /// Cursor position along the current player's path.
    /// 0 = unplayed-pieces pool; k = path square at index k-1 (1-based).
    pub cursor_path_pos: usize,
    pub log: Vec<LogEntry>,
    pub log_visible: bool,
    pub stats: GameStats,
    pub rng: StdRng,
    pub title_selected: usize,
    pub animation: Option<Animation>,
    pub ai_thinking: bool,
    pub ai_spinner_frame: u32,
    /// The AI search the caller should start, if any (taken by the caller).
    pub ai_request: Option<AiRequest>,
    /// Scroll offset for the help screen (lines scrolled down).
    pub help_scroll: u16,
    /// True when a dice roll should fire automatically as soon as conditions allow.
    pub pending_roll: bool,
    /// Earliest time at which the auto-roll may fire (None = fire immediately).
    pub roll_after: Option<Instant>,
    /// When set, the no-moves forfeit fires at this time.
    pub forfeit_after: Option<Instant>,
    /// True when the auto-roll is a rosette re-roll (skips the normal delay).
    pub rosette_reroll: bool,
    /// Last dice roll per player (index 0 = P1, 1 = P2). Kept for the inactive panel.
    pub last_roll: [Option<Dice>; 2],
    /// Last notable event per player (capture / rosette / score). Shown below dice.
    pub last_event: [Option<String>; 2],
    /// Per-player turn history: up to 3 past turns, each a list of event strings.
    /// The last element is the current (in-progress) turn. Rosette re-rolls extend
    /// the current turn rather than starting a new one.
    pub turn_log: [Vec<Vec<String>>; 2],
    /// Monotonically increasing counter, incremented every animation tick.
    pub frame_count: u32,
}

/// A turn history that holds one empty, in-progress turn.
fn fresh_turn_log() -> (r: Vec<Vec<String>>)
    ensures
        r@.len() == 1,
        r@[0]@.len() == 0,
{
    let mut v: Vec<Vec<String>> = Vec::new();
    v.push(Vec::new());
    v
}

/// The app with the help screen scrolled one line up (not past the top).
pub open spec fn scrolled_up(a: App) -> App {
    App { help_scroll: if a.help_scroll > 0 { (a.help_scroll - 1) as u16 } else { 0 }, ..a }
}

/// The app with the help screen scrolled one line down (saturating).
pub open spec fn scrolled_down(a: App) -> App {
    App { help_scroll: if a.help_scroll < u16::MAX { (a.help_scroll + 1) as u16 } else { u16::MAX }, ..a }
}

/// The app after moving the selection of the current menu up, stopping at
/// its first entry.
pub open spec fn menu_moved_up(a: App) -> App {
    match a.screen {
        Screen::Title => App {
            title_selected: if a.title_selected > 0 { (a.title_selected - 1) as usize } else { 0 },
            ..a
        },
        Screen::DifficultySelect { selected } => App {
            screen: Screen::DifficultySelect { selected: if selected > 0 { (selected - 1) as usize } else { 0 } },
            ..a
        },
        Screen::PauseMenu { selected } => App {
            screen: Screen::PauseMenu { selected: if selected > 0 { (selected - 1) as usize } else { 0 } },
            ..a
        },
        _ => a,
    }
}

/// The app after moving the selection of the current menu down, stopping at
/// the last of its three entries.
pub open spec fn menu_moved_down(a: App) -> App {
    match a.screen {
        Screen::Title => App {
            title_selected: if a.title_selected < 2 {
                (a.title_selected + 1) as usize
            } else {
                a.title_selected
            },
            ..a
        },
        Screen::DifficultySelect { selected } => App {
            screen: Screen::DifficultySelect { selected: if selected < 2 { (selected + 1) as usize } else { selected } },
            ..a
        },
        Screen::PauseMenu { selected } => App {
            screen: Screen::PauseMenu { selected: if selected < 2 { (selected + 1) as usize } else { selected } },
            ..a
        },
        _ => a,
    }
}

/// The app after leaving the current screen for the one it was entered from.
pub open spec fn backed(a: App) -> App {
    App {
        screen: match a.screen {
            Screen::DifficultySelect { .. } => Screen::Title,
            Screen::DiceOff { .. } => Screen::DifficultySelect { selected: 0 },
            Screen::PauseMenu { .. } => Screen::Game,
            Screen::Help { from_game } => if from_game { Screen::PauseMenu { selected: 0 } } else { Screen::Title },
            _ => a.screen,
        },
        ..a
    }
}

/// The app as it starts: the title screen, medium difficulty, no game,
/// empty log and histories, nothing pending or animating.
pub open spec fn fresh_app(r: App) -> bool {
    &&& r.screen is Title
    &&& !r.should_quit
    &&& r.difficulty == 4
    &&& r.game_state is None
    &&& r.dice_roll is None
    &&& r.legal_moves@.len() == 0
    &&& r.cursor_path_pos == 0
    &&& r.log@.len() == 0
    &&& !r.log_visible
    &&& r.stats.moves == 0
    &&& r.stats.start_time is None
    &&& r.stats.end_time is None
    &&& r.stats.captures@ == seq![0u32, 0u32]
    &&& r.title_selected == 0
    &&& r.animation is None
    &&& !r.ai_thinking
    &&& r.ai_spinner_frame == 0
    &&& r.ai_request is None
    &&& r.help_scroll == 0
    &&& !r.pending_roll
    &&& r.roll_after is None
    &&& r.forfeit_after is None
    &&& !r.rosette_reroll
    &&& r.last_roll@ == seq![None::<Dice>, None::<Dice>]
    &&& r.last_event[0] is None && r.last_event[1] is None
    &&& r.turn_log[0]@.len() == 1 && r.turn_log[0]@[0]@.len() == 0
    &&& r.turn_log[1]@.len() == 1 && r.turn_log[1]@[0]@.len() == 0
    &&& r.frame_count == 0
}

impl App {
    pub fn new() -> (r: Self)
        ensures
            fresh_app(r),
    {
        let r = Self {
            screen: Screen::Title,
            should_quit: false,
            difficulty: 4,
            game_state: None,
            dice_roll: None,
            legal_moves: Vec::new(),
            cursor_path_pos: 0,
            log: Vec::new(),
            log_visible: false,
            stats: GameStats::default(),
            rng: fresh_rng(),
            title_selected: 0,
            animation: None,
            ai_thinking: false,
            ai_spinner_frame: 0,
            ai_request: None,
            help_scroll: 0,
            pending_roll: false,
            roll_after: None,
            forfeit_after: None,
            rosette_reroll: false,
            last_roll: [None, None],
            last_event: [None, None],
            turn_log: [fresh_turn_log(), fresh_turn_log()],
            frame_count: 0,
        };
        assert(r.last_roll@ =~= seq![None::<Dice>, None::<Dice>]);
        r
    }

    pub fn start_new_game(&mut self)
        ensures
            *final(self) == (App { screen: Screen::DifficultySelect { selected: 0 }, ..*old(self) }),
    {
        self.screen = Screen::DifficultySelect { selected: 0 };
    }

    pub fn quit(&mut self)
        ensures
            *final(self) == (App { should_quit: true, ..*old(self) }),
    {
        self.should_quit = true;
    }

    /// Opens the pause menu (only when a game is active).
    pub fn open_pause(&mut self)
        ensures
            old(self).game_state is Some ==> *final(self) == (App { screen: Screen::PauseMenu { selected: 0 }, ..*old(self) }),
            old(self).game_state is None ==> *final(self) == *old(self),
    {
        if self.game_state.is_some() {
            self.screen = Screen::PauseMenu { selected: 0 };
        }
    }

    pub fn help_scroll_up(&mut self)
        ensures
            *final(self) == scrolled_up(*old(self)),
    {
        self.help_scroll = if self.help_scroll > 0 { self.help_scroll - 1 } else { 0 };
    }

    pub fn help_scroll_down(&mut self)
        ensures
            *final(self) == scrolled_down(*old(self)),
    {
        self.help_scroll = if self.help_scroll < u16::MAX { self.help_scroll + 1 } else { u16::MAX };
    }

    /// Moves the selection of the current menu up, stopping at the first entry.
    pub fn handle_menu_up(&mut self)
        ensures
            *final(self) == menu_moved_up(*old(self)),
    {
        match &mut self.screen {
            Screen::Title => {
                if self.title_selected > 0 {
                    self.title_selected = self.title_selected - 1;
                }
            },
            Screen::DifficultySelect { selected } => {
                if *selected > 0 {
                    *selected = *selected - 1;
                }
            },
            Screen::PauseMenu { selected } => {
                if *selected > 0 {
                    *selected = *selected - 1;
                }
            },
            _ => {},
        }
    }

    /// Moves the selection of the current menu down, stopping at the last of
    /// its three entries.
    pub fn handle_menu_down(&mut self)
        ensures
            *final(self) == menu_moved_down(*old(self)),
    {
        match &mut self.screen {
            Screen::Title => {
                if self.title_selected < 2 {
                    self.title_selected = self.title_selected + 1;
                }
            },
            Screen::DifficultySelect { selected } => {
                if *selected < 2 {
                    *selected = *selected + 1;
                }
            },
            Screen::PauseMenu { selected } => {
                if *selected < 2 {
                    *selected = *selected + 1;
                }
            },
            _ => {},
        }
    }

    /// Leaves the current screen for the one it was entered from.
    pub fn handle_back(&mut self)
        ensures
            *final(self) == backed(*old(self)),
    {
        match &self.screen {
            Screen::DifficultySelect { .. } => self.screen = Screen::Title,
            Screen::DiceOff { .. } => {
                self.screen = Screen::DifficultySelect { selected: 0 };
            },
            Screen::PauseMenu { .. } => self.screen = Screen::Game,
            Screen::Help { from_game } => {
                if *from_game {
                    self.screen = Screen::PauseMenu { selected: 0 };
                } else {
                    self.screen = Screen::Title;
                }
            },
            _ => {},
        }
    }
}

/// The abstract game state held by an app, if any.
pub open spec fn state_of(o: Option<GameState>) -> Option<crate::state::StateModel> {
    match o {
        Some(g) => Some(g@),
        None => None,
    }
}

/// The game state, if any, follows rules whose squares all lie on the board.
pub open spec fn rules_fit_board(app: App) -> bool {
    app.game_state matches Some(gs) ==> rules_in_bounds(gs@.rules)
}

/// `new` is the event log `old` followed by one entry per text, in order,
/// each by `p`.
pub open spec fn log_extended(old: Seq<LogEntry>, new: Seq<LogEntry>, p: Option<Player>, texts: Seq<Seq<char>>) -> bool {
    &&& new.len() == old.len() + texts.len()
    &&& new.take(old.len() as int) =~= old
    &&& forall|j: int|
        old.len() <= j < new.len() ==> (#[trigger] new[j]).player == p && new[j].text@ == texts[j - old.len()]
}

/// `new` is the list of strings `old` followed by `texts`, in order.
pub open spec fn strings_extended(old: Seq<String>, new: Seq<String>, texts: Seq<Seq<char>>) -> bool {
    &&& new.len() == old.len() + texts.len()
    &&& new.take(old.len() as int) =~= old
    &&& forall|j: int| old.len() <= j < new.len() ==> (#[trigger] new[j])@ == texts[j - old.len()]
}

/// `new` is the turn history `old` with `texts` added to the turn in progress
/// (unchanged when there is no turn in progress).
pub open spec fn turn_extended(old: Seq<Vec<String>>, new: Seq<Vec<String>>, texts: Seq<Seq<char>>) -> bool {
    if old.len() == 0 {
        new =~= old
    } else {
        &&& new.len() == old.len()
        &&& new.drop_last() =~= old.drop_last()
        &&& strings_extended(old.last()@, new.last()@, texts)
    }
}

/// Extending a log twice extends it by both lists of texts.
pub proof fn lemma_log_chain(
    a: Seq<LogEntry>,
    b: Seq<LogEntry>,
    c: Seq<LogEntry>,
    p: Option<Player>,
    t1: Seq<Seq<char>>,
    t2: Seq<Seq<char>>,
)
    requires
        log_extended(a, b, p, t1),
        log_extended(b, c, p, t2),
    ensures
        log_extended(a, c, p, t1 + t2),
{
    assert forall|k: int| 0 <= k < a.len() implies c.take(a.len() as int)[k] == a[k] by {
        assert(c.take(b.len() as int)[k] == b[k]);
        assert(b.take(a.len() as int)[k] == a[k]);
    }
    assert(c.take(a.len() as int) =~= a);
    assert forall|j: int| a.len() <= j < c.len() implies (#[trigger] c[j]).player == p && c[j].text@ == (t1
        + t2)[j - a.len()] by {
        if j < b.len() {
            assert(c.take(b.len() as int)[j] == b[j]);
            assert(b[j].player == p);
        }
    }
}

/// Extending a turn twice extends it by both lists of texts.
pub proof fn lemma_turn_chain(
    a: Seq<Vec<String>>,
    b: Seq<Vec<String>>,
    c: Seq<Vec<String>>,
    t1: Seq<Seq<char>>,
    t2: Seq<Seq<char>>,
)
    requires
        turn_extended(a, b, t1),
        turn_extended(b, c, t2),
    ensures
        turn_extended(a, c, t1 + t2),
{
    if a.len() > 0 {
        let (x, y, z) = (a.last()@, b.last()@, c.last()@);
        assert forall|k: int| 0 <= k < x.len() implies z.take(x.len() as int)[k] == x[k] by {
            assert(z.take(y.len() as int)[k] == y[k]);
            assert(y.take(x.len() as int)[k] == x[k]);
        }
        assert(z.take(x.len() as int) =~= x);
        assert forall|j: int| x.len() <= j < z.len() implies (#[trigger] z[j])@ == (t1 + t2)[j - x.len()] by {
            if j < y.len() {
                assert(z.take(y.len() as int)[j] == y[j]);
            }
        }
    }
}

/// `new` is the turn history `old` with a new, empty turn begun; the oldest
/// turn is dropped once more than `TURN_HISTORY` past turns would be kept.
pub open spec fn turn_started(old: Seq<Vec<String>>, new: Seq<Vec<String>>) -> bool {
    let keep = if old.len() + 1 > TURN_HISTORY + 1 { old.drop_first() } else { old };
    &&& new.len() == keep.len() + 1
    &&& new.drop_last() =~= keep
    &&& new.last()@.len() == 0
}

/// The text "Rolled N".
pub open spec fn rolled_text(v: u8) -> Seq<char> {
    "Rolled "@ + decimal(v as nat)
}

/// Appends an entry to the event log.
pub(crate) fn push_log(log: &mut Vec<LogEntry>, player: Option<Player>, text: String)
    ensures
        log_extended(old(log)@, final(log)@, player, seq![text@]),
{
    log.push(LogEntry { player, text });
    assert(final(log)@.take(old(log)@.len() as int) =~= old(log)@);
}

/// Adds `text` to the turn in progress.
pub(crate) fn note_turn_event(turns: &mut Vec<Vec<String>>, text: String)
    ensures
        turn_extended(old(turns)@, final(turns)@, seq![text@]),
{
    if turns.len() > 0 {
        let mut cur = turns.pop().unwrap();
        let ghost before = cur@;
        cur.push(text);
        assert(cur@.take(before.len() as int) =~= before);
        turns.push(cur);
        assert(final(turns)@.drop_last() =~= old(turns)@.drop_last());
    }
}

/// Begins a new turn in the history, keeping at most `TURN_HISTORY` past turns.
pub(crate) fn start_turn(turns: &mut Vec<Vec<String>>)
    ensures
        turn_started(old(turns)@, final(turns)@),
{
    turns.push(Vec::new());
    if turns.len() > TURN_HISTORY + 1 {
        turns.remove(0);
    }
}

/// "Rolled N" for a roll.
pub(crate) fn rolled_message(v: u8) -> (r: String)
    ensures
        r@ == rolled_text(v),
{
    proof {
        reveal_strlit("");
    }
    decimal_between("Rolled ", v as u64, "")
}

/// The fields that the AI's dice roll sets: the roll itself, its log entry, a
/// new turn in its history (a rosette re-roll extends the turn in progress),
/// the dice animation, the thinking state, and the search request when a
/// move exists.
pub open spec fn ai_turn_started(old: App, new: App, roll: Dice, reroll: bool) -> bool {
    let gs = old.game_state.unwrap();
    let ci = index_of_player(gs.current_player);
    &&& roll.0 <= 4
    &&& state_of(new.game_state) == state_of(old.game_state)
    &&& log_extended(old.log@, new.log@, Some(Player::Player2), seq![rolled_text(roll.0)])
    &&& new.dice_roll == Some(roll)
    &&& if reroll {
        new.turn_log[1] == old.turn_log[1]
    } else {
        turn_started(old.turn_log[1]@, new.turn_log[1]@)
    }
    &&& new.turn_log[0] == old.turn_log[0]
    &&& new.last_roll@ == old.last_roll@.update(ci, Some(roll))
    &&& new.animation == Some(Animation::DiceRoll { frames_remaining: DICE_ROLL_ANIMATION_FRAMES, final_value: roll, display: Dice(0) })
    &&& new.ai_thinking
    &&& if legal_moves_of(gs@, roll.0 as int).len() > 0 {
        new.ai_request matches Some(req) && req.state@ == gs@ && req.roll == roll && req.depth == old.difficulty
    } else {
        new.ai_request == old.ai_request
    }
    &&& new.screen == old.screen
    &&& new.should_quit == old.should_quit
    &&& new.difficulty == old.difficulty
    &&& new.legal_moves == old.legal_moves
    &&& new.cursor_path_pos == old.cursor_path_pos
    &&& new.log_visible == old.log_visible
    &&& new.stats == old.stats
    &&& new.title_selected == old.title_selected
    &&& new.ai_spinner_frame == old.ai_spinner_frame
    &&& new.help_scroll == old.help_scroll
    &&& new.pending_roll == old.pending_roll
    &&& new.roll_after == old.roll_after
    &&& new.forfeit_after == old.forfeit_after
    &&& new.rosette_reroll == old.rosette_reroll
    &&& new.last_event == old.last_event
    &&& new.frame_count == old.frame_count
}

impl App {
    /// Rolls dice for the AI and starts the dice animation; the AI is
    /// thinking until its move is known. When a legal move exists, asks the
    /// caller (through `ai_request`) to choose one with the search depth of
    /// the difficulty. Does nothing without a game.
    pub fn start_ai_turn(&mut self)
        requires
            rules_fit_board(*old(self)),
        ensures
            old(self).game_state is None ==> *final(self) == *old(self),
            old(self).game_state is Some ==> exists|roll: Dice| #[trigger] ai_turn_started(*old(self), *final(self), roll, false),
    {
        self.begin_ai_turn(false);
    }

    /// Starts the AI's turn; a rosette re-roll (`reroll`) extends the turn in
    /// progress of its history instead of beginning a new one.
    pub(crate) fn begin_ai_turn(&mut self, reroll: bool)
        requires
            rules_fit_board(*old(self)),
        ensures
            old(self).game_state is None ==> *final(self) == *old(self),
            old(self).game_state is Some ==> exists|roll: Dice| #[trigger] ai_turn_started(*old(self), *final(self), roll, reroll),
    {
        let gs = match self.game_state.as_ref() {
            Some(gs) => gs.clone(),
            None => return,
        };
        let ghost old_app = *self;
        let roll = Dice::roll(&mut self.rng);
        push_log(&mut self.log, Some(Player::Player2), rolled_message(roll.value()));
        self.dice_roll = Some(roll);
        if !reroll {
            start_turn(&mut self.turn_log[1]);
        }
        self.last_roll[gs.current_player.index()] = Some(roll);
        self.animation = Some(Animation::DiceRoll {
            frames_remaining: DICE_ROLL_ANIMATION_FRAMES,
            final_value: roll,
            display: Dice(0),
        });
        self.ai_thinking = true;
        proof {
            crate::state::lemma_state_shape(&gs);
            crate::state::lemma_rules_in_bounds_moves(gs@, roll.0);
        }
        let moves = gs.legal_moves(roll);
        if moves.len() == 0 {
            assert(ai_turn_started(old_app, *self, roll, reroll));
            return;
        }
        let depth = self.difficulty;
        self.ai_request = Some(AiRequest { state: gs, roll, depth });
        assert(ai_turn_started(old_app, *self, roll, reroll));
    }
}

/// A game under the Finkel rules in its initial position, with `first` to roll.
pub open spec fn fresh_game(first: Player) -> crate::state::StateModel {
    crate::state::StateModel { current: first, ..crate::state::initial_state(crate::state::finkel_rules()) }
}

/// A history holding exactly `n` turns, all empty.
pub open spec fn empty_turns(t: Seq<Vec<String>>, n: int) -> bool {
    &&& t.len() == n
    &&& forall|i: int| 0 <= i < n ==> (#[trigger] t[i])@.len() == 0
}

/// With the Finkel rules and an empty board, a piece can enter with any roll
/// from 1 to 4, so exactly the rolls 1–4 leave a legal move.
proof fn lemma_fresh_game_has_moves(first: Player, roll: u8)
    requires
        roll <= 4,
    ensures
        legal_moves_of(fresh_game(first), roll as int).len() > 0 <==> roll > 0,
{
    let s = fresh_game(first);
    if roll > 0 {
        let path = path_of(s.rules, first);
        assert(s.cells[crate::state::cell_of(path[roll - 1])] is None);
        assert(crate::state::entry_move(s, roll as int) is Some);
    }
}

/// What beginning a game with `first` to move sets: a fresh Finkel game on
/// the game screen with cleared statistics, log and turn histories. When
/// Player 2 goes first its turn starts at once (its roll is shown, logged and
/// begins its history, and a move is requested when one exists); otherwise
/// Player 1's roll is scheduled after a short delay.
pub open spec fn game_begun(old: App, new: App, first: Player) -> bool {
    &&& new.screen is Game
    &&& state_of(new.game_state) == Some(fresh_game(first))
    &&& new.stats.moves == 0
    &&& new.stats.start_time is Some
    &&& new.stats.end_time is None
    &&& new.stats.captures@ == seq![0u32, 0u32]
    &&& new.legal_moves@.len() == 0
    &&& new.cursor_path_pos == 0
    &&& new.ai_spinner_frame == 0
    &&& !new.rosette_reroll
    &&& new.forfeit_after is None
    &&& new.last_event[0] is None && new.last_event[1] is None
    &&& empty_turns(new.turn_log[0]@, 1)
    &&& new.should_quit == old.should_quit
    &&& new.difficulty == old.difficulty
    &&& new.log_visible == old.log_visible
    &&& new.title_selected == old.title_selected
    &&& new.help_scroll == old.help_scroll
    &&& new.frame_count == old.frame_count
    &&& first == Player::Player1 ==> {
        &&& new.log@.len() == 0
        &&& new.dice_roll is None
        &&& new.animation is None
        &&& !new.ai_thinking
        &&& new.ai_request is None
        &&& new.last_roll@ == seq![None::<Dice>, None::<Dice>]
        &&& empty_turns(new.turn_log[1]@, 1)
        &&& new.pending_roll
        &&& deadline_set(new.roll_after, AUTO_ROLL_DELAY_MS)
    }
    &&& first == Player::Player2 ==> exists|roll: Dice|
        {
            &&& roll.0 <= 4
            &&& new.log@.len() == 1
            &&& new.log@[0].player == Some(Player::Player2)
            &&& new.log@[0].text@ == rolled_text(roll.0)
            &&& new.dice_roll == Some(roll)
            &&& new.animation == Some(
                Animation::DiceRoll { frames_remaining: DICE_ROLL_ANIMATION_FRAMES, final_value: roll, display: Dice(0) },
            )
            &&& new.ai_thinking
            &&& (roll.0 > 0 ==> (new.ai_request matches Some(req) && req.state@ == fresh_game(Player::Player2)
                && req.roll == roll && req.depth == old.difficulty))
            &&& (roll.0 == 0 ==> new.ai_request is None)
            &&& #[trigger] new.last_roll@ == seq![None::<Dice>, Some(roll)]
            &&& empty_turns(new.turn_log[1]@, 2)
            &&& new.pending_roll == old.pending_roll
            &&& new.roll_after == old.roll_after
        }
}

impl App {
    /// Starts the game with the given first player, initialising game state and
    /// transitioning to the `Game` screen. When the AI goes first its turn
    /// starts at once; otherwise the human's dice roll is scheduled after a
    /// short delay.
    pub fn begin_game(&mut self, first_player: Player)
        ensures
            game_begun(*old(self), *final(self), first_player),
    {
        let rules = GameRules::finkel();
        let mut gs = GameState::new(&rules);
        gs.current_player = first_player;
        assert(gs@ =~= fresh_game(first_player));
        self.game_state = Some(gs);
        let mut stats = GameStats::default();
        stats.start_time = Some(clock_now());
        self.stats = stats;
        self.log.clear();
        self.dice_roll = None;
        self.legal_moves.clear();
        self.cursor_path_pos = 0;
        self.animation = None;
        self.ai_thinking = false;
        self.ai_request = None;
        self.ai_spinner_frame = 0;
        self.last_roll = [None, None];
        self.last_event = [None, None];
        self.turn_log = [fresh_turn_log(), fresh_turn_log()];
        self.rosette_reroll = false;
        self.forfeit_after = None;
        self.screen = Screen::Game;
        assert(self.last_roll@ =~= seq![None::<Dice>, None::<Dice>]);

        if first_player == Player::Player2 {
            proof {
                crate::state::lemma_finkel_in_bounds();
            }
            let ghost mid = *self;
            self.start_ai_turn();
            proof {
                let roll = choose|roll: Dice| #[trigger] ai_turn_started(mid, *self, roll, false);
                lemma_fresh_game_has_moves(first_player, roll.0);
                assert(self.last_roll@ =~= seq![None::<Dice>, Some(roll)]);
                assert(self.turn_log[1]@.drop_last() =~= mid.turn_log[1]@);
                assert(self.turn_log[1]@[0] == mid.turn_log[1]@[0]);
            }
        } else {
            self.pending_roll = true;
            self.roll_after = Some(deadline_in(AUTO_ROLL_DELAY_MS));
        }
    }
}


/// The dice-off that opens a game: both players' dice count down from the
/// full animation with the given final values, nothing decided yet.
pub open spec fn dice_off_started(p1: Dice, p2: Dice) -> DiceOffState {
    DiceOffState {
        p1_frames: DICE_OFF_ANIMATION_FRAMES,
        p2_frames: DICE_OFF_ANIMATION_FRAMES,
        p1_final: p1,
        p2_final: p2,
        p1_display: Dice(0),
        p2_display: Dice(0),
        winner: None,
        acknowledged: false,
    }
}

/// Confirming the difficulty menu: the selected level's search depth is kept
/// and the dice-off starts with two fresh rolls.
pub open spec fn difficulty_confirmed(old: App, new: App, selected: usize) -> bool {
    exists|p1: Dice, p2: Dice|
        {
            &&& p1.0 <= 4
            &&& p2.0 <= 4
            &&& #[trigger] dice_off_started(p1, p2) == new.screen->state
            &&& new == (App {
                difficulty: depth_of_difficulty(selected as int),
                screen: Screen::DiceOff { state: dice_off_started(p1, p2) },
                rng: new.rng,
                ..old
            })
        }
}

/// The effect of confirming the highlighted entry of the current screen.
pub open spec fn confirmed(old: App, new: App) -> bool {
    match old.screen {
        Screen::Title => new == if old.title_selected == 0 {
            App { screen: Screen::DifficultySelect { selected: 0 }, ..old }
        } else if old.title_selected == 1 {
            App { help_scroll: 0, screen: Screen::Help { from_game: false }, ..old }
        } else {
            App { should_quit: true, ..old }
        },
        Screen::DifficultySelect { selected } => difficulty_confirmed(old, new, selected),
        Screen::DiceOff { state } => match state.winner {
            Some(first) if !state.acknowledged => game_begun(old, new, first),
            _ => new == old,
        },
        Screen::PauseMenu { selected } => new == if selected == 0 {
            App { screen: Screen::Game, ..old }
        } else if selected == 1 {
            App { help_scroll: 0, screen: Screen::Help { from_game: true }, ..old }
        } else {
            App { should_quit: true, ..old }
        },
        Screen::Help { from_game } => new == if from_game {
            App { screen: Screen::PauseMenu { selected: 0 }, ..old }
        } else {
            App { screen: Screen::Title, ..old }
        },
        _ => new == old,
    }
}

impl App {
    /// Takes the selected difficulty and starts the dice-off for the first move.
    pub fn confirm_difficulty(&mut self)
        requires
            old(self).screen matches Screen::DifficultySelect { selected } ==> selected < 3,
        ensures
            match old(self).screen {
                Screen::DifficultySelect { selected } => difficulty_confirmed(*old(self), *final(self), selected),
                _ => *final(self) == *old(self),
            },
    {
        let selected = match self.screen {
            Screen::DifficultySelect { selected } => selected,
            _ => return,
        };
        self.difficulty = difficulty_depth(selected);

        let p1_final = Dice::roll(&mut self.rng);
        let p2_final = Dice::roll(&mut self.rng);
        self.screen = Screen::DiceOff {
            state: DiceOffState {
                p1_frames: DICE_OFF_ANIMATION_FRAMES,
                p2_frames: DICE_OFF_ANIMATION_FRAMES,
                p1_final,
                p2_final,
                p1_display: Dice(0),
                p2_display: Dice(0),
                winner: None,
                acknowledged: false,
            },
        };
        assert(dice_off_started(p1_final, p2_final) == self.screen->state);
    }

    /// Confirms the highlighted entry of the current screen: the title and
    /// pause menus open a game, the help screen or quit; the difficulty menu
    /// starts the dice-off; a decided dice-off begins the game with its
    /// winner; the help screen returns to the menu it came from.
    pub fn handle_confirm(&mut self)
        requires
            old(self).screen matches Screen::DifficultySelect { selected } ==> selected < 3,
        ensures
            confirmed(*old(self), *final(self)),
    {
        match &self.screen {
            Screen::Title => {
                if self.title_selected == 0 {
                    self.start_new_game();
                } else if self.title_selected == 1 {
                    self.help_scroll = 0;
                    self.screen = Screen::Help { from_game: false };
                } else {
                    self.quit();
                }
            },
            Screen::DifficultySelect { .. } => self.confirm_difficulty(),
            Screen::DiceOff { state } => {
                if let Some(first_player) = state.winner {
                    if !state.acknowledged {
                        if let Screen::DiceOff { state } = &mut self.screen {
                            state.acknowledged = true;
                        }
                        self.begin_game(first_player);
                    }
                }
            },
            Screen::PauseMenu { selected } => {
                if *selected == 0 {
                    self.screen = Screen::Game;
                } else if *selected == 1 {
                    self.help_scroll = 0;
                    self.screen = Screen::Help { from_game: true };
                } else {
                    self.quit();
                }
            },
            Screen::Help { from_game } => {
                if *from_game {
                    self.screen = Screen::PauseMenu { selected: 0 };
                } else {
                    self.screen = Screen::Title;
                }
            },
            _ => {},
        }
    }
}

impl Default for App {
    fn default() -> (r: Self)
        ensures
            fresh_app(r),
    {
        Self::new()
    }
}

} // verus!
