use rand::rngs::StdRng;
use rand::Rng;
use vstd::prelude::*;

verus! {

/// The random number generator of `rand` that rolls the dice.
#[verifier::external_type_specification]
#[verifier::external_body]
pub struct ExStdRng(StdRng);

/// The result of rolling four binary tetrahedral dice, producing a value 0–4.
///
/// Each die contributes 1 if it lands marked-side up. The total is the sum.
#[derive(Clone, Copy, Debug, PartialEq, Eq, Hash, PartialOrd, Ord, Structural)]
pub struct Dice(pub u8);

/// Number of dice that show their marked side.
pub open spec fn marked_count(a: bool, b: bool, c: bool, d: bool) -> int {
    (if a { 1int } else { 0int }) + (if b { 1int } else { 0int }) + (if c { 1int } else { 0int })
        + (if d { 1int } else { 0int })
}

/// Draws one fair binary die with `rand`'s `Rng::gen::<bool>`.
///
/// Nothing is stated of the outcome: it is random, and either value may come out.
#[verifier::external_body]
fn draw_die(rng: &mut StdRng) -> bool {
    rng.gen::<bool>()
}

impl Dice {
    /// Builds a roll from a value, which must lie in 0–4.
    pub fn new(value: u8) -> (r: Option<Dice>)
        ensures
            r is Some <==> value <= 4,
            r matches Some(d) ==> d.0 == value,
    {
        if value <= 4 {
            Some(Dice(value))
        } else {
            None
        }
    }

    /// The roll made of four dice of which the given ones landed marked side up.
    pub fn from_dice(a: bool, b: bool, c: bool, d: bool) -> (r: Dice)
        ensures
            r.0 == marked_count(a, b, c, d),
            r.0 <= 4,
    {
        let mut count: u8 = 0;
        if a {
            count = count + 1;
        }
        if b {
            count = count + 1;
        }
        if c {
            count = count + 1;
        }
        if d {
            count = count + 1;
        }
        Dice(count)
    }

    /// Generates a random dice roll using the caller-provided RNG.
    ///
    /// Each of the four dice is independently drawn, so the result follows
    /// a binomial distribution B(4, 0.5).
    pub fn roll(rng: &mut StdRng) -> (r: Self)
        ensures
            r.0 <= 4,
    {
        let a = draw_die(rng);
        let b = draw_die(rng);
        let c = draw_die(rng);
        let d = draw_die(rng);
        Dice::from_dice(a, b, c, d)
    }

    /// Returns the numeric value of this roll (0–4).
    pub fn value(self) -> (r: u8)
        ensures
            r == self.0,
    {
        self.0
    }
}

/// Number of ways, out of the 16 equally likely outcomes of four binary dice,
/// to obtain each roll value 0–4 (the numerators of the roll probabilities).
pub open spec fn roll_ways(v: int) -> int {
    if v == 0 || v == 4 {
        1
    } else if v == 1 || v == 3 {
        4
    } else if v == 2 {
        6
    } else {
        0
    }
}

/// Counting all 16 outcomes of four dice by the roll they produce gives the
/// binomial weights 1, 4, 6, 4, 1, which add up to 16.
pub proof fn lemma_roll_distribution()
    ensures
        forall|v: int|
            0 <= v <= 4 ==> #[trigger] roll_ways(v) == ways_to_roll(v),
        roll_ways(0) + roll_ways(1) + roll_ways(2) + roll_ways(3) + roll_ways(4) == 16,
{
    reveal_with_fuel(count_outcomes, 17);
    assert(outcome_value(0) == 0 && outcome_value(1) == 1 && outcome_value(2) == 1
        && outcome_value(3) == 2 && outcome_value(4) == 1 && outcome_value(5) == 2
        && outcome_value(6) == 2 && outcome_value(7) == 3 && outcome_value(8) == 1
        && outcome_value(9) == 2 && outcome_value(10) == 2 && outcome_value(11) == 3
        && outcome_value(12) == 2 && outcome_value(13) == 3 && outcome_value(14) == 3
        && outcome_value(15) == 4);
    assert(ways_to_roll(0) == 1);
    assert(ways_to_roll(1) == 4);
    assert(ways_to_roll(2) == 6);
    assert(ways_to_roll(3) == 4);
    assert(ways_to_roll(4) == 1);
}

/// Outcomes of the four dice, encoded as the 16 numbers 0–15, whose set bits
/// give the marked dice.
spec fn outcome_value(n: int) -> int {
    marked_count(n % 2 == 1, (n / 2) % 2 == 1, (n / 4) % 2 == 1, (n / 8) % 2 == 1)
}

/// Number of outcomes among the first `n` that produce roll `v`.
spec fn count_outcomes(v: int, n: nat) -> int
    decreases n,
{
    if n == 0 {
        0
    } else {
        count_outcomes(v, (n - 1) as nat) + if outcome_value(n - 1) == v { 1int } else { 0int }
    }
}

/// Number of the 16 outcomes that produce roll `v`.
pub closed spec fn ways_to_roll(v: int) -> int {
    count_outcomes(v, 16)
}

} // verus!
