//! Plaintext model of the three tally computations that the computation
//! network evaluates on encrypted data: initialise, apply one ballot, reveal.
//!
//! Every operation makes one unconditional pass over the options, so the shape
//! of the work never depends on the ballot.
use vstd::prelude::*;

verus! {

/// Voice credits that a quadratic ballot may spend.
pub const VOICE_CREDIT_BUDGET: u64 = 100;

/// Number of options that a tally counts.
pub const NUM_OPTIONS: u8 = 4;

/// Vote counters for up to four options, plus a running total.
#[derive(Clone, Copy, Debug, PartialEq, Eq, Structural)]
pub struct VoteTallies {
    pub option_0: u64,
    pub option_1: u64,
    pub option_2: u64,
    pub option_3: u64,
    pub total_votes: u64,
}

/// A quadratic ballot: the effective votes given to each option.
#[derive(Clone, Copy, Debug, PartialEq, Eq, Structural)]
pub struct VoteAllocation {
    pub v0: u64,
    pub v1: u64,
    pub v2: u64,
    pub v3: u64,
}

/// Plaintext results of a reveal.
#[derive(Clone, Copy, Debug, PartialEq, Eq, Structural)]
pub struct RevealedResults {
    pub option_0: u64,
    pub option_1: u64,
    pub option_2: u64,
    pub option_3: u64,
    pub total_votes: u64,
    pub winner: u8,
}

/// Addition of fixed-width counters, modulo 2^64.
pub open spec fn wrap_add(a: u64, b: u64) -> u64 {
    if a + b > u64::MAX {
        (a + b - 0x1_0000_0000_0000_0000int) as u64
    } else {
        (a + b) as u64
    }
}

impl VoteTallies {
    /// The counter of option `i` (0 to 3).
    pub open spec fn count(self, i: int) -> u64 {
        if i == 0 {
            self.option_0
        } else if i == 1 {
            self.option_1
        } else if i == 2 {
            self.option_2
        } else {
            self.option_3
        }
    }

    /// Adds `d0..d3` to the option counters and `dt` to the total.
    pub open spec fn add_spec(self, d0: u64, d1: u64, d2: u64, d3: u64, dt: u64) -> VoteTallies {
        VoteTallies {
            option_0: wrap_add(self.option_0, d0),
            option_1: wrap_add(self.option_1, d1),
            option_2: wrap_add(self.option_2, d2),
            option_3: wrap_add(self.option_3, d3),
            total_votes: wrap_add(self.total_votes, dt),
        }
    }
}

impl VoteAllocation {
    /// Quadratic cost of the ballot: the sum of the squared allocations.
    pub open spec fn cost(self) -> int {
        self.v0 * self.v0 + self.v1 * self.v1 + self.v2 * self.v2 + self.v3 * self.v3
    }
}

impl RevealedResults {
    /// The revealed count of option `i` (0 to 3).
    pub open spec fn count(self, i: int) -> u64 {
        if i == 0 {
            self.option_0
        } else if i == 1 {
            self.option_1
        } else if i == 2 {
            self.option_2
        } else {
            self.option_3
        }
    }
}

/// All counters at zero.
pub open spec fn zero_tallies() -> VoteTallies {
    VoteTallies { option_0: 0, option_1: 0, option_2: 0, option_3: 0, total_votes: 0 }
}

/// A quadratic ballot applied to `t`: counted in full when its cost is within
/// `budget`, otherwise not at all.
pub open spec fn quadratic_vote_spec(a: VoteAllocation, t: VoteTallies, budget: u64) -> VoteTallies {
    if a.cost() <= budget {
        t.add_spec(a.v0, a.v1, a.v2, a.v3, wrap_add(wrap_add(wrap_add(a.v0, a.v1), a.v2), a.v3))
    } else {
        t
    }
}

/// A single-choice ballot applied to `t`: the chosen option's counter and the
/// total each grow by one.
pub open spec fn simple_vote_spec(choice: u8, t: VoteTallies) -> VoteTallies {
    t.add_spec(
        if choice == 0 { 1 } else { 0 },
        if choice == 1 { 1 } else { 0 },
        if choice == 2 { 1 } else { 0 },
        if choice == 3 { 1 } else { 0 },
        1,
    )
}

/// Index of the largest counter, the lowest index among equal maxima.
pub open spec fn winner_spec(t: VoteTallies) -> u8 {
    let w1: u8 = if t.option_1 > t.option_0 { 1 } else { 0 };
    let m1 = if t.option_1 > t.option_0 { t.option_1 } else { t.option_0 };
    let w2: u8 = if t.option_2 > m1 { 2 } else { w1 };
    let m2 = if t.option_2 > m1 { t.option_2 } else { m1 };
    if t.option_3 > m2 { 3 } else { w2 }
}

/// What a reveal of `t` publishes.
pub open spec fn reveal_spec(t: VoteTallies) -> RevealedResults {
    RevealedResults {
        option_0: t.option_0,
        option_1: t.option_1,
        option_2: t.option_2,
        option_3: t.option_3,
        total_votes: t.total_votes,
        winner: winner_spec(t),
    }
}

/// Fresh tallies: every counter at zero.
pub fn init_tallies() -> (r: VoteTallies)
    ensures
        r == zero_tallies(),
{
    VoteTallies { option_0: 0, option_1: 0, option_2: 0, option_3: 0, total_votes: 0 }
}

/// The square of a 64-bit value fits in 128 bits.
proof fn lemma_square_fits(x: u64)
    ensures
        0 <= x * x <= u128::MAX,
{
    assert(0 <= x * x <= 0xFFFF_FFFF_FFFF_FFFFint * 0xFFFF_FFFF_FFFF_FFFFint) by (nonlinear_arith)
        requires
            0 <= x <= 0xFFFF_FFFF_FFFF_FFFFint,
    ;
}

/// Whether the quadratic cost of `a` is at most `budget`, computed without
/// overflow.
pub fn within_budget(a: &VoteAllocation, budget: u64) -> (r: bool)
    ensures
        r == (a.cost() <= budget),
{
    proof {
        lemma_square_fits(a.v0);
        lemma_square_fits(a.v1);
        lemma_square_fits(a.v2);
        lemma_square_fits(a.v3);
    }
    let sq0: u128 = (a.v0 as u128) * (a.v0 as u128);
    let sq1: u128 = (a.v1 as u128) * (a.v1 as u128);
    let sq2: u128 = (a.v2 as u128) * (a.v2 as u128);
    let sq3: u128 = (a.v3 as u128) * (a.v3 as u128);
    let b: u128 = budget as u128;
    if sq0 > b {
        return false;
    }
    let c1: u128 = sq0;
    if sq1 > b - c1 {
        return false;
    }
    let c2: u128 = c1 + sq1;
    if sq2 > b - c2 {
        return false;
    }
    let c3: u128 = c2 + sq2;
    if sq3 > b - c3 {
        return false;
    }
    true
}

/// Applies a quadratic ballot under an explicit credit budget. Both outcomes
/// are computed; the one that the budget check rejects is discarded.
pub fn apply_quadratic_vote(a: &VoteAllocation, t: &VoteTallies, budget: u64) -> (r: VoteTallies)
    ensures
        r == quadratic_vote_spec(*a, *t, budget),
{
    let sum: u64 = a.v0.wrapping_add(a.v1).wrapping_add(a.v2).wrapping_add(a.v3);
    let counted = VoteTallies {
        option_0: t.option_0.wrapping_add(a.v0),
        option_1: t.option_1.wrapping_add(a.v1),
        option_2: t.option_2.wrapping_add(a.v2),
        option_3: t.option_3.wrapping_add(a.v3),
        total_votes: t.total_votes.wrapping_add(sum),
    };
    let ok = within_budget(a, budget);
    if ok {
        counted
    } else {
        *t
    }
}

/// Casts a quadratic ballot against the fixed voice-credit budget: the
/// ballot counts only if the sum of its squared allocations is at most
/// `VOICE_CREDIT_BUDGET`.
pub fn cast_vote(alloc: &VoteAllocation, tallies: &VoteTallies) -> (r: VoteTallies)
    ensures
        r == quadratic_vote_spec(*alloc, *tallies, VOICE_CREDIT_BUDGET),
{
    apply_quadratic_vote(alloc, tallies, VOICE_CREDIT_BUDGET)
}

/// Casts a single-choice ballot: each option's counter grows by one exactly
/// when it is the choice, and the total always grows by one.
pub fn cast_simple_vote(choice: u8, tallies: &VoteTallies) -> (r: VoteTallies)
    ensures
        r == simple_vote_spec(choice, *tallies),
{
    let i0: u64 = if choice == 0 { 1 } else { 0 };
    let i1: u64 = if choice == 1 { 1 } else { 0 };
    let i2: u64 = if choice == 2 { 1 } else { 0 };
    let i3: u64 = if choice == 3 { 1 } else { 0 };
    VoteTallies {
        option_0: tallies.option_0.wrapping_add(i0),
        option_1: tallies.option_1.wrapping_add(i1),
        option_2: tallies.option_2.wrapping_add(i2),
        option_3: tallies.option_3.wrapping_add(i3),
        total_votes: tallies.total_votes.wrapping_add(1),
    }
}

/// Reveals the tallies and picks the winner: the option with the most votes,
/// and among equal maxima the lowest index, since each later option must beat
/// the running maximum strictly.
pub fn reveal_results(tallies: &VoteTallies) -> (r: RevealedResults)
    ensures
        r == reveal_spec(*tallies),
        r.winner < NUM_OPTIONS,
        forall|i: int| 0 <= i < 4 ==> #[trigger] tallies.count(i) <= tallies.count(r.winner as int),
        forall|i: int| 0 <= i < r.winner ==> #[trigger] tallies.count(i) < tallies.count(r.winner as int),
{
    let mut max_votes: u64 = tallies.option_0;
    let mut winner: u8 = 0;
    if tallies.option_1 > max_votes {
        max_votes = tallies.option_1;
        winner = 1;
    }
    if tallies.option_2 > max_votes {
        max_votes = tallies.option_2;
        winner = 2;
    }
    if tallies.option_3 > max_votes {
        winner = 3;
    }
    RevealedResults {
        option_0: tallies.option_0,
        option_1: tallies.option_1,
        option_2: tallies.option_2,
        option_3: tallies.option_3,
        total_votes: tallies.total_votes,
        winner,
    }
}

} // verus!
