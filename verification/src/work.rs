//! The arithmetic that every request performs: a weighted sum of squares,
//! computed term by term in 64-bit arithmetic that wraps around.

use vstd::prelude::*;
use vstd::arithmetic::div_mod::{lemma_add_mod_noop, lemma_mul_mod_noop_left};

verus! {

/// The sum of the squares of the numbers below `n`.
pub open spec fn square_sum(n: nat) -> nat
    decreases n,
{
    if n == 0 {
        0
    } else {
        square_sum((n - 1) as nat) + ((n - 1) * (n - 1)) as nat
    }
}

/// What `checksum` returns: the weighted sum of squares, reduced to 64 bits.
pub open spec fn checksum_value(rounds: nat, weight: nat) -> nat {
    (weight * square_sum(rounds)) % 0x1_0000_0000_0000_0000
}

/// The sum of the squares below `n` in closed form.
pub proof fn lemma_square_sum_closed_form(n: nat)
    ensures
        6 * square_sum(n) == (n - 1) * n * (2 * n - 1),
    decreases n,
{
    if n > 0 {
        let m = (n - 1) as nat;
        lemma_square_sum_closed_form(m);
        assert(6 * square_sum(n) == 6 * square_sum(m) + 6 * (m * m));
        assert((m - 1) * m * (2 * m - 1) + 6 * (m * m) == (n - 1) * n * (2 * n - 1))
            by (nonlinear_arith)
            requires
                m == n - 1,
        ;
    } else {
        assert((n - 1) * n * (2 * n - 1) == 0) by (nonlinear_arith)
            requires
                n == 0,
        ;
    }
}

/// One more round adds the weighted square of the round's number.
proof fn lemma_checksum_step(round: nat, weight: nat)
    ensures
        weight * square_sum(round + 1) == weight * square_sum(round) + round * round * weight,
{
    assert(square_sum(round + 1) == square_sum(round) + round * round);
    assert(weight * (square_sum(round) + round * round) == weight * square_sum(round) + round
        * round * weight) by (nonlinear_arith);
}

/// Sums `weight` times the square of each number below `rounds`, wrapping
/// around at 64 bits.
pub fn checksum(rounds: u64, weight: u64) -> (sum: u64)
    ensures
        sum == checksum_value(rounds as nat, weight as nat),
{
    let mut sum: u64 = 0;
    let mut round: u64 = 0;
    assert(weight * square_sum(0) == 0) by (nonlinear_arith)
        requires
            square_sum(0) == 0,
    ;
    while round < rounds
        invariant
            round <= rounds,
            sum == checksum_value(round as nat, weight as nat),
        decreases rounds - round,
    {
        let square = round.wrapping_mul(round);
        let term = square.wrapping_mul(weight);
        let next = sum.wrapping_add(term);
        proof {
            let m: int = 0x1_0000_0000_0000_0000;
            let before: int = (weight * square_sum(round as nat)) as int;
            let exact: int = (round * round * weight) as int;
            assert(square == (round * round) % m);
            assert(term == (square * weight) % m);
            lemma_mul_mod_noop_left(round * round, weight as int, m);
            assert(term == exact % m);
            assert(next == (sum + term) % m);
            lemma_add_mod_noop(before, exact, m);
            lemma_checksum_step(round as nat, weight as nat);
        }
        sum = next;
        round = round + 1;
    }
    sum
}

} // verus!
