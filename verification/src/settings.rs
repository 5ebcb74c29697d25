//! Campaign configuration.

use vstd::prelude::*;

verus! {

/// An exact fraction in (0, 1], used for the share of known clients that each
/// round selects. Keeping it as a ratio of integers lets the floor and
/// ceiling conversions of the selection policy be stated and checked exactly.
#[derive(Copy, Clone, PartialEq, Eq, Structural, Debug)]
pub struct Ratio {
    pub numerator: u32,
    pub denominator: u32,
}

impl Ratio {
    /// A well-formed ratio lies in (0, 1].
    pub open spec fn wf(self) -> bool {
        1 <= self.numerator <= self.denominator
    }

    /// The ratio 1, the whole population.
    pub fn one() -> (r: Ratio)
        ensures
            r.numerator == 1 && r.denominator == 1,
            r.wf(),
    {
        Ratio { numerator: 1, denominator: 1 }
    }

    /// The fraction `numerator / denominator`.
    pub fn new(numerator: u32, denominator: u32) -> (r: Ratio)
        ensures
            r.numerator == numerator && r.denominator == denominator,
    {
        Ratio { numerator, denominator }
    }
}

/// `ratio * n`, rounded down.
pub open spec fn floor_ratio(r: Ratio, n: int) -> int {
    (r.numerator * n) / (r.denominator as int)
}

/// `ratio * n`, rounded up.
pub open spec fn ceil_ratio(r: Ratio, n: int) -> int {
    (r.numerator * n + r.denominator - 1) / (r.denominator as int)
}

/// Configuration of one training campaign. The heartbeat timeout is carried
/// for the host's timer service; the state machine itself never reads it.
#[derive(Copy, Clone, PartialEq, Eq, Structural, Debug)]
pub struct FederatedLearningSettings {
    /// Number of rounds to run; training completes after that many
    /// successful aggregations.
    pub rounds: u32,
    /// Fraction of the known clients selected per round.
    pub participants_ratio: Ratio,
    /// Minimum number of known clients before selection may start.
    pub min_clients: u32,
    /// Heartbeat deadline in seconds, applied by the host's timer service.
    pub heartbeat_timeout: u64,
}

impl FederatedLearningSettings {
    /// Recognized configurations: at least one round, at least one client,
    /// and a selection share in (0, 1].
    pub open spec fn wf(self) -> bool {
        &&& self.rounds >= 1
        &&& self.min_clients >= 1
        &&& self.participants_ratio.wf()
    }

    /// `floor(participants_ratio * min_clients)`: once this many clients
    /// participate in the round, selection halts.
    pub open spec fn spec_minimum_participants(self) -> int {
        floor_ratio(self.participants_ratio, self.min_clients as int)
    }

    /// The participant threshold below which more clients are selected.
    pub fn minimum_participants(&self) -> (m: u32)
        requires
            self.wf(),
        ensures
            m == self.spec_minimum_participants(),
    {
        let num = self.participants_ratio.numerator as u64;
        let den = self.participants_ratio.denominator as u64;
        let clients = self.min_clients as u64;
        proof {
            assert(num * clients <= 0xffff_ffff * 0xffff_ffff) by (nonlinear_arith)
                requires
                    num <= 0xffff_ffff,
                    clients <= 0xffff_ffff,
            ;
        }
        let product = num * clients;
        let quotient = product / den;
        proof {
            vstd::arithmetic::mul::lemma_mul_inequality(
                num as int,
                den as int,
                self.min_clients as int,
            );
            vstd::arithmetic::div_mod::lemma_div_is_ordered(
                product as int,
                den * self.min_clients,
                den as int,
            );
            vstd::arithmetic::div_mod::lemma_div_multiples_vanish(
                self.min_clients as int,
                den as int,
            );
            vstd::arithmetic::div_mod::lemma_div_pos_is_pos(product as int, den as int);
        }
        quotient as u32
    }
}

} // verus!
