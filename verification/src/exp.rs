//! The exponentiation-event model: the decomposition of one modular
//! exponentiation `base ^ exponent mod 2^256` into an ordered sequence of
//! modular-multiplication triples, each independently checkable.

use vstd::prelude::*;
use vstd::arithmetic::div_mod::lemma_small_mod;
use vstd::arithmetic::power::pow;
use vstd::arithmetic::power2::{lemma2_to64, lemma_pow2_strictly_increases, pow2};
use crate::evm_types::Word;

verus! {

/// Intermediary multiplication step, representing `a * b == d (mod 2^256)`.
#[derive(Clone, Debug, PartialEq, Eq)]
pub struct ExpStep {
    /// First multiplicand.
    pub a: Word,
    /// Second multiplicand.
    pub b: Word,
    /// Multiplication result.
    pub d: Word,
}

impl ExpStep {
    /// The step's defining relation: the recorded result is the product of
    /// the two multiplicands, reduced modulo `2^256`.
    pub open spec fn holds(self) -> bool {
        self.d.as_nat() == (self.a.as_nat() * self.b.as_nat()) % pow2(256)
    }
}

impl From<(Word, Word, Word)> for ExpStep {
    /// Pack a `(a, b, d)` triple into a step.
    fn from(values: (Word, Word, Word)) -> (r: ExpStep)
        ensures
            r.a == values.0,
            r.b == values.1,
            r.d == values.2,
    {
        ExpStep { a: values.0, b: values.1, d: values.2 }
    }
}

impl vstd::std_specs::convert::FromSpecImpl<(Word, Word, Word)> for ExpStep {
    open spec fn obeys_from_spec() -> bool {
        true
    }

    open spec fn from_spec(values: (Word, Word, Word)) -> ExpStep {
        ExpStep { a: values.0, b: values.1, d: values.2 }
    }
}

/// Event representing an exponentiation `base ^ exponent == exponentiation
/// (mod 2^256)`, with the square-and-multiply schedule's multiplications
/// recorded in the exact order the circuit replays them. The schedule itself
/// is produced upstream; this container owns the per-step invariant.
#[derive(Clone, Debug)]
pub struct ExpEvent {
    /// Ordinal of this exponentiation within its trace.
    pub identifier: usize,
    /// Base of the exponentiation.
    pub base: Word,
    /// Exponent of the exponentiation.
    pub exponent: Word,
    /// The exponentiation result, reduced modulo `2^256`.
    pub exponentiation: Word,
    /// The intermediate modular multiplications, in replay order.
    pub steps: Vec<ExpStep>,
}

impl ExpEvent {
    /// A sound exponentiation event: every recorded step is a true modular
    /// multiplication, and the recorded result is the modular power of the
    /// base by the exponent.
    pub open spec fn well_formed(self) -> bool {
        &&& forall|i: int| 0 <= i < self.steps@.len() ==> (#[trigger] self.steps@[i]).holds()
        &&& self.exponentiation.as_nat() == pow(self.base.as_nat() as int, self.exponent.as_nat())
            % (pow2(256) as int)
    }
}

impl Default for ExpEvent {
    /// The canonical smoke-test fixture: `2 ^ 2 == 4` through the single
    /// multiplication step `2 * 2 == 4`.
    fn default() -> (r: Self)
        ensures
            r.identifier == 0,
            r.base.as_nat() == 2,
            r.exponent.as_nat() == 2,
            r.exponentiation.as_nat() == 4,
            r.steps@.len() == 1,
            r.steps@[0] == (ExpStep { a: r.base, b: r.base, d: r.exponentiation }),
            r.well_formed(),
    {
        let base = Word::from_u64(2);
        let exponentiation = Word::from_u64(4);
        let mut steps: Vec<ExpStep> = Vec::new();
        steps.push(ExpStep { a: base, b: base, d: exponentiation });
        let r = ExpEvent {
            identifier: 0,
            base,
            exponent: base,
            exponentiation,
            steps,
        };
        proof {
            lemma2_to64();
            lemma_pow2_strictly_increases(3, 256);
            lemma_small_mod(4, pow2(256));
            reveal_with_fuel(pow, 3);
            assert(pow(2, 2) == 4);
        }
        r
    }
}

} // verus!
