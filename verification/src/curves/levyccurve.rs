//! Computations and abstractions needed for rendering a Lévy C curve.
use crate::lindenmayer::LindenmayerSystem;
use vstd::prelude::*;

verus! {

/// A Lévy C curve of a particular iteration.
#[derive(Copy, Clone, Debug)]
pub struct LevyCCurve {
    iterations: u64,
}

/// The alphabet of the Lévy C curve's Lindenmayer system.
#[derive(Copy, Clone, Debug, Eq, PartialEq)]
pub enum LSA {
    /// Move forward.
    F,
    /// Turn left 45 degrees.
    L,
    /// Turn right 45 degrees.
    R,
}

/// The rule of the Lévy C curve: every `F` becomes `L F R R F L`, the turns stay.
pub open spec fn levy_rule(symbol: LSA) -> Seq<LSA> {
    match symbol {
        LSA::F => seq![LSA::L, LSA::F, LSA::R, LSA::R, LSA::F, LSA::L],
        x => seq![x],
    }
}

impl LevyCCurve {
    /// The iteration this curve draws.
    pub closed spec fn spec_iterations(self) -> u64 {
        self.iterations
    }

    /// Creates the Lévy C curve of iteration `iterations`.
    pub fn new(iterations: u64) -> (r: LevyCCurve)
        ensures
            r.spec_iterations() == iterations,
    {
        LevyCCurve { iterations }
    }

    /// The iteration this curve draws.
    pub fn iterations(self) -> (r: u64)
        ensures
            r == self.spec_iterations(),
    {
        self.iterations
    }
}

impl LindenmayerSystem<LSA> for LevyCCurve {
    open spec fn spec_initial(&self) -> Seq<LSA> {
        seq![LSA::F]
    }

    open spec fn spec_rule(&self, symbol: LSA) -> Seq<LSA> {
        levy_rule(symbol)
    }

    fn initial(&self) -> (r: Vec<LSA>)
        ensures
            r@ == seq![LSA::F],
    {
        vec![LSA::F]
    }

    fn apply_rule(&self, curr_symbol: LSA) -> (r: Vec<LSA>)
        ensures
            curr_symbol == LSA::F ==> r@ == seq![LSA::L, LSA::F, LSA::R, LSA::R, LSA::F, LSA::L],
            curr_symbol != LSA::F ==> r@ == seq![curr_symbol],
    {
        match curr_symbol {
            LSA::F => vec![LSA::L, LSA::F, LSA::R, LSA::R, LSA::F, LSA::L],
            x => vec![x],
        }
    }
}

/// The Lévy C curve's Lindenmayer system: its initial string, and its rules, under which
/// `F` is rewritten as listed and every other symbol stays as it is.
pub proof fn lemma_levy_rules(c: LevyCCurve)
    ensures
        c.spec_initial() == seq![LSA::F],
        c.spec_rule(LSA::F) == seq![LSA::L, LSA::F, LSA::R, LSA::R, LSA::F, LSA::L],
        c.spec_rule(LSA::L) == seq![LSA::L],
        c.spec_rule(LSA::R) == seq![LSA::R],
{
}

} // verus!
