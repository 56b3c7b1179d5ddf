//! Computations and abstractions needed for rendering a Koch snowflake.
use crate::lindenmayer::LindenmayerSystem;
use vstd::prelude::*;

verus! {

/// A Koch snowflake curve of a particular iteration.
#[derive(Copy, Clone, Debug)]
pub struct KochCurve {
    iterations: u64,
}

/// The alphabet of the Koch curve's Lindenmayer system.
#[derive(Copy, Clone, Debug, Eq, PartialEq)]
pub enum LSA {
    /// Move forward.
    F,
    /// Turn left 60 degrees.
    L,
    /// Turn right 60 degrees.
    R,
}

/// The rule of the Koch curve: every `F` becomes `F R F L L F R F`, the turns stay.
pub open spec fn koch_rule(symbol: LSA) -> Seq<LSA> {
    match symbol {
        LSA::F => seq![LSA::F, LSA::R, LSA::F, LSA::L, LSA::L, LSA::F, LSA::R, LSA::F],
        x => seq![x],
    }
}

impl KochCurve {
    /// The iteration this curve draws.
    pub closed spec fn spec_iterations(self) -> u64 {
        self.iterations
    }

    /// Creates the Koch curve of iteration `iterations`.
    pub fn new(iterations: u64) -> (r: KochCurve)
        ensures
            r.spec_iterations() == iterations,
    {
        KochCurve { iterations }
    }

    /// The iteration this curve draws.
    pub fn iterations(self) -> (r: u64)
        ensures
            r == self.spec_iterations(),
    {
        self.iterations
    }
}

impl LindenmayerSystem<LSA> for KochCurve {
    open spec fn spec_initial(&self) -> Seq<LSA> {
        seq![LSA::F, LSA::L, LSA::L, LSA::F, LSA::L, LSA::L, LSA::F]
    }

    open spec fn spec_rule(&self, symbol: LSA) -> Seq<LSA> {
        koch_rule(symbol)
    }

    fn initial(&self) -> (r: Vec<LSA>)
        ensures
            r@ == seq![LSA::F, LSA::L, LSA::L, LSA::F, LSA::L, LSA::L, LSA::F],
    {
        vec![LSA::F, LSA::L, LSA::L, LSA::F, LSA::L, LSA::L, LSA::F]
    }

    fn apply_rule(&self, curr_symbol: LSA) -> (r: Vec<LSA>)
        ensures
            curr_symbol == LSA::F ==> r@ == seq![LSA::F, LSA::R, LSA::F, LSA::L, LSA::L, LSA::F, LSA::R, LSA::F],
            curr_symbol != LSA::F ==> r@ == seq![curr_symbol],
    {
        match curr_symbol {
            LSA::F => vec![LSA::F, LSA::R, LSA::F, LSA::L, LSA::L, LSA::F, LSA::R, LSA::F],
            x => vec![x],
        }
    }
}

/// The Koch curve's Lindenmayer system: its initial string, and its rules, under which
/// `F` is rewritten as listed and every other symbol stays as it is.
pub proof fn lemma_koch_rules(c: KochCurve)
    ensures
        c.spec_initial() == seq![LSA::F, LSA::L, LSA::L, LSA::F, LSA::L, LSA::L, LSA::F],
        c.spec_rule(LSA::F) == seq![LSA::F, LSA::R, LSA::F, LSA::L, LSA::L, LSA::F, LSA::R, LSA::F],
        c.spec_rule(LSA::L) == seq![LSA::L],
        c.spec_rule(LSA::R) == seq![LSA::R],
{
}

} // verus!
