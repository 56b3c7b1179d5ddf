//! Computations and abstractions needed for rendering a Cesàro fractal.
use crate::lindenmayer::LindenmayerSystem;
use vstd::prelude::*;

verus! {

/// A square Cesàro fractal (torn square) of a particular iteration.
#[derive(Copy, Clone, Debug)]
pub struct CesaroFractal {
    iterations: u64,
}

/// The alphabet of the Cesàro fractal's Lindenmayer system.
#[derive(Copy, Clone, Debug, Eq, PartialEq)]
pub enum LSA {
    /// Move forward.
    F,
    /// Corner of the square.
    Q,
    /// Turn left.
    L,
    /// Turn right.
    R,
}

/// The rule of the Cesàro fractal: every `F` becomes `F L F R R F L F`, the rest stays.
pub open spec fn cesaro_rule(symbol: LSA) -> Seq<LSA> {
    match symbol {
        LSA::F => seq![LSA::F, LSA::L, LSA::F, LSA::R, LSA::R, LSA::F, LSA::L, LSA::F],
        x => seq![x],
    }
}

impl CesaroFractal {
    /// The iteration this fractal draws.
    pub closed spec fn spec_iterations(self) -> u64 {
        self.iterations
    }

    /// Creates the Cesàro fractal of iteration `iterations`.
    pub fn new(iterations: u64) -> (r: CesaroFractal)
        ensures
            r.spec_iterations() == iterations,
    {
        CesaroFractal { iterations }
    }

    /// The iteration this fractal draws.
    pub fn iterations(self) -> (r: u64)
        ensures
            r == self.spec_iterations(),
    {
        self.iterations
    }
}

impl LindenmayerSystem<LSA> for CesaroFractal {
    open spec fn spec_initial(&self) -> Seq<LSA> {
        seq![LSA::F, LSA::Q, LSA::F, LSA::Q, LSA::F, LSA::Q, LSA::F, LSA::Q]
    }

    open spec fn spec_rule(&self, symbol: LSA) -> Seq<LSA> {
        cesaro_rule(symbol)
    }

    fn initial(&self) -> (r: Vec<LSA>)
        ensures
            r@ == seq![LSA::F, LSA::Q, LSA::F, LSA::Q, LSA::F, LSA::Q, LSA::F, LSA::Q],
    {
        vec![LSA::F, LSA::Q, LSA::F, LSA::Q, LSA::F, LSA::Q, LSA::F, LSA::Q]
    }

    fn apply_rule(&self, curr_symbol: LSA) -> (r: Vec<LSA>)
        ensures
            curr_symbol == LSA::F ==> r@ == seq![LSA::F, LSA::L, LSA::F, LSA::R, LSA::R, LSA::F, LSA::L, LSA::F],
            curr_symbol != LSA::F ==> r@ == seq![curr_symbol],
    {
        match curr_symbol {
            LSA::F => vec![LSA::F, LSA::L, LSA::F, LSA::R, LSA::R, LSA::F, LSA::L, LSA::F],
            x => vec![x],
        }
    }
}

/// The Cesàro fractal's Lindenmayer system: its initial string, and its rules, under which
/// `F` is rewritten as listed and every other symbol stays as it is.
pub proof fn lemma_cesaro_rules(c: CesaroFractal)
    ensures
        c.spec_initial() == seq![LSA::F, LSA::Q, LSA::F, LSA::Q, LSA::F, LSA::Q, LSA::F, LSA::Q],
        c.spec_rule(LSA::F) == seq![LSA::F, LSA::L, LSA::F, LSA::R, LSA::R, LSA::F, LSA::L, LSA::F],
        c.spec_rule(LSA::Q) == seq![LSA::Q],
        c.spec_rule(LSA::L) == seq![LSA::L],
        c.spec_rule(LSA::R) == seq![LSA::R],
{
}

} // verus!
