//! Computations and abstractions needed for rendering a triangular Cesàro fractal.
use crate::lindenmayer::LindenmayerSystem;
use vstd::prelude::*;

verus! {

/// A triangular Cesàro fractal of a particular iteration.
#[derive(Copy, Clone, Debug)]
pub struct CesaroTriFractal {
    iterations: u64,
}

/// The alphabet of the triangular Cesàro fractal's Lindenmayer system.
#[derive(Copy, Clone, Debug, Eq, PartialEq)]
pub enum LSA {
    /// Side 1.
    F1,
    /// Side 2.
    F2,
    /// Side 3.
    F3,
    /// Corner 1.
    Q1,
    /// Corner 2.
    Q2,
    /// Corner 3.
    Q3,
    /// Turn left.
    L,
    /// Turn right.
    R,
}

/// The rule of the triangular Cesàro fractal: every side symbol `Fi` becomes
/// `Fi L Fi R R Fi L Fi`, the corners and turns stay.
pub open spec fn cesarotri_rule(symbol: LSA) -> Seq<LSA> {
    match symbol {
        LSA::F1 => seq![LSA::F1, LSA::L, LSA::F1, LSA::R, LSA::R, LSA::F1, LSA::L, LSA::F1],
        LSA::F2 => seq![LSA::F2, LSA::L, LSA::F2, LSA::R, LSA::R, LSA::F2, LSA::L, LSA::F2],
        LSA::F3 => seq![LSA::F3, LSA::L, LSA::F3, LSA::R, LSA::R, LSA::F3, LSA::L, LSA::F3],
        x => seq![x],
    }
}

impl CesaroTriFractal {
    /// The iteration this fractal draws.
    pub closed spec fn spec_iterations(self) -> u64 {
        self.iterations
    }

    /// Creates the triangular Cesàro fractal of iteration `iterations`.
    pub fn new(iterations: u64) -> (r: Result<CesaroTriFractal, &'static str>)
        ensures
            r matches Ok(t) && t.spec_iterations() == iterations,
    {
        Ok(CesaroTriFractal { iterations })
    }

    /// The iteration this fractal draws.
    pub fn iterations(self) -> (r: u64)
        ensures
            r == self.spec_iterations(),
    {
        self.iterations
    }
}

impl LindenmayerSystem<LSA> for CesaroTriFractal {
    open spec fn spec_initial(&self) -> Seq<LSA> {
        seq![LSA::F1, LSA::Q1, LSA::F2, LSA::Q2, LSA::F3, LSA::Q3]
    }

    open spec fn spec_rule(&self, symbol: LSA) -> Seq<LSA> {
        cesarotri_rule(symbol)
    }

    fn initial(&self) -> (r: Vec<LSA>)
        ensures
            r@ == seq![LSA::F1, LSA::Q1, LSA::F2, LSA::Q2, LSA::F3, LSA::Q3],
    {
        vec![LSA::F1, LSA::Q1, LSA::F2, LSA::Q2, LSA::F3, LSA::Q3]
    }

    fn apply_rule(&self, curr_symbol: LSA) -> (r: Vec<LSA>)
        ensures
            curr_symbol == LSA::F1 ==> r@ == seq![LSA::F1, LSA::L, LSA::F1, LSA::R, LSA::R, LSA::F1, LSA::L, LSA::F1],
            curr_symbol == LSA::F2 ==> r@ == seq![LSA::F2, LSA::L, LSA::F2, LSA::R, LSA::R, LSA::F2, LSA::L, LSA::F2],
            curr_symbol == LSA::F3 ==> r@ == seq![LSA::F3, LSA::L, LSA::F3, LSA::R, LSA::R, LSA::F3, LSA::L, LSA::F3],
            curr_symbol != LSA::F1 && curr_symbol != LSA::F2 && curr_symbol != LSA::F3 ==> r@ == seq![curr_symbol],
    {
        match curr_symbol {
            LSA::F1 => vec![LSA::F1, LSA::L, LSA::F1, LSA::R, LSA::R, LSA::F1, LSA::L, LSA::F1],
            LSA::F2 => vec![LSA::F2, LSA::L, LSA::F2, LSA::R, LSA::R, LSA::F2, LSA::L, LSA::F2],
            LSA::F3 => vec![LSA::F3, LSA::L, LSA::F3, LSA::R, LSA::R, LSA::F3, LSA::L, LSA::F3],
            x => vec![x],
        }
    }
}

/// The triangular Cesàro fractal's Lindenmayer system: its initial string, and its rules, under
/// which each side symbol is rewritten as listed and every other symbol stays as it is.
pub proof fn lemma_cesarotri_rules(c: CesaroTriFractal)
    ensures
        c.spec_initial() == seq![LSA::F1, LSA::Q1, LSA::F2, LSA::Q2, LSA::F3, LSA::Q3],
        c.spec_rule(LSA::F1) == seq![LSA::F1, LSA::L, LSA::F1, LSA::R, LSA::R, LSA::F1, LSA::L, LSA::F1],
        c.spec_rule(LSA::F2) == seq![LSA::F2, LSA::L, LSA::F2, LSA::R, LSA::R, LSA::F2, LSA::L, LSA::F2],
        c.spec_rule(LSA::F3) == seq![LSA::F3, LSA::L, LSA::F3, LSA::R, LSA::R, LSA::F3, LSA::L, LSA::F3],
        c.spec_rule(LSA::Q1) == seq![LSA::Q1],
        c.spec_rule(LSA::Q2) == seq![LSA::Q2],
        c.spec_rule(LSA::Q3) == seq![LSA::Q3],
        c.spec_rule(LSA::L) == seq![LSA::L],
        c.spec_rule(LSA::R) == seq![LSA::R],
{
}

} // verus!
