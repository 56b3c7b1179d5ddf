//! Computations and abstractions needed for rendering a terdragon fractal.
use crate::lindenmayer::{derive_generation, rewrite, lemma_rewrite_push, LindenmayerSystem};
use vstd::arithmetic::power::pow;
use vstd::prelude::*;

verus! {

broadcast use vstd::seq_lib::group_seq_properties;

/// Represents the computations needed to render a terdragon fractal of a particular iteration.
/// It uses a Lindenmayer system under the hood.
#[derive(Copy, Clone, Debug)]
pub struct TerdragonFractal {
    iterations: u64,
}

/// The alphabet of the terdragon's Lindenmayer system.
#[derive(Copy, Clone, Debug, Eq, PartialEq)]
pub enum LSA {
    /// Move forward.
    F,
    /// Turn left 120 degrees.
    L,
    /// Turn right 120 degrees.
    R,
}

/// The rule of the terdragon: every `F` becomes `F L F R F`, the turns stay as they are.
pub open spec fn terdragon_rule(symbol: LSA) -> Seq<LSA> {
    match symbol {
        LSA::F => seq![LSA::F, LSA::L, LSA::F, LSA::R, LSA::F],
        x => seq![x],
    }
}

/// The number of `F` (forward moves) in a terdragon string.
pub open spec fn count_forward(s: Seq<LSA>) -> nat
    decreases s.len(),
{
    if s.len() == 0 {
        0
    } else {
        count_forward(s.drop_last()) + if s.last() == LSA::F {
            1nat
        } else {
            0nat
        }
    }
}

impl TerdragonFractal {
    /// The iteration this fractal draws.
    pub closed spec fn spec_iterations(self) -> u64 {
        self.iterations
    }

    /// Create a new TerdragonFractal. `iterations` is the number of generations to apply to
    /// the Lindenmayer system used to generate the fractal's turns.
    pub fn new(iterations: u64) -> (r: Result<TerdragonFractal, &'static str>)
        ensures
            r matches Ok(t) && t.spec_iterations() == iterations,
    {
        Ok(TerdragonFractal { iterations })
    }

    /// The iteration this fractal draws.
    pub fn iterations(self) -> (r: u64)
        ensures
            r == self.spec_iterations(),
    {
        self.iterations
    }

    /// The number of lines that will be drawn.
    ///
    /// Essentially: 3^(iterations)
    pub fn number_of_steps(self) -> (r: u64)
        requires
            pow(3, self.spec_iterations() as nat) <= u64::MAX,
        ensures
            r == pow(3, self.spec_iterations() as nat),
    {
        let mut steps: u64 = 1;
        let mut i: u64 = 0;
        proof {
            reveal(pow);
        }
        while i < self.iterations
            invariant
                i <= self.iterations,
                steps == pow(3, i as nat),
                pow(3, self.iterations as nat) <= u64::MAX,
            decreases self.iterations - i,
        {
            proof {
                reveal(pow);
                vstd::arithmetic::power::lemma_pow_increases(3, (i + 1) as nat, self.iterations as nat);
            }
            steps = steps * 3;
            i = i + 1;
        }
        steps
    }
}

impl LindenmayerSystem<LSA> for TerdragonFractal {
    open spec fn spec_initial(&self) -> Seq<LSA> {
        seq![LSA::F]
    }

    open spec fn spec_rule(&self, symbol: LSA) -> Seq<LSA> {
        terdragon_rule(symbol)
    }

    fn initial(&self) -> (r: Vec<LSA>)
        ensures
            r@ == seq![LSA::F],
    {
        vec![LSA::F]
    }

    fn apply_rule(&self, curr_symbol: LSA) -> (r: Vec<LSA>)
        ensures
            curr_symbol == LSA::F ==> r@ == seq![LSA::F, LSA::L, LSA::F, LSA::R, LSA::F],
            curr_symbol != LSA::F ==> r@ == seq![curr_symbol],
    {
        match curr_symbol {
            LSA::F => vec![LSA::F, LSA::L, LSA::F, LSA::R, LSA::F],
            x => vec![x],
        }
    }
}

/// Counting forward moves distributes over concatenation.
proof fn lemma_count_forward_concat(a: Seq<LSA>, b: Seq<LSA>)
    ensures
        count_forward(a + b) == count_forward(a) + count_forward(b),
    decreases b.len(),
{
    if b.len() == 0 {
        assert(a + b =~= a);
    } else {
        lemma_count_forward_concat(a, b.drop_last());
        assert((a + b).drop_last() =~= a + b.drop_last());
    }
}

/// One generation of the terdragon triples the number of forward moves.
pub proof fn lemma_rewrite_triples_forward(s: Seq<LSA>)
    ensures
        count_forward(rewrite(|a: LSA| terdragon_rule(a), s)) == 3 * count_forward(s),
    decreases s.len(),
{
    let rule = |a: LSA| terdragon_rule(a);
    if s.len() == 0 {
        assert(rewrite(rule, s) =~= Seq::<LSA>::empty());
    } else {
        let init = s.drop_last();
        lemma_rewrite_triples_forward(init);
        assert(s =~= init.push(s.last()));
        lemma_rewrite_push(rule, init, s.last());
        lemma_count_forward_concat(rewrite(rule, init), rule(s.last()));
        reveal_with_fuel(count_forward, 6);
    }
}

/// The terdragon of iteration `n` draws exactly `number_of_steps()` lines: its Lindenmayer
/// string holds 3^n forward moves.
pub proof fn lemma_forward_moves_are_steps(t: TerdragonFractal, n: nat)
    ensures
        count_forward(derive_generation(t.spec_initial(), |a: LSA| t.spec_rule(a), n)) == pow(3, n),
    decreases n,
{
    let rule = |a: LSA| t.spec_rule(a);
    assert(rule =~= (|a: LSA| terdragon_rule(a)));
    if n == 0 {
        reveal(pow);
        reveal_with_fuel(count_forward, 2);
    } else {
        lemma_forward_moves_are_steps(t, (n - 1) as nat);
        lemma_rewrite_triples_forward(derive_generation(t.spec_initial(), rule, (n - 1) as nat));
        reveal(pow);
    }
}

/// The terdragon's Lindenmayer system: its initial string, and its rules, under which
/// `F` is rewritten as listed and every other symbol stays as it is.
pub proof fn lemma_terdragon_rules(c: TerdragonFractal)
    ensures
        c.spec_initial() == seq![LSA::F],
        c.spec_rule(LSA::F) == seq![LSA::F, LSA::L, LSA::F, LSA::R, LSA::F],
        c.spec_rule(LSA::L) == seq![LSA::L],
        c.spec_rule(LSA::R) == seq![LSA::R],
{
}

} // verus!
