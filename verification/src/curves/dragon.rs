//! Computations and abstractions needed for rendering a dragon fractal.
use vstd::arithmetic::power2::{
    lemma2_to64, lemma2_to64_rest, lemma_pow2_strictly_increases, lemma_pow2_unfold, pow2,
};
use vstd::bits::lemma_u64_shl_is_mul;
use vstd::prelude::*;

verus! {

/// The direction of a turn of the dragon curve.
#[derive(Copy, Clone, Debug, Eq, PartialEq)]
pub enum Turn {
    Left,
    Right,
}

/// Represents the computations needed to render a dragon fractal of a particular iteration.
#[derive(Copy, Clone, Debug)]
pub struct DragonFractal {
    iterations: u64,
}

/// The number of lines of the dragon of iteration `iterations`: 2^iterations, computed in 64
/// bits (so the dragon of iteration 64 has none).
pub open spec fn dragon_steps(iterations: nat) -> nat {
    if iterations < 64 {
        pow2(iterations)
    } else {
        0
    }
}

/// `n` with every factor 2 divided out (0 stays 0).
pub open spec fn odd_part(n: nat) -> nat
    decreases n,
{
    if n > 0 && n % 2 == 0 {
        odd_part(n / 2)
    } else {
        n
    }
}

/// The turn the dragon takes after its `step`-th move forward: left when the odd part of `step`
/// is 1 more than a multiple of 4, right otherwise (the regular paper-folding sequence).
pub open spec fn spec_turn_after_step(step: nat) -> Turn {
    if odd_part(step) % 4 == 1 {
        Turn::Left
    } else {
        Turn::Right
    }
}

impl DragonFractal {
    /// The iteration this fractal draws.
    pub closed spec fn spec_iterations(self) -> u64 {
        self.iterations
    }

    /// Create a new DragonFractal. `iterations` is the number of times you would "fold" the
    /// curve in half.
    pub fn new(iterations: u64) -> (r: DragonFractal)
        ensures
            r.spec_iterations() == iterations,
    {
        DragonFractal { iterations }
    }

    /// The iteration this fractal draws.
    pub fn iterations(self) -> (r: u64)
        ensures
            r == self.spec_iterations(),
    {
        self.iterations
    }

    /// The number of lines that will be drawn.
    ///
    /// Essentially: 2^(iterations)
    pub fn number_of_steps(self) -> (r: u64)
        requires
            self.spec_iterations() <= 64,
        ensures
            r == dragon_steps(self.spec_iterations() as nat),
    {
        proof {
            lemma2_to64();
        }
        match self.iterations {
            0 => 1,
            1 => 2,
            2 => 4,
            _ => {
                let shift: u64 = self.iterations - 1;
                proof {
                    if shift < 63 {
                        lemma2_to64_rest();
                        lemma_pow2_strictly_increases(shift as nat, 63);
                        lemma_u64_shl_is_mul(2, shift);
                        lemma_pow2_unfold(self.iterations as nat);
                    } else {
                        assert(2u64 << 63u64 == 0u64) by (bit_vector);
                    }
                }
                2 << shift
            },
        }
    }

    /// Whether to turn left or right after a move forward.
    pub fn turn_after_step(step: u64) -> (r: Turn)
        ensures
            r == spec_turn_after_step(step as nat),
    {
        let mut step_without_twos = step;
        while step_without_twos != 0 && (step_without_twos % 2) == 0
            invariant
                odd_part(step_without_twos as nat) == odd_part(step as nat),
            decreases step_without_twos,
        {
            step_without_twos = step_without_twos / 2;
        }
        if step_without_twos % 4 == 1 {
            Turn::Left
        } else {
            Turn::Right
        }
    }
}

/// The dragon never has more than 2^63 lines.
proof fn lemma_steps_bound(n: nat)
    ensures
        dragon_steps(n) <= 0x8000_0000_0000_0000,
{
    lemma2_to64();
    lemma2_to64_rest();
    if n < 63 {
        lemma_pow2_strictly_increases(n, 63);
    }
}

/// Folding the paper once more doubles the number of lines.
pub proof fn lemma_steps_double(n: nat)
    requires
        n + 1 < 64,
    ensures
        dragon_steps(n + 1) == 2 * dragon_steps(n),
{
    lemma_pow2_unfold(n + 1);
}

/// The unfolded dragon is one line, and the dragon folded 64 times has none left in 64 bits.
pub proof fn lemma_steps_ends()
    ensures
        dragon_steps(0) == 1,
        dragon_steps(1) == 2,
        dragon_steps(64) == 0,
{
    lemma2_to64();
}

/// The dragon's program alternates: its `2k`-th step is a move forward, and its `2k + 1`-th step
/// is the turn after the `k + 1`-th line.
pub proof fn lemma_program_alternates(steps: nat, k: nat)
    requires
        k < steps,
    ensures
        dragon_program(steps).len() == 2 * steps,
        dragon_program(steps)[2 * k as int] == DragonStep::Forward,
        dragon_program(steps)[2 * k as int + 1] == DragonStep::Turn(spec_turn_after_step(k + 1)),
{
    assert((2 * k) % 2 == 0);
    assert((2 * k + 1) % 2 == 1);
    assert((2 * k + 1) / 2 == k);
}

/// The turn after step `2k` is the turn after step `k`: the dragon repeats itself at every
/// scale.
pub proof fn lemma_turn_after_double_step(k: nat)
    ensures
        spec_turn_after_step(2 * k) == spec_turn_after_step(k),
{
    if k > 0 {
        assert(odd_part(2 * k) == odd_part(k));
    }
}

/// The odd steps alternate: after step `4k + 1` the dragon turns left, after step `4k + 3` it
/// turns right.
pub proof fn lemma_turn_after_odd_step(k: nat)
    ensures
        spec_turn_after_step(4 * k + 1) == Turn::Left,
        spec_turn_after_step(4 * k + 3) == Turn::Right,
{
    assert(odd_part(4 * k + 1) == 4 * k + 1);
    assert(odd_part(4 * k + 3) == 4 * k + 3);
}

/// One instruction of the dragon's turtle program.
#[derive(Copy, Clone, Debug, Eq, PartialEq)]
pub enum DragonStep {
    /// Draw one line forward.
    Forward,
    /// Turn a quarter turn.
    Turn(Turn),
}

/// The dragon's turtle program for `steps` lines: a move forward, then the turn after that
/// step, for every step from 1 to `steps`.
pub open spec fn dragon_program(steps: nat) -> Seq<DragonStep> {
    Seq::new(
        2 * steps,
        |i: int|
            if i % 2 == 0 {
                DragonStep::Forward
            } else {
                DragonStep::Turn(spec_turn_after_step((i / 2 + 1) as nat))
            },
    )
}

/// The number of lines (moves forward) in a dragon program.
pub open spec fn count_lines(program: Seq<DragonStep>) -> nat
    decreases program.len(),
{
    if program.len() == 0 {
        0
    } else {
        count_lines(program.drop_last()) + if program.last() == DragonStep::Forward {
            1nat
        } else {
            0nat
        }
    }
}

/// The dragon's program for `steps` lines draws exactly `steps` lines: every step is one move
/// forward followed by one turn.
pub proof fn lemma_program_draws_steps_lines(steps: nat)
    ensures
        count_lines(dragon_program(steps)) == steps,
    decreases steps,
{
    if steps > 0 {
        lemma_program_draws_steps_lines((steps - 1) as nat);
        let p = dragon_program(steps);
        assert(p.drop_last().drop_last() =~= dragon_program((steps - 1) as nat));
        assert(p.last() != DragonStep::Forward);
        assert(p.drop_last().last() == DragonStep::Forward);
        assert(count_lines(p) == count_lines(p.drop_last()));
        assert(count_lines(p.drop_last()) == count_lines(p.drop_last().drop_last()) + 1);
    }
}

/// Iterator that emits the dragon fractal's turtle program, one `DragonStep` at a time.
pub struct DragonFractalTurtleProgramIterator {
    dragon: DragonFractal,
    curr_step: u64,
    move_next: bool,
}

impl DragonFractalTurtleProgramIterator {
    #[verifier::type_invariant]
    spec fn within_program(self) -> bool {
        let steps = dragon_steps(self.dragon.iterations as nat);
        &&& self.dragon.iterations <= 64
        &&& 1 <= self.curr_step <= steps + 1
        &&& self.curr_step == steps + 1 ==> self.move_next
    }

    /// The whole program this iterator emits.
    pub closed spec fn program(self) -> Seq<DragonStep> {
        dragon_program(dragon_steps(self.dragon.iterations as nat))
    }

    /// How many steps of the program have been emitted.
    pub closed spec fn position(self) -> nat {
        (2 * (self.curr_step - 1) + if self.move_next {
            0int
        } else {
            1int
        }) as nat
    }

    /// Emits the next step of the program, or `None` once the whole program was emitted.
    pub fn next(&mut self) -> (r: Option<DragonStep>)
        ensures
            final(self).program() == old(self).program(),
            old(self).position() < old(self).program().len() ==> {
                &&& r == Some(old(self).program()[old(self).position() as int])
                &&& final(self).position() == old(self).position() + 1
            },
            old(self).position() >= old(self).program().len() ==> {
                &&& r is None
                &&& final(self).position() == old(self).position()
            },
    {
        proof {
            use_type_invariant(&*self);
            lemma_steps_bound(self.dragon.iterations as nat);
        }
        if self.curr_step > self.dragon.number_of_steps() {
            return None;
        }
        if self.move_next {
            self.move_next = false;
            Some(DragonStep::Forward)
        } else {
            let turn = DragonFractal::turn_after_step(self.curr_step);
            self.move_next = true;
            self.curr_step = self.curr_step + 1;
            Some(DragonStep::Turn(turn))
        }
    }
}

impl DragonFractal {
    /// The dragon's turtle program, from its first step.
    pub fn turtle_program_iter(&self) -> (r: DragonFractalTurtleProgramIterator)
        requires
            self.spec_iterations() <= 64,
        ensures
            r.program() == dragon_program(dragon_steps(self.spec_iterations() as nat)),
            r.position() == 0,
    {
        DragonFractalTurtleProgramIterator { dragon: *self, curr_step: 1, move_next: true }
    }
}

} // verus!
