//! The Mandelbrot set, with generalized support for some multibrot sets.
use vstd::prelude::*;

verus! {

/// The Mandelbrot fractal: `f(z) = z^power + c`.
pub struct Mandelbrot {
    max_iters: u64,
    power: u64,
}

impl Mandelbrot {
    /// The cutoff iteration for deciding whether a point escapes.
    pub closed spec fn spec_max_iterations(&self) -> u64 {
        self.max_iters
    }

    /// The exponent of the iterated function.
    pub closed spec fn spec_power(&self) -> u64 {
        self.power
    }

    /// Creates a new escape time specification for the Mandelbrot family of fractals.
    ///
    /// `max_iterations` specifies the cutoff iteration for deciding whether a complex number
    /// escapes or has converged. `power` specifies the exponent (2 for the Mandelbrot set,
    /// 3, 4, etc. for the multibrot sets).
    pub fn new(max_iterations: u64, power: u64) -> (r: Mandelbrot)
        ensures
            r.spec_max_iterations() == max_iterations,
            r.spec_power() == power,
    {
        Mandelbrot { max_iters: max_iterations, power }
    }

    /// The maximum number of iterations to perform before accepting that the value being
    /// iterated will not diverge.
    pub fn max_iterations(&self) -> (r: u64)
        ensures
            r == self.spec_max_iterations(),
    {
        self.max_iters
    }

    /// The exponent of the iterated function.
    pub fn power(&self) -> (r: u64)
        ensures
            r == self.spec_power(),
    {
        self.power
    }
}

} // verus!
