//! The burning ship fractal is an iterated function system similar to Mandelbrot, but it is over
//! the complex number function `f(z) = (abs(Re(z)) - i*abs(Im(z)))^2 + c`. This module also
//! contains a few other variations of it that only take the absolute value of one of the
//! components of z.
use vstd::prelude::*;

verus! {

/// The burning ship fractal: `f(z) = (abs(Re(z)) - i*abs(Im(z)))^power + c`.
pub struct BurningShip {
    max_iters: u64,
    power: u64,
}

impl BurningShip {
    /// The cutoff iteration for deciding whether a point escapes.
    pub closed spec fn spec_max_iterations(&self) -> u64 {
        self.max_iters
    }

    /// The exponent of the iterated function.
    pub closed spec fn spec_power(&self) -> u64 {
        self.power
    }

    /// Creates a new escape time specification for the burning ship family of fractals.
    ///
    /// `max_iterations` specifies the cutoff iteration for deciding whether a complex number
    /// escapes or has converged. `power` specifies the exponent (2 for the burning ship
    /// fractal, 3, 4, etc. for the related fractals).
    pub fn new(max_iterations: u64, power: u64) -> (r: BurningShip)
        ensures
            r.spec_max_iterations() == max_iterations,
            r.spec_power() == power,
    {
        BurningShip { max_iters: max_iterations, power }
    }

    /// The maximum number of iterations to perform before accepting that the value being
    /// iterated will not diverge.
    pub fn max_iterations(&self) -> (r: u64)
        ensures
            r == self.spec_max_iterations(),
    {
        self.max_iters
    }

    /// The exponent of the iterated function.
    pub fn power(&self) -> (r: u64)
        ensures
            r == self.spec_power(),
    {
        self.power
    }
}

/// A variation of the burning ship and mandelbrot fractals where only the real part of z
/// is converted to its absolute value: `f(z) = (abs(Re(z)) - i*Im(z))^power + c`.
pub struct BurningMandel {
    max_iters: u64,
    power: u64,
}

impl BurningMandel {
    /// The cutoff iteration for deciding whether a point escapes.
    pub closed spec fn spec_max_iterations(&self) -> u64 {
        self.max_iters
    }

    /// The exponent of the iterated function.
    pub closed spec fn spec_power(&self) -> u64 {
        self.power
    }

    /// Creates a new escape time specification for the burning ship family of fractals.
    ///
    /// `max_iterations` specifies the cutoff iteration for deciding whether a complex number
    /// escapes or has converged. `power` specifies the exponent (2 for the burning ship
    /// fractal, 3, 4, etc. for the related fractals).
    pub fn new(max_iterations: u64, power: u64) -> (r: BurningMandel)
        ensures
            r.spec_max_iterations() == max_iterations,
            r.spec_power() == power,
    {
        BurningMandel { max_iters: max_iterations, power }
    }

    /// The maximum number of iterations to perform before accepting that the value being
    /// iterated will not diverge.
    pub fn max_iterations(&self) -> (r: u64)
        ensures
            r == self.spec_max_iterations(),
    {
        self.max_iters
    }

    /// The exponent of the iterated function.
    pub fn power(&self) -> (r: u64)
        ensures
            r == self.spec_power(),
    {
        self.power
    }
}

/// A variation of the burning ship and mandelbrot fractals where only the imaginary part of
/// z is converted to its absolute value: `f(z) = (Re(z) - i*abs(Im(z)))^power + c`.
pub struct RoadRunner {
    max_iters: u64,
    power: u64,
}

impl RoadRunner {
    /// The cutoff iteration for deciding whether a point escapes.
    pub closed spec fn spec_max_iterations(&self) -> u64 {
        self.max_iters
    }

    /// The exponent of the iterated function.
    pub closed spec fn spec_power(&self) -> u64 {
        self.power
    }

    /// Creates a new escape time specification for the burning ship family of fractals.
    ///
    /// `max_iterations` specifies the cutoff iteration for deciding whether a complex number
    /// escapes or has converged. `power` specifies the exponent (2 for the burning ship
    /// fractal, 3, 4, etc. for the related fractals).
    pub fn new(max_iterations: u64, power: u64) -> (r: RoadRunner)
        ensures
            r.spec_max_iterations() == max_iterations,
            r.spec_power() == power,
    {
        RoadRunner { max_iters: max_iterations, power }
    }

    /// The maximum number of iterations to perform before accepting that the value being
    /// iterated will not diverge.
    pub fn max_iterations(&self) -> (r: u64)
        ensures
            r == self.spec_max_iterations(),
    {
        self.max_iters
    }

    /// The exponent of the iterated function.
    pub fn power(&self) -> (r: u64)
        ensures
            r == self.spec_power(),
    {
        self.power
    }
}

} // verus!
