//! Escape time fractals: iterated functions over the complex plane, drawn by how quickly each
//! point escapes. This module holds their parameters.
pub mod burningship;
pub mod mandelbrot;

use vstd::prelude::*;

verus! {

/// The number of colors in the gradient that shades the points that escape: one per iteration,
/// but at most 50.
pub open spec fn spec_gradient_count(max_iterations: u64) -> int {
    if max_iterations < 50 {
        max_iterations as int
    } else {
        50
    }
}

/// The gradient color of a point that escaped after `escape_time` iterations: the color of
/// that iteration, with every escape time from 49 on sharing the last color.
pub open spec fn spec_gradient_index(escape_time: u64) -> int {
    if escape_time < 49 {
        escape_time as int
    } else {
        49
    }
}

/// The number of colors in the gradient that shades the points that escape.
pub fn gradient_count(max_iterations: u64) -> (r: usize)
    ensures
        r == spec_gradient_count(max_iterations),
{
    if max_iterations < 50 {
        max_iterations as usize
    } else {
        50
    }
}

/// The gradient color of a point that escaped after `escape_time` iterations.
pub fn gradient_index(escape_time: u64) -> (r: usize)
    ensures
        r == spec_gradient_index(escape_time),
{
    if escape_time < 49 {
        escape_time as usize
    } else {
        49
    }
}

/// The gradient index of a point that escaped before the last iteration always names a color of
/// the gradient.
pub proof fn lemma_gradient_index_in_range(max_iterations: u64, escape_time: u64)
    requires
        escape_time < max_iterations,
    ensures
        0 <= spec_gradient_index(escape_time) < spec_gradient_count(max_iterations),
{
}

/// The gradient has one color per iteration up to 50 colors, and a point that escaped after
/// `escape_time` iterations gets the color of that iteration, up to the last of the 50.
pub proof fn lemma_gradient_values(max_iterations: u64, escape_time: u64)
    ensures
        max_iterations <= 50 ==> spec_gradient_count(max_iterations) == max_iterations,
        max_iterations >= 50 ==> spec_gradient_count(max_iterations) == 50,
        escape_time <= 49 ==> spec_gradient_index(escape_time) == escape_time,
        escape_time >= 49 ==> spec_gradient_index(escape_time) == 49,
{
}

} // verus!
