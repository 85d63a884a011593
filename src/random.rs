use rand::Rng;
use rand::rngs::ThreadRng;
use vstd::prelude::*;

use crate::utils::{catalog, Direction, PipeSet, PipeSetError, PIPESET_COUNT};

verus! {

#[verifier::external_type_specification]
#[verifier::external_body]
pub struct ExThreadRng(ThreadRng);

/// Relies on rand::rng: a handle to the generator of the current thread.
#[verifier::external_body]
fn thread_generator() -> ThreadRng {
    rand::rng()
}

/// Relies on rand::Rng::random_range over `low..=high`: a value in the
/// range, which is not empty when `low <= high`.
#[verifier::external_body]
fn uniform_inclusive(rng: &mut ThreadRng, low: i64, high: i64) -> (r: i64)
    requires
        low <= high,
    ensures
        low <= r <= high,
{
    rng.random_range(low..=high)
}

/// Relies on rand::Rng::random for `u8`: any byte.
#[verifier::external_body]
fn uniform_byte(rng: &mut ThreadRng) -> u8 {
    rng.random::<u8>()
}

/// Relies on rand::Rng::random_ratio: true with chance
/// `numerator / denominator`, always when the two are equal, never when the
/// numerator is zero. It panics when `denominator == 0` or
/// `numerator > denominator`.
#[verifier::external_body]
fn bernoulli(rng: &mut ThreadRng, numerator: u32, denominator: u32) -> (r: bool)
    requires
        0 < denominator,
        numerator <= denominator,
    ensures
        numerator == denominator ==> r,
        numerator == 0 ==> !r,
{
    rng.random_ratio(numerator, denominator)
}

/// The random source shared by all pipes of an animation.
pub struct Random {
    rng: ThreadRng,
}

impl Random {
    pub fn new() -> Random {
        Random { rng: thread_generator() }
    }

    /// A point with `0 <= x <= width` and `0 <= y <= height`: the upper
    /// bounds are inclusive, so a point may start just past the grid.
    pub fn get_random_position(&mut self, terminal_size: &[i32; 2]) -> (r: [i64; 2])
        requires
            terminal_size[0] >= 0,
            terminal_size[1] >= 0,
        ensures
            0 <= r[0] <= terminal_size[0],
            0 <= r[1] <= terminal_size[1],
    {
        let x = uniform_inclusive(&mut self.rng, 0, terminal_size[0] as i64);
        let y = uniform_inclusive(&mut self.rng, 0, terminal_size[1] as i64);
        [x, y]
    }

    pub fn get_random_direction(&mut self) -> Direction {
        let i = uniform_inclusive(&mut self.rng, 0, 3);
        Direction::from_index(i as i32)
    }

    pub fn get_random_color(&mut self) -> u8 {
        uniform_byte(&mut self.rng)
    }

    pub fn random_ratio(&mut self, numerator: u32, denominator: u32) -> (r: bool)
        requires
            0 < denominator,
            numerator <= denominator,
        ensures
            numerator == denominator ==> r,
            numerator == 0 ==> !r,
    {
        bernoulli(&mut self.rng, numerator, denominator)
    }

    /// A value in `low..=high`.
    pub fn random_range(&mut self, low: i64, high: i64) -> (r: i64)
        requires
            low <= high,
        ensures
            low <= r <= high,
    {
        uniform_inclusive(&mut self.rng, low, high)
    }

    /// One of the catalog's glyph sets, each as likely as the others.
    pub fn random_pipeset(&mut self) -> (r: Result<PipeSet, PipeSetError>)
        ensures
            r is Ok,
            exists|i: int| 0 <= i < PIPESET_COUNT && r->Ok_0@ == #[trigger] catalog(i),
            r->Ok_0.wf(),
    {
        let i = uniform_inclusive(&mut self.rng, 0, (PIPESET_COUNT - 1) as i64);
        PipeSet::get_pipeset(i as usize)
    }
}

} // verus!
