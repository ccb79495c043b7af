use vstd::prelude::*;

verus! {

/// A source of uniformly distributed 32-bit values; subdivision draws one
/// value per Bernoulli trial.  Nothing is promised of the values, so every
/// caller is verified for every possible outcome.
pub trait RandomSource {
    fn next_unit(&mut self) -> u32;
}

/// A deterministic source that hands out a fixed script of values, cycling
/// once the script is exhausted.  Meant for reproducible runs.
pub struct ScriptedSource {
    pub values: Vec<u32>,
    pub index: usize,
}

impl ScriptedSource {
    pub fn new(values: Vec<u32>) -> (r: ScriptedSource)
        ensures
            r.values == values,
            r.index == 0,
    {
        ScriptedSource { values, index: 0 }
    }
}

impl RandomSource for ScriptedSource {
    fn next_unit(&mut self) -> u32 {
        if self.values.len() == 0 {
            return 0;
        }
        let ix = self.index % self.values.len();
        let v = self.values[ix];
        self.index = ix + 1;
        v
    }
}

/// A source backed by the process's thread-local random generator.
pub struct ThreadSource;

/// Relies on rand::thread_rng and rand::Rng::gen::<u32>: a uniformly
/// distributed value; nothing can be promised of it.
#[verifier::external_body]
fn thread_random_u32() -> u32 {
    rand::Rng::gen::<u32>(&mut rand::thread_rng())
}

impl RandomSource for ThreadSource {
    fn next_unit(&mut self) -> u32 {
        thread_random_u32()
    }
}

} // verus!
