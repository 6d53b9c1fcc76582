use crate::random_fetcher::RandomFetcher;
use vstd::prelude::*;

verus! {

/// The settings that every connection's stream is built from: the bounds of
/// its random producer and the refill period, in seconds.
pub struct SharedState {
    max_batch: u16,
    max_number: u16,
    repeat_secs: u64,
}

impl SharedState {
    pub closed spec fn spec_max_batch(&self) -> u16 {
        self.max_batch
    }

    pub closed spec fn spec_max_number(&self) -> u16 {
        self.max_number
    }

    pub closed spec fn spec_repeat_secs(&self) -> u64 {
        self.repeat_secs
    }

    /// Whether a producer can be built from these bounds: a batch size must be
    /// drawable, and so must a number whenever a batch can hold one.
    pub open spec fn bounds_drawable(max_batch: u16, max_number: u16) -> bool {
        &&& max_batch > 0
        &&& max_batch > 1 ==> max_number > 0
    }

    pub fn new(max_batch: u16, max_number: u16, repeat_secs: u64) -> (r: Self)
        ensures
            r.spec_max_batch() == max_batch,
            r.spec_max_number() == max_number,
            r.spec_repeat_secs() == repeat_secs,
    {
        SharedState { max_batch, max_number, repeat_secs }
    }

    pub fn max_batch(&self) -> (r: u16)
        ensures
            r == self.spec_max_batch(),
    {
        self.max_batch
    }

    pub fn max_number(&self) -> (r: u16)
        ensures
            r == self.spec_max_number(),
    {
        self.max_number
    }

    pub fn repeat_secs(&self) -> (r: u64)
        ensures
            r == self.spec_repeat_secs(),
    {
        self.repeat_secs
    }

    /// A fresh producer for one connection, with these bounds; `None` where
    /// the bounds leave nothing to draw from.
    pub fn new_fetcher(&self) -> (r: Option<RandomFetcher>)
        ensures
            r is Some <==> Self::bounds_drawable(self.spec_max_batch(), self.spec_max_number()),
            r matches Some(f) ==> f.spec_max_batch() == self.spec_max_batch()
                && f.spec_max_number() == self.spec_max_number(),
    {
        if self.max_batch > 0 && (self.max_batch == 1 || self.max_number > 0) {
            Some(RandomFetcher::new(self.max_batch, self.max_number))
        } else {
            None
        }
    }
}

} // verus!
