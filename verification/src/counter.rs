use vstd::prelude::*;

verus! {

/// Which of the three run tallies to address.
#[derive(Clone, Copy)]
pub enum Counters {
    All,
    Media,
    Processed,
}

/// Tallies for one run: entries seen, entries classified as media, and media
/// archived into a year-month bucket. Initialized to zero at run start and
/// only ever incremented.
pub struct Counter {
    all: usize,
    media: usize,
    processed: usize,
}

impl Counter {
    /// The current value of one tally, as a mathematical number.
    pub closed spec fn spec_get(self, which: Counters) -> nat {
        match which {
            Counters::All => self.all as nat,
            Counters::Media => self.media as nat,
            Counters::Processed => self.processed as nat,
        }
    }

    pub fn new() -> (c: Counter)
        ensures
            c.spec_get(Counters::All) == 0,
            c.spec_get(Counters::Media) == 0,
            c.spec_get(Counters::Processed) == 0,
    {
        Counter { all: 0, media: 0, processed: 0 }
    }

    pub fn increment(&mut self, which: Counters)
        requires
            old(self).spec_get(which) < usize::MAX,
        ensures
            final(self).spec_get(which) == old(self).spec_get(which) + 1,
            forall|other: Counters|
                other != which ==> final(self).spec_get(other) == old(self).spec_get(other),
    {
        match which {
            Counters::All => {
                self.all = self.all + 1;
            },
            Counters::Media => {
                self.media = self.media + 1;
            },
            Counters::Processed => {
                self.processed = self.processed + 1;
            },
        }
    }

    pub fn get(&self, which: Counters) -> (n: usize)
        ensures
            n == self.spec_get(which),
    {
        match which {
            Counters::All => self.all,
            Counters::Media => self.media,
            Counters::Processed => self.processed,
        }
    }
}

impl Default for Counter {
    fn default() -> (c: Self)
        ensures
            c.spec_get(Counters::All) == 0,
            c.spec_get(Counters::Media) == 0,
            c.spec_get(Counters::Processed) == 0,
    {
        Counter::new()
    }
}

} // verus!
