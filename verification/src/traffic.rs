//! The traffic flags: one per direction, set by the copier of that direction
//! after each chunk it has forwarded, cleared by the supervisor alone.

use crate::endpoint::Direction;
use vstd::prelude::*;

verus! {

/// What the two traffic flags hold: the flag of the forward direction, then
/// that of the backward direction.
pub type Sample = (bool, bool);

/// Whether `sample` shows traffic in `direction`.
pub open spec fn shows_traffic(sample: Sample, direction: Direction) -> bool {
    match direction {
        Direction::Forward => sample.0,
        Direction::Backward => sample.1,
    }
}

/// `sample` with the flag of `direction` set.
pub open spec fn marked(sample: Sample, direction: Direction) -> Sample {
    match direction {
        Direction::Forward => (true, sample.1),
        Direction::Backward => (sample.0, true),
    }
}

/// The traffic flags of one session.
#[derive(Clone, Copy, Debug)]
pub struct TrafficFlags {
    forward: bool,
    backward: bool,
}

impl View for TrafficFlags {
    type V = Sample;

    closed spec fn view(&self) -> Sample {
        (self.forward, self.backward)
    }
}

impl TrafficFlags {
    /// The flags of a fresh session: no traffic seen in either direction.
    pub fn new() -> (flags: TrafficFlags)
        ensures
            flags@ == (false, false),
    {
        TrafficFlags { forward: false, backward: false }
    }

    /// Records that `direction` has forwarded a chunk.
    pub fn mark(&mut self, direction: Direction)
        ensures
            final(self)@ == marked(old(self)@, direction),
    {
        match direction {
            Direction::Forward => {
                self.forward = true;
            },
            Direction::Backward => {
                self.backward = true;
            },
        }
    }

    /// Both flags as they stand.
    pub fn sample(&self) -> (sample: Sample)
        ensures
            sample == self@,
    {
        (self.forward, self.backward)
    }

    /// Whether `direction` has forwarded a chunk since the flags were last
    /// cleared.
    pub fn carries(&self, direction: Direction) -> (seen: bool)
        ensures
            seen == shows_traffic(self@, direction),
    {
        match direction {
            Direction::Forward => self.forward,
            Direction::Backward => self.backward,
        }
    }

    /// Clears both flags.
    pub fn clear(&mut self)
        ensures
            final(self)@ == (false, false),
    {
        self.forward = false;
        self.backward = false;
    }
}

/// A mark shows in its own direction and leaves the other flag alone, and
/// marking again changes nothing: a flag says that there was traffic, not how
/// much.
pub proof fn lemma_mark_sets_one_flag(sample: Sample, direction: Direction)
    ensures
        shows_traffic(marked(sample, direction), direction),
        shows_traffic(marked(sample, direction), direction.spec_reverse()) == shows_traffic(
            sample,
            direction.spec_reverse(),
        ),
        marked(marked(sample, direction), direction) == marked(sample, direction),
        marked(marked(sample, direction), direction.spec_reverse()) == (true, true),
{
}

} // verus!
