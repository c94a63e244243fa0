//! The two ends of a bridge and the two directions between them.

use vstd::prelude::*;

verus! {

/// One of the two streams that a session bridges.
#[derive(Clone, Copy, Debug, PartialEq, Eq, Structural)]
pub enum Endpoint {
    First,
    Second,
}

/// A direction of transfer: forward carries bytes from the first endpoint to
/// the second, backward from the second to the first.
#[derive(Clone, Copy, Debug, PartialEq, Eq, Structural)]
pub enum Direction {
    Forward,
    Backward,
}

impl Endpoint {
    /// The other endpoint of the bridge.
    pub open spec fn spec_peer(self) -> Endpoint {
        match self {
            Endpoint::First => Endpoint::Second,
            Endpoint::Second => Endpoint::First,
        }
    }

    /// The other endpoint of the bridge.
    #[verifier::when_used_as_spec(spec_peer)]
    pub fn peer(self) -> (other: Endpoint)
        ensures
            other == self.spec_peer(),
    {
        match self {
            Endpoint::First => Endpoint::Second,
            Endpoint::Second => Endpoint::First,
        }
    }
}

impl Direction {
    /// The endpoint that this direction reads from.
    pub open spec fn spec_source(self) -> Endpoint {
        match self {
            Direction::Forward => Endpoint::First,
            Direction::Backward => Endpoint::Second,
        }
    }

    /// The endpoint that this direction writes to.
    pub open spec fn spec_destination(self) -> Endpoint {
        self.spec_source().spec_peer()
    }

    /// The direction that carries bytes the other way.
    pub open spec fn spec_reverse(self) -> Direction {
        match self {
            Direction::Forward => Direction::Backward,
            Direction::Backward => Direction::Forward,
        }
    }

    /// The endpoint that this direction reads from.
    #[verifier::when_used_as_spec(spec_source)]
    pub fn source(self) -> (endpoint: Endpoint)
        ensures
            endpoint == self.spec_source(),
    {
        match self {
            Direction::Forward => Endpoint::First,
            Direction::Backward => Endpoint::Second,
        }
    }

    /// The endpoint that this direction writes to.
    #[verifier::when_used_as_spec(spec_destination)]
    pub fn destination(self) -> (endpoint: Endpoint)
        ensures
            endpoint == self.spec_destination(),
    {
        match self {
            Direction::Forward => Endpoint::Second,
            Direction::Backward => Endpoint::First,
        }
    }

    /// The direction that carries bytes the other way.
    #[verifier::when_used_as_spec(spec_reverse)]
    pub fn reverse(self) -> (other: Direction)
        ensures
            other == self.spec_reverse(),
    {
        match self {
            Direction::Forward => Direction::Backward,
            Direction::Backward => Direction::Forward,
        }
    }
}

/// The two directions cross: what one reads from, the other writes to, and
/// reversing twice gives the direction back.
pub proof fn lemma_directions_cross(direction: Direction)
    ensures
        direction.spec_reverse().spec_source() == direction.spec_destination(),
        direction.spec_reverse().spec_destination() == direction.spec_source(),
        direction.spec_reverse().spec_reverse() == direction,
        direction.spec_source() != direction.spec_destination(),
{
}

} // verus!
