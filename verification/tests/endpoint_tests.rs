use tcptotcp::endpoint::{Direction, Endpoint};

#[test]
fn peers_are_each_other() {
    assert_eq!(Endpoint::First.peer(), Endpoint::Second);
    assert_eq!(Endpoint::Second.peer(), Endpoint::First);
    assert_eq!(Endpoint::First.peer().peer(), Endpoint::First);
}

#[test]
fn forward_reads_first_and_writes_second() {
    assert_eq!(Direction::Forward.source(), Endpoint::First);
    assert_eq!(Direction::Forward.destination(), Endpoint::Second);
}

#[test]
fn backward_reads_second_and_writes_first() {
    assert_eq!(Direction::Backward.source(), Endpoint::Second);
    assert_eq!(Direction::Backward.destination(), Endpoint::First);
}

#[test]
fn directions_cross() {
    for direction in [Direction::Forward, Direction::Backward] {
        assert_eq!(direction.reverse().source(), direction.destination());
        assert_eq!(direction.reverse().destination(), direction.source());
        assert_eq!(direction.reverse().reverse(), direction);
        assert_ne!(direction.source(), direction.destination());
    }
}
