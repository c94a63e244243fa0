//! Session timing: the check interval, the idle timeout and the number of
//! idle ticks the two of them allow.

use vstd::prelude::*;

verus! {

/// Shortest check interval, in seconds. Smaller requests are raised to it.
pub const MIN_CHECK_INTERVAL_SECONDS: u8 = 1;

/// Shortest idle timeout, in seconds. Smaller requests are raised to it.
pub const MIN_IDLE_TIMEOUT_SECONDS: u64 = 2;

/// The check interval that a request for `seconds` yields.
pub open spec fn clamped_check_interval(seconds: u8) -> u8 {
    if seconds < MIN_CHECK_INTERVAL_SECONDS {
        MIN_CHECK_INTERVAL_SECONDS
    } else {
        seconds
    }
}

/// The idle timeout that a request for `seconds` yields.
pub open spec fn clamped_idle_timeout(seconds: u64) -> u64 {
    if seconds < MIN_IDLE_TIMEOUT_SECONDS {
        MIN_IDLE_TIMEOUT_SECONDS
    } else {
        seconds
    }
}

/// How many whole check intervals fit into the idle timeout.
pub open spec fn idle_tick_limit(check_interval_seconds: u8, idle_timeout_seconds: u64) -> nat
    recommends
        check_interval_seconds >= 1,
{
    (idle_timeout_seconds as nat) / (check_interval_seconds as nat)
}

/// What a session's timing amounts to: both durations after clamping.
pub struct Timing {
    pub check_interval_seconds: u8,
    pub idle_timeout_seconds: u64,
}

impl Timing {
    /// Both durations respect their floors.
    pub open spec fn valid(self) -> bool {
        &&& self.check_interval_seconds >= MIN_CHECK_INTERVAL_SECONDS
        &&& self.idle_timeout_seconds >= MIN_IDLE_TIMEOUT_SECONDS
    }

    /// The number of consecutive idle ticks that is still tolerated.
    pub open spec fn max_idle_ticks(self) -> nat {
        idle_tick_limit(self.check_interval_seconds, self.idle_timeout_seconds)
    }
}

/// Immutable timing of one bridge session.
#[derive(Clone, Copy, Debug)]
pub struct SessionConfig {
    check_interval_seconds: u8,
    idle_timeout_seconds: u64,
}

impl View for SessionConfig {
    type V = Timing;

    closed spec fn view(&self) -> Timing {
        Timing {
            check_interval_seconds: self.check_interval_seconds,
            idle_timeout_seconds: self.idle_timeout_seconds,
        }
    }
}

impl SessionConfig {
    #[verifier::type_invariant]
    spec fn floors_hold(self) -> bool {
        self@.valid()
    }

    /// Builds the timing of a session. An interval below one second becomes one
    /// second, a timeout below two seconds becomes two seconds; every other
    /// value is kept as given.
    pub fn new(check_interval_seconds: u8, idle_timeout_seconds: u64) -> (config: SessionConfig)
        ensures
            config@.check_interval_seconds == clamped_check_interval(check_interval_seconds),
            config@.idle_timeout_seconds == clamped_idle_timeout(idle_timeout_seconds),
            config@.valid(),
    {
        let interval: u8 = if check_interval_seconds < MIN_CHECK_INTERVAL_SECONDS {
            MIN_CHECK_INTERVAL_SECONDS
        } else {
            check_interval_seconds
        };
        let timeout: u64 = if idle_timeout_seconds < MIN_IDLE_TIMEOUT_SECONDS {
            MIN_IDLE_TIMEOUT_SECONDS
        } else {
            idle_timeout_seconds
        };
        SessionConfig { check_interval_seconds: interval, idle_timeout_seconds: timeout }
    }

    /// Seconds between two checks for traffic.
    pub fn check_interval_seconds(&self) -> (seconds: u8)
        ensures
            seconds == self@.check_interval_seconds,
            seconds >= MIN_CHECK_INTERVAL_SECONDS,
    {
        proof {
            use_type_invariant(self);
        }
        self.check_interval_seconds
    }

    /// Seconds without traffic after which the session is ended.
    pub fn idle_timeout_seconds(&self) -> (seconds: u64)
        ensures
            seconds == self@.idle_timeout_seconds,
            seconds >= MIN_IDLE_TIMEOUT_SECONDS,
    {
        proof {
            use_type_invariant(self);
        }
        self.idle_timeout_seconds
    }

    /// The idle timeout divided by the check interval, rounded down.
    pub fn max_idle_ticks(&self) -> (ticks: u64)
        ensures
            ticks == self@.max_idle_ticks(),
            self@.valid(),
    {
        proof {
            use_type_invariant(self);
        }
        self.idle_timeout_seconds / (self.check_interval_seconds as u64)
    }
}

/// Clamping is idempotent: a configuration built from already clamped values
/// is the configuration built from the raw ones.
pub proof fn lemma_clamping_is_idempotent(check_interval_seconds: u8, idle_timeout_seconds: u64)
    ensures
        clamped_check_interval(clamped_check_interval(check_interval_seconds))
            == clamped_check_interval(check_interval_seconds),
        clamped_idle_timeout(clamped_idle_timeout(idle_timeout_seconds)) == clamped_idle_timeout(
            idle_timeout_seconds,
        ),
{
}

/// The tick limit brackets the timeout: that many intervals fit into it, one
/// more does not.
pub proof fn lemma_tick_limit_brackets_timeout(timing: Timing)
    requires
        timing.valid(),
    ensures
        timing.max_idle_ticks() * timing.check_interval_seconds <= timing.idle_timeout_seconds,
        timing.idle_timeout_seconds < (timing.max_idle_ticks() + 1)
            * timing.check_interval_seconds,
        timing.max_idle_ticks() <= timing.idle_timeout_seconds,
{
    let d = timing.check_interval_seconds as int;
    let t = timing.idle_timeout_seconds as int;
    vstd::arithmetic::div_mod::lemma_fundamental_div_mod(t, d);
    vstd::arithmetic::div_mod::lemma_mod_bound(t, d);
    vstd::arithmetic::div_mod::lemma_div_pos_is_pos(t, d);
    assert((t / d) * d == d * (t / d)) by (nonlinear_arith);
    assert((t / d + 1) * d == (t / d) * d + d) by (nonlinear_arith);
    assert(t / d <= t) by {
        vstd::arithmetic::div_mod::lemma_div_is_ordered_by_denominator(t, 1, d);
        vstd::arithmetic::div_mod::lemma_div_basics(t);
    }
}

} // verus!
