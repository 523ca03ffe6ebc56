//! The supervisor of the detection loop: how long to wait before each
//! restart.

use vstd::prelude::*;

verus! {

/// The backoff before the first restart, and after a calm period, in
/// seconds.
pub const DEFAULT_BACKOFF_SECS: u64 = 1;

/// The calm period in nanoseconds: five minutes. A loop that ran for longer
/// than that since the last backoff starts over with the default backoff.
pub const CALM_PERIOD_NANOS: u128 = 300_000_000_000;

/// Twice the backoff `secs`, or the default backoff where the double is
/// beyond 64 bits.
pub open spec fn doubled(secs: u64) -> u64 {
    if secs * 2 <= u64::MAX {
        (secs * 2) as u64
    } else {
        DEFAULT_BACKOFF_SECS
    }
}

/// Whether the loop ran calmly: a backoff came before, and more than the
/// calm period has passed since.
pub open spec fn is_calm(since_last_backoff: Option<u128>) -> bool {
    match since_last_backoff {
        Some(nanos) => nanos > CALM_PERIOD_NANOS,
        None => false,
    }
}

/// The state of the supervisor: the backoff before the next restart.
#[derive(Debug, Clone, Copy, PartialEq, Eq, Structural)]
pub struct Supervisor {
    /// The backoff before the next restart, in seconds.
    pub restart_backoff: u64,
}

/// What the supervisor does when the loop has exited.
#[derive(Debug, Clone, Copy, PartialEq, Eq, Structural)]
pub struct Restart {
    /// How long to sleep before the loop is started again, in seconds.
    pub sleep_secs: u64,
    /// The supervisor after the restart.
    pub next: Supervisor,
}

impl Supervisor {
    /// What the exit of the loop leads to. After a calm period the default
    /// backoff is slept and kept; else the current backoff is slept and
    /// doubled.
    pub open spec fn restart(self, since_last_backoff: Option<u128>) -> Restart {
        if is_calm(since_last_backoff) {
            Restart {
                sleep_secs: DEFAULT_BACKOFF_SECS,
                next: Supervisor { restart_backoff: DEFAULT_BACKOFF_SECS },
            }
        } else {
            Restart {
                sleep_secs: self.restart_backoff,
                next: Supervisor { restart_backoff: doubled(self.restart_backoff) },
            }
        }
    }

    /// The backoff after `failures` exits in a row without a calm period.
    pub open spec fn after(self, failures: nat) -> Supervisor
        decreases failures,
    {
        if failures == 0 {
            self
        } else {
            self.after((failures - 1) as nat).restart(None).next
        }
    }

    /// A supervisor that has not restarted the loop yet.
    pub fn new() -> (r: Supervisor)
        ensures
            r.restart_backoff == DEFAULT_BACKOFF_SECS,
    {
        Supervisor { restart_backoff: DEFAULT_BACKOFF_SECS }
    }

    /// Decides what follows the exit of the loop. `since_last_backoff` is
    /// the time in nanoseconds since the last backoff ended, or nothing
    /// where there was none yet.
    pub fn on_exit(&self, since_last_backoff: Option<u128>) -> (r: Restart)
        ensures
            r == self.restart(since_last_backoff),
    {
        let resetting = match since_last_backoff {
            Some(nanos) => nanos > CALM_PERIOD_NANOS,
            None => false,
        };
        if resetting {
            Restart {
                sleep_secs: DEFAULT_BACKOFF_SECS,
                next: Supervisor { restart_backoff: DEFAULT_BACKOFF_SECS },
            }
        } else {
            let next = match self.restart_backoff.checked_mul(2) {
                Some(double) => double,
                None => DEFAULT_BACKOFF_SECS,
            };
            Restart { sleep_secs: self.restart_backoff, next: Supervisor { restart_backoff: next } }
        }
    }
}

/// Two to the power `n`.
pub open spec fn power_of_two(n: nat) -> nat
    decreases n,
{
    if n == 0 {
        1
    } else {
        2 * power_of_two((n - 1) as nat)
    }
}

/// Two to the power 64 is one more than the largest number of 64 bits.
pub proof fn power_of_two_64()
    ensures
        power_of_two(64) == u64::MAX + 1,
        power_of_two(63) * 2 == u64::MAX + 1,
{
    reveal_with_fuel(power_of_two, 65);
}

/// Powers of two grow with the exponent.
pub proof fn power_of_two_grows(a: nat, b: nat)
    requires
        a <= b,
    ensures
        power_of_two(a) <= power_of_two(b),
        power_of_two(a) >= 1,
    decreases b,
{
    if a < b {
        power_of_two_grows(a, (b - 1) as nat);
    } else if a > 0 {
        power_of_two_grows((a - 1) as nat, (a - 1) as nat);
    }
}

/// A new supervisor that sees the loop exit again and again, never calmly,
/// sleeps one second, then two, then four: before the restart that follows
/// `failures` others it sleeps two to the power `failures` seconds, as long
/// as that fits in 64 bits. After the sixty-fourth restart it is back at one
/// second.
pub proof fn backoff_doubles(failures: nat)
    requires
        failures <= 64,
    ensures
        failures < 64 ==> (Supervisor { restart_backoff: DEFAULT_BACKOFF_SECS }).after(
            failures,
        ).restart_backoff == power_of_two(failures),
        failures == 64 ==> (Supervisor { restart_backoff: DEFAULT_BACKOFF_SECS }).after(
            failures,
        ).restart_backoff == DEFAULT_BACKOFF_SECS,
    decreases failures,
{
    let fresh = Supervisor { restart_backoff: DEFAULT_BACKOFF_SECS };
    if failures > 0 {
        backoff_doubles((failures - 1) as nat);
        power_of_two_64();
        if failures < 64 {
            power_of_two_grows(failures, 63);
            assert(power_of_two(failures) == 2 * power_of_two((failures - 1) as nat));
            assert(power_of_two(failures) <= power_of_two(63));
        }
    }
}

/// After a calm period the supervisor sleeps the default backoff and starts
/// over from it, whatever its backoff was.
pub proof fn calm_period_resets(supervisor: Supervisor, since_last_backoff: u128)
    requires
        since_last_backoff > CALM_PERIOD_NANOS,
    ensures
        supervisor.restart(Some(since_last_backoff)).sleep_secs == DEFAULT_BACKOFF_SECS,
        supervisor.restart(Some(since_last_backoff)).next == (Supervisor {
            restart_backoff: DEFAULT_BACKOFF_SECS,
        }),
{
}

} // verus!
