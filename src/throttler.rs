use vstd::prelude::*;

use crate::config::Config;

verus! {

/// Nanoseconds in one second.
pub const NANOS_PER_SEC: u64 = 1_000_000_000;

/// Spacing in nanoseconds between two permits at `tps` permits per second,
/// rounded up so that the rate never exceeds `tps`.
pub open spec fn interval_for(tps: nat) -> nat
    recommends
        tps >= 1,
{
    ((NANOS_PER_SEC as nat) + tps - 1) as nat / tps
}

/// `k + 1`, held at `u64::MAX`.
pub open spec fn next_count(k: nat) -> nat {
    if k < u64::MAX {
        k + 1
    } else {
        k
    }
}

/// Deadline, in nanoseconds from the start, of the permit that follows `k`
/// permits at `tps` per second: `k / tps` seconds rounded up to the next
/// nanosecond, held at the end of the `u64` clock. Each deadline is the
/// previous one plus one interval of `1 / tps` seconds, with the rounding
/// carried from permit to permit instead of added up.
pub open spec fn deadline_at(tps: nat, k: nat) -> nat
    recommends
        tps >= 1,
{
    let c = (k * NANOS_PER_SEC + tps - 1) as nat / tps;
    if c <= u64::MAX {
        c
    } else {
        u64::MAX as nat
    }
}

fn deadline_of(tps: u32, k: u64) -> (r: u64)
    requires
        tps >= 1,
    ensures
        r == deadline_at(tps as nat, k as nat),
{
    assert((k as int) * (NANOS_PER_SEC as int) <= (u64::MAX as int) * (NANOS_PER_SEC as int)) by (nonlinear_arith)
        requires
            k <= u64::MAX,
    ;
    let num: u128 = (k as u128) * (NANOS_PER_SEC as u128) + (tps as u128) - 1;
    let c: u128 = num / (tps as u128);
    if c > u64::MAX as u128 {
        u64::MAX
    } else {
        c as u64
    }
}

/// Why a rate limiter could not be built.
#[derive(Debug, Clone, Copy, PartialEq, Eq, Structural)]
pub enum ThrottleError {
    /// The target rate was zero permits per second.
    InvalidRate,
}

/// Rate limiter with a rolling deadline. Times are nanoseconds since the
/// limiter was created; the caller reads the clock and does the waiting.
pub struct Throttler {
    tps: u32,
    granted: u64,
    next_deadline: u64,
}

impl Throttler {
    /// Permits per second.
    pub closed spec fn rate(&self) -> u32 {
        self.tps
    }

    pub closed spec fn deadline(&self) -> nat {
        self.next_deadline as nat
    }

    /// Number of permits handed out so far, held at `u64::MAX`.
    pub closed spec fn permits(&self) -> nat {
        self.granted as nat
    }

    pub open spec fn wf(&self) -> bool {
        &&& self.rate() >= 1
        &&& self.permits() <= u64::MAX
        &&& self.deadline() == deadline_at(self.rate() as nat, self.permits())
    }

    /// A limiter for `tps` permits per second; zero is refused.
    pub fn new(tps: u32) -> (r: Result<Throttler, ThrottleError>)
        ensures
            tps == 0 <==> r is Err,
            r matches Ok(t) ==> {
                &&& t.wf()
                &&& t.rate() == tps
                &&& t.permits() == 0
                &&& t.deadline() == 0
            },
    {
        if tps == 0 {
            return Err(ThrottleError::InvalidRate);
        }
        let d = deadline_of(tps, 0);
        assert(d == 0) by (nonlinear_arith)
            requires
                d as int == (tps - 1) as int / (tps as int),
                tps >= 1,
        ;
        Ok(Throttler { tps, granted: 0, next_deadline: 0 })
    }

    /// Spacing between permits, in nanoseconds, rounded up.
    pub fn interval_nanos(&self) -> (r: u64)
        requires
            self.wf(),
        ensures
            r == interval_for(self.rate() as nat),
    {
        let tps64 = self.tps as u64;
        (NANOS_PER_SEC + tps64 - 1) / tps64
    }

    /// Time at which the next permit may be used.
    pub fn next_deadline(&self) -> (r: u64)
        ensures
            r == self.deadline(),
    {
        self.next_deadline
    }

    /// Hands out one permit at time `now`: returns how long the caller must
    /// wait before it proceeds (nothing once the deadline has passed), and
    /// moves the deadline on to that of the next permit, which depends on
    /// the number of permits and not on `now`.
    pub fn throttle(&mut self, now: u64) -> (wait: u64)
        requires
            old(self).wf(),
        ensures
            final(self).wf(),
            final(self).rate() == old(self).rate(),
            final(self).permits() == next_count(old(self).permits()),
            final(self).deadline() == deadline_at(old(self).rate() as nat, final(self).permits()),
            wait == if now < old(self).deadline() {
                old(self).deadline() - now
            } else {
                0
            },
    {
        let wait = if now < self.next_deadline {
            self.next_deadline - now
        } else {
            0
        };
        if self.granted < u64::MAX {
            self.granted = self.granted + 1;
        }
        self.next_deadline = deadline_of(self.tps, self.granted);
        wait
    }
}

/// The limiter a run uses, chosen once when the run is set up: a throttler,
/// or none at all when throttling is off.
pub enum RateLimiter {
    Unlimited,
    Limited(Throttler),
}

impl RateLimiter {
    pub open spec fn wf(&self) -> bool {
        self matches RateLimiter::Limited(t) ==> t.wf()
    }

    /// Limits to `config`'s rate when throttling is enabled there.
    pub fn from_config(config: &Config) -> (r: RateLimiter)
        requires
            config.wf(),
        ensures
            r.wf(),
            !config.general.enable_throttling ==> r is Unlimited,
            config.general.enable_throttling ==> (r matches RateLimiter::Limited(t) && t.rate()
                == config.general.tps && t.permits() == 0),
    {
        if config.general.enable_throttling {
            match Throttler::new(config.general.tps) {
                Ok(t) => RateLimiter::Limited(t),
                Err(_) => RateLimiter::Unlimited,
            }
        } else {
            RateLimiter::Unlimited
        }
    }

    /// Wait owed at time `now` before the next action; always zero when
    /// unlimited.
    pub fn throttle(&mut self, now: u64) -> (wait: u64)
        requires
            old(self).wf(),
        ensures
            final(self).wf(),
            *old(self) is Unlimited ==> wait == 0 && *final(self) is Unlimited,
            *old(self) matches RateLimiter::Limited(t) ==> (*final(self) matches RateLimiter::Limited(u)
                && u.rate() == t.rate() && u.permits() == next_count(t.permits()) && u.deadline()
                == deadline_at(t.rate() as nat, u.permits()) && wait == if now < t.deadline() {
                t.deadline() - now
            } else {
                0
            }),
    {
        match self {
            RateLimiter::Unlimited => 0,
            RateLimiter::Limited(t) => t.throttle(now),
        }
    }
}

/// At `tps` permits per second, the permit that follows `k` others is due
/// no earlier than `k / tps` seconds after the start and less than one
/// nanosecond after that instant, for every `k`: the rounding does not add
/// up. Where that instant lies past the end of the `u64` nanosecond clock,
/// the deadline is the clock's end.
pub proof fn lemma_throttle_pacing(tps: nat, k: nat)
    requires
        tps >= 1,
    ensures
        deadline_at(tps, k) <= u64::MAX,
        k * NANOS_PER_SEC <= u64::MAX * tps ==> deadline_at(tps, k) * tps >= k * NANOS_PER_SEC
            && deadline_at(tps, k) * tps < k * NANOS_PER_SEC + tps,
        k * NANOS_PER_SEC > u64::MAX * tps ==> deadline_at(tps, k) == u64::MAX,
{
    let s = NANOS_PER_SEC as nat;
    let c = (k * s + tps - 1) as nat / tps;
    assert(c * tps >= k * s && c * tps < k * s + tps) by (nonlinear_arith)
        requires
            c == (k * s + tps - 1) as nat / tps,
            tps >= 1,
    ;
    if k * s <= u64::MAX * tps {
        assert(c <= u64::MAX) by (nonlinear_arith)
            requires
                c * tps < k * s + tps,
                k * s <= u64::MAX * tps,
                tps >= 1,
        ;
    } else {
        assert(c > u64::MAX) by (nonlinear_arith)
            requires
                c * tps >= k * s,
                k * s > u64::MAX * tps,
                tps >= 1,
        ;
    }
}

} // verus!
