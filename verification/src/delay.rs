//! Busy-wait delays over a wrapping hardware countdown counter.
//!
//! The counter's reload register holds at most 24 bits, so a delay whose
//! tick count exceeds `MAX_RVR` is split into repeated full countdowns;
//! the chunks sum exactly to the requested tick total.

use crate::traits::ClockCfg;
use vstd::prelude::*;

verus! {

/// The counter reload register supports values between 1 and `0x00FF_FFFF`.
pub const MAX_RVR: u32 = 0x00FF_FFFF;

/// A countdown counter: a reload register, a running flag, a clock-source
/// selector, and the history of countdowns started. Each start appends the
/// programmed reload value to `started`, so a driver's contract can pin
/// down exactly which countdowns a call performs.
pub trait CountdownTimer: Sized {
    /// Current contents of the reload register.
    spec fn reload(&self) -> u32;

    /// Whether the counter is running.
    spec fn counting(&self) -> bool;

    /// Whether the counter takes the core clock as its source.
    spec fn core_clock(&self) -> bool;

    /// Reload values of the countdowns started so far, oldest first.
    spec fn started(&self) -> Seq<u32>;

    /// Upper bound on how many more wrap-flag polls can still come back
    /// clear: a real countdown completes within its reload period, so a
    /// spin on the wrap flag terminates.
    spec fn wrap_budget(&self) -> nat;

    /// Select the core clock as the counting source.
    fn set_clock_source_core(&mut self)
        ensures
            final(self).core_clock(),
            final(self).reload() == old(self).reload(),
            final(self).counting() == old(self).counting(),
            final(self).started() == old(self).started(),
    ;

    /// Program the reload register.
    fn set_reload(&mut self, value: u32)
        requires
            1 <= value <= MAX_RVR,
        ensures
            final(self).reload() == value,
            final(self).counting() == old(self).counting(),
            final(self).core_clock() == old(self).core_clock(),
            final(self).started() == old(self).started(),
    ;

    /// Clear the current-value register, so the next countdown runs the
    /// full reload period.
    fn clear_current(&mut self)
        ensures
            final(self).reload() == old(self).reload(),
            final(self).counting() == old(self).counting(),
            final(self).core_clock() == old(self).core_clock(),
            final(self).started() == old(self).started(),
    ;

    /// Start the counter: one countdown from the programmed reload value
    /// begins, and is recorded in the history.
    fn enable_counter(&mut self)
        ensures
            final(self).counting(),
            final(self).reload() == old(self).reload(),
            final(self).core_clock() == old(self).core_clock(),
            final(self).started() == old(self).started().push(old(self).reload()),
    ;

    /// Poll the wrap flag: whether the counter has counted down to zero
    /// since the flag was last read. Reading does not disturb the counter
    /// state; when it returns, the flag is clear again.
    fn has_wrapped(&mut self) -> (r: bool)
        ensures
            final(self).reload() == old(self).reload(),
            final(self).counting() == old(self).counting(),
            final(self).core_clock() == old(self).core_clock(),
            final(self).started() == old(self).started(),
            !r ==> final(self).wrap_budget() < old(self).wrap_budget(),
    ;

    /// Stop the counter.
    fn disable_counter(&mut self)
        ensures
            !final(self).counting(),
            final(self).reload() == old(self).reload(),
            final(self).core_clock() == old(self).core_clock(),
            final(self).started() == old(self).started(),
    ;
}

/// The reload values a delay of `total` ticks is split into, in the order
/// they are programmed: full `MAX_RVR` countdowns followed by one final
/// short countdown holding the remainder.
pub open spec fn chunk_seq(total: nat) -> Seq<u32>
    decreases total,
{
    if total == 0 {
        Seq::empty()
    } else if total <= MAX_RVR {
        seq![total as u32]
    } else {
        seq![MAX_RVR] + chunk_seq((total - MAX_RVR) as nat)
    }
}

/// Sum of the tick counts of a sequence of chunks.
pub open spec fn ticks_sum(s: Seq<u32>) -> int
    decreases s.len(),
{
    if s.len() == 0 {
        0
    } else {
        s[0] + ticks_sum(s.subrange(1, s.len() as int))
    }
}

/// Law: a delay whose tick total fits in a single countdown period is
/// programmed as exactly one chunk holding the whole total.
pub proof fn lemma_short_delay_single_chunk(total: nat)
    requires
        0 < total <= MAX_RVR,
    ensures
        chunk_seq(total) == seq![total as u32],
{
}

/// Law: the chunking covers any delay exactly: a total of `total` ticks is
/// split into `ceil(total / MAX_RVR)` chunks, each between 1 and `MAX_RVR`
/// ticks, and the chunks sum exactly to `total`.
pub proof fn lemma_chunks_cover(total: nat)
    requires
        0 < total,
    ensures
        chunk_seq(total).len() == ((total + MAX_RVR - 1) as int) / (MAX_RVR as int),
        forall|i: int|
            0 <= i < chunk_seq(total).len() ==> 1 <= #[trigger] chunk_seq(total)[i] <= MAX_RVR,
        ticks_sum(chunk_seq(total)) == total,
    decreases total,
{
    if total <= MAX_RVR {
        let s = chunk_seq(total);
        assert(s =~= seq![total as u32]);
        assert(s.subrange(1, 1) =~= Seq::<u32>::empty());
        assert(ticks_sum(Seq::<u32>::empty()) == 0);
        assert(ticks_sum(s) == s[0] + ticks_sum(s.subrange(1, 1)));
        assert(ticks_sum(s) == total);
    } else {
        let rest_total = (total - MAX_RVR) as nat;
        lemma_chunks_cover(rest_total);
        let rest = chunk_seq(rest_total);
        let s = chunk_seq(total);
        assert(s =~= seq![MAX_RVR] + rest);
        assert(s[0] == MAX_RVR);
        assert(s.subrange(1, s.len() as int) =~= rest);
        assert(ticks_sum(s) == MAX_RVR + ticks_sum(rest));
        assert(rest.len() == ((rest_total + MAX_RVR - 1) as int) / (MAX_RVR as int));
        assert(((total + MAX_RVR - 1) as int) == ((rest_total + MAX_RVR - 1) as int) + MAX_RVR);
        assert(((total + MAX_RVR - 1) as int) / (MAX_RVR as int) == ((rest_total + MAX_RVR
            - 1) as int) / (MAX_RVR as int) + 1);
        assert(forall|i: int| 0 <= i < s.len() ==> 1 <= #[trigger] s[i] <= MAX_RVR) by {
            assert(forall|i: int| 1 <= i < s.len() ==> #[trigger] s[i] == rest[i - 1]);
        }
    }
}

/// The chunking decision for one countdown: the reload value to program
/// when `remaining` ticks of the delay are still outstanding.
pub fn next_chunk(remaining: u32) -> (r: u32)
    ensures
        r == if remaining <= MAX_RVR {
            remaining
        } else {
            MAX_RVR
        },
        r <= remaining,
        remaining > 0 ==> 1 <= r <= MAX_RVR,
{
    if remaining <= MAX_RVR {
        remaining
    } else {
        MAX_RVR
    }
}

/// The number of counter ticks a delay of `us` microseconds takes at a
/// counter speed of `speed` Hz.
pub fn ticks_for(us: u32, speed: u32) -> (r: u32)
    requires
        us * (speed / 1_000_000) <= u32::MAX,
    ensures
        r == us * (speed / 1_000_000),
{
    us * (speed / 1_000_000)
}

/// System countdown timer as a delay provider.
pub struct Delay<T: CountdownTimer> {
    pub syst: T,
    pub systick_speed: u32,
}

impl<T: CountdownTimer> Delay<T> {
    /// Configures the system countdown timer as a delay provider, counting
    /// on the core clock at the speed the clock tree reports.
    pub fn new<C: ClockCfg>(syst: T, clocks: &C) -> (r: Self)
        ensures
            r.systick_speed == clocks.systick_spec(),
            r.syst.core_clock(),
            r.syst.reload() == syst.reload(),
            r.syst.counting() == syst.counting(),
            r.syst.started() == syst.started(),
    {
        let mut syst = syst;
        syst.set_clock_source_core();

        Delay { syst, systick_speed: clocks.systick() }
    }

    /// Busy-wait for `us` microseconds. The requested duration is converted
    /// to counter ticks and run as the countdown chunks `chunk_seq` names:
    /// repeated full `MAX_RVR` countdowns, then the remainder. The counter
    /// is left stopped whenever at least one chunk ran.
    pub fn delay_us(&mut self, us: u32)
        requires
            us * (old(self).systick_speed / 1_000_000) <= u32::MAX,
        ensures
            final(self).systick_speed == old(self).systick_speed,
            final(self).syst.core_clock() == old(self).syst.core_clock(),
            final(self).syst.started() == old(self).syst.started() + chunk_seq(
                (us * (old(self).systick_speed / 1_000_000)) as nat,
            ),
            final(self).syst.counting() == if us * (old(self).systick_speed / 1_000_000) == 0 {
                old(self).syst.counting()
            } else {
                false
            },
    {
        let mut total_rvr: u32 = ticks_for(us, self.systick_speed);

        let ghost total0: nat = total_rvr as nat;
        let ghost started0: Seq<u32> = self.syst.started();
        let ghost counting0: bool = self.syst.counting();
        let ghost core0: bool = self.syst.core_clock();
        let ghost speed0: u32 = self.systick_speed;

        while total_rvr != 0
            invariant
                self.systick_speed == speed0,
                self.syst.core_clock() == core0,
                total_rvr <= total0,
                started0 + chunk_seq(total0) == self.syst.started() + chunk_seq(total_rvr as nat),
                if total_rvr == total0 {
                    self.syst.counting() == counting0 && self.syst.started() == started0
                } else {
                    !self.syst.counting()
                },
            decreases total_rvr,
        {
            let current_rvr = next_chunk(total_rvr);

            self.syst.set_reload(current_rvr);
            self.syst.clear_current();
            self.syst.enable_counter();

            let ghost started_mid: Seq<u32> = self.syst.started();
            let ghost rem_before: nat = total_rvr as nat;

            // Account for the chunk just started while the hardware counts.
            total_rvr -= current_rvr;

            proof {
                assert(chunk_seq(rem_before) =~= seq![current_rvr] + chunk_seq(
                    total_rvr as nat,
                ));
                assert(started_mid + chunk_seq(total_rvr as nat) =~= started0 + chunk_seq(total0));
            }

            loop
                invariant
                    self.systick_speed == speed0,
                    self.syst.core_clock() == core0,
                    self.syst.counting(),
                    self.syst.started() == started_mid,
                decreases self.syst.wrap_budget(),
            {
                if self.syst.has_wrapped() {
                    break ;
                }
            }

            self.syst.disable_counter();
        }

        proof {
            assert(chunk_seq(total_rvr as nat) =~= Seq::<u32>::empty());
            assert(self.syst.started() + Seq::<u32>::empty() =~= self.syst.started());
        }
    }

    /// Busy-wait for `ms` milliseconds: exactly a microsecond delay of
    /// `ms * 1000`.
    pub fn delay_ms(&mut self, ms: u32)
        requires
            ms * 1000 <= u32::MAX,
            (ms * 1000) * (old(self).systick_speed / 1_000_000) <= u32::MAX,
        ensures
            final(self).systick_speed == old(self).systick_speed,
            final(self).syst.core_clock() == old(self).syst.core_clock(),
            final(self).syst.started() == old(self).syst.started() + chunk_seq(
                ((ms * 1000) * (old(self).systick_speed / 1_000_000)) as nat,
            ),
            final(self).syst.counting() == if (ms * 1000) * (old(self).systick_speed / 1_000_000)
                == 0 {
                old(self).syst.counting()
            } else {
                false
            },
    {
        self.delay_us(ms * 1000);
    }

    /// Releases the countdown timer resource.
    pub fn free(self) -> (r: T)
        ensures
            r == self.syst,
    {
        self.syst
    }
}

/// An in-memory countdown counter with the same register interface as the
/// hardware one; it records every countdown it starts and reports a wrap
/// after a bounded number of polls, standing in for the passage of time.
pub struct SimTimer {
    pub rvr: u32,
    pub enabled: bool,
    pub core: bool,
    pub log: Vec<u32>,
    pub polls_until_wrap: u32,
}

impl SimTimer {
    /// A counter in its reset state: nothing programmed, nothing started.
    pub fn new() -> (r: Self)
        ensures
            r.reload() == 0,
            !r.counting(),
            !r.core_clock(),
            r.started() == Seq::<u32>::empty(),
    {
        SimTimer { rvr: 0, enabled: false, core: false, log: Vec::new(), polls_until_wrap: 0 }
    }
}

impl CountdownTimer for SimTimer {
    open spec fn reload(&self) -> u32 {
        self.rvr
    }

    open spec fn counting(&self) -> bool {
        self.enabled
    }

    open spec fn core_clock(&self) -> bool {
        self.core
    }

    open spec fn started(&self) -> Seq<u32> {
        self.log@
    }

    open spec fn wrap_budget(&self) -> nat {
        self.polls_until_wrap as nat
    }

    fn set_clock_source_core(&mut self) {
        self.core = true;
    }

    fn set_reload(&mut self, value: u32) {
        self.rvr = value;
    }

    fn clear_current(&mut self) {
    }

    fn enable_counter(&mut self) {
        self.enabled = true;
        self.polls_until_wrap = 1;
        let reload = self.rvr;
        self.log.push(reload);
    }

    fn has_wrapped(&mut self) -> (r: bool) {
        if self.polls_until_wrap > 0 {
            self.polls_until_wrap = self.polls_until_wrap - 1;
            false
        } else {
            true
        }
    }

    fn disable_counter(&mut self) {
        self.enabled = false;
    }
}

} // verus!
