//! A free-running millisecond clock.
//!
//! The clock is a 32-bit counter that a periodic hardware timer interrupt
//! advances by a fixed resolution; the main loop reads it without blocking.
//! The counter wraps at 2^32, which is benign for consumers that only look
//! at `now() % period` for small periods.
use vstd::prelude::*;

verus! {

/// Failure of a clock read.
#[derive(Clone, Copy, Debug, PartialEq, Eq, Structural)]
pub enum Error {
    ClockNotInitialized,
}

/// The clock's state: a tick counter plus the resolution the hardware timer
/// was armed with. Created unstarted; reads fail until `init` runs.
pub struct MillisecondClock {
    started: bool,
    current_ms: u32,
    resolution_ms: u32,
}

impl MillisecondClock {
    /// True once `init` has bound the clock to a running timer.
    pub closed spec fn is_started(self) -> bool {
        self.started
    }

    /// The tick counter, in milliseconds since `init`.
    pub closed spec fn ticks(self) -> u32 {
        self.current_ms
    }

    /// The number of milliseconds each timer interrupt adds.
    pub closed spec fn resolution(self) -> u32 {
        self.resolution_ms
    }

    /// A clock that has not been bound to a timer yet.
    pub fn new() -> (clock: MillisecondClock)
        ensures
            !clock.is_started(),
    {
        MillisecondClock { started: false, current_ms: 0, resolution_ms: 0 }
    }
}

/// Start counting: the caller arms a hardware timer to fire every
/// `resolution_ms` and to call `tick` from its interrupt handler.
/// Calling it again restarts the count (last call wins).
pub fn init(clock: &mut MillisecondClock, resolution_ms: u32)
    ensures
        final(clock).is_started(),
        final(clock).ticks() == 0,
        final(clock).resolution() == resolution_ms,
{
    clock.started = true;
    clock.current_ms = 0;
    clock.resolution_ms = resolution_ms;
}

/// The clock after one timer interrupt: the counter advances by one
/// resolution step, wrapping at 2^32. A clock that was never started is
/// left alone (a spurious interrupt before `init`).
pub closed spec fn spec_tick(clock: MillisecondClock) -> MillisecondClock {
    if clock.started {
        MillisecondClock {
            current_ms: vstd::wrapping::u32_specs::wrapping_add(
                clock.current_ms,
                clock.resolution_ms,
            ),
            ..clock
        }
    } else {
        clock
    }
}

/// The clock after `n` timer interrupts.
pub open spec fn spec_ticks_after(clock: MillisecondClock, n: nat) -> MillisecondClock
    decreases n,
{
    if n == 0 {
        clock
    } else {
        spec_tick(spec_ticks_after(clock, (n - 1) as nat))
    }
}

/// The timer-interrupt body: advance the counter by one resolution step.
/// The hardware handler also clears the timer's pending-interrupt flag,
/// which is the caller's (unverified) side of the work.
pub fn tick(clock: &mut MillisecondClock)
    ensures
        *final(clock) == spec_tick(*old(clock)),
        final(clock).is_started() == old(clock).is_started(),
        final(clock).resolution() == old(clock).resolution(),
        old(clock).is_started() ==> final(clock).ticks()
            == vstd::wrapping::u32_specs::wrapping_add(old(clock).ticks(), old(clock).resolution()),
        !old(clock).is_started() ==> final(clock).ticks() == old(clock).ticks(),
{
    if clock.started {
        clock.current_ms = clock.current_ms.wrapping_add(clock.resolution_ms);
    }
}

/// Non-blocking read of the counter. Fails if and only if `init` never ran.
pub fn now(clock: &MillisecondClock) -> (r: Result<u32, Error>)
    ensures
        clock.is_started() ==> r == Ok::<u32, Error>(clock.ticks()),
        !clock.is_started() ==> r == Err::<u32, Error>(Error::ClockNotInitialized),
{
    if clock.started {
        Ok(clock.current_ms)
    } else {
        Err(Error::ClockNotInitialized)
    }
}

/// After any `n` timer interrupts at resolution `r`, a started clock reads
/// its previous value plus `n * r`, modulo 2^32.
pub proof fn lemma_now_after_n_ticks(clock: MillisecondClock, n: nat)
    requires
        clock.is_started(),
    ensures
        spec_ticks_after(clock, n).is_started(),
        spec_ticks_after(clock, n).resolution() == clock.resolution(),
        spec_ticks_after(clock, n).ticks() == (clock.ticks() + n * clock.resolution())
            % 0x1_0000_0000,
    decreases n,
{
    let m: int = 0x1_0000_0000;
    let t0 = clock.ticks() as int;
    let r = clock.resolution() as int;
    if n == 0 {
        vstd::arithmetic::div_mod::lemma_small_mod(clock.ticks() as nat, 0x1_0000_0000nat);
    } else {
        lemma_now_after_n_ticks(clock, (n - 1) as nat);
        let prev = spec_ticks_after(clock, (n - 1) as nat);
        let a = t0 + (n - 1) * r;
        let p = prev.ticks() as int;
        assert(n * r == (n - 1) * r + r) by (nonlinear_arith);
        vstd::arithmetic::div_mod::lemma_add_mod_noop(a, r, m);
        vstd::arithmetic::div_mod::lemma_small_mod(clock.resolution() as nat, 0x1_0000_0000nat);
        if p + r <= u32::MAX {
            vstd::arithmetic::div_mod::lemma_small_mod((p + r) as nat, 0x1_0000_0000nat);
        } else {
            vstd::arithmetic::div_mod::lemma_mod_sub_multiples_vanish(p + r, m);
            vstd::arithmetic::div_mod::lemma_small_mod((p + r - m) as nat, 0x1_0000_0000nat);
        }
    }
}

} // verus!
