use vstd::prelude::*;

verus! {

/// Nanoseconds per tick of the timer interrupt: one 256th of a second.
pub const NANOS_PER_TICK: u64 = 3_906_250;

/// The timer's overflow target: with a divider of one on the 2^24 Hz clock, an overflow
/// at 2^16 ticks interrupts 256 times a second.
pub const TIMER_OVERFLOW: u16 = 0xFFFF;

/// Time since start, in nanoseconds, after `ticks` timer interrupts.
pub open spec fn elapsed_nanos_spec(ticks: u32) -> int {
    ticks * NANOS_PER_TICK
}

/// The clock's reading for a tick count: `ticks` 256ths of a second, in nanoseconds.
pub fn elapsed_nanos(ticks: u32) -> (r: u64)
    ensures
        r == elapsed_nanos_spec(ticks),
{
    assert(ticks * NANOS_PER_TICK <= u32::MAX * NANOS_PER_TICK) by (nonlinear_arith)
        requires
            ticks <= u32::MAX,
    ;
    ticks as u64 * NANOS_PER_TICK
}

/// The tick count after one more interrupt: the counter is a wrapping 32-bit word.
pub fn next_tick(ticks: u32) -> (r: u32)
    ensures
        r == (ticks + 1) % 0x1_0000_0000,
{
    ticks.wrapping_add(1)
}

/// The clock never goes back between two reads unless the tick counter wrapped between
/// them: a later count gives a reading at least as large.
pub proof fn lemma_clock_monotonic(t1: u32, t2: u32)
    requires
        t1 <= t2,
    ensures
        elapsed_nanos_spec(t1) <= elapsed_nanos_spec(t2),
        t1 < t2 ==> elapsed_nanos_spec(t1) < elapsed_nanos_spec(t2),
{
    assert(t1 * NANOS_PER_TICK <= t2 * NANOS_PER_TICK) by (nonlinear_arith)
        requires
            t1 <= t2,
    ;
    assert(t1 < t2 ==> t1 * NANOS_PER_TICK < t2 * NANOS_PER_TICK) by (nonlinear_arith);
}

/// One interrupt advances the clock by exactly one tick, unless the counter wraps to zero.
pub proof fn lemma_tick_advances(t: u32)
    ensures
        t < u32::MAX ==> elapsed_nanos_spec(((t + 1) % 0x1_0000_0000) as u32)
            == elapsed_nanos_spec(t) + NANOS_PER_TICK,
        t == u32::MAX ==> elapsed_nanos_spec(((t + 1) % 0x1_0000_0000) as u32) == 0,
{
    if t < u32::MAX {
        assert(((t + 1) % 0x1_0000_0000) as u32 == t + 1);
        assert((t + 1) * NANOS_PER_TICK == t * NANOS_PER_TICK + NANOS_PER_TICK) by (nonlinear_arith);
    }
}

/// After `n` interrupts at 256 Hz the clock reads `n / 256` seconds exactly: `n` times
/// 3,906,250 nanoseconds.
pub proof fn lemma_tick_rate(n: u32)
    ensures
        elapsed_nanos_spec(n) == n * 3_906_250,
        256 * elapsed_nanos_spec(n) == n * 1_000_000_000,
{
    assert(256 * (n * 3_906_250) == n * 1_000_000_000) by (nonlinear_arith);
}

/// The divider setting of a hardware timer.
#[derive(Clone, Copy, Debug, PartialEq, Eq, Structural)]
pub enum Divider {
    Divider1,
    Divider64,
    Divider256,
    Divider1024,
}

/// The settings written to a hardware timer.
#[derive(Clone, Copy, Debug, PartialEq, Eq, Structural)]
pub struct TimerSettings {
    pub enabled: bool,
    pub divider: Divider,
    pub overflow_amount: u16,
    pub interrupt: bool,
}

/// The settings of timer 2, the clock's source: enabled, divider one, overflow at 0xFFFF,
/// interrupt on.
pub fn timer_2_settings() -> (r: TimerSettings)
    ensures
        r.enabled,
        r.divider == Divider::Divider1,
        r.overflow_amount == TIMER_OVERFLOW,
        r.interrupt,
{
    TimerSettings {
        enabled: true,
        divider: Divider::Divider1,
        overflow_amount: TIMER_OVERFLOW,
        interrupt: true,
    }
}

/// Installs the monotonic clock: timer 2's interrupt count becomes the engine's time source.
#[derive(Clone, Copy, Debug, Default)]
pub struct AgbTimePlugin;

} // verus!
