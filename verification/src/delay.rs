//! Blocking delays on the system timer.

use vstd::prelude::*;

verus! {

/// The clock that the timer is assumed to count, in hertz.
pub const SYSCLK_HZ: u32 = 16_000_000;

/// Timer ticks in one microsecond: the clock frequency over a million.
pub const TICKS_PER_US: u32 = 16;

/// The timer ticks that `us` microseconds take.
pub open spec fn reload_for(us: int) -> int {
    us * TICKS_PER_US
}

/// A delay of one second reloads the timer with the clock frequency.
pub proof fn lemma_second_is_clock()
    ensures
        reload_for(1_000_000) == SYSCLK_HZ,
        TICKS_PER_US * 1_000_000 == SYSCLK_HZ,
{
}

/// One operation on the system timer.
#[derive(Clone, Copy, Debug, PartialEq, Eq, Structural)]
pub enum SystOp {
    /// Count the core clock.
    UseCoreClock,
    /// Write the reload register.
    SetReload(u32),
    /// Reset the current count to zero.
    ClearCurrent,
    /// Start counting.
    EnableCounter,
    /// Stop counting.
    DisableCounter,
}

/// The operations that start a delay of `reload` ticks, first to last.
pub open spec fn start_ops(reload: u32) -> Seq<SystOp> {
    seq![SystOp::SetReload(reload), SystOp::ClearCurrent, SystOp::EnableCounter]
}

/// Whether a delay is still in progress after the readings of the wrap flag
/// in `readings`, first to last, given whether it was before.
pub open spec fn counting_after(counting: bool, readings: Seq<bool>) -> bool
    decreases readings.len(),
{
    if readings.len() == 0 {
        counting
    } else {
        counting_after(counting, readings.drop_last()) && !readings.last()
    }
}

/// A delay is in progress for as long as no reading shows the wrap flag set,
/// and ends with the first reading that does.
pub proof fn lemma_delay_ends_at_first_flag(readings: Seq<bool>)
    ensures
        counting_after(true, readings) <==> forall|i: int|
            0 <= i < readings.len() ==> !(#[trigger] readings[i]),
    decreases readings.len(),
{
    if readings.len() > 0 {
        let earlier = readings.drop_last();
        lemma_delay_ends_at_first_flag(earlier);
        assert forall|i: int| 0 <= i < earlier.len() implies earlier[i] == readings[i] by {}
        if counting_after(true, readings) {
            assert forall|i: int| 0 <= i < readings.len() implies !(#[trigger] readings[i]) by {
                if i < earlier.len() {
                    assert(!earlier[i]);
                }
            }
        }
        if forall|i: int| 0 <= i < readings.len() ==> !(#[trigger] readings[i]) {
            assert(!readings[readings.len() - 1]);
            assert forall|i: int| 0 <= i < earlier.len() implies !(#[trigger] earlier[i]) by {
                assert(!readings[i]);
            }
        }
    }
}

/// The system timer, as its owner hands it to the library: the operations
/// that are owed to the hardware, oldest first.
pub struct SYST {
    ops: Vec<SystOp>,
}

impl SYST {
    /// The operations owed to the hardware, oldest first.
    pub closed spec fn pending(&self) -> Seq<SystOp> {
        self.ops@
    }

    /// The system timer. The caller answers for holding the one hardware
    /// peripheral.
    pub fn claim() -> (out: SYST)
        ensures
            out.pending() == Seq::<SystOp>::empty(),
    {
        SYST { ops: Vec::new() }
    }
}

/// Wraps `cast::u32` for an 8-bit argument: the promotion to 32 bits, which
/// keeps the number.
#[verifier::external_body]
fn widen_u8(value: u8) -> (out: u32)
    ensures
        out == value,
{
    cast::u32(value)
}

/// Wraps `cast::u32` for a 16-bit argument: the promotion to 32 bits, which
/// keeps the number.
#[verifier::external_body]
fn widen_u16(value: u16) -> (out: u32)
    ensures
        out == value,
{
    cast::u32(value)
}

/// System timer as a delay provider. A delay is started by `delay_us` or
/// `delay_ms`; the caller carries out the pending operations, then reads the
/// timer's wrap flag and reports it to `wrapped` until that answers `true`.
pub struct Delay {
    syst: SYST,
    reload: u32,
    counting: bool,
}

impl Delay {
    /// The operations owed to the hardware, oldest first.
    pub closed spec fn pending(&self) -> Seq<SystOp> {
        self.syst.pending()
    }

    /// The reload value of the delay in progress, or of the last one.
    pub closed spec fn reload(&self) -> u32 {
        self.reload
    }

    /// Whether a delay is in progress.
    pub closed spec fn counting(&self) -> bool {
        self.counting
    }

    /// Configures the system timer as a delay provider: it counts the core
    /// clock.
    pub fn new(syst: SYST) -> (out: Delay)
        ensures
            out.pending() == syst.pending().push(SystOp::UseCoreClock),
            out.reload() == 0,
            !out.counting(),
    {
        let mut syst = syst;
        syst.ops.push(SystOp::UseCoreClock);
        Delay { syst, reload: 0, counting: false }
    }

    /// The reload value of the delay in progress, or of the last one.
    pub fn reload_value(&self) -> (out: u32)
        ensures
            out == self.reload(),
    {
        self.reload
    }

    /// Whether a delay is in progress.
    pub fn is_counting(&self) -> (out: bool)
        ensures
            out == self.counting(),
    {
        self.counting
    }

    /// Starts a delay of `us` microseconds: the reload register is written
    /// with the ticks that they take, the current count is reset and the
    /// counter is enabled, in this order.
    pub fn delay_us(&mut self, us: u32)
        requires
            reload_for(us as int) <= u32::MAX,
        ensures
            final(self).reload() == reload_for(us as int),
            final(self).counting(),
            final(self).pending() == old(self).pending() + start_ops(final(self).reload()),
    {
        let rvr: u32 = us * TICKS_PER_US;
        self.syst.ops.push(SystOp::SetReload(rvr));
        self.syst.ops.push(SystOp::ClearCurrent);
        self.syst.ops.push(SystOp::EnableCounter);
        self.reload = rvr;
        self.counting = true;
        assert(self.syst.ops@ =~= old(self).syst.ops@ + start_ops(rvr));
    }

    /// Starts a delay of `ms` milliseconds, as one of `ms * 1000` microseconds.
    pub fn delay_ms(&mut self, ms: u32)
        requires
            reload_for(ms * 1000) <= u32::MAX,
        ensures
            final(self).reload() == reload_for(ms * 1000),
            final(self).counting(),
            final(self).pending() == old(self).pending() + start_ops(final(self).reload()),
    {
        self.delay_us(ms * 1_000);
    }

    /// Starts a delay of `ms` milliseconds, given in 8 bits.
    pub fn delay_ms_u8(&mut self, ms: u8)
        ensures
            final(self).reload() == reload_for(ms * 1000),
            final(self).counting(),
            final(self).pending() == old(self).pending() + start_ops(final(self).reload()),
    {
        self.delay_ms(widen_u8(ms));
    }

    /// Starts a delay of `ms` milliseconds, given in 16 bits.
    pub fn delay_ms_u16(&mut self, ms: u16)
        ensures
            final(self).reload() == reload_for(ms * 1000),
            final(self).counting(),
            final(self).pending() == old(self).pending() + start_ops(final(self).reload()),
    {
        self.delay_ms(widen_u16(ms));
    }

    /// Starts a delay of `us` microseconds, given in 8 bits.
    pub fn delay_us_u8(&mut self, us: u8)
        ensures
            final(self).reload() == reload_for(us as int),
            final(self).counting(),
            final(self).pending() == old(self).pending() + start_ops(final(self).reload()),
    {
        self.delay_us(widen_u8(us));
    }

    /// Starts a delay of `us` microseconds, given in 16 bits.
    pub fn delay_us_u16(&mut self, us: u16)
        ensures
            final(self).reload() == reload_for(us as int),
            final(self).counting(),
            final(self).pending() == old(self).pending() + start_ops(final(self).reload()),
    {
        self.delay_us(widen_u16(us));
    }

    /// Takes one reading of the timer's wrap flag. The delay in progress ends
    /// exactly when the flag was seen set: the counter is then disabled. The
    /// answer is whether no delay is in progress any more.
    pub fn wrapped(&mut self, seen: bool) -> (done: bool)
        ensures
            final(self).counting() == counting_after(old(self).counting(), seq![seen]),
            final(self).counting() == (old(self).counting() && !seen),
            done == !final(self).counting(),
            final(self).reload() == old(self).reload(),
            old(self).counting() && seen ==> final(self).pending() == old(self).pending().push(
                SystOp::DisableCounter,
            ),
            !(old(self).counting() && seen) ==> final(self).pending() == old(self).pending(),
    {
        proof {
            let one = seq![seen];
            assert(one.drop_last() =~= Seq::<bool>::empty());
            assert(counting_after(self.counting, one.drop_last()) == self.counting);
            assert(one.last() == seen);
        }
        if self.counting && seen {
            self.syst.ops.push(SystOp::DisableCounter);
            self.counting = false;
        }
        !self.counting
    }

    /// Hands out the operations owed to the hardware, oldest first.
    pub fn flush(&mut self) -> (out: Vec<SystOp>)
        ensures
            out@ == old(self).pending(),
            final(self).pending() == Seq::<SystOp>::empty(),
            final(self).reload() == old(self).reload(),
            final(self).counting() == old(self).counting(),
    {
        let mut out: Vec<SystOp> = Vec::new();
        core::mem::swap(&mut out, &mut self.syst.ops);
        out
    }
}

} // verus!
