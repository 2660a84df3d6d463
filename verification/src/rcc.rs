//! Reset and clock control.

use crate::flash::{ACR, ACR_RESET};
use crate::reg::{flag, get_flag, set_flag, with_flag, Reg};
use crate::time::Hertz;
use vstd::prelude::*;

verus! {

/// Contents of the AHB1 enable register after a reset.
pub const AHB1ENR_RESET: u32 = 0x0010_0000;

/// Contents of the AHB1 reset register after a reset.
pub const AHB1RSTR_RESET: u32 = 0;

/// Contents of the clock control register after a reset: the internal
/// oscillator is on and ready, with its default trim.
pub const CR_RESET: u32 = 0x83;

/// Contents of the clock configuration register after a reset.
pub const CFGR_RESET: u32 = 0;

/// Bit of the clock control register that enables the internal oscillator.
pub const HSION: u8 = 0;

/// Bit of the clock control register that reports the internal oscillator ready.
pub const HSIRDY: u8 = 1;

/// Clock source value of the internal oscillator.
pub const SOURCE_HSI: u32 = 0;

/// The whole reset and clock control block, as its owner hands it to the library.
pub struct RCC {
    ahb1enr: u32,
    ahb1rstr: u32,
    cr: u32,
    cfgr: u32,
}

impl RCC {
    /// What the AHB1 enable register held when the block was claimed.
    pub closed spec fn ahb1enr_image(&self) -> u32 {
        self.ahb1enr
    }

    /// What the AHB1 reset register held when the block was claimed.
    pub closed spec fn ahb1rstr_image(&self) -> u32 {
        self.ahb1rstr
    }

    /// What the clock control register held when the block was claimed.
    pub closed spec fn cr_image(&self) -> u32 {
        self.cr
    }

    /// What the clock configuration register held when the block was claimed.
    pub closed spec fn cfgr_image(&self) -> u32 {
        self.cfgr
    }

    /// The block of a device whose registers read as given. The caller answers
    /// for holding the one hardware peripheral.
    pub fn claim(ahb1enr: u32, ahb1rstr: u32, cr: u32, cfgr: u32) -> (out: RCC)
        ensures
            out.ahb1enr_image() == ahb1enr,
            out.ahb1rstr_image() == ahb1rstr,
            out.cr_image() == cr,
            out.cfgr_image() == cfgr,
    {
        RCC { ahb1enr, ahb1rstr, cr, cfgr }
    }

    /// The block of a device that has just been reset.
    pub fn at_reset() -> (out: RCC)
        ensures
            out.ahb1enr_image() == AHB1ENR_RESET,
            out.ahb1rstr_image() == AHB1RSTR_RESET,
            out.cr_image() == CR_RESET,
            out.cfgr_image() == CFGR_RESET,
    {
        RCC { ahb1enr: AHB1ENR_RESET, ahb1rstr: AHB1RSTR_RESET, cr: CR_RESET, cfgr: CFGR_RESET }
    }
}

/// Extension trait that constrains the `RCC` peripheral.
pub trait RccExt {
    /// Constrains the `RCC` peripheral so it plays nicely with the other abstractions.
    fn constrain(self) -> Rcc;
}

impl RccExt for RCC {
    fn constrain(self) -> (rcc: Rcc)
        ensures
            rcc.ahb1.enr_view().bits() == self.ahb1enr_image(),
            rcc.ahb1.enr_view().pending() == Seq::<u32>::empty(),
            rcc.ahb1.rstr_view().bits() == self.ahb1rstr_image(),
            rcc.ahb1.rstr_view().pending() == Seq::<u32>::empty(),
            rcc.cr@.bits() == self.cr_image(),
            rcc.cr@.pending() == Seq::<u32>::empty(),
            rcc.cfgr@.bits() == self.cfgr_image(),
            rcc.cfgr@.pending() == Seq::<u32>::empty(),
    {
        Rcc {
            ahb1: AHB1 { enr: Reg::holding(self.ahb1enr), rstr: Reg::holding(self.ahb1rstr) },
            ahb2: AHB2 { _0: () },
            ahb3: AHB3 { _0: () },
            apb1: APB1 { _0: () },
            apb2: APB2 { _0: () },
            bdcr: BDCR { _0: () },
            cfgr: CFGR { reg: Reg::holding(self.cfgr) },
            cir: CIR { _0: () },
            cr: CR { reg: Reg::holding(self.cr) },
            csr: CSR { _0: () },
            dkcfgr1: DKCFGR1 { _0: () },
            dkcfgr2: DKCFGR2 { _0: () },
            pllcfgr: PLLCFGR { _0: () },
            pllsaicfgr: PLLSAICFGR { _0: () },
            plli2scfgr: PLLI2SCFGR { _0: () },
            sscgr: SSCGR { _0: () },
        }
    }
}

/// Constrained RCC peripheral.
pub struct Rcc {
    /// AMBA High-performance Bus 1 (AHB1) registers
    pub ahb1: AHB1,
    /// AMBA High-performance Bus 2 (AHB2) registers
    pub ahb2: AHB2,
    /// AMBA High-performance Bus 3 (AHB3) registers
    pub ahb3: AHB3,
    /// Advanced Peripheral Bus 1 (APB1) registers
    pub apb1: APB1,
    /// Advanced Peripheral Bus 2 (APB2) registers
    pub apb2: APB2,
    /// Backup domain control register
    pub bdcr: BDCR,
    /// Clock configuration register
    pub cfgr: CFGR,
    /// Clock interrupt register
    pub cir: CIR,
    /// Clock control register
    pub cr: CR,
    /// Clock control and status register
    pub csr: CSR,
    /// Dedicated clocks configuration register 1
    pub dkcfgr1: DKCFGR1,
    /// Dedicated clocks configuration register 2
    pub dkcfgr2: DKCFGR2,
    /// PLL configuration register
    pub pllcfgr: PLLCFGR,
    /// PLLI2S configuration register
    pub plli2scfgr: PLLI2SCFGR,
    /// PLLSAI configuration register
    pub pllsaicfgr: PLLSAICFGR,
    /// Spread spectrum clock generation register
    pub sscgr: SSCGR,
}

/// AMBA High-performance Bus 1 (AHB1) registers: the peripheral clock enables
/// and the peripheral resets. The words owed to the enable register are to be
/// carried out before those owed to the reset register.
pub struct AHB1 {
    enr: Reg,
    rstr: Reg,
}

impl AHB1 {
    /// The model of the enable register.
    pub closed spec fn enr_view(&self) -> Reg {
        self.enr
    }

    /// The model of the reset register.
    pub closed spec fn rstr_view(&self) -> Reg {
        self.rstr
    }

    /// The enable register.
    pub fn enr(&self) -> (out: &Reg)
        ensures
            *out == self.enr_view(),
    {
        &self.enr
    }

    /// The reset register.
    pub fn rstr(&self) -> (out: &Reg)
        ensures
            *out == self.rstr_view(),
    {
        &self.rstr
    }

    /// Switches on the clock of the peripheral behind bit `line`, then holds
    /// that peripheral in reset and releases it again. Every other line is
    /// left as it was.
    pub(crate) fn power_up(&mut self, line: u8)
        requires
            line < 32,
        ensures
            final(self).enr_view().stored(
                old(self).enr_view(),
                with_flag(old(self).enr_view().bits(), line, true),
            ),
            final(self).rstr_view().bits() == with_flag(old(self).rstr_view().bits(), line, false),
            final(self).rstr_view().pending() == old(self).rstr_view().pending().push(
                with_flag(old(self).rstr_view().bits(), line, true),
            ).push(with_flag(old(self).rstr_view().bits(), line, false)),
    {
        let enabled: u32 = set_flag(self.enr.read(), line, true);
        self.enr.store(enabled);
        let before: u32 = self.rstr.read();
        let held: u32 = set_flag(before, line, true);
        self.rstr.store(held);
        let released: u32 = set_flag(held, line, false);
        self.rstr.store(released);
        proof {
            lemma_release_after_hold(before, line);
        }
    }

    /// Hands out the words owed to the enable register, oldest first.
    pub fn flush_enr(&mut self) -> (out: Vec<u32>)
        ensures
            out@ == old(self).enr_view().pending(),
            final(self).enr_view().pending() == Seq::<u32>::empty(),
            final(self).enr_view().bits() == old(self).enr_view().bits(),
            final(self).rstr_view() == old(self).rstr_view(),
    {
        self.enr.flush()
    }

    /// Hands out the words owed to the reset register, oldest first.
    pub fn flush_rstr(&mut self) -> (out: Vec<u32>)
        ensures
            out@ == old(self).rstr_view().pending(),
            final(self).rstr_view().pending() == Seq::<u32>::empty(),
            final(self).rstr_view().bits() == old(self).rstr_view().bits(),
            final(self).enr_view() == old(self).enr_view(),
    {
        self.rstr.flush()
    }
}

/// Releasing a line that was held gives the word with that line clear.
pub proof fn lemma_release_after_hold(word: u32, line: u8)
    requires
        line < 32,
    ensures
        with_flag(with_flag(word, line, true), line, false) == with_flag(word, line, false),
{
    assert((word | (1u32 << line)) & !(1u32 << line) == word & !(1u32 << line)) by (bit_vector)
        requires
            line < 32,
    ;
}

/// AMBA High-performance Bus 2 (AHB2) registers
pub struct AHB2 {
    _0: (),
}

/// AMBA High-performance Bus 3 (AHB3) registers
pub struct AHB3 {
    _0: (),
}

/// Advanced Peripheral Bus 1 (APB1) registers
pub struct APB1 {
    _0: (),
}

/// Advanced Peripheral Bus 2 (APB2) registers
pub struct APB2 {
    _0: (),
}

/// Backup domain control register
pub struct BDCR {
    _0: (),
}

/// Clock interrupt register
pub struct CIR {
    _0: (),
}

/// Clock control and status register
pub struct CSR {
    _0: (),
}

/// Dedicated clocks configuration register 1
pub struct DKCFGR1 {
    _0: (),
}

/// Dedicated clocks configuration register 2
pub struct DKCFGR2 {
    _0: (),
}

/// PLL configuration register
pub struct PLLCFGR {
    _0: (),
}

/// PLLI2S configuration register
pub struct PLLI2SCFGR {
    _0: (),
}

/// PLLSAI configuration register
pub struct PLLSAICFGR {
    _0: (),
}

/// Spread spectrum clock generation register
pub struct SSCGR {
    _0: (),
}

/// The clock source that the status field of a configuration word reports.
pub open spec fn switch_status(word: u32) -> u32 {
    (word >> 2u32) & 3u32
}

/// Whether a control word reports the internal oscillator ready.
pub open spec fn oscillator_ready(word: u32) -> bool {
    flag(word, HSIRDY)
}

/// The configuration word that selects `source` with the given bus prescalers.
pub open spec fn config_word(ppre2: u32, ppre1: u32, hpre: u32, source: u32) -> u32 {
    CFGR_RESET | (ppre2 << 13u32) | (ppre1 << 10u32) | (hpre << 4u32) | source
}

/// Where the switch of the clock source stands.
#[derive(Clone, Copy, Debug, PartialEq, Eq, Structural)]
pub enum ClockPhase {
    /// The oscillator was enabled and has not been seen ready.
    Oscillator,
    /// The source was selected and the hardware has not been seen to follow.
    Switch,
    /// The hardware runs from the selected source.
    Frozen,
}

/// What the caller reads next and hands to [`ClockSwitch::advance`].
#[derive(Clone, Copy, Debug, PartialEq, Eq, Structural)]
pub enum ClockPoll {
    /// The clock control register.
    Control,
    /// The clock configuration register, once its pending word is carried out.
    Config,
    /// Nothing: the switch is complete.
    Nothing,
}

/// The phase that follows `phase` once `readback` was read.
pub open spec fn next_phase(phase: ClockPhase, source: u32, readback: u32) -> ClockPhase {
    match phase {
        ClockPhase::Oscillator => if oscillator_ready(readback) {
            ClockPhase::Switch
        } else {
            ClockPhase::Oscillator
        },
        ClockPhase::Switch => if switch_status(readback) == source {
            ClockPhase::Frozen
        } else {
            ClockPhase::Switch
        },
        ClockPhase::Frozen => ClockPhase::Frozen,
    }
}

/// The phase that a switch in `phase` reaches through `readings`, first to last.
pub open spec fn phase_after(phase: ClockPhase, source: u32, readings: Seq<u32>) -> ClockPhase
    decreases readings.len(),
{
    if readings.len() == 0 {
        phase
    } else {
        next_phase(phase_after(phase, source, readings.drop_last()), source, readings.last())
    }
}

/// A switch leaves its first phase only on a reading that shows the
/// oscillator ready, and completes only on a later reading whose status field
/// is the source asked for: whatever else is read, it does not complete.
pub proof fn lemma_frozen_needs_status(source: u32, readings: Seq<u32>)
    ensures
        phase_after(ClockPhase::Oscillator, source, readings) != ClockPhase::Oscillator
            ==> exists|i: int| 0 <= i < readings.len() && oscillator_ready(#[trigger] readings[i]),
        phase_after(ClockPhase::Oscillator, source, readings) == ClockPhase::Frozen
            ==> exists|i: int, j: int|
            0 <= i < j < readings.len() && oscillator_ready(#[trigger] readings[i])
                && switch_status(#[trigger] readings[j]) == source,
    decreases readings.len(),
{
    if readings.len() > 0 {
        let earlier = readings.drop_last();
        let last = readings.len() - 1;
        let before = phase_after(ClockPhase::Oscillator, source, earlier);
        lemma_frozen_needs_status(source, earlier);
        assert forall|k: int| 0 <= k < earlier.len() implies earlier[k] == readings[k] by {}
        match before {
            ClockPhase::Oscillator => {
                if oscillator_ready(readings.last()) {
                    assert(oscillator_ready(readings[last]));
                }
            },
            ClockPhase::Switch => {
                let i = choose|i: int| 0 <= i < earlier.len() && oscillator_ready(#[trigger] earlier[i]);
                assert(oscillator_ready(readings[i]));
                if switch_status(readings.last()) == source {
                    assert(switch_status(readings[last]) == source);
                }
            },
            ClockPhase::Frozen => {
                let (i, j) = choose|i: int, j: int|
                    0 <= i < j < earlier.len() && oscillator_ready(#[trigger] earlier[i])
                        && switch_status(#[trigger] earlier[j]) == source;
                assert(oscillator_ready(readings[i]) && switch_status(readings[j]) == source);
            },
        }
    }
}

/// What is to be read in `phase`.
pub open spec fn poll_of(phase: ClockPhase) -> ClockPoll {
    match phase {
        ClockPhase::Oscillator => ClockPoll::Control,
        ClockPhase::Switch => ClockPoll::Config,
        ClockPhase::Frozen => ClockPoll::Nothing,
    }
}

/// A switch of the clock source in progress. The caller carries out the
/// pending words, reads what [`ClockPoll`] names and calls `advance`, until
/// the phase is `Frozen`; while the hardware does not follow, that never
/// happens.
pub struct ClockSwitch {
    phase: ClockPhase,
    source: u32,
}

impl ClockSwitch {
    #[verifier::type_invariant]
    spec fn wf(self) -> bool {
        self.source < 4
    }

    /// Where the switch stands.
    pub closed spec fn phase(&self) -> ClockPhase {
        self.phase
    }

    /// The clock source that was asked for.
    pub closed spec fn source(&self) -> u32 {
        self.source
    }

    /// Where the switch stands.
    pub fn current_phase(&self) -> (out: ClockPhase)
        ensures
            out == self.phase(),
    {
        self.phase
    }

    /// The clock source that was asked for.
    pub fn requested_source(&self) -> (out: u32)
        ensures
            out == self.source(),
    {
        self.source
    }

    /// What the caller reads next.
    pub fn poll(&self) -> (out: ClockPoll)
        ensures
            out == poll_of(self.phase()),
    {
        match self.phase {
            ClockPhase::Oscillator => ClockPoll::Control,
            ClockPhase::Switch => ClockPoll::Config,
            ClockPhase::Frozen => ClockPoll::Nothing,
        }
    }

    /// Takes one reading of the register that `poll` named. Once the
    /// oscillator reports ready, the prescalers and the source are stored to
    /// the configuration register in one word. The switch is complete exactly
    /// when the status field then reads back the source asked for, and the
    /// configuration register then holds that reading.
    pub fn advance(&mut self, cfgr: &mut CFGR, readback: u32) -> (next: ClockPoll)
        ensures
            final(self).source() == old(self).source(),
            final(self).phase() == next_phase(old(self).phase(), old(self).source(), readback),
            next == poll_of(final(self).phase()),
            old(self).phase() == ClockPhase::Oscillator && oscillator_ready(readback)
                ==> final(cfgr)@.stored(old(cfgr)@, config_word(0, 0, 0, old(self).source())),
            old(self).phase() == ClockPhase::Switch && switch_status(readback) == old(self).source()
                ==> final(cfgr)@.bits() == readback
                && final(cfgr)@.pending() == old(cfgr)@.pending(),
            final(self).phase() == old(self).phase() ==> final(cfgr)@.same_as(old(cfgr)@),
            final(self).phase() == ClockPhase::Frozen && old(self).phase() != ClockPhase::Frozen
                ==> switch_status(final(cfgr)@.bits()) == final(self).source(),
    {
        proof {
            use_type_invariant(&*self);
        }
        match self.phase {
            ClockPhase::Oscillator => {
                if get_flag(readback, HSIRDY) {
                    let word: u32 = clock_config(0, 0, 0, self.source);
                    cfgr.store(word);
                    self.phase = ClockPhase::Switch;
                }
            },
            ClockPhase::Switch => {
                if status_of(readback) == self.source {
                    cfgr.observe(readback);
                    self.phase = ClockPhase::Frozen;
                }
            },
            ClockPhase::Frozen => {},
        }
        self.poll()
    }
}

/// Builds the configuration word that selects `source` with the given bus
/// prescalers.
pub fn clock_config(ppre2: u32, ppre1: u32, hpre: u32, source: u32) -> (out: u32)
    requires
        ppre2 < 8,
        ppre1 < 8,
        hpre < 16,
        source < 4,
    ensures
        out == config_word(ppre2, ppre1, hpre, source),
        switch_status(out) == 0,
        out & 3 == source,
{
    let out: u32 = CFGR_RESET | (ppre2 << 13u32) | (ppre1 << 10u32) | (hpre << 4u32) | source;
    assert((((0u32 | (ppre2 << 13u32) | (ppre1 << 10u32) | (hpre << 4u32) | source) >> 2u32) & 3u32)
        == 0 && (0u32 | (ppre2 << 13u32) | (ppre1 << 10u32) | (hpre << 4u32) | source) & 3
        == source) by (bit_vector)
        requires
            ppre2 < 8,
            ppre1 < 8,
            hpre < 16,
            source < 4,
    ;
    out
}

/// Reads the clock source that the status field of a configuration word reports.
pub fn status_of(word: u32) -> (out: u32)
    ensures
        out == switch_status(word),
        out < 4,
{
    let out: u32 = (word >> 2u32) & 3u32;
    assert(((word >> 2u32) & 3u32) < 4) by (bit_vector);
    out
}

/// Clock configuration register.
pub struct CFGR {
    reg: Reg,
}

impl View for CFGR {
    type V = Reg;

    closed spec fn view(&self) -> Reg {
        self.reg
    }
}

impl CFGR {
    /// The clock configuration register.
    pub fn cfgr(&self) -> (out: &Reg)
        ensures
            *out == self@,
    {
        &self.reg
    }

    /// Stores a word to the register.
    pub(crate) fn store(&mut self, value: u32)
        ensures
            final(self)@.stored(old(self)@, value),
    {
        self.reg.store(value);
    }

    /// Takes over what the hardware reported.
    pub(crate) fn observe(&mut self, value: u32)
        ensures
            final(self)@.bits() == value,
            final(self)@.pending() == old(self)@.pending(),
    {
        self.reg.observe(value);
    }

    /// Hands out the words that are owed to the hardware, oldest first.
    pub fn flush(&mut self) -> (out: Vec<u32>)
        ensures
            out@ == old(self)@.pending(),
            final(self)@.pending() == Seq::<u32>::empty(),
            final(self)@.bits() == old(self)@.bits(),
    {
        self.reg.flush()
    }

    /// Begins the switch of the system clock to the internal oscillator, with
    /// every bus prescaler at one. The flash wait states are set to zero and
    /// the oscillator is enabled; both words are rewritten from their reset
    /// contents. The configuration register itself is written only once the
    /// oscillator is ready: see [`ClockSwitch::advance`].
    pub fn freeze(&mut self, cr: &mut CR, acr: &mut ACR) -> (run: ClockSwitch)
        ensures
            final(acr)@.stored(old(acr)@, ACR_RESET),
            final(cr)@.stored(old(cr)@, with_flag(CR_RESET, HSION, true)),
            final(self)@.same_as(old(self)@),
            run.phase() == ClockPhase::Oscillator,
            run.source() == SOURCE_HSI,
    {
        acr.store(ACR_RESET);
        let control: u32 = set_flag(CR_RESET, HSION, true);
        cr.store(control);
        ClockSwitch { phase: ClockPhase::Oscillator, source: SOURCE_HSI }
    }
}

/// Clock control register.
pub struct CR {
    reg: Reg,
}

impl View for CR {
    type V = Reg;

    closed spec fn view(&self) -> Reg {
        self.reg
    }
}

impl CR {
    /// The clock control register.
    pub fn cr(&self) -> (out: &Reg)
        ensures
            *out == self@,
    {
        &self.reg
    }

    /// Stores a word to the register.
    pub(crate) fn store(&mut self, value: u32)
        ensures
            final(self)@.stored(old(self)@, value),
    {
        self.reg.store(value);
    }

    /// Hands out the words that are owed to the hardware, oldest first.
    pub fn flush(&mut self) -> (out: Vec<u32>)
        ensures
            out@ == old(self)@.pending(),
            final(self)@.pending() == Seq::<u32>::empty(),
            final(self)@.bits() == old(self)@.bits(),
    {
        self.reg.flush()
    }
}

/// The frozen clock frequencies.
#[derive(Clone, Copy, Debug)]
pub struct Clocks {
    hclk: Hertz,
}

} // verus!
