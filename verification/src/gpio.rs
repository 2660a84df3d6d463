//! General purpose input and output.

use crate::rcc::AHB1;
use crate::reg::{
    flag, get_flag, lemma_flag_kept, lemma_flag_written, lemma_pair_field_kept,
    lemma_pair_field_written, pair_field, set_flag, set_pair_field, with_flag, with_pair_field,
    Reg, PINS,
};
use core::marker::PhantomData;
use vstd::prelude::*;

verus! {

/// Number of ports of the device, A to K.
pub const PORTS: u8 = 11;

/// Mode field value of an input.
pub const MODE_INPUT: u32 = 0b00;

/// Mode field value of a general purpose output.
pub const MODE_OUTPUT: u32 = 0b01;

/// Mode field value of an alternate function.
pub const MODE_ALTERNATE: u32 = 0b10;

/// Mode field value of an analog pin.
pub const MODE_ANALOG: u32 = 0b11;

/// Pull field value of a floating pin.
pub const PULL_NONE: u32 = 0b00;

/// Pull field value of a pulled-up pin.
pub const PULL_UP: u32 = 0b01;

/// Pull field value of a pulled-down pin.
pub const PULL_DOWN: u32 = 0b10;

/// Extension trait to split a GPIO peripheral in independent pins and registers.
pub trait GpioExt {
    /// The type to split the GPIO into
    type Parts;

    /// Splits the GPIO block into independent pins and registers
    fn split(self, ahb: &mut AHB1) -> Self::Parts;
}

/// Input mode (type state)
pub struct Input<MODE> {
    _mode: PhantomData<MODE>,
}

/// Floating input (type state)
pub struct Floating;

/// Pulled down input (type state)
pub struct PullDown;

/// Pulled up input (type state)
pub struct PullUp;

/// Output mode (type state)
pub struct Output<MODE> {
    _mode: PhantomData<MODE>,
}

/// Push-pull output (type state)
pub struct PushPull;

/// Open drain output (type state)
pub struct OpenDrain;

/// Alternate mode (type state)
pub struct Alternate<AF, MODE> {
    _af: PhantomData<AF>,
    _mode: PhantomData<MODE>,
}

/// Alternate function 0 (type state)
pub struct AF0;

/// Alternate function 1 (type state)
pub struct AF1;

/// Alternate function 2 (type state)
pub struct AF2;

/// Alternate function 3 (type state)
pub struct AF3;

/// Alternate function 4 (type state)
pub struct AF4;

/// Alternate function 5 (type state)
pub struct AF5;

/// Alternate function 6 (type state)
pub struct AF6;

/// Alternate function 7 (type state)
pub struct AF7;

/// Alternate function 8 (type state)
pub struct AF8;

/// Alternate function 9 (type state)
pub struct AF9;

/// Alternate function 10 (type state)
pub struct AF10;

/// Alternate function 11 (type state)
pub struct AF11;

/// Alternate function 12 (type state)
pub struct AF12;

/// Alternate function 13 (type state)
pub struct AF13;

/// Alternate function 14 (type state)
pub struct AF14;

/// Alternate function 15 (type state)
pub struct AF15;

/// The whole port `P` (0 for A, up to 10 for K), as its owner hands it to the
/// library, with the contents that its registers take when the port is reset.
pub struct GPIO<const P: u8> {
    moder: u32,
    otyper: u32,
    pupdr: u32,
}

impl<const P: u8> GPIO<P> {
    #[verifier::type_invariant]
    spec fn wf(self) -> bool {
        P < PORTS
    }

    /// What the mode register holds once the port is reset.
    pub closed spec fn moder_reset(&self) -> u32 {
        self.moder
    }

    /// What the output type register holds once the port is reset.
    pub closed spec fn otyper_reset(&self) -> u32 {
        self.otyper
    }

    /// What the pull-up and pull-down register holds once the port is reset.
    pub closed spec fn pupdr_reset(&self) -> u32 {
        self.pupdr
    }

    /// Port `P`, where the device has such a port, with the reset contents of
    /// its mode, output type and pull registers. The caller answers for
    /// holding the one hardware peripheral.
    pub fn claim(moder: u32, otyper: u32, pupdr: u32) -> (out: Option<GPIO<P>>)
        ensures
            out.is_some() <==> P < PORTS,
            out.is_some() ==> out.unwrap().moder_reset() == moder
                && out.unwrap().otyper_reset() == otyper
                && out.unwrap().pupdr_reset() == pupdr,
    {
        if P < PORTS {
            Some(GPIO { moder, otyper, pupdr })
        } else {
            None
        }
    }
}

/// The registers and pins of port `P`. Where a transition of a pin stores to
/// two registers, the mode register is written first.
pub struct Parts<const P: u8> {
    /// Opaque AFRH register
    pub afrh: AFRH<P>,
    /// Opaque AFRL register
    pub afrl: AFRL<P>,
    /// Opaque MODER register
    pub moder: MODER<P>,
    /// Opaque OTYPER register
    pub otyper: OTYPER<P>,
    /// Opaque PUPDR register
    pub pupdr: PUPDR<P>,
    /// Pin 0
    pub pin0: Pin<P, 0, Input<Floating>>,
    /// Pin 1
    pub pin1: Pin<P, 1, Input<Floating>>,
    /// Pin 2
    pub pin2: Pin<P, 2, Input<Floating>>,
    /// Pin 3
    pub pin3: Pin<P, 3, Input<Floating>>,
    /// Pin 4
    pub pin4: Pin<P, 4, Input<Floating>>,
    /// Pin 5
    pub pin5: Pin<P, 5, Input<Floating>>,
    /// Pin 6
    pub pin6: Pin<P, 6, Input<Floating>>,
    /// Pin 7
    pub pin7: Pin<P, 7, Input<Floating>>,
    /// Pin 8
    pub pin8: Pin<P, 8, Input<Floating>>,
    /// Pin 9
    pub pin9: Pin<P, 9, Input<Floating>>,
    /// Pin 10
    pub pin10: Pin<P, 10, Input<Floating>>,
    /// Pin 11
    pub pin11: Pin<P, 11, Input<Floating>>,
    /// Pin 12
    pub pin12: Pin<P, 12, Input<Floating>>,
    /// Pin 13
    pub pin13: Pin<P, 13, Input<Floating>>,
    /// Pin 14
    pub pin14: Pin<P, 14, Input<Floating>>,
    /// Pin 15
    pub pin15: Pin<P, 15, Input<Floating>>,
}

impl<const P: u8> GpioExt for GPIO<P> {
    type Parts = Parts<P>;

    /// Switches the port's clock on and pulses its reset line, so that every
    /// pin starts from the reset state, and hands out the port's registers and
    /// pins.
    fn split(self, ahb: &mut AHB1) -> (parts: Parts<P>)
        ensures
            P < PORTS,
            final(ahb).enr_view().stored(
                old(ahb).enr_view(),
                with_flag(old(ahb).enr_view().bits(), P, true),
            ),
            final(ahb).rstr_view().bits() == with_flag(old(ahb).rstr_view().bits(), P, false),
            final(ahb).rstr_view().pending() == old(ahb).rstr_view().pending().push(
                with_flag(old(ahb).rstr_view().bits(), P, true),
            ).push(with_flag(old(ahb).rstr_view().bits(), P, false)),
            parts.moder@.bits() == self.moder_reset(),
            parts.moder@.pending() == Seq::<u32>::empty(),
            parts.otyper@.bits() == self.otyper_reset(),
            parts.otyper@.pending() == Seq::<u32>::empty(),
            parts.pupdr@.bits() == self.pupdr_reset(),
            parts.pupdr@.pending() == Seq::<u32>::empty(),
    {
        proof {
            use_type_invariant(&self);
        }
        ahb.power_up(P);
        Parts {
            afrh: AFRH { _0: () },
            afrl: AFRL { _0: () },
            moder: MODER { reg: Reg::holding(self.moder) },
            otyper: OTYPER { reg: Reg::holding(self.otyper) },
            pupdr: PUPDR { reg: Reg::holding(self.pupdr) },
            pin0: Pin { _mode: PhantomData },
            pin1: Pin { _mode: PhantomData },
            pin2: Pin { _mode: PhantomData },
            pin3: Pin { _mode: PhantomData },
            pin4: Pin { _mode: PhantomData },
            pin5: Pin { _mode: PhantomData },
            pin6: Pin { _mode: PhantomData },
            pin7: Pin { _mode: PhantomData },
            pin8: Pin { _mode: PhantomData },
            pin9: Pin { _mode: PhantomData },
            pin10: Pin { _mode: PhantomData },
            pin11: Pin { _mode: PhantomData },
            pin12: Pin { _mode: PhantomData },
            pin13: Pin { _mode: PhantomData },
            pin14: Pin { _mode: PhantomData },
            pin15: Pin { _mode: PhantomData },
        }
    }
}

/// Capability for the alternate function high register of port `P`.
pub struct AFRH<const P: u8> {
    _0: (),
}

/// Capability for the alternate function low register of port `P`.
pub struct AFRL<const P: u8> {
    _0: (),
}

/// Capability for the mode register of port `P`.
pub struct MODER<const P: u8> {
    reg: Reg,
}

impl<const P: u8> View for MODER<P> {
    type V = Reg;

    closed spec fn view(&self) -> Reg {
        self.reg
    }
}

impl<const P: u8> MODER<P> {
    /// The mode register.
    pub fn moder(&self) -> (out: &Reg)
        ensures
            *out == self@,
    {
        &self.reg
    }

    /// Stores a word to the register.
    pub(crate) fn store(&mut self, value: u32)
        ensures
            final(self)@.stored(old(self)@, value),
    {
        self.reg.store(value);
    }

    /// Hands out the words that are owed to the hardware, oldest first.
    pub fn flush(&mut self) -> (out: Vec<u32>)
        ensures
            out@ == old(self)@.pending(),
            final(self)@.pending() == Seq::<u32>::empty(),
            final(self)@.bits() == old(self)@.bits(),
    {
        self.reg.flush()
    }
}

/// Capability for the output type register of port `P`.
pub struct OTYPER<const P: u8> {
    reg: Reg,
}

impl<const P: u8> View for OTYPER<P> {
    type V = Reg;

    closed spec fn view(&self) -> Reg {
        self.reg
    }
}

impl<const P: u8> OTYPER<P> {
    /// The output type register.
    pub fn otyper(&self) -> (out: &Reg)
        ensures
            *out == self@,
    {
        &self.reg
    }

    /// Stores a word to the register.
    pub(crate) fn store(&mut self, value: u32)
        ensures
            final(self)@.stored(old(self)@, value),
    {
        self.reg.store(value);
    }

    /// Hands out the words that are owed to the hardware, oldest first.
    pub fn flush(&mut self) -> (out: Vec<u32>)
        ensures
            out@ == old(self)@.pending(),
            final(self)@.pending() == Seq::<u32>::empty(),
            final(self)@.bits() == old(self)@.bits(),
    {
        self.reg.flush()
    }
}

/// Capability for the pull-up and pull-down register of port `P`.
pub struct PUPDR<const P: u8> {
    reg: Reg,
}

impl<const P: u8> View for PUPDR<P> {
    type V = Reg;

    closed spec fn view(&self) -> Reg {
        self.reg
    }
}

impl<const P: u8> PUPDR<P> {
    /// The pull-up and pull-down register.
    pub fn pupdr(&self) -> (out: &Reg)
        ensures
            *out == self@,
    {
        &self.reg
    }

    /// Stores a word to the register.
    pub(crate) fn store(&mut self, value: u32)
        ensures
            final(self)@.stored(old(self)@, value),
    {
        self.reg.store(value);
    }

    /// Hands out the words that are owed to the hardware, oldest first.
    pub fn flush(&mut self) -> (out: Vec<u32>)
        ensures
            out@ == old(self)@.pending(),
            final(self)@.pending() == Seq::<u32>::empty(),
            final(self)@.bits() == old(self)@.bits(),
    {
        self.reg.flush()
    }
}

/// The word that drives pin `index` high when stored to the set/reset register.
pub open spec fn set_word(index: u8) -> u32 {
    1u32 << index
}

/// The word that drives pin `index` low when stored to the set/reset register.
pub open spec fn reset_word(index: u8) -> u32 {
    1u32 << ((16 + index) as u8)
}

/// Whether an input data word shows pin `index` low.
pub open spec fn reads_low(idr: u32, index: u8) -> bool {
    !flag(idr, index)
}

/// The word that drives pin `index` high.
pub fn set_high_word(index: u8) -> (word: u32)
    requires
        index < PINS,
    ensures
        word == set_word(index),
        forall|bit: u8| bit < 32 ==> (#[trigger] flag(word, bit) <==> bit == index),
{
    let word: u32 = 1u32 << index;
    proof {
        assert forall|bit: u8| bit < 32 implies (#[trigger] flag(word, bit) <==> bit == index) by {
            lemma_single_bit(index, bit);
        }
    }
    word
}

/// The word that drives pin `index` low.
pub fn set_low_word(index: u8) -> (word: u32)
    requires
        index < PINS,
    ensures
        word == reset_word(index),
        forall|bit: u8| bit < 32 ==> (#[trigger] flag(word, bit) <==> bit == 16 + index),
{
    let place: u8 = 16 + index;
    let word: u32 = 1u32 << place;
    proof {
        assert forall|bit: u8| bit < 32 implies (#[trigger] flag(word, bit) <==> bit == 16
            + index) by {
            lemma_single_bit(place, bit);
        }
    }
    word
}

/// A word with one bit shifted in has that bit set and no other.
pub proof fn lemma_single_bit(place: u8, bit: u8)
    requires
        place < 32,
        bit < 32,
    ensures
        flag(1u32 << place, bit) <==> bit == place,
{
    assert(((1u32 << place) & (1u32 << bit) != 0) <==> bit == place) by (bit_vector)
        requires
            place < 32,
            bit < 32,
    ;
}

/// A change of a pin's mode.
pub enum Transition {
    /// To a floating input.
    FloatingInput,
    /// To a pulled-down input.
    PullDownInput,
    /// To a pulled-up input.
    PullUpInput,
    /// To an open-drain output.
    OpenDrainOutput,
    /// To a push-pull output.
    PushPullOutput,
}

/// The contents of the three configuration registers of a port.
pub struct PortWords {
    /// The mode register.
    pub moder: u32,
    /// The output type register.
    pub otyper: u32,
    /// The pull-up and pull-down register.
    pub pupdr: u32,
}

/// What the registers hold after pin `index` made the transition `change`.
pub open spec fn after_transition(words: PortWords, index: u8, change: Transition) -> PortWords {
    match change {
        Transition::FloatingInput => PortWords {
            moder: with_pair_field(words.moder, index, MODE_INPUT),
            otyper: words.otyper,
            pupdr: with_pair_field(words.pupdr, index, PULL_NONE),
        },
        Transition::PullDownInput => PortWords {
            moder: with_pair_field(words.moder, index, MODE_INPUT),
            otyper: words.otyper,
            pupdr: with_pair_field(words.pupdr, index, PULL_DOWN),
        },
        Transition::PullUpInput => PortWords {
            moder: with_pair_field(words.moder, index, MODE_INPUT),
            otyper: words.otyper,
            pupdr: with_pair_field(words.pupdr, index, PULL_UP),
        },
        Transition::OpenDrainOutput => PortWords {
            moder: with_pair_field(words.moder, index, MODE_OUTPUT),
            otyper: with_flag(words.otyper, index, true),
            pupdr: words.pupdr,
        },
        Transition::PushPullOutput => PortWords {
            moder: with_pair_field(words.moder, index, MODE_OUTPUT),
            otyper: with_flag(words.otyper, index, false),
            pupdr: words.pupdr,
        },
    }
}

/// What the registers hold after pin `index` made the transitions `changes`,
/// first to last.
pub open spec fn after_transitions(words: PortWords, index: u8, changes: Seq<Transition>) -> PortWords
    decreases changes.len(),
{
    if changes.len() == 0 {
        words
    } else {
        after_transition(after_transitions(words, index, changes.drop_last()), index, changes.last())
    }
}

/// The configuration of pin `index` that the registers hold: its mode field,
/// its output type bit and its pull field.
pub open spec fn stored_mode(words: PortWords, index: u8) -> (u32, bool, u32) {
    (pair_field(words.moder, index), flag(words.otyper, index), pair_field(words.pupdr, index))
}

/// The mode field that a transition writes.
pub open spec fn target_mode(change: Transition) -> u32 {
    match change {
        Transition::FloatingInput | Transition::PullDownInput | Transition::PullUpInput => MODE_INPUT,
        Transition::OpenDrainOutput | Transition::PushPullOutput => MODE_OUTPUT,
    }
}

/// After a transition the registers hold, for the pin that made it, the
/// configuration that the transition names: the mode field; for an input the
/// pull field, with the output type as it was; for an output the output type,
/// with the pull field as it was.
pub proof fn lemma_transition_sets_own_pin(words: PortWords, index: u8, change: Transition)
    requires
        index < PINS,
    ensures
        stored_mode(after_transition(words, index, change), index) == match change {
            Transition::FloatingInput => (MODE_INPUT, flag(words.otyper, index), PULL_NONE),
            Transition::PullDownInput => (MODE_INPUT, flag(words.otyper, index), PULL_DOWN),
            Transition::PullUpInput => (MODE_INPUT, flag(words.otyper, index), PULL_UP),
            Transition::OpenDrainOutput => (MODE_OUTPUT, true, pair_field(words.pupdr, index)),
            Transition::PushPullOutput => (MODE_OUTPUT, false, pair_field(words.pupdr, index)),
        },
        stored_mode(after_transition(words, index, change), index).0 == target_mode(change),
{
    lemma_pair_field_written(words.moder, index, MODE_INPUT);
    lemma_pair_field_written(words.moder, index, MODE_OUTPUT);
    lemma_pair_field_written(words.pupdr, index, PULL_NONE);
    lemma_pair_field_written(words.pupdr, index, PULL_DOWN);
    lemma_pair_field_written(words.pupdr, index, PULL_UP);
    lemma_flag_written(words.otyper, index, true);
    lemma_flag_written(words.otyper, index, false);
}

/// One transition of a pin leaves the stored configuration of every other pin
/// as it was.
pub proof fn lemma_transition_keeps_other_pins(
    words: PortWords,
    index: u8,
    change: Transition,
    other: u8,
)
    requires
        index < PINS,
        other < PINS,
        other != index,
    ensures
        stored_mode(after_transition(words, index, change), other) == stored_mode(words, other),
{
    lemma_pair_field_kept(words.moder, index, MODE_INPUT, other);
    lemma_pair_field_kept(words.moder, index, MODE_OUTPUT, other);
    lemma_pair_field_kept(words.pupdr, index, PULL_NONE, other);
    lemma_pair_field_kept(words.pupdr, index, PULL_DOWN, other);
    lemma_pair_field_kept(words.pupdr, index, PULL_UP, other);
    lemma_flag_kept(words.otyper, index, true, other);
    lemma_flag_kept(words.otyper, index, false, other);
}

/// However many transitions a pin makes, the stored configuration of every
/// other pin stays as it was.
pub proof fn lemma_transitions_keep_other_pins(
    words: PortWords,
    index: u8,
    changes: Seq<Transition>,
    other: u8,
)
    requires
        index < PINS,
        other < PINS,
        other != index,
    ensures
        stored_mode(after_transitions(words, index, changes), other) == stored_mode(words, other),
    decreases changes.len(),
{
    if changes.len() > 0 {
        lemma_transitions_keep_other_pins(words, index, changes.drop_last(), other);
        lemma_transition_keeps_other_pins(
            after_transitions(words, index, changes.drop_last()),
            index,
            changes.last(),
            other,
        );
    }
}

/// Partially erased pin of port `P`: the mode is in the type, the index is a
/// value.
pub struct ErasedPin<const P: u8, MODE> {
    i: u8,
    _mode: PhantomData<MODE>,
}

impl<const P: u8, MODE> ErasedPin<P, MODE> {
    #[verifier::type_invariant]
    spec fn wf(self) -> bool {
        self.i < PINS
    }

    /// The pin's index in its port.
    pub closed spec fn index(&self) -> u8 {
        self.i
    }

    /// The pin's index in its port.
    pub fn pin_index(&self) -> (out: u8)
        ensures
            out == self.index(),
            out < PINS,
    {
        proof {
            use_type_invariant(self);
        }
        self.i
    }
}

impl<const P: u8, MODE> ErasedPin<P, Output<MODE>> {
    /// The word to store to the port's set/reset register to drive the pin
    /// high: the bit of the pin's index and no other.
    #[must_use]
    pub fn set_high(&mut self) -> (word: u32)
        ensures
            word == set_word(old(self).index()),
            final(self).index() == old(self).index(),
            forall|bit: u8| bit < 32 ==> (#[trigger] flag(word, bit) <==> bit == old(self).index()),
    {
        proof {
            use_type_invariant(&*self);
        }
        set_high_word(self.i)
    }

    /// The word to store to the port's set/reset register to drive the pin
    /// low: the bit sixteen places above the pin's index and no other.
    #[must_use]
    pub fn set_low(&mut self) -> (word: u32)
        ensures
            word == reset_word(old(self).index()),
            final(self).index() == old(self).index(),
            forall|bit: u8| bit < 32
                ==> (#[trigger] flag(word, bit) <==> bit == 16 + old(self).index()),
    {
        proof {
            use_type_invariant(&*self);
        }
        set_low_word(self.i)
    }
}

/// Pin `I` of port `P` in the electrical mode `MODE`.
pub struct Pin<const P: u8, const I: u8, MODE> {
    _mode: PhantomData<MODE>,
}

impl<const P: u8, const I: u8, MODE> Pin<P, I, MODE> {
    #[verifier::type_invariant]
    spec fn wf(self) -> bool {
        I < PINS
    }

    /// Configures the pin to operate as a floating input.
    pub fn into_floating_input(
        self,
        moder: &mut MODER<P>,
        pupdr: &mut PUPDR<P>,
    ) -> (pin: Pin<P, I, Input<Floating>>)
        ensures
            I < PINS,
            final(moder)@.stored(old(moder)@, with_pair_field(old(moder)@.bits(), I, MODE_INPUT)),
            pair_field(final(moder)@.bits(), I) == MODE_INPUT,
            forall|other: u8| other < PINS && other != I
                ==> #[trigger] pair_field(final(moder)@.bits(), other) == pair_field(
                old(moder)@.bits(),
                other,
            ),
            final(pupdr)@.stored(old(pupdr)@, with_pair_field(old(pupdr)@.bits(), I, PULL_NONE)),
            pair_field(final(pupdr)@.bits(), I) == PULL_NONE,
            forall|other: u8| other < PINS && other != I
                ==> #[trigger] pair_field(final(pupdr)@.bits(), other) == pair_field(
                old(pupdr)@.bits(),
                other,
            ),
    {
        proof {
            use_type_invariant(&self);
        }
        moder.store(set_pair_field(moder.moder().read(), I, MODE_INPUT));
        pupdr.store(set_pair_field(pupdr.pupdr().read(), I, PULL_NONE));
        Pin { _mode: PhantomData }
    }

    /// Configures the pin to operate as a pulled-down input. The pull field is
    /// rewritten as a whole with the pull-down pattern, whatever it held.
    pub fn into_pull_down_input(
        self,
        moder: &mut MODER<P>,
        pupdr: &mut PUPDR<P>,
    ) -> (pin: Pin<P, I, Input<PullDown>>)
        ensures
            I < PINS,
            final(moder)@.stored(old(moder)@, with_pair_field(old(moder)@.bits(), I, MODE_INPUT)),
            pair_field(final(moder)@.bits(), I) == MODE_INPUT,
            forall|other: u8| other < PINS && other != I
                ==> #[trigger] pair_field(final(moder)@.bits(), other) == pair_field(
                old(moder)@.bits(),
                other,
            ),
            final(pupdr)@.stored(old(pupdr)@, with_pair_field(old(pupdr)@.bits(), I, PULL_DOWN)),
            pair_field(final(pupdr)@.bits(), I) == PULL_DOWN,
            forall|other: u8| other < PINS && other != I
                ==> #[trigger] pair_field(final(pupdr)@.bits(), other) == pair_field(
                old(pupdr)@.bits(),
                other,
            ),
    {
        proof {
            use_type_invariant(&self);
        }
        moder.store(set_pair_field(moder.moder().read(), I, MODE_INPUT));
        pupdr.store(set_pair_field(pupdr.pupdr().read(), I, PULL_DOWN));
        Pin { _mode: PhantomData }
    }

    /// Configures the pin to operate as a pulled-up input. The pull field is
    /// rewritten as a whole with the pull-up pattern, whatever it held.
    pub fn into_pull_up_input(
        self,
        moder: &mut MODER<P>,
        pupdr: &mut PUPDR<P>,
    ) -> (pin: Pin<P, I, Input<PullUp>>)
        ensures
            I < PINS,
            final(moder)@.stored(old(moder)@, with_pair_field(old(moder)@.bits(), I, MODE_INPUT)),
            pair_field(final(moder)@.bits(), I) == MODE_INPUT,
            forall|other: u8| other < PINS && other != I
                ==> #[trigger] pair_field(final(moder)@.bits(), other) == pair_field(
                old(moder)@.bits(),
                other,
            ),
            final(pupdr)@.stored(old(pupdr)@, with_pair_field(old(pupdr)@.bits(), I, PULL_UP)),
            pair_field(final(pupdr)@.bits(), I) == PULL_UP,
            forall|other: u8| other < PINS && other != I
                ==> #[trigger] pair_field(final(pupdr)@.bits(), other) == pair_field(
                old(pupdr)@.bits(),
                other,
            ),
    {
        proof {
            use_type_invariant(&self);
        }
        moder.store(set_pair_field(moder.moder().read(), I, MODE_INPUT));
        pupdr.store(set_pair_field(pupdr.pupdr().read(), I, PULL_UP));
        Pin { _mode: PhantomData }
    }

    /// Configures the pin to operate as an open-drain output.
    pub fn into_open_drain_output(
        self,
        moder: &mut MODER<P>,
        otyper: &mut OTYPER<P>,
    ) -> (pin: Pin<P, I, Output<OpenDrain>>)
        ensures
            I < PINS,
            final(moder)@.stored(old(moder)@, with_pair_field(old(moder)@.bits(), I, MODE_OUTPUT)),
            pair_field(final(moder)@.bits(), I) == MODE_OUTPUT,
            forall|other: u8| other < PINS && other != I
                ==> #[trigger] pair_field(final(moder)@.bits(), other) == pair_field(
                old(moder)@.bits(),
                other,
            ),
            final(otyper)@.stored(old(otyper)@, with_flag(old(otyper)@.bits(), I, true)),
            flag(final(otyper)@.bits(), I) == true,
            forall|other: u8| other < 32 && other != I
                ==> #[trigger] flag(final(otyper)@.bits(), other) == flag(
                old(otyper)@.bits(),
                other,
            ),
    {
        proof {
            use_type_invariant(&self);
        }
        moder.store(set_pair_field(moder.moder().read(), I, MODE_OUTPUT));
        otyper.store(set_flag(otyper.otyper().read(), I, true));
        Pin { _mode: PhantomData }
    }

    /// Configures the pin to operate as a push-pull output.
    pub fn into_push_pull_output(
        self,
        moder: &mut MODER<P>,
        otyper: &mut OTYPER<P>,
    ) -> (pin: Pin<P, I, Output<PushPull>>)
        ensures
            I < PINS,
            final(moder)@.stored(old(moder)@, with_pair_field(old(moder)@.bits(), I, MODE_OUTPUT)),
            pair_field(final(moder)@.bits(), I) == MODE_OUTPUT,
            forall|other: u8| other < PINS && other != I
                ==> #[trigger] pair_field(final(moder)@.bits(), other) == pair_field(
                old(moder)@.bits(),
                other,
            ),
            final(otyper)@.stored(old(otyper)@, with_flag(old(otyper)@.bits(), I, false)),
            flag(final(otyper)@.bits(), I) == false,
            forall|other: u8| other < 32 && other != I
                ==> #[trigger] flag(final(otyper)@.bits(), other) == flag(
                old(otyper)@.bits(),
                other,
            ),
    {
        proof {
            use_type_invariant(&self);
        }
        moder.store(set_pair_field(moder.moder().read(), I, MODE_OUTPUT));
        otyper.store(set_flag(otyper.otyper().read(), I, false));
        Pin { _mode: PhantomData }
    }
}

impl<const P: u8, const I: u8> Pin<P, I, Output<OpenDrain>> {
    /// Enables or disables the internal pull-up.
    pub fn internal_pull_up(&mut self, pupdr: &mut PUPDR<P>, on: bool)
        ensures
            I < PINS,
            final(pupdr)@.stored(
                old(pupdr)@,
                with_pair_field(old(pupdr)@.bits(), I, if on { PULL_UP } else { PULL_NONE }),
            ),
            pair_field(final(pupdr)@.bits(), I) == (if on { PULL_UP } else { PULL_NONE }),
            forall|other: u8| other < PINS && other != I
                ==> #[trigger] pair_field(final(pupdr)@.bits(), other) == pair_field(
                old(pupdr)@.bits(),
                other,
            ),
    {
        proof {
            use_type_invariant(&*self);
        }
        let pull: u32 = if on {
            PULL_UP
        } else {
            PULL_NONE
        };
        pupdr.store(set_pair_field(pupdr.pupdr().read(), I, pull));
    }
}

impl<const P: u8, const I: u8, MODE> Pin<P, I, Output<MODE>> {
    /// Erases the pin number from the type, so that pins of one mode can be
    /// held in one collection.
    pub fn downgrade(self) -> (pin: ErasedPin<P, Output<MODE>>)
        ensures
            pin.index() == I,
    {
        proof {
            use_type_invariant(&self);
        }
        ErasedPin { i: I, _mode: PhantomData }
    }

    /// The word to store to the port's set/reset register to drive the pin
    /// high: bit `I` and no other.
    #[must_use]
    pub fn set_high(&mut self) -> (word: u32)
        ensures
            word == set_word(I),
            forall|bit: u8| bit < 32 ==> (#[trigger] flag(word, bit) <==> bit == I),
    {
        proof {
            use_type_invariant(&*self);
        }
        set_high_word(I)
    }

    /// The word to store to the port's set/reset register to drive the pin
    /// low: bit `16 + I` and no other.
    #[must_use]
    pub fn set_low(&mut self) -> (word: u32)
        ensures
            word == reset_word(I),
            forall|bit: u8| bit < 32 ==> (#[trigger] flag(word, bit) <==> bit == 16 + I),
    {
        proof {
            use_type_invariant(&*self);
        }
        set_low_word(I)
    }
}

impl<const P: u8, const I: u8, MODE> Pin<P, I, Input<MODE>> {
    /// Whether the input data word `idr`, as read from the port, shows the pin
    /// high.
    pub fn is_high(&self, idr: u32) -> (out: bool)
        ensures
            out == !reads_low(idr, I),
    {
        !self.is_low(idr)
    }

    /// Whether the input data word `idr`, as read from the port, shows the pin
    /// low.
    pub fn is_low(&self, idr: u32) -> (out: bool)
        ensures
            out == reads_low(idr, I),
    {
        proof {
            use_type_invariant(self);
        }
        !get_flag(idr, I)
    }
}

} // verus!
