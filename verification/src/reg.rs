//! Register words: per-pin fields, and the model of one hardware register.

use vstd::prelude::*;

verus! {

/// Number of pins of one port, and so the number of per-pin fields in a word.
pub const PINS: u8 = 16;

/// Bit offset of the two-bit field of pin `index`.
pub open spec fn pair_offset(index: u8) -> u32 {
    (2 * index) as u32
}

/// The two-bit field of pin `index` in `word`.
pub open spec fn pair_field(word: u32, index: u8) -> u32 {
    (word >> pair_offset(index)) & 3u32
}

/// `word` with the two-bit field of pin `index` replaced by `value`.
pub open spec fn with_pair_field(word: u32, index: u8, value: u32) -> u32 {
    (word & !(3u32 << pair_offset(index))) | (value << pair_offset(index))
}

/// Whether bit `index` of `word` is set.
pub open spec fn flag(word: u32, index: u8) -> bool {
    word & (1u32 << index) != 0
}

/// `word` with bit `index` set to `on`.
pub open spec fn with_flag(word: u32, index: u8, on: bool) -> u32 {
    if on {
        word | (1u32 << index)
    } else {
        word & !(1u32 << index)
    }
}

/// Replaces the two-bit field of pin `index` and keeps every other bit.
pub fn set_pair_field(word: u32, index: u8, value: u32) -> (out: u32)
    requires
        index < PINS,
        value < 4,
    ensures
        out == with_pair_field(word, index, value),
        pair_field(out, index) == value,
        forall|other: u8| other < PINS && other != index
            ==> #[trigger] pair_field(out, other) == pair_field(word, other),
        forall|bit: u8| bit < 32 && bit != 2 * index && bit != 2 * index + 1
            ==> #[trigger] flag(out, bit) == flag(word, bit),
{
    let offset: u32 = 2 * (index as u32);
    let out: u32 = (word & !(0b11u32 << offset)) | (value << offset);
    proof {
        lemma_pair_field_written(word, index, value);
        assert forall|other: u8| other < PINS && other != index implies #[trigger] pair_field(
            out,
            other,
        ) == pair_field(word, other) by {
            lemma_pair_field_kept(word, index, value, other);
        }
        assert forall|bit: u8| bit < 32 && bit != 2 * index && bit != 2 * index + 1 implies #[trigger] flag(
            out,
            bit,
        ) == flag(word, bit) by {
            lemma_pair_field_outside(word, index, value, bit);
        }
    }
    out
}

/// Sets or clears bit `index` and keeps every other bit.
pub fn set_flag(word: u32, index: u8, on: bool) -> (out: u32)
    requires
        index < 32,
    ensures
        out == with_flag(word, index, on),
        flag(out, index) == on,
        forall|other: u8| other < 32 && other != index
            ==> #[trigger] flag(out, other) == flag(word, other),
{
    let out: u32 = if on {
        word | (1u32 << index)
    } else {
        word & !(1u32 << index)
    };
    proof {
        lemma_flag_written(word, index, on);
        assert forall|other: u8| other < 32 && other != index implies #[trigger] flag(out, other)
            == flag(word, other) by {
            lemma_flag_kept(word, index, on, other);
        }
    }
    out
}

/// Reads bit `index`.
pub fn get_flag(word: u32, index: u8) -> (out: bool)
    requires
        index < 32,
    ensures
        out == flag(word, index),
{
    word & (1u32 << index) != 0
}

/// A field that was written reads back as the value written.
pub proof fn lemma_pair_field_written(word: u32, index: u8, value: u32)
    requires
        index < PINS,
        value < 4,
    ensures
        pair_field(with_pair_field(word, index, value), index) == value,
{
    let off = pair_offset(index);
    assert(off == 2 * index && off <= 30);
    assert((((word & !(3u32 << off)) | (value << off)) >> off) & 3u32 == value) by (bit_vector)
        requires
            off <= 30,
            value < 4,
    ;
}

/// Writing the field of one pin leaves the field of every other pin as it was.
pub proof fn lemma_pair_field_kept(word: u32, index: u8, value: u32, other: u8)
    requires
        index < PINS,
        other < PINS,
        other != index,
        value < 4,
    ensures
        pair_field(with_pair_field(word, index, value), other) == pair_field(word, other),
{
    let off = pair_offset(index);
    let oth = pair_offset(other);
    assert(off == 2 * index && oth == 2 * other);
    assert(off + 2 <= oth || oth + 2 <= off);
    assert((((word & !(3u32 << off)) | (value << off)) >> oth) & 3u32 == (word >> oth) & 3u32)
        by (bit_vector)
        requires
            off <= 30,
            oth <= 30,
            off + 2 <= oth || oth + 2 <= off,
            value < 4,
    ;
}

/// Writing the field of one pin changes no bit outside that field.
pub proof fn lemma_pair_field_outside(word: u32, index: u8, value: u32, bit: u8)
    requires
        index < PINS,
        value < 4,
        bit < 32,
        bit != 2 * index,
        bit != 2 * index + 1,
    ensures
        flag(with_pair_field(word, index, value), bit) == flag(word, bit),
{
    let off = pair_offset(index);
    assert(off == 2 * index);
    assert((((word & !(3u32 << off)) | (value << off)) & (1u32 << bit) != 0) == (word & (1u32
        << bit) != 0)) by (bit_vector)
        requires
            off < 31,
            bit < 32,
            bit != off,
            bit != off + 1,
            value < 4,
    ;
}

/// A bit that was written reads back as written.
pub proof fn lemma_flag_written(word: u32, index: u8, on: bool)
    requires
        index < 32,
    ensures
        flag(with_flag(word, index, on), index) == on,
{
    assert((word | (1u32 << index)) & (1u32 << index) != 0) by (bit_vector)
        requires
            index < 32,
    ;
    assert((word & !(1u32 << index)) & (1u32 << index) == 0) by (bit_vector)
        requires
            index < 32,
    ;
}

/// Writing one bit leaves every other bit as it was.
pub proof fn lemma_flag_kept(word: u32, index: u8, on: bool, other: u8)
    requires
        index < 32,
        other < 32,
        other != index,
    ensures
        flag(with_flag(word, index, on), other) == flag(word, other),
{
    assert(((word | (1u32 << index)) & (1u32 << other) != 0) == (word & (1u32 << other) != 0))
        by (bit_vector)
        requires
            index < 32,
            other < 32,
            other != index,
    ;
    assert(((word & !(1u32 << index)) & (1u32 << other) != 0) == (word & (1u32 << other) != 0))
        by (bit_vector)
        requires
            index < 32,
            other < 32,
            other != index,
    ;
}

/// One hardware register as the library sees it: its contents, and the words
/// stored to it that have not been carried out to the hardware yet, oldest
/// first. Only the holder of the register's capability can store to it.
pub struct Reg {
    bits: u32,
    stores: Vec<u32>,
}

impl Reg {
    /// The contents of the register.
    pub closed spec fn bits(&self) -> u32 {
        self.bits
    }

    /// The words stored and not flushed yet, oldest first.
    pub closed spec fn pending(&self) -> Seq<u32> {
        self.stores@
    }

    /// `self` is `pre` after one store of `value`.
    pub open spec fn stored(&self, pre: Reg, value: u32) -> bool {
        self.bits() == value && self.pending() == pre.pending().push(value)
    }

    /// `self` holds and owes what `pre` does.
    pub open spec fn same_as(&self, pre: Reg) -> bool {
        self.bits() == pre.bits() && self.pending() == pre.pending()
    }

    /// A register that holds `value` and owes the hardware nothing.
    pub(crate) fn holding(value: u32) -> (out: Reg)
        ensures
            out.bits() == value,
            out.pending() == Seq::<u32>::empty(),
    {
        Reg { bits: value, stores: Vec::new() }
    }

    /// The contents of the register.
    pub fn read(&self) -> (out: u32)
        ensures
            out == self.bits(),
    {
        self.bits
    }

    /// The number of words that wait to be flushed.
    pub fn pending_len(&self) -> (out: usize)
        ensures
            out == self.pending().len(),
    {
        self.stores.len()
    }

    /// Stores `value`: the register holds it, and it is owed to the hardware.
    pub(crate) fn store(&mut self, value: u32)
        ensures
            final(self).stored(*old(self), value),
    {
        self.bits = value;
        self.stores.push(value);
    }

    /// Takes over contents that the hardware reported; nothing is owed for it.
    pub(crate) fn observe(&mut self, value: u32)
        ensures
            final(self).bits() == value,
            final(self).pending() == old(self).pending(),
    {
        self.bits = value;
    }

    /// Hands out the pending words, oldest first, and forgets them. The
    /// contents stay.
    pub(crate) fn flush(&mut self) -> (out: Vec<u32>)
        ensures
            out@ == old(self).pending(),
            final(self).pending() == Seq::<u32>::empty(),
            final(self).bits() == old(self).bits(),
    {
        let mut out: Vec<u32> = Vec::new();
        core::mem::swap(&mut out, &mut self.stores);
        out
    }
}

} // verus!
