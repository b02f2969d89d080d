//! High-speed GPIO block and single-line handles.
//!
//! The register block holds one bit per line in each of its three words.
//! A [`Gpiohs`] value is a handle on one line; the block itself is owned by
//! whoever owns the pins (the display controller owns the block for its
//! reset and data/command select lines).

use vstd::prelude::*;

verus! {

/// Value of `word` with bit `index` forced to `bit`.
pub open spec fn spec_set_bit(word: u32, bit: bool, index: u32) -> u32 {
    if bit {
        word | (1u32 << index)
    } else {
        word & !(1u32 << index)
    }
}

/// Whether bit `index` of `word` is one.
pub open spec fn bit_is_set(word: u32, index: u32) -> bool {
    word & (1u32 << index) != 0
}

/// Forcing one bit leaves that bit at the requested value and every other
/// bit unchanged.
pub proof fn lemma_set_bit(word: u32, bit: bool, index: u32)
    requires
        index < 32,
    ensures
        bit_is_set(spec_set_bit(word, bit, index), index) == bit,
        forall|j: u32|
            j < 32 && j != index ==> bit_is_set(spec_set_bit(word, bit, index), j) == bit_is_set(
                word,
                j,
            ),
{
    assert(((word | (1u32 << index)) & (1u32 << index) != 0) && ((word & !(1u32 << index)) & (1u32
        << index) == 0)) by (bit_vector)
        requires
            index < 32,
    ;
    assert(forall|j: u32|
        j < 32 && index < 32 && j != index ==> ((word | (1u32 << index)) & (1u32 << j) == word & (
        1u32 << j)) && ((word & !(1u32 << index)) & (1u32 << j) == word & (1u32 << j)))
        by (bit_vector);
}

/// Forcing the same bit twice keeps only the second value.
pub proof fn lemma_set_bit_overwrite(word: u32, first: bool, second: bool, index: u32)
    requires
        index < 32,
    ensures
        spec_set_bit(spec_set_bit(word, first, index), second, index) == spec_set_bit(
            word,
            second,
            index,
        ),
{
    assert(((word | (1u32 << index)) | (1u32 << index) == word | (1u32 << index)) && ((word | (1u32
        << index)) & !(1u32 << index) == word & !(1u32 << index)) && ((word & !(1u32 << index)) | (
    1u32 << index) == word | (1u32 << index)) && ((word & !(1u32 << index)) & !(1u32 << index)
        == word & !(1u32 << index))) by (bit_vector);
}

/// Update one bit of a register word.
pub fn u32_set_bit(word: u32, bit: bool, index: usize) -> (r: u32)
    requires
        index < 32,
    ensures
        r == spec_set_bit(word, bit, index as u32),
{
    let mask: u32 = 1u32 << (index as u32);
    if bit {
        word | mask
    } else {
        word & !mask
    }
}

/// The register file of the high-speed GPIO block.
pub struct GpiohsBlock {
    /// Input-enable bit of each line.
    pub input_en: u32,
    /// Output-enable bit of each line.
    pub output_en: u32,
    /// Driven output value of each line.
    pub output_val: u32,
}

impl GpiohsBlock {
    /// The block as it reads after reset: everything disabled and low.
    pub fn new() -> (b: GpiohsBlock)
        ensures
            b.input_en == 0,
            b.output_en == 0,
            b.output_val == 0,
    {
        GpiohsBlock { input_en: 0, output_en: 0, output_val: 0 }
    }

    /// Enable or disable the input buffer of one line.
    pub fn set_input_en(&mut self, index: usize, bit: bool)
        requires
            index < 32,
        ensures
            final(self).input_en == spec_set_bit(old(self).input_en, bit, index as u32),
            final(self).output_en == old(self).output_en,
            final(self).output_val == old(self).output_val,
    {
        self.input_en = u32_set_bit(self.input_en, bit, index);
    }

    /// Enable or disable the output driver of one line.
    pub fn set_output_en(&mut self, index: usize, bit: bool)
        requires
            index < 32,
        ensures
            final(self).output_en == spec_set_bit(old(self).output_en, bit, index as u32),
            final(self).input_en == old(self).input_en,
            final(self).output_val == old(self).output_val,
    {
        self.output_en = u32_set_bit(self.output_en, bit, index);
    }

    /// Drive one line high or low.
    pub fn set_output_value(&mut self, index: usize, bit: bool)
        requires
            index < 32,
        ensures
            final(self).output_val == spec_set_bit(old(self).output_val, bit, index as u32),
            final(self).input_en == old(self).input_en,
            final(self).output_en == old(self).output_en,
    {
        self.output_val = u32_set_bit(self.output_val, bit, index);
    }
}

/// A handle on a single GPIO line.
pub struct Gpiohs {
    /// Which bit of the block's registers this line owns.
    pub index: usize,
}

impl Gpiohs {
    /// Take a handle on the line with the given bit index.
    pub fn new(index: usize) -> (g: Gpiohs)
        ensures
            g.index == index,
    {
        Gpiohs { index }
    }

    /// Configure the line as an output.  Only this line's bits move.
    pub fn set_output(&self, block: &mut GpiohsBlock)
        requires
            self.index < 32,
        ensures
            final(block).output_en == spec_set_bit(old(block).output_en, true, self.index as u32),
            final(block).input_en == spec_set_bit(old(block).input_en, false, self.index as u32),
            final(block).output_val == old(block).output_val,
            bit_is_set(final(block).output_en, self.index as u32),
            !bit_is_set(final(block).input_en, self.index as u32),
            forall|j: u32|
                j < 32 && j != self.index ==> bit_is_set(final(block).output_en, j) == bit_is_set(
                    old(block).output_en,
                    j,
                ) && bit_is_set(final(block).input_en, j) == bit_is_set(old(block).input_en, j),
    {
        block.set_output_en(self.index, true);
        block.set_input_en(self.index, false);
        proof {
            lemma_set_bit(old(block).output_en, true, self.index as u32);
            lemma_set_bit(old(block).input_en, false, self.index as u32);
        }
    }

    /// Drive the line high.  Only this line's output bit moves.
    pub fn set_high(&self, block: &mut GpiohsBlock)
        requires
            self.index < 32,
        ensures
            final(block).output_val == spec_set_bit(old(block).output_val, true, self.index as u32),
            final(block).input_en == old(block).input_en,
            final(block).output_en == old(block).output_en,
            bit_is_set(final(block).output_val, self.index as u32),
            forall|j: u32|
                j < 32 && j != self.index ==> bit_is_set(final(block).output_val, j) == bit_is_set(
                    old(block).output_val,
                    j,
                ),
    {
        block.set_output_value(self.index, true);
        proof {
            lemma_set_bit(old(block).output_val, true, self.index as u32);
        }
    }

    /// Drive the line low.  Only this line's output bit moves.
    pub fn set_low(&self, block: &mut GpiohsBlock)
        requires
            self.index < 32,
        ensures
            final(block).output_val == spec_set_bit(
                old(block).output_val,
                false,
                self.index as u32,
            ),
            final(block).input_en == old(block).input_en,
            final(block).output_en == old(block).output_en,
            !bit_is_set(final(block).output_val, self.index as u32),
            forall|j: u32|
                j < 32 && j != self.index ==> bit_is_set(final(block).output_val, j) == bit_is_set(
                    old(block).output_val,
                    j,
                ),
    {
        block.set_output_value(self.index, false);
        proof {
            lemma_set_bit(old(block).output_val, false, self.index as u32);
        }
    }
}

} // verus!
