//! Model of the GPIO peripheral's control and status register page.
//!
//! The page is a word-offset-addressed array of 32-bit registers. Writes to
//! the set- and clear-register words are strobes: the peripheral routes them
//! into the corresponding level-register word (a one bit sets or clears that
//! pin's level bit), and the strobe words themselves store nothing. Every
//! other word is plain storage.
//!
//! Beside the register file itself, this module holds the pure bit-field
//! arithmetic of the layer: function-select field extraction and update,
//! level bit tests and masks, and the pull-control code update. These
//! functions also serve a raw hardware adapter, which applies them to values
//! read from the real mapped page.

use vstd::prelude::*;

use crate::types::Level;
use crate::types::Mode;
use crate::types::PullUpDown;
use crate::types::spec_mode_bits;
use crate::types::spec_mode_of_bits;
use crate::types::spec_pud_bits;

verus! {

/// Number of pins the fixed register layout supports.
pub const MAX_PINS: u8 = 54;

/// Word offset of the first function select register.
pub const GPFSEL: usize = 0;

/// Word offset of the first level set strobe register.
pub const GPSET: usize = 7;

/// Word offset of the first level clear strobe register.
pub const GPCLR: usize = 10;

/// Word offset of the first level status register.
pub const GPLEV: usize = 13;

/// Word offset of the pull-up/down control register.
pub const GPPUD: usize = 37;

/// Word offset of the first pull-up/down clock register.
pub const GPPUDCLK: usize = 38;

/// Number of 32-bit words in the modeled register page.
pub const REG_WORDS: usize = 40;

/// The register page after a write of `value` at word `offset`: a strobe
/// write lands in the level word, any other write is plain storage.
pub open spec fn spec_reg_write(regs: Seq<u32>, offset: int, value: u32) -> Seq<u32> {
    if GPSET <= offset && offset < GPSET + 2 {
        let w = GPLEV + (offset - GPSET);
        regs.update(w, regs[w] | value)
    } else if GPCLR <= offset && offset < GPCLR + 2 {
        let w = GPLEV + (offset - GPCLR);
        regs.update(w, regs[w] & !value)
    } else {
        regs.update(offset, value)
    }
}

/// The peripheral's register page, valid only while the owning handle is
/// open; shared multi-step sequences on it are serialized by the caller.
pub struct Registers {
    words: Vec<u32>,
}

impl View for Registers {
    type V = Seq<u32>;

    closed spec fn view(&self) -> Seq<u32> {
        self.words@
    }
}

impl Registers {
    /// The page always holds exactly the fixed number of register words.
    pub open spec fn wf(self) -> bool {
        self@.len() == REG_WORDS
    }

    /// A fresh page with every register word zeroed.
    pub fn new() -> (r: Registers)
        ensures
            r.wf(),
            forall|i: int| 0 <= i < REG_WORDS ==> r@[i] == 0u32,
    {
        Registers { words: vec![0u32; REG_WORDS] }
    }

    /// Reads the 32-bit register word at `offset`.
    pub fn read(&self, offset: usize) -> (r: u32)
        requires
            self.wf(),
            offset < REG_WORDS,
        ensures
            r == self@[offset as int],
    {
        self.words[offset]
    }

    /// Writes the 32-bit register word at `offset`, with strobe writes
    /// routed into the level words as the peripheral routes them.
    pub fn write(&mut self, offset: usize, value: u32)
        requires
            old(self).wf(),
            offset < REG_WORDS,
        ensures
            final(self).wf(),
            final(self)@ == spec_reg_write(old(self)@, offset as int, value),
    {
        if GPSET <= offset && offset < GPSET + 2 {
            let w = GPLEV + (offset - GPSET);
            let cur = self.words[w];
            self.words[w] = cur | value;
        } else if GPCLR <= offset && offset < GPCLR + 2 {
            let w = GPLEV + (offset - GPCLR);
            let cur = self.words[w];
            self.words[w] = cur & !value;
        } else {
            self.words[offset] = value;
        }
    }
}

// ------------------------------------------------------------------
// Function select fields: ten 3-bit mode fields per register word.
// ------------------------------------------------------------------

/// Bit position of function-select slot `slot` within its register word.
pub open spec fn spec_fsel_shift(slot: u32) -> u32 {
    (3 * slot) as u32
}

/// The 3-bit mode field of `word` at slot `slot`.
pub open spec fn spec_fsel_field(word: u32, slot: u32) -> u32 {
    (word >> spec_fsel_shift(slot)) & 0b111
}

/// `word` with the 3-bit mode field at slot `slot` replaced by `bits`.
pub open spec fn spec_fsel_set(word: u32, slot: u32, bits: u32) -> u32 {
    (word & !(0b111u32 << spec_fsel_shift(slot))) | ((bits & 0b111) << spec_fsel_shift(slot))
}

/// Extracts the 3-bit mode field of `word` at slot `slot`.
pub fn fsel_field(word: u32, slot: u32) -> (f: u32)
    requires
        slot < 10,
    ensures
        f == spec_fsel_field(word, slot),
        f < 8,
{
    let sh: u32 = 3 * slot;
    let f = (word >> sh) & 0b111;
    proof {
        assert((word >> sh) & 0b111 < 8 && (word >> sh) & 0b111 == (word >> ((3 * slot) as u32))
            & 0b111) by (bit_vector)
            requires
                sh == 3 * slot && slot < 10,
        ;
    }
    f
}

/// Replaces the 3-bit mode field of `word` at slot `slot` with `bits`.
pub fn fsel_set(word: u32, slot: u32, bits: u32) -> (r: u32)
    requires
        slot < 10,
        bits < 8,
    ensures
        r == spec_fsel_set(word, slot, bits),
{
    let sh: u32 = 3 * slot;
    let r = (word & !(0b111u32 << sh)) | ((bits & 0b111) << sh);
    proof {
        assert((word & !(0b111u32 << sh)) | ((bits & 0b111) << sh) == (word & !(0b111u32 << ((3
            * slot) as u32))) | ((bits & 0b111) << ((3 * slot) as u32))) by (bit_vector)
            requires
                sh == 3 * slot && slot < 10,
        ;
    }
    r
}

/// A replaced mode field reads back exactly, and every other slot of the
/// word keeps its field.
pub proof fn lemma_fsel_set_field(word: u32, slot: u32, bits: u32)
    by (bit_vector)
    requires
        slot < 10,
        bits < 8,
    ensures
        spec_fsel_field(spec_fsel_set(word, slot, bits), slot) == bits,
        forall|other: u32|
            other < 10 && other != slot ==> spec_fsel_field(spec_fsel_set(word, slot, bits), other)
                == spec_fsel_field(word, other),
{
}

/// Writing a slot's own current field back restores the whole word: the
/// mode write of a scoped guard and its restore compose to the identity.
pub proof fn lemma_fsel_set_roundtrip(word: u32, slot: u32, bits: u32)
    by (bit_vector)
    requires
        slot < 10,
        bits < 8,
    ensures
        spec_fsel_set(spec_fsel_set(word, slot, bits), slot, spec_fsel_field(word, slot)) == word,
{
}

/// Writing the field value a slot already holds leaves the word unchanged.
pub proof fn lemma_fsel_set_same(word: u32, slot: u32)
    by (bit_vector)
    requires
        slot < 10,
    ensures
        spec_fsel_set(word, slot, spec_fsel_field(word, slot)) == word,
{
}

// ------------------------------------------------------------------
// Level bits: one bit per pin in the level, set and clear words.
// ------------------------------------------------------------------

/// The level a register bit encodes: a one bit is a high level.
pub open spec fn spec_level_bit(word: u32, bit: u32) -> Level {
    if word & (1u32 << bit) != 0u32 {
        Level::High
    } else {
        Level::Low
    }
}

/// Tests the level bit of `word` at position `bit`.
pub fn level_bit(word: u32, bit: u32) -> (l: Level)
    requires
        bit < 32,
    ensures
        l == spec_level_bit(word, bit),
{
    if (word & (1u32 << bit)) != 0 {
        Level::High
    } else {
        Level::Low
    }
}

/// Or-ing a pin's mask into a word raises exactly that pin's bit.
pub proof fn lemma_or_mask(word: u32, bit: u32)
    by (bit_vector)
    requires
        bit < 32,
    ensures
        (word | (1u32 << bit)) & (1u32 << bit) != 0u32,
        forall|other: u32|
            other < 32 && other != bit ==> ((word | (1u32 << bit)) & (1u32 << other) != 0u32) == (
            word & (1u32 << other) != 0u32),
{
}

/// And-ing a pin's inverted mask into a word lowers exactly that bit.
pub proof fn lemma_and_not_mask(word: u32, bit: u32)
    by (bit_vector)
    requires
        bit < 32,
    ensures
        (word & !(1u32 << bit)) & (1u32 << bit) == 0u32,
        forall|other: u32|
            other < 32 && other != bit ==> ((word & !(1u32 << bit)) & (1u32 << other) != 0u32) == (
            word & (1u32 << other) != 0u32),
{
}

// ------------------------------------------------------------------
// Pull control: the 2-bit code in the low bits of the control word.
// ------------------------------------------------------------------

/// `word` with its 2-bit pull-control code replaced and the other thirty
/// bits untouched.
pub open spec fn spec_pud_control(word: u32, code: u32) -> u32 {
    (word & !0b11u32) | (code & 0b11)
}

/// Installs a 2-bit pull-control code in the low bits of `word`.
pub fn pud_control(word: u32, code: u32) -> (r: u32)
    ensures
        r == spec_pud_control(word, code),
{
    (word & !0b11u32) | (code & 0b11)
}

/// The control code lands in the low two bits and the rest of the word
/// is untouched; clearing afterwards restores a code of zero.
pub proof fn lemma_pud_control(word: u32, code: u32)
    by (bit_vector)
    ensures
        spec_pud_control(word, code) & 0b11 == code & 0b11,
        spec_pud_control(word, code) >> 2u32 == word >> 2u32,
        spec_pud_control(spec_pud_control(word, code), 0) == (word & !0b11u32),
{
}

// ------------------------------------------------------------------
// Per-pin derived views of the page.
// ------------------------------------------------------------------

/// Word offset of the function select register holding `pin`'s field.
pub open spec fn spec_fsel_word(pin: u8) -> int {
    GPFSEL + pin as int / 10
}

/// Function-select slot of `pin` within its register word.
pub open spec fn spec_fsel_slot(pin: u8) -> u32 {
    (pin % 10) as u32
}

/// Word offset of the level register holding `pin`'s bit.
pub open spec fn spec_lev_word(pin: u8) -> int {
    GPLEV + pin as int / 32
}

/// Bit position of `pin` within its level, set or clear word.
pub open spec fn spec_lev_bit(pin: u8) -> u32 {
    (pin % 32) as u32
}

/// The mode the page holds for `pin`.
pub open spec fn spec_pin_mode(regs: Seq<u32>, pin: u8) -> Mode {
    spec_mode_of_bits(spec_fsel_field(regs[spec_fsel_word(pin)], spec_fsel_slot(pin)))
}

/// The page after `pin`'s mode field is rewritten to `m`.
pub open spec fn spec_set_pin_mode(regs: Seq<u32>, pin: u8, m: Mode) -> Seq<u32> {
    regs.update(
        spec_fsel_word(pin),
        spec_fsel_set(regs[spec_fsel_word(pin)], spec_fsel_slot(pin), spec_mode_bits(m)),
    )
}

/// The level the page holds for `pin`.
pub open spec fn spec_pin_level(regs: Seq<u32>, pin: u8) -> Level {
    spec_level_bit(regs[spec_lev_word(pin)], spec_lev_bit(pin))
}

/// The page after a drive-level write for `pin`: a high level goes through
/// the set strobe, a low level through the clear strobe.
pub open spec fn spec_write_pin_level(regs: Seq<u32>, pin: u8, level: Level) -> Seq<u32> {
    match level {
        Level::High => spec_reg_write(regs, GPSET + pin as int / 32, 1u32 << spec_lev_bit(pin)),
        Level::Low => spec_reg_write(regs, GPCLR + pin as int / 32, 1u32 << spec_lev_bit(pin)),
    }
}

/// Two distinct pins of the same register word sit at distinct positions.
proof fn lemma_same_word_distinct_pos(p: u8, q: u8, d: u8)
    requires
        p != q,
        0 < d,
        p as int / d as int == q as int / d as int,
    ensures
        p as int % d as int != q as int % d as int,
{
    vstd::arithmetic::div_mod::lemma_fundamental_div_mod(p as int, d as int);
    vstd::arithmetic::div_mod::lemma_fundamental_div_mod(q as int, d as int);
}

/// A drive-level write for a pin is observed by a level read of the same
/// pin, every other pin's level is untouched, and no mode field changes.
pub proof fn lemma_level_write_read(regs: Seq<u32>, pin: u8, level: Level)
    requires
        regs.len() == REG_WORDS,
        pin < MAX_PINS,
    ensures
        spec_write_pin_level(regs, pin, level).len() == REG_WORDS,
        spec_pin_level(spec_write_pin_level(regs, pin, level), pin) == level,
        forall|q: u8|
            q < MAX_PINS && q != pin ==> spec_pin_level(spec_write_pin_level(regs, pin, level), q)
                == spec_pin_level(regs, q),
        forall|q: u8|
            q < MAX_PINS ==> spec_pin_mode(spec_write_pin_level(regs, pin, level), q)
                == spec_pin_mode(regs, q),
{
    let regs2 = spec_write_pin_level(regs, pin, level);
    let w = spec_lev_word(pin);
    let bit = spec_lev_bit(pin);
    match level {
        Level::High => {
            assert(regs2 == regs.update(w, regs[w] | (1u32 << bit)));
            lemma_or_mask(regs[w], bit);
        },
        Level::Low => {
            assert(regs2 == regs.update(w, regs[w] & !(1u32 << bit)));
            lemma_and_not_mask(regs[w], bit);
        },
    }
    assert forall|q: u8| q < MAX_PINS && q != pin implies spec_pin_level(regs2, q)
        == spec_pin_level(regs, q) by {
        if spec_lev_word(q) == w {
            lemma_same_word_distinct_pos(pin, q, 32);
            match level {
                Level::High => lemma_or_mask(regs[w], bit),
                Level::Low => lemma_and_not_mask(regs[w], bit),
            }
        }
    }
}

/// Rewriting a pin's mode field reads back as that mode, leaves every other
/// pin's mode untouched, and leaves every pin's level untouched.
pub proof fn lemma_set_pin_mode(regs: Seq<u32>, pin: u8, m: Mode)
    requires
        regs.len() == REG_WORDS,
        pin < MAX_PINS,
    ensures
        spec_set_pin_mode(regs, pin, m).len() == REG_WORDS,
        spec_pin_mode(spec_set_pin_mode(regs, pin, m), pin) == m,
        forall|q: u8|
            q < MAX_PINS && q != pin ==> spec_pin_mode(spec_set_pin_mode(regs, pin, m), q)
                == spec_pin_mode(regs, q),
        forall|q: u8|
            q < MAX_PINS ==> spec_pin_level(spec_set_pin_mode(regs, pin, m), q) == spec_pin_level(
                regs,
                q,
            ),
{
    let regs2 = spec_set_pin_mode(regs, pin, m);
    let w = spec_fsel_word(pin);
    let slot = spec_fsel_slot(pin);
    lemma_fsel_set_field(regs[w], slot, spec_mode_bits(m));
    crate::types::lemma_mode_bits_roundtrip(m);
    assert forall|q: u8| q < MAX_PINS && q != pin implies spec_pin_mode(regs2, q) == spec_pin_mode(
        regs,
        q,
    ) by {
        if spec_fsel_word(q) == w {
            lemma_same_word_distinct_pos(pin, q, 10);
            lemma_fsel_set_field(regs[w], slot, spec_mode_bits(m));
        }
    }
}

/// The mode field values a word can hold all lie below eight.
proof fn lemma_fsel_field_small(word: u32, slot: u32)
    by (bit_vector)
    ensures
        spec_fsel_field(word, slot) < 8,
{
}

/// A guard's restore write brings the register page back exactly to its
/// value before the guard's own mode write.
pub proof fn lemma_pin_mode_restore(regs: Seq<u32>, pin: u8, m: Mode)
    requires
        regs.len() == REG_WORDS,
        pin < MAX_PINS,
    ensures
        spec_set_pin_mode(spec_set_pin_mode(regs, pin, m), pin, spec_pin_mode(regs, pin)) == regs,
{
    let w = spec_fsel_word(pin);
    let slot = spec_fsel_slot(pin);
    let field = spec_fsel_field(regs[w], slot);
    lemma_fsel_field_small(regs[w], slot);
    crate::types::lemma_bits_of_mode_of_bits(field);
    lemma_fsel_set_roundtrip(regs[w], slot, spec_mode_bits(m));
    assert(spec_set_pin_mode(spec_set_pin_mode(regs, pin, m), pin, spec_pin_mode(regs, pin))
        =~= regs);
}

} // verus!
