//! The pull-resistor configuration sequence.
//!
//! Configuring a pin's pull-up/down resistor is a timed multi-step write
//! sequence on two shared registers: install the 2-bit control code in the
//! pull-control register (leaving the other thirty bits untouched), hold,
//! pulse the pin's bit in its pull-clock register, hold, then clear both the
//! control code and the clock bit. The sequence is produced here as data, so
//! its order, its values and its minimum hold times are pinned by contract;
//! a raw hardware adapter replays it against the mapped page with real
//! delays, and the model page applies it directly.

use vstd::prelude::*;

use crate::regs::GPPUD;
use crate::regs::GPPUDCLK;
use crate::regs::MAX_PINS;
use crate::regs::REG_WORDS;
use crate::regs::Registers;
use crate::regs::spec_lev_bit;
use crate::regs::spec_pud_control;
use crate::regs::spec_reg_write;
use crate::types::PullUpDown;
use crate::types::spec_pud_bits;

verus! {

/// Minimum settle time of the two holds of the sequence, in nanoseconds.
pub const PUD_SETTLE_NANOS: u32 = 20000;

/// One step of the pull-resistor sequence.
#[derive(Debug, Clone, Copy, PartialEq, Eq, Structural)]
pub enum PullStep {
    /// Write `value` to the register word at `offset`.
    WriteReg { offset: usize, value: u32 },
    /// Let the control signal settle for at least `min_nanos` nanoseconds.
    Settle { min_nanos: u32 },
}

/// Word offset of the pull-clock register holding `pin`'s bit.
pub open spec fn spec_pudclk_word(pin: u8) -> int {
    GPPUDCLK + pin as int / 32
}

/// The six steps that configure `pin`'s pull resistor to `pud`, starting
/// from a pull-control register that reads `gppud0`: control code in, hold,
/// clock pulse, hold, control code out, clock bit out.
pub open spec fn spec_pull_sequence(pin: u8, pud: PullUpDown, gppud0: u32) -> Seq<PullStep> {
    seq![
        PullStep::WriteReg { offset: GPPUD, value: spec_pud_control(gppud0, spec_pud_bits(pud)) },
        PullStep::Settle { min_nanos: PUD_SETTLE_NANOS },
        PullStep::WriteReg {
            offset: ((GPPUDCLK + pin as int / 32) as usize),
            value: 1u32 << spec_lev_bit(pin),
        },
        PullStep::Settle { min_nanos: PUD_SETTLE_NANOS },
        PullStep::WriteReg { offset: GPPUD, value: gppud0 & !0b11u32 },
        PullStep::WriteReg { offset: ((GPPUDCLK + pin as int / 32) as usize), value: 0u32 },
    ]
}

/// Produces the pull-resistor sequence for `pin`, `pud` and the current
/// pull-control register value `gppud0`.
pub fn pull_sequence(pin: u8, pud: PullUpDown, gppud0: u32) -> (steps: Vec<PullStep>)
    requires
        pin < MAX_PINS,
    ensures
        steps@ == spec_pull_sequence(pin, pud, gppud0),
{
    let clk: usize = GPPUDCLK + (pin / 32) as usize;
    let bit: u32 = (pin % 32) as u32;
    let control = crate::regs::pud_control(gppud0, pud.bits());
    let steps = vec![
        PullStep::WriteReg { offset: GPPUD, value: control },
        PullStep::Settle { min_nanos: PUD_SETTLE_NANOS },
        PullStep::WriteReg { offset: clk, value: 1u32 << bit },
        PullStep::Settle { min_nanos: PUD_SETTLE_NANOS },
        PullStep::WriteReg { offset: GPPUD, value: gppud0 & !0b11u32 },
        PullStep::WriteReg { offset: clk, value: 0u32 },
    ];
    proof {
        assert(steps@ =~= spec_pull_sequence(pin, pud, gppud0));
    }
    steps
}

/// Law: the sequence issues its writes in the documented order — control
/// code first, then the clock pulse, then the two clearing writes — with a
/// settle of at least the mandated hold time after the control write and
/// after the pulse; the control write changes only the code's two bits.
pub proof fn lemma_pull_sequence_shape(pin: u8, pud: PullUpDown, gppud0: u32)
    requires
        pin < MAX_PINS,
    ensures
        ({
            let steps = spec_pull_sequence(pin, pud, gppud0);
            &&& steps.len() == 6
            &&& steps[0] == PullStep::WriteReg {
                offset: GPPUD,
                value: spec_pud_control(gppud0, spec_pud_bits(pud)),
            }
            &&& spec_pud_control(gppud0, spec_pud_bits(pud)) & 0b11 == spec_pud_bits(pud)
            &&& spec_pud_control(gppud0, spec_pud_bits(pud)) >> 2u32 == gppud0 >> 2u32
            &&& steps[1] matches PullStep::Settle { min_nanos } && min_nanos >= 20000
            &&& steps[2] == PullStep::WriteReg {
                offset: ((GPPUDCLK + pin as int / 32) as usize),
                value: 1u32 << spec_lev_bit(pin),
            }
            &&& steps[3] matches PullStep::Settle { min_nanos } && min_nanos >= 20000
            &&& steps[4] == PullStep::WriteReg { offset: GPPUD, value: gppud0 & !0b11u32 }
            &&& (gppud0 & !0b11u32) & 0b11 == 0
            &&& (gppud0 & !0b11u32) >> 2u32 == gppud0 >> 2u32
            &&& steps[5] == PullStep::WriteReg {
                offset: ((GPPUDCLK + pin as int / 32) as usize),
                value: 0u32,
            }
        }),
{
    let b = spec_pud_bits(pud);
    crate::regs::lemma_pud_control(gppud0, b);
    assert(b & 0b11 == b) by (bit_vector)
        requires
            b < 4,
    ;
    assert((gppud0 & !0b11u32) & 0b11 == 0 && (gppud0 & !0b11u32) >> 2u32 == gppud0 >> 2u32)
        by (bit_vector);
}

/// The register page after the steps from position `i` on are applied; a
/// settle step leaves the page as it is.
pub open spec fn spec_apply_steps(regs: Seq<u32>, steps: Seq<PullStep>, i: int) -> Seq<u32>
    decreases steps.len() - i,
{
    if i < 0 || i >= steps.len() {
        regs
    } else {
        match steps[i] {
            PullStep::WriteReg { offset, value } => spec_apply_steps(
                spec_reg_write(regs, offset as int, value),
                steps,
                i + 1,
            ),
            PullStep::Settle { .. } => spec_apply_steps(regs, steps, i + 1),
        }
    }
}

/// Law: the net effect of the whole sequence on the page — the control
/// code reads as zero again, the pin's pull-clock word is cleared, and no
/// level or mode of any pin moves.
pub proof fn lemma_pull_sequence_effect(regs: Seq<u32>, pin: u8, pud: PullUpDown)
    requires
        regs.len() == REG_WORDS,
        pin < MAX_PINS,
    ensures
        ({
            let after = spec_apply_steps(regs, spec_pull_sequence(pin, pud, regs[GPPUD as int]), 0);
            &&& after.len() == REG_WORDS
            &&& after[GPPUD as int] == regs[GPPUD as int] & !0b11u32
            &&& after[spec_pudclk_word(pin)] == 0u32
            &&& forall|j: int|
                0 <= j < REG_WORDS && j != GPPUD && j != spec_pudclk_word(pin) ==> after[j]
                    == regs[j]
            &&& forall|q: u8|
                q < MAX_PINS ==> crate::regs::spec_pin_level(after, q)
                    == crate::regs::spec_pin_level(regs, q)
            &&& forall|q: u8|
                q < MAX_PINS ==> crate::regs::spec_pin_mode(after, q)
                    == crate::regs::spec_pin_mode(regs, q)
        }),
{
    let gppud0 = regs[GPPUD as int];
    let steps = spec_pull_sequence(pin, pud, gppud0);
    let clk = spec_pudclk_word(pin);
    let control = spec_pud_control(gppud0, spec_pud_bits(pud));
    let mask = 1u32 << spec_lev_bit(pin);
    let r1 = regs.update(GPPUD as int, control);
    let r2 = r1.update(clk, mask);
    let r3 = r2.update(GPPUD as int, gppud0 & !0b11u32);
    let r4 = r3.update(clk, 0u32);
    assert(spec_reg_write(regs, GPPUD as int, control) == r1);
    assert(spec_reg_write(r1, clk, mask) == r2);
    assert(spec_reg_write(r2, GPPUD as int, gppud0 & !0b11u32) == r3);
    assert(spec_reg_write(r3, clk, 0u32) == r4);
    assert(spec_apply_steps(r4, steps, 6) == r4);
    assert(spec_apply_steps(r3, steps, 5) == r4);
    assert(spec_apply_steps(r2, steps, 4) == r4);
    assert(spec_apply_steps(r2, steps, 3) == r4);
    assert(spec_apply_steps(r1, steps, 2) == r4);
    assert(spec_apply_steps(r1, steps, 1) == r4);
    assert(spec_apply_steps(regs, steps, 0) == r4);
}

/// Replays a step sequence against the model page; settle steps change
/// nothing there, their time belongs to the hardware adapter.
pub fn apply_pull_steps(regs: &mut Registers, steps: &Vec<PullStep>)
    requires
        old(regs).wf(),
        forall|i: int|
            0 <= i < steps@.len() ==> (#[trigger] steps@[i] matches PullStep::WriteReg {
                offset,
                value,
            } ==> offset < REG_WORDS),
    ensures
        final(regs).wf(),
        final(regs)@ == spec_apply_steps(old(regs)@, steps@, 0),
{
    let mut i: usize = 0;
    while i < steps.len()
        invariant
            regs.wf(),
            i <= steps@.len(),
            forall|j: int|
                0 <= j < steps@.len() ==> (#[trigger] steps@[j] matches PullStep::WriteReg {
                    offset,
                    value,
                } ==> offset < REG_WORDS),
            spec_apply_steps(old(regs)@, steps@, 0) == spec_apply_steps(regs@, steps@, i as int),
        decreases steps@.len() - i,
    {
        match steps[i] {
            PullStep::WriteReg { offset, value } => {
                regs.write(offset, value);
            },
            PullStep::Settle { .. } => {},
        }
        i += 1;
    }
}

} // verus!
