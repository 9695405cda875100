//! Vocabulary of the peripheral: pin modes, logic levels, pull-resistor
//! states, interrupt trigger conditions, and kernel edge records, together
//! with their register bit encodings.

use vstd::prelude::*;

verus! {

/// Pin function select modes, one per value of the 3-bit mode field.
#[derive(Debug, Clone, Copy, PartialEq, Eq, Structural)]
pub enum Mode {
    Input,
    Output,
    Alt0,
    Alt1,
    Alt2,
    Alt3,
    Alt4,
    Alt5,
}

/// The 3-bit encoding of a mode in a function select register.
pub open spec fn spec_mode_bits(m: Mode) -> u32 {
    match m {
        Mode::Input => 0b000,
        Mode::Output => 0b001,
        Mode::Alt5 => 0b010,
        Mode::Alt4 => 0b011,
        Mode::Alt0 => 0b100,
        Mode::Alt1 => 0b101,
        Mode::Alt2 => 0b110,
        Mode::Alt3 => 0b111,
    }
}

/// The mode a 3-bit field value decodes to; every field value is defined.
pub open spec fn spec_mode_of_bits(bits: u32) -> Mode {
    if bits == 0b000 {
        Mode::Input
    } else if bits == 0b001 {
        Mode::Output
    } else if bits == 0b010 {
        Mode::Alt5
    } else if bits == 0b011 {
        Mode::Alt4
    } else if bits == 0b100 {
        Mode::Alt0
    } else if bits == 0b101 {
        Mode::Alt1
    } else if bits == 0b110 {
        Mode::Alt2
    } else {
        Mode::Alt3
    }
}

impl Mode {
    /// Encodes the mode as its 3-bit register field value.
    pub fn bits(self) -> (b: u32)
        ensures
            b == spec_mode_bits(self),
            b < 8,
    {
        match self {
            Mode::Input => 0b000,
            Mode::Output => 0b001,
            Mode::Alt5 => 0b010,
            Mode::Alt4 => 0b011,
            Mode::Alt0 => 0b100,
            Mode::Alt1 => 0b101,
            Mode::Alt2 => 0b110,
            Mode::Alt3 => 0b111,
        }
    }

    /// Decodes a 3-bit register field value into a mode.
    pub fn from_bits(bits: u32) -> (m: Mode)
        requires
            bits < 8,
        ensures
            m == spec_mode_of_bits(bits),
            spec_mode_bits(m) == bits,
    {
        if bits == 0b000 {
            Mode::Input
        } else if bits == 0b001 {
            Mode::Output
        } else if bits == 0b010 {
            Mode::Alt5
        } else if bits == 0b011 {
            Mode::Alt4
        } else if bits == 0b100 {
            Mode::Alt0
        } else if bits == 0b101 {
            Mode::Alt1
        } else if bits == 0b110 {
            Mode::Alt2
        } else {
            Mode::Alt3
        }
    }
}

/// Every mode decodes back from its own encoding.
pub proof fn lemma_mode_bits_roundtrip(m: Mode)
    ensures
        spec_mode_of_bits(spec_mode_bits(m)) == m,
        spec_mode_bits(m) < 8,
{
}

/// Every defined 3-bit field value encodes back from its own decoding.
pub proof fn lemma_bits_of_mode_of_bits(bits: u32)
    requires
        bits < 8,
    ensures
        spec_mode_bits(spec_mode_of_bits(bits)) == bits,
{
}

/// Pin logic levels.
#[derive(Debug, Clone, Copy, PartialEq, Eq, Structural)]
pub enum Level {
    Low,
    High,
}

/// Built-in pull-up/pull-down resistor states.
#[derive(Debug, Clone, Copy, PartialEq, Eq, Structural)]
pub enum PullUpDown {
    Off,
    PullDown,
    PullUp,
}

/// The 2-bit control code a pull state writes into the pull-control register.
pub open spec fn spec_pud_bits(p: PullUpDown) -> u32 {
    match p {
        PullUpDown::Off => 0b00,
        PullUpDown::PullDown => 0b01,
        PullUpDown::PullUp => 0b10,
    }
}

impl PullUpDown {
    /// Encodes the pull state as its 2-bit control code.
    pub fn bits(self) -> (b: u32)
        ensures
            b == spec_pud_bits(self),
            b < 4,
    {
        match self {
            PullUpDown::Off => 0b00,
            PullUpDown::PullDown => 0b01,
            PullUpDown::PullUp => 0b10,
        }
    }
}

/// Interrupt trigger conditions for an armed pin.
#[derive(Debug, Clone, Copy, PartialEq, Eq, Structural)]
pub enum Trigger {
    Disabled,
    RisingEdge,
    FallingEdge,
    Both,
}

/// The transition direction a kernel edge record reports.
#[derive(Debug, Clone, Copy, PartialEq, Eq, Structural)]
pub enum EdgeKind {
    Rising,
    Falling,
}

/// The logic level an edge record translates to: a rising transition is
/// observed as a high level, a falling transition as a low level.
pub open spec fn spec_level_of_edge(k: EdgeKind) -> Level {
    match k {
        EdgeKind::Rising => Level::High,
        EdgeKind::Falling => Level::Low,
    }
}

/// Translates a kernel edge record's direction into a logic level.
pub fn level_of_edge(k: EdgeKind) -> (l: Level)
    ensures
        l == spec_level_of_edge(k),
{
    match k {
        EdgeKind::Rising => Level::High,
        EdgeKind::Falling => Level::Low,
    }
}

} // verus!
