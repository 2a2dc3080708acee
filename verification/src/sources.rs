//! Oscillator source selections: the system clock multiplexer input, the PLL
//! feed, the tunable MSI oscillator's range, the 48 MHz domain source, and the
//! post-wake fallback selector.
//!
//! Each selection carries both a hardware bit pattern (`bits`) and, where it
//! stands for an oscillator, a nominal frequency in Hz (`value`).

use vstd::prelude::*;

use crate::Family;

verus! {

/// The input source for the 48 MHz clock domain used by USB-class
/// peripherals. On G4 only `Hsi48` and `Pllq` exist; the other two encodings
/// are reserved there.
#[derive(Clone, Copy, PartialEq, Eq, Structural, Debug)]
pub enum Clk48Src {
    Hsi48,
    PllSai1,
    Pllq,
    Msi,
}

impl Clk48Src {
    /// Hardware encoding of the selection.
    pub open spec fn spec_bits(self) -> u8 {
        match self {
            Clk48Src::Hsi48 => 0b00,
            Clk48Src::PllSai1 => 0b01,
            Clk48Src::Pllq => 0b10,
            Clk48Src::Msi => 0b11,
        }
    }

    pub fn bits(&self) -> (r: u8)
        ensures
            r == self.spec_bits(),
    {
        match self {
            Clk48Src::Hsi48 => 0b00,
            Clk48Src::PllSai1 => 0b01,
            Clk48Src::Pllq => 0b10,
            Clk48Src::Msi => 0b11,
        }
    }
}

/// The system clock source that hardware falls back to when exiting Stop
/// mode. Only the L families expose this choice; the G families always wake
/// to HSI.
#[derive(Clone, Copy, PartialEq, Eq, Structural, Debug)]
pub enum StopWuck {
    Msi,
    Hsi,
}

impl StopWuck {
    /// Hardware encoding: a single register bit.
    pub open spec fn spec_bits(self) -> u8 {
        match self {
            StopWuck::Msi => 0,
            StopWuck::Hsi => 1,
        }
    }

    pub fn bits(&self) -> (r: u8)
        ensures
            r == self.spec_bits(),
    {
        match self {
            StopWuck::Msi => 0,
            StopWuck::Hsi => 1,
        }
    }
}

/// The range selector of the tunable MSI oscillator: effectively its
/// oscillation speed.
#[derive(Clone, Copy, PartialEq, Eq, Structural, Debug)]
pub enum MsiRange {
    R100k,
    R200k,
    R400k,
    R800k,
    R1M,
    R2M,
    R4M,
    R8M,
    R16M,
    R24M,
    R32M,
    R48M,
}

impl MsiRange {
    /// The nominal oscillation frequency of the range, in Hz.
    pub open spec fn spec_value(self) -> u32 {
        match self {
            MsiRange::R100k => 100_000,
            MsiRange::R200k => 200_000,
            MsiRange::R400k => 400_000,
            MsiRange::R800k => 800_000,
            MsiRange::R1M => 1_000_000,
            MsiRange::R2M => 2_000_000,
            MsiRange::R4M => 4_000_000,
            MsiRange::R8M => 8_000_000,
            MsiRange::R16M => 16_000_000,
            MsiRange::R24M => 24_000_000,
            MsiRange::R32M => 32_000_000,
            MsiRange::R48M => 48_000_000,
        }
    }

    /// Calculate the approximate frequency, in Hz.
    pub fn value(&self) -> (r: u32)
        ensures
            r == self.spec_value(),
            100_000 <= r <= 48_000_000,
    {
        match self {
            MsiRange::R100k => 100_000,
            MsiRange::R200k => 200_000,
            MsiRange::R400k => 400_000,
            MsiRange::R800k => 800_000,
            MsiRange::R1M => 1_000_000,
            MsiRange::R2M => 2_000_000,
            MsiRange::R4M => 4_000_000,
            MsiRange::R8M => 8_000_000,
            MsiRange::R16M => 16_000_000,
            MsiRange::R24M => 24_000_000,
            MsiRange::R32M => 32_000_000,
            MsiRange::R48M => 48_000_000,
        }
    }

    /// Hardware encoding of the range in the control register.
    pub open spec fn spec_bits(self) -> u8 {
        match self {
            MsiRange::R100k => 0b0000,
            MsiRange::R200k => 0b0001,
            MsiRange::R400k => 0b0010,
            MsiRange::R800k => 0b0011,
            MsiRange::R1M => 0b0100,
            MsiRange::R2M => 0b0101,
            MsiRange::R4M => 0b0110,
            MsiRange::R8M => 0b0111,
            MsiRange::R16M => 0b1000,
            MsiRange::R24M => 0b1001,
            MsiRange::R32M => 0b1010,
            MsiRange::R48M => 0b1011,
        }
    }

    pub fn bits(&self) -> (r: u8)
        ensures
            r == self.spec_bits(),
    {
        match self {
            MsiRange::R100k => 0b0000,
            MsiRange::R200k => 0b0001,
            MsiRange::R400k => 0b0010,
            MsiRange::R800k => 0b0011,
            MsiRange::R1M => 0b0100,
            MsiRange::R2M => 0b0101,
            MsiRange::R4M => 0b0110,
            MsiRange::R8M => 0b0111,
            MsiRange::R16M => 0b1000,
            MsiRange::R24M => 0b1001,
            MsiRange::R32M => 0b1010,
            MsiRange::R48M => 0b1011,
        }
    }
}

/// What feeds the PLL's input divider. A subset of the system clock sources:
/// the PLL cannot feed itself. `NoSource` is the representable "PLL selected
/// but no source chosen" state; it resolves to a frequency of 0 Hz. The
/// `Msi` variant exists on the L families only.
#[derive(Clone, Copy, PartialEq, Eq, Structural, Debug)]
pub enum PllSrc {
    NoSource,
    Msi(MsiRange),
    Hsi,
    Hse(u32),
}

impl PllSrc {
    /// Hardware encoding of the PLL source selection. The encoding is shared
    /// by every family; families without MSI simply reserve that pattern.
    pub open spec fn spec_bits(self) -> u8 {
        match self {
            PllSrc::NoSource => 0b00,
            PllSrc::Msi(_) => 0b01,
            PllSrc::Hsi => 0b10,
            PllSrc::Hse(_) => 0b11,
        }
    }

    pub fn bits(&self) -> (r: u8)
        ensures
            r == self.spec_bits(),
    {
        match self {
            PllSrc::NoSource => 0b00,
            PllSrc::Msi(_) => 0b01,
            PllSrc::Hsi => 0b10,
            PllSrc::Hse(_) => 0b11,
        }
    }
}

/// The input source for the system clock multiplexer. `Hse` carries the
/// external oscillator's frequency in Hz. `Msi` exists on the L families
/// only; `Lsi` and `Lse` exist on G0 only.
#[derive(Clone, Copy, PartialEq, Eq, Structural, Debug)]
pub enum InputSrc {
    Msi(MsiRange),
    Hsi,
    Hse(u32),
    Pll(PllSrc),
    Lsi,
    Lse,
}

impl InputSrc {
    /// Hardware encoding of the system clock multiplexer selection. The
    /// encoding differs per family; a variant that the family does not have
    /// encodes as 0 and is never written (the configuration's
    /// well-formedness excludes it).
    pub open spec fn spec_bits(self, family: Family) -> u8 {
        match family {
            Family::G0 => match self {
                InputSrc::Hsi => 0b000,
                InputSrc::Hse(_) => 0b001,
                InputSrc::Pll(_) => 0b010,
                InputSrc::Lsi => 0b011,
                InputSrc::Lse => 0b100,
                InputSrc::Msi(_) => 0,
            },
            Family::G4 => match self {
                InputSrc::Hsi => 0b01,
                InputSrc::Hse(_) => 0b10,
                InputSrc::Pll(_) => 0b11,
                _ => 0,
            },
            Family::L4 | Family::L5 => match self {
                InputSrc::Msi(_) => 0b00,
                InputSrc::Hsi => 0b01,
                InputSrc::Hse(_) => 0b10,
                InputSrc::Pll(_) => 0b11,
                _ => 0,
            },
        }
    }

    pub fn bits(&self, family: Family) -> (r: u8)
        ensures
            r == self.spec_bits(family),
    {
        match family {
            Family::G0 => match self {
                InputSrc::Hsi => 0b000,
                InputSrc::Hse(_) => 0b001,
                InputSrc::Pll(_) => 0b010,
                InputSrc::Lsi => 0b011,
                InputSrc::Lse => 0b100,
                InputSrc::Msi(_) => 0,
            },
            Family::G4 => match self {
                InputSrc::Hsi => 0b01,
                InputSrc::Hse(_) => 0b10,
                InputSrc::Pll(_) => 0b11,
                _ => 0,
            },
            Family::L4 | Family::L5 => match self {
                InputSrc::Msi(_) => 0b00,
                InputSrc::Hsi => 0b01,
                InputSrc::Hse(_) => 0b10,
                InputSrc::Pll(_) => 0b11,
                _ => 0,
            },
        }
    }
}

} // verus!
