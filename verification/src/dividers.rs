//! Divider and prescaler codes: the PLL input divider, the PLL output
//! divider, and the bus prescalers. Each carries a hardware bit pattern
//! (`bits`) and a decoded division factor (`value`).

use vstd::prelude::*;

use crate::Family;

verus! {

/// An input predivider code.
#[derive(Clone, Copy, PartialEq, Eq, Structural, Debug)]
pub enum Prediv {
    Div1,
    Div2,
    Div3,
    Div4,
    Div5,
    Div6,
    Div7,
    Div8,
}

impl Prediv {
    /// The decoded division factor.
    pub open spec fn spec_value(self) -> u8 {
        match self {
            Prediv::Div1 => 1,
            Prediv::Div2 => 2,
            Prediv::Div3 => 3,
            Prediv::Div4 => 4,
            Prediv::Div5 => 5,
            Prediv::Div6 => 6,
            Prediv::Div7 => 7,
            Prediv::Div8 => 8,
        }
    }

    pub fn value(&self) -> (r: u8)
        ensures
            r == self.spec_value(),
            1 <= r <= 8,
    {
        match self {
            Prediv::Div1 => 1,
            Prediv::Div2 => 2,
            Prediv::Div3 => 3,
            Prediv::Div4 => 4,
            Prediv::Div5 => 5,
            Prediv::Div6 => 6,
            Prediv::Div7 => 7,
            Prediv::Div8 => 8,
        }
    }
}

/// The PLL input division factor. Factors above 8 exist on G4 only.
#[derive(Clone, Copy, PartialEq, Eq, Structural, Debug)]
pub enum Pllm {
    Div1,
    Div2,
    Div3,
    Div4,
    Div5,
    Div6,
    Div7,
    Div8,
    Div9,
    Div10,
    Div11,
    Div12,
    Div13,
    Div14,
    Div15,
    Div16,
}

impl Pllm {
    /// The decoded division factor.
    pub open spec fn spec_value(self) -> u8 {
        match self {
            Pllm::Div1 => 1,
            Pllm::Div2 => 2,
            Pllm::Div3 => 3,
            Pllm::Div4 => 4,
            Pllm::Div5 => 5,
            Pllm::Div6 => 6,
            Pllm::Div7 => 7,
            Pllm::Div8 => 8,
            Pllm::Div9 => 9,
            Pllm::Div10 => 10,
            Pllm::Div11 => 11,
            Pllm::Div12 => 12,
            Pllm::Div13 => 13,
            Pllm::Div14 => 14,
            Pllm::Div15 => 15,
            Pllm::Div16 => 16,
        }
    }

    pub fn value(&self) -> (r: u8)
        ensures
            r == self.spec_value(),
            1 <= r <= 16,
    {
        match self {
            Pllm::Div1 => 1,
            Pllm::Div2 => 2,
            Pllm::Div3 => 3,
            Pllm::Div4 => 4,
            Pllm::Div5 => 5,
            Pllm::Div6 => 6,
            Pllm::Div7 => 7,
            Pllm::Div8 => 8,
            Pllm::Div9 => 9,
            Pllm::Div10 => 10,
            Pllm::Div11 => 11,
            Pllm::Div12 => 12,
            Pllm::Div13 => 13,
            Pllm::Div14 => 14,
            Pllm::Div15 => 15,
            Pllm::Div16 => 16,
        }
    }

    /// Hardware encoding: the factor minus one, on every family.
    pub open spec fn spec_bits(self) -> u8 {
        (self.spec_value() - 1) as u8
    }

    pub fn bits(&self) -> (r: u8)
        ensures
            r == self.spec_bits(),
    {
        self.value() - 1
    }
}

/// The main PLL output division factor, deriving the system clock from the
/// PLL's voltage-controlled oscillator. The odd factors exist on G0 only;
/// the other families restrict it to {2, 4, 6, 8}.
#[derive(Clone, Copy, PartialEq, Eq, Structural, Debug)]
pub enum Pllr {
    Div2,
    Div3,
    Div4,
    Div5,
    Div6,
    Div7,
    Div8,
}

impl Pllr {
    /// The decoded division factor.
    pub open spec fn spec_value(self) -> u8 {
        match self {
            Pllr::Div2 => 2,
            Pllr::Div3 => 3,
            Pllr::Div4 => 4,
            Pllr::Div5 => 5,
            Pllr::Div6 => 6,
            Pllr::Div7 => 7,
            Pllr::Div8 => 8,
        }
    }

    pub fn value(&self) -> (r: u8)
        ensures
            r == self.spec_value(),
            2 <= r <= 8,
    {
        match self {
            Pllr::Div2 => 2,
            Pllr::Div3 => 3,
            Pllr::Div4 => 4,
            Pllr::Div5 => 5,
            Pllr::Div6 => 6,
            Pllr::Div7 => 7,
            Pllr::Div8 => 8,
        }
    }

    /// Hardware encoding of the factor. G0 encodes the full range (with a
    /// gap at 0b100); the other families encode the four even factors. An
    /// odd factor on a non-G0 family encodes as 0 and is never written (the
    /// configuration's well-formedness excludes it).
    pub open spec fn spec_bits(self, family: Family) -> u8 {
        match family {
            Family::G0 => match self {
                Pllr::Div2 => 0b000,
                Pllr::Div3 => 0b001,
                Pllr::Div4 => 0b010,
                Pllr::Div5 => 0b011,
                Pllr::Div6 => 0b101,
                Pllr::Div7 => 0b110,
                Pllr::Div8 => 0b111,
            },
            Family::L4 | Family::L5 | Family::G4 => match self {
                Pllr::Div2 => 0b00,
                Pllr::Div4 => 0b01,
                Pllr::Div6 => 0b10,
                Pllr::Div8 => 0b11,
                _ => 0,
            },
        }
    }

    pub fn bits(&self, family: Family) -> (r: u8)
        ensures
            r == self.spec_bits(family),
    {
        match family {
            Family::G0 => match self {
                Pllr::Div2 => 0b000,
                Pllr::Div3 => 0b001,
                Pllr::Div4 => 0b010,
                Pllr::Div5 => 0b011,
                Pllr::Div6 => 0b101,
                Pllr::Div7 => 0b110,
                Pllr::Div8 => 0b111,
            },
            Family::L4 | Family::L5 | Family::G4 => match self {
                Pllr::Div2 => 0b00,
                Pllr::Div4 => 0b01,
                Pllr::Div6 => 0b10,
                Pllr::Div8 => 0b11,
                _ => 0,
            },
        }
    }
}

/// Division factor for the AHB clock, deriving the core bus clock (HCLK)
/// from the system clock. Also known as the AHB prescaler.
#[derive(Clone, Copy, PartialEq, Eq, Structural, Debug)]
pub enum HclkPrescaler {
    Div1,
    Div2,
    Div4,
    Div8,
    Div16,
    Div64,
    Div128,
    Div256,
    Div512,
}

impl HclkPrescaler {
    /// The decoded division factor.
    pub open spec fn spec_value(self) -> u16 {
        match self {
            HclkPrescaler::Div1 => 1,
            HclkPrescaler::Div2 => 2,
            HclkPrescaler::Div4 => 4,
            HclkPrescaler::Div8 => 8,
            HclkPrescaler::Div16 => 16,
            HclkPrescaler::Div64 => 64,
            HclkPrescaler::Div128 => 128,
            HclkPrescaler::Div256 => 256,
            HclkPrescaler::Div512 => 512,
        }
    }

    pub fn value(&self) -> (r: u16)
        ensures
            r == self.spec_value(),
            1 <= r <= 512,
    {
        match self {
            HclkPrescaler::Div1 => 1,
            HclkPrescaler::Div2 => 2,
            HclkPrescaler::Div4 => 4,
            HclkPrescaler::Div8 => 8,
            HclkPrescaler::Div16 => 16,
            HclkPrescaler::Div64 => 64,
            HclkPrescaler::Div128 => 128,
            HclkPrescaler::Div256 => 256,
            HclkPrescaler::Div512 => 512,
        }
    }

    /// Hardware encoding of the factor.
    pub open spec fn spec_bits(self) -> u8 {
        match self {
            HclkPrescaler::Div1 => 0b0000,
            HclkPrescaler::Div2 => 0b1000,
            HclkPrescaler::Div4 => 0b1001,
            HclkPrescaler::Div8 => 0b1010,
            HclkPrescaler::Div16 => 0b1011,
            HclkPrescaler::Div64 => 0b1100,
            HclkPrescaler::Div128 => 0b1101,
            HclkPrescaler::Div256 => 0b1110,
            HclkPrescaler::Div512 => 0b1111,
        }
    }

    pub fn bits(&self) -> (r: u8)
        ensures
            r == self.spec_bits(),
    {
        match self {
            HclkPrescaler::Div1 => 0b0000,
            HclkPrescaler::Div2 => 0b1000,
            HclkPrescaler::Div4 => 0b1001,
            HclkPrescaler::Div8 => 0b1010,
            HclkPrescaler::Div16 => 0b1011,
            HclkPrescaler::Div64 => 0b1100,
            HclkPrescaler::Div128 => 0b1101,
            HclkPrescaler::Div256 => 0b1110,
            HclkPrescaler::Div512 => 0b1111,
        }
    }
}

/// Division factor deriving a peripheral bus (APB) clock from the core bus
/// clock. Used for both the low-speed and the high-speed peripheral bus.
#[derive(Clone, Copy, PartialEq, Eq, Structural, Debug)]
pub enum ApbPrescaler {
    Div1,
    Div2,
    Div4,
    Div8,
    Div16,
}

impl ApbPrescaler {
    /// The decoded division factor.
    pub open spec fn spec_value(self) -> u8 {
        match self {
            ApbPrescaler::Div1 => 1,
            ApbPrescaler::Div2 => 2,
            ApbPrescaler::Div4 => 4,
            ApbPrescaler::Div8 => 8,
            ApbPrescaler::Div16 => 16,
        }
    }

    pub fn value(&self) -> (r: u8)
        ensures
            r == self.spec_value(),
            1 <= r <= 16,
    {
        match self {
            ApbPrescaler::Div1 => 1,
            ApbPrescaler::Div2 => 2,
            ApbPrescaler::Div4 => 4,
            ApbPrescaler::Div8 => 8,
            ApbPrescaler::Div16 => 16,
        }
    }

    /// Hardware encoding of the factor.
    pub open spec fn spec_bits(self) -> u8 {
        match self {
            ApbPrescaler::Div1 => 0b000,
            ApbPrescaler::Div2 => 0b100,
            ApbPrescaler::Div4 => 0b101,
            ApbPrescaler::Div8 => 0b110,
            ApbPrescaler::Div16 => 0b111,
        }
    }

    pub fn bits(&self) -> (r: u8)
        ensures
            r == self.spec_bits(),
    {
        match self {
            ApbPrescaler::Div1 => 0b000,
            ApbPrescaler::Div2 => 0b100,
            ApbPrescaler::Div4 => 0b101,
            ApbPrescaler::Div8 => 0b110,
            ApbPrescaler::Div16 => 0b111,
        }
    }
}

} // verus!
