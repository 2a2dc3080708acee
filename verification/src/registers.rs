//! A model of the two register blocks the sequencer programs: the
//! clock-control block (RCC) and the flash access-timing block.
//!
//! Each register field the sequencer reads or writes is a plain value here.
//! Ready flags (`*rdy`) record what the hardware's status bits show: every
//! wait-for-ready step of the protocol is an unbounded poll on such a bit,
//! and in this model a completed poll is recorded by the flag holding the
//! polled-for value. The caller owns both blocks and lends them to the
//! sequencer for the duration of a call.

use vstd::prelude::*;

verus! {

/// The clock-control register block.
#[derive(Clone, Copy, PartialEq, Eq, Structural, Debug)]
pub struct Rcc {
    /// MSI oscillator enable.
    pub msion: bool,
    /// MSI oscillator ready flag.
    pub msirdy: bool,
    /// MSI range selection (hardware encoding).
    pub msirange: u8,
    /// Selects the range in `msirange` over the standby-persistent range.
    pub msirgsel: bool,
    /// HSI oscillator enable.
    pub hsion: bool,
    /// HSI oscillator ready flag.
    pub hsirdy: bool,
    /// HSE oscillator enable.
    pub hseon: bool,
    /// HSE oscillator ready flag.
    pub hserdy: bool,
    /// HSE bypass mode, for externally driven clock signals.
    pub hsebyp: bool,
    /// Main PLL enable.
    pub pllon: bool,
    /// Main PLL ready flag.
    pub pllrdy: bool,
    /// SAI1 PLL enable.
    pub pllsai1on: bool,
    /// SAI1 PLL ready flag.
    pub pllsai1rdy: bool,
    /// SAI2 PLL enable.
    pub pllsai2on: bool,
    /// SAI2 PLL ready flag.
    pub pllsai2rdy: bool,
    /// Clock security system enable.
    pub csson: bool,
    /// LSI oscillator enable.
    pub lsion: bool,
    /// LSI oscillator ready flag.
    pub lsirdy: bool,
    /// LSE oscillator enable.
    pub lseon: bool,
    /// LSE oscillator ready flag.
    pub lserdy: bool,
    /// PLL source selection (hardware encoding).
    pub pllsrc: u8,
    /// PLL feedback multiplier.
    pub plln: u8,
    /// PLL input divider (hardware encoding).
    pub pllm: u8,
    /// PLL output divider for the system clock (hardware encoding).
    pub pllr: u8,
    /// PLL P-output enable.
    pub pllpen: bool,
    /// PLL Q-output enable.
    pub pllqen: bool,
    /// PLL R-output (system clock) enable.
    pub pllren: bool,
    /// SAI1 PLL feedback multiplier.
    pub pllsai1n: u8,
    /// SAI1 PLL P-output enable.
    pub pllsai1pen: bool,
    /// SAI1 PLL Q-output enable.
    pub pllsai1qen: bool,
    /// SAI1 PLL R-output enable.
    pub pllsai1ren: bool,
    /// SAI2 PLL feedback multiplier.
    pub pllsai2n: u8,
    /// SAI2 PLL P-output enable.
    pub pllsai2pen: bool,
    /// SAI2 PLL R-output enable.
    pub pllsai2ren: bool,
    /// System clock multiplexer selection (hardware encoding).
    pub sw: u8,
    /// AHB prescaler (hardware encoding).
    pub hpre: u8,
    /// Low-speed peripheral bus prescaler (hardware encoding).
    pub ppre1: u8,
    /// High-speed peripheral bus prescaler (hardware encoding).
    pub ppre2: u8,
    /// Post-wake fallback source selection; set when the fallback is HSI.
    pub stopwuck: bool,
    /// 48 MHz domain source selection (hardware encoding).
    pub clk48sel: u8,
    /// HSI48 oscillator enable.
    pub hsi48on: bool,
    /// HSI48 oscillator ready flag.
    pub hsi48rdy: bool,
    /// System configuration controller clock enable.
    pub syscfg_enabled: bool,
}

impl Rcc {
    /// The block as it stands after a power-on reset, before any oscillator
    /// beyond the family's boot default has been touched: every enable,
    /// ready flag and selection field clear.
    pub open spec fn spec_at_reset() -> Rcc {
        Rcc {
            msion: false,
            msirdy: false,
            msirange: 0,
            msirgsel: false,
            hsion: false,
            hsirdy: false,
            hseon: false,
            hserdy: false,
            hsebyp: false,
            pllon: false,
            pllrdy: false,
            pllsai1on: false,
            pllsai1rdy: false,
            pllsai2on: false,
            pllsai2rdy: false,
            csson: false,
            lsion: false,
            lsirdy: false,
            lseon: false,
            lserdy: false,
            pllsrc: 0,
            plln: 0,
            pllm: 0,
            pllr: 0,
            pllpen: false,
            pllqen: false,
            pllren: false,
            pllsai1n: 0,
            pllsai1pen: false,
            pllsai1qen: false,
            pllsai1ren: false,
            pllsai2n: 0,
            pllsai2pen: false,
            pllsai2ren: false,
            sw: 0,
            hpre: 0,
            ppre1: 0,
            ppre2: 0,
            stopwuck: false,
            clk48sel: 0,
            hsi48on: false,
            hsi48rdy: false,
            syscfg_enabled: false,
        }
    }

    pub fn at_reset() -> (r: Rcc)
        ensures
            r == Rcc::spec_at_reset(),
    {
        Rcc {
            msion: false,
            msirdy: false,
            msirange: 0,
            msirgsel: false,
            hsion: false,
            hsirdy: false,
            hseon: false,
            hserdy: false,
            hsebyp: false,
            pllon: false,
            pllrdy: false,
            pllsai1on: false,
            pllsai1rdy: false,
            pllsai2on: false,
            pllsai2rdy: false,
            csson: false,
            lsion: false,
            lsirdy: false,
            lseon: false,
            lserdy: false,
            pllsrc: 0,
            plln: 0,
            pllm: 0,
            pllr: 0,
            pllpen: false,
            pllqen: false,
            pllren: false,
            pllsai1n: 0,
            pllsai1pen: false,
            pllsai1qen: false,
            pllsai1ren: false,
            pllsai2n: 0,
            pllsai2pen: false,
            pllsai2ren: false,
            sw: 0,
            hpre: 0,
            ppre1: 0,
            ppre2: 0,
            stopwuck: false,
            clk48sel: 0,
            hsi48on: false,
            hsi48rdy: false,
            syscfg_enabled: false,
        }
    }
}

/// The flash access-timing register block.
#[derive(Clone, Copy, PartialEq, Eq, Structural, Debug)]
pub struct Flash {
    /// The wait-state (access latency) code.
    pub latency: u8,
}

} // verus!
