//! The clock configuration aggregate and its pure components: the frequency
//! calculator, the configuration validator, and the flash wait-state
//! selector.
//!
//! A [`Clocks`] value is pure data. It is constructed once (the documented
//! default yields a known-safe frequency), optionally mutated before first
//! application, and handed to the sequencer together with the register
//! blocks. Every frequency query recomputes from the configuration; nothing
//! is cached, so a query after a runtime mutation sees the new value.

use vstd::prelude::*;

use crate::dividers::{ApbPrescaler, HclkPrescaler, Pllm, Pllr};
use crate::sources::{Clk48Src, InputSrc, MsiRange, PllSrc, StopWuck};
use crate::ClocksValid;
use crate::Family;

verus! {

/// The nominal frequency, in Hz, of the oscillator feeding the PLL.
/// `NoSource` resolves to 0 Hz.
pub open spec fn spec_pll_src_freq(src: PllSrc) -> int {
    match src {
        PllSrc::NoSource => 0,
        PllSrc::Msi(range) => range.spec_value() as int,
        PllSrc::Hsi => 16_000_000,
        PllSrc::Hse(freq) => freq as int,
    }
}

/// The nominal frequency, in Hz, of the oscillator selected as system clock
/// input. For the PLL this is the frequency of the PLL's own feed, before
/// the divider chain.
pub open spec fn spec_input_freq(src: InputSrc) -> int {
    match src {
        InputSrc::Msi(range) => range.spec_value() as int,
        InputSrc::Hsi => 16_000_000,
        InputSrc::Hse(freq) => freq as int,
        InputSrc::Pll(pll_src) => spec_pll_src_freq(pll_src),
        InputSrc::Lsi => 32_000,
        InputSrc::Lse => 32_768,
    }
}

/// The derived system clock frequency, in Hz: the input frequency run
/// through the PLL divider chain when the PLL is selected, with each
/// division truncating as the hardware does; the input frequency itself
/// otherwise.
pub open spec fn spec_sysclk_of(input_src: InputSrc, pllm: Pllm, plln: u8, pllr: Pllr) -> int {
    match input_src {
        InputSrc::Pll(pll_src) => spec_pll_src_freq(pll_src) / pllm.spec_value() as int
            * plln as int / pllr.spec_value() as int,
        _ => spec_input_freq(input_src),
    }
}

/// The machine limit on the frequency calculation: the value after the PLL
/// multiplier must fit the 32-bit word the hardware and the queries use.
/// Every non-PLL source fits by construction.
pub open spec fn spec_calc_fits(input_src: InputSrc, pllm: Pllm, plln: u8) -> bool {
    input_src matches InputSrc::Pll(pll_src) ==> spec_pll_src_freq(pll_src)
        / pllm.spec_value() as int * plln as int <= u32::MAX
}

/// Calculate the input frequency and the derived system clock frequency, in
/// Hz, as a pure function of the source selection and the PLL divider chain.
pub fn calc_sysclock(input_src: InputSrc, pllm: Pllm, plln: u8, pllr: Pllr) -> (r: (u32, u32))
    requires
        spec_calc_fits(input_src, pllm, plln),
    ensures
        r.0 == spec_input_freq(input_src),
        r.1 == spec_sysclk_of(input_src, pllm, plln, pllr),
{
    match input_src {
        InputSrc::Pll(pll_src) => {
            let input_freq: u32 = match pll_src {
                PllSrc::NoSource => 0,
                PllSrc::Msi(range) => range.value(),
                PllSrc::Hsi => 16_000_000,
                PllSrc::Hse(freq) => freq,
            };
            let m: u32 = pllm.value() as u32;
            let n: u32 = plln as u32;
            let r: u32 = pllr.value() as u32;
            let sysclk: u32 = input_freq / m * n / r;
            (input_freq, sysclk)
        },
        InputSrc::Msi(range) => {
            let f: u32 = range.value();
            (f, f)
        },
        InputSrc::Hsi => (16_000_000, 16_000_000),
        InputSrc::Hse(freq) => (freq, freq),
        InputSrc::Lsi => (32_000, 32_000),
        InputSrc::Lse => (32_768, 32_768),
    }
}

/// The family's maximum clock frequency, in Hz. No derived frequency may
/// exceed it.
pub open spec fn spec_max_clock(family: Family) -> int {
    match family {
        Family::L4 => 80_000_000,
        Family::L5 => 110_000_000,
        Family::G0 => 64_000_000,
        Family::G4 => 170_000_000,
    }
}

/// The smallest PLL feedback multiplier the family documents.
pub open spec fn spec_plln_min(family: Family) -> int {
    match family {
        Family::L4 | Family::L5 => 7,
        Family::G0 => 9,
        Family::G4 => 8,
    }
}

/// The largest PLL feedback multiplier the family documents.
pub open spec fn spec_plln_max(family: Family) -> int {
    match family {
        Family::L4 | Family::L5 | Family::G0 => 86,
        Family::G4 => 127,
    }
}

/// The flash wait-state code for a core bus frequency, by the family's
/// ascending breakpoint table. A frequency equal to a breakpoint maps to the
/// lower tier; a frequency above the highest breakpoint maps to the family's
/// maximum code.
pub open spec fn spec_wait_state(family: Family, hclk: int) -> int {
    match family {
        Family::L4 => if hclk <= 16_000_000 {
            0
        } else if hclk <= 32_000_000 {
            1
        } else if hclk <= 48_000_000 {
            2
        } else if hclk <= 64_000_000 {
            3
        } else {
            4
        },
        Family::L5 => if hclk <= 20_000_000 {
            0
        } else if hclk <= 40_000_000 {
            1
        } else if hclk <= 60_000_000 {
            2
        } else if hclk <= 80_000_000 {
            3
        } else if hclk <= 100_000_000 {
            4
        } else {
            5
        },
        Family::G0 => if hclk <= 24_000_000 {
            0
        } else if hclk <= 48_000_000 {
            1
        } else {
            2
        },
        Family::G4 => if hclk <= 34_000_000 {
            0
        } else if hclk <= 68_000_000 {
            1
        } else if hclk <= 102_000_000 {
            2
        } else if hclk <= 136_000_000 {
            3
        } else {
            4
        },
    }
}

/// The family's ascending table of wait-state breakpoints, in Hz. A core bus
/// frequency at or below breakpoint `i` (and above breakpoint `i - 1`) takes
/// wait-state code `i`; above the last breakpoint the code is the table's
/// length.
pub open spec fn spec_wait_state_breakpoints(family: Family) -> Seq<int> {
    match family {
        Family::L4 => seq![16_000_000, 32_000_000, 48_000_000, 64_000_000],
        Family::L5 => seq![
            20_000_000,
            40_000_000,
            60_000_000,
            80_000_000,
            100_000_000,
        ],
        Family::G0 => seq![24_000_000, 48_000_000],
        Family::G4 => seq![34_000_000, 68_000_000, 102_000_000, 136_000_000],
    }
}

/// Map a target core bus frequency to the flash wait-state code for the
/// family. The sequencer programs this code before it enables the PLL;
/// programming it afterwards would leave the access timing misconfigured
/// for the new frequency.
pub fn wait_state(family: Family, hclk: u32) -> (r: u8)
    ensures
        r == spec_wait_state(family, hclk as int),
{
    match family {
        Family::L4 => if hclk <= 16_000_000 {
            0
        } else if hclk <= 32_000_000 {
            1
        } else if hclk <= 48_000_000 {
            2
        } else if hclk <= 64_000_000 {
            3
        } else {
            4
        },
        Family::L5 => if hclk <= 20_000_000 {
            0
        } else if hclk <= 40_000_000 {
            1
        } else if hclk <= 60_000_000 {
            2
        } else if hclk <= 80_000_000 {
            3
        } else if hclk <= 100_000_000 {
            4
        } else {
            5
        },
        Family::G0 => if hclk <= 24_000_000 {
            0
        } else if hclk <= 48_000_000 {
            1
        } else {
            2
        },
        Family::G4 => if hclk <= 34_000_000 {
            0
        } else if hclk <= 68_000_000 {
            1
        } else if hclk <= 102_000_000 {
            2
        } else if hclk <= 136_000_000 {
            3
        } else {
            4
        },
    }
}

/// Settings used to configure the clock tree.
///
/// The aggregate owns no hardware resource; it is pure data until handed to
/// the sequencer together with the register blocks. Fields that a family
/// lacks (the SAI multipliers outside the L families, the 48 MHz domain on
/// G0, the wake fallback selector on the G families) are carried but never
/// written to hardware on that family.
#[derive(Clone, Copy, PartialEq, Eq, Structural, Debug)]
pub struct Clocks {
    /// The family this configuration targets.
    pub family: Family,
    /// The input source for the system and peripheral clocks.
    pub input_src: InputSrc,
    /// PLL input divider.
    pub pllm: Pllm,
    /// PLL feedback multiplier. The documented range depends on the family.
    pub plln: u8,
    /// SAI1 PLL feedback multiplier (L families). Valid range 7 to 86.
    pub pll_sai1_mul: u8,
    /// SAI2 PLL feedback multiplier (L families). Valid range 7 to 86.
    pub pll_sai2_mul: u8,
    /// PLL output divider for the system clock.
    pub pllr: Pllr,
    /// The value to divide the system clock by, to get the core bus clock.
    pub hclk_prescaler: HclkPrescaler,
    /// The divider of the core bus clock for the low-speed peripheral bus.
    pub apb1_prescaler: ApbPrescaler,
    /// The divider of the core bus clock for the high-speed peripheral bus
    /// (absent on G0).
    pub apb2_prescaler: ApbPrescaler,
    /// The input source for the 48 MHz domain used by USB-class peripherals.
    pub clk48_src: Clk48Src,
    /// Whether the SAI1 PLL is brought up alongside the main PLL.
    pub sai1_enabled: bool,
    /// Whether the SAI2 PLL is brought up alongside the main PLL.
    pub sai2_enabled: bool,
    /// Bypass the HSE oscillator circuit, for externally driven clock
    /// signals. Saves power and frees the pin.
    pub hse_bypass: bool,
    /// Enable the clock security system.
    pub security_system: bool,
    /// Enable the HSI48 oscillator, used for USB, RNG and similar.
    pub hsi48_on: bool,
    /// The source hardware selects when waking from Stop mode (L families).
    pub stop_wuck: StopWuck,
}

impl Clocks {
    /// A configuration is well formed when every selection it carries exists
    /// on its family: the tunable MSI oscillator only on the L families, the
    /// low-frequency oscillators only on G0, the odd PLL output dividers
    /// only on G0, input dividers above 8 only on G4, and on G4 only the two
    /// 48 MHz domain sources the hardware documents.
    pub open spec fn wf(self) -> bool {
        &&& (self.input_src matches InputSrc::Msi(_) ==> self.family is L4 || self.family is L5)
        &&& (self.input_src is Lsi || self.input_src is Lse ==> self.family is G0)
        &&& (self.input_src matches InputSrc::Pll(pll_src) ==> (pll_src matches PllSrc::Msi(_)
            ==> self.family is L4 || self.family is L5))
        &&& (self.pllm.spec_value() > 8 ==> self.family is G4)
        &&& (self.pllr is Div3 || self.pllr is Div5 || self.pllr is Div7 ==> self.family is G0)
        &&& (self.family is G4 ==> self.clk48_src is Hsi48 || self.clk48_src is Pllq)
    }

    /// The machine limit on this configuration's frequency calculation; see
    /// [`spec_calc_fits`].
    pub open spec fn calc_fits(self) -> bool {
        spec_calc_fits(self.input_src, self.pllm, self.plln)
    }

    /// The derived system clock frequency, in Hz.
    pub open spec fn spec_sysclk(self) -> int {
        spec_sysclk_of(self.input_src, self.pllm, self.plln, self.pllr)
    }

    /// The core bus (AHB) frequency, in Hz.
    pub open spec fn spec_hclk(self) -> int {
        self.spec_sysclk() / self.hclk_prescaler.spec_value() as int
    }

    /// The low-speed peripheral bus frequency, in Hz.
    pub open spec fn spec_apb1(self) -> int {
        self.spec_hclk() / self.apb1_prescaler.spec_value() as int
    }

    /// The high-speed peripheral bus frequency, in Hz.
    pub open spec fn spec_apb2(self) -> int {
        self.spec_hclk() / self.apb2_prescaler.spec_value() as int
    }

    /// The low-speed peripheral bus timer frequency, in Hz: equal to the bus
    /// frequency when the prescaler is 1, and double it otherwise.
    pub open spec fn spec_apb1_timer(self) -> int {
        if self.apb1_prescaler is Div1 {
            self.spec_apb1()
        } else {
            self.spec_apb1() * 2
        }
    }

    /// The high-speed peripheral bus timer frequency, in Hz: equal to the
    /// bus frequency when the prescaler is 1, and double it otherwise.
    pub open spec fn spec_apb2_timer(self) -> int {
        if self.apb2_prescaler is Div1 {
            self.spec_apb2()
        } else {
            self.spec_apb2() * 2
        }
    }

    /// The multiplier-range half of validity: the PLL feedback multiplier
    /// lies in the family's documented range, and on the L families so do
    /// both SAI multipliers.
    pub open spec fn spec_muls_in_range(self) -> bool {
        &&& spec_plln_min(self.family) <= self.plln as int <= spec_plln_max(self.family)
        &&& (self.family is L4 || self.family is L5 ==> 7 <= self.pll_sai1_mul <= 86 && 7
            <= self.pll_sai2_mul <= 86)
    }

    /// The frequency-ceiling half of validity: no derived frequency exceeds
    /// the family's maximum clock. G0 has no high-speed peripheral bus.
    pub open spec fn spec_freqs_within_ceiling(self) -> bool {
        &&& self.spec_sysclk() <= spec_max_clock(self.family)
        &&& self.spec_hclk() <= spec_max_clock(self.family)
        &&& self.spec_apb1() <= spec_max_clock(self.family)
        &&& (self.family !is G0 ==> self.spec_apb2() <= spec_max_clock(self.family))
    }

    /// A configuration is valid when every multiplier lies within its
    /// family's documented range and every derived frequency is at or below
    /// the family's ceiling. Validity is pure: it has no hardware side
    /// effect, and the sequencer checks it before any register write.
    pub open spec fn spec_valid(self) -> bool {
        self.spec_muls_in_range() && self.spec_freqs_within_ceiling()
    }

    /// Runtime check of well-formedness, for callers outside the library
    /// that must establish it before `setup` and the mutators.
    pub fn is_well_formed(&self) -> (r: bool)
        ensures
            r == self.wf(),
    {
        let src_ok: bool = match self.input_src {
            InputSrc::Msi(_) => matches!(self.family, Family::L4 | Family::L5),
            InputSrc::Lsi | InputSrc::Lse => matches!(self.family, Family::G0),
            InputSrc::Pll(PllSrc::Msi(_)) => matches!(self.family, Family::L4 | Family::L5),
            _ => true,
        };
        let pllm_ok: bool = self.pllm.value() <= 8 || matches!(self.family, Family::G4);
        let pllr_ok: bool = !matches!(self.pllr, Pllr::Div3 | Pllr::Div5 | Pllr::Div7)
            || matches!(self.family, Family::G0);
        let clk48_ok: bool = !matches!(self.family, Family::G4) || matches!(
            self.clk48_src,
            Clk48Src::Hsi48 | Clk48Src::Pllq,
        );
        src_ok && pllm_ok && pllr_ok && clk48_ok
    }

    /// Runtime check that the frequency calculation stays within the 32-bit
    /// word the queries use, for callers outside the library that must
    /// establish it before querying or validating.
    pub fn fits(&self) -> (r: bool)
        ensures
            r == self.calc_fits(),
    {
        match self.input_src {
            InputSrc::Pll(pll_src) => {
                let input: u64 = match pll_src {
                    PllSrc::NoSource => 0,
                    PllSrc::Msi(range) => range.value() as u64,
                    PllSrc::Hsi => 16_000_000,
                    PllSrc::Hse(freq) => freq as u64,
                };
                let m: u64 = self.pllm.value() as u64;
                let divided: u64 = input / m;
                proof {
                    lemma_div_by_at_least_one_shrinks(input as int, m as int);
                    assert(divided as int * (self.plln as int) <= 0xFFFF_FFFF * 255)
                        by (nonlinear_arith)
                        requires
                            divided <= 0xFFFF_FFFFu64,
                            self.plln <= 255,
                    ;
                }
                divided * (self.plln as u64) <= u32::MAX as u64
            },
            _ => true,
        }
    }

    /// The derived system clock frequency, in Hz. Recomputed on every call.
    pub fn sysclk(&self) -> (r: u32)
        requires
            self.calc_fits(),
        ensures
            r == self.spec_sysclk(),
    {
        let (_, sysclk) = calc_sysclock(self.input_src, self.pllm, self.plln, self.pllr);
        sysclk
    }

    /// The core bus (AHB) frequency, in Hz. Recomputed on every call.
    pub fn hclk(&self) -> (r: u32)
        requires
            self.calc_fits(),
        ensures
            r == self.spec_hclk(),
    {
        self.sysclk() / (self.hclk_prescaler.value() as u32)
    }

    /// The SysTick timer frequency, in Hz: the core bus frequency.
    pub fn systick(&self) -> (r: u32)
        requires
            self.calc_fits(),
        ensures
            r == self.spec_hclk(),
    {
        self.hclk()
    }

    /// The 48 MHz domain frequency, in Hz. Defined on G4 (always fed by
    /// HSI48) and on the L families when HSI48 is the selected source.
    pub fn usb(&self) -> (r: u32)
        requires
            self.family is G4 || ((self.family is L4 || self.family is L5) && self.clk48_src
                is Hsi48),
        ensures
            r == 48_000_000,
    {
        48_000_000
    }

    /// The low-speed peripheral bus frequency, in Hz.
    pub fn apb1(&self) -> (r: u32)
        requires
            self.calc_fits(),
        ensures
            r == self.spec_apb1(),
    {
        self.hclk() / (self.apb1_prescaler.value() as u32)
    }

    /// The low-speed peripheral bus timer frequency, in Hz. The timer clock
    /// equals the bus clock when the prescaler is 1, and twice the bus clock
    /// otherwise; the doubling is the hardware's own rule.
    pub fn apb1_timer(&self) -> (r: u32)
        requires
            self.calc_fits(),
        ensures
            r == self.spec_apb1_timer(),
    {
        if let ApbPrescaler::Div1 = self.apb1_prescaler {
            self.apb1()
        } else {
            let bus: u32 = self.apb1();
            proof {
                lemma_halved_bus_doubles_back(
                    self.spec_hclk(),
                    self.apb1_prescaler.spec_value() as int,
                );
            }
            bus * 2
        }
    }

    /// The high-speed peripheral bus frequency, in Hz. G0 has no such bus.
    pub fn apb2(&self) -> (r: u32)
        requires
            self.calc_fits(),
            self.family !is G0,
        ensures
            r == self.spec_apb2(),
    {
        self.hclk() / (self.apb2_prescaler.value() as u32)
    }

    /// The high-speed peripheral bus timer frequency, in Hz; the same
    /// doubling rule as for the low-speed bus.
    pub fn apb2_timer(&self) -> (r: u32)
        requires
            self.calc_fits(),
            self.family !is G0,
        ensures
            r == self.spec_apb2_timer(),
    {
        if let ApbPrescaler::Div1 = self.apb2_prescaler {
            self.apb2()
        } else {
            let bus: u32 = self.apb2();
            proof {
                lemma_halved_bus_doubles_back(
                    self.spec_hclk(),
                    self.apb2_prescaler.spec_value() as int,
                );
            }
            bus * 2
        }
    }

    /// Validate the configuration against the family's limits: a multiplier
    /// outside its documented range rejects at once, independent of any
    /// frequency; otherwise every derived frequency is checked against the
    /// family's ceiling.
    pub fn validate_speeds(&self) -> (r: ClocksValid)
        requires
            self.calc_fits(),
        ensures
            r is Valid <==> self.spec_valid(),
    {
        let mut result = ClocksValid::Valid;

        let plln_ok: bool = match self.family {
            Family::L4 | Family::L5 => 7 <= self.plln && self.plln <= 86 && 7
                <= self.pll_sai1_mul && self.pll_sai1_mul <= 86 && 7 <= self.pll_sai2_mul
                && self.pll_sai2_mul <= 86,
            Family::G0 => 9 <= self.plln && self.plln <= 86,
            Family::G4 => 8 <= self.plln && self.plln <= 127,
        };
        if !plln_ok {
            return ClocksValid::NotValid;
        }

        let max_clock: u32 = match self.family {
            Family::L4 => 80_000_000,
            Family::L5 => 110_000_000,
            Family::G0 => 64_000_000,
            Family::G4 => 170_000_000,
        };

        if self.sysclk() > max_clock {
            result = ClocksValid::NotValid;
        }
        if self.hclk() > max_clock {
            result = ClocksValid::NotValid;
        }
        if self.apb1() > max_clock {
            result = ClocksValid::NotValid;
        }
        if !matches!(self.family, Family::G0) {
            if self.apb2() > max_clock {
                result = ClocksValid::NotValid;
            }
        }

        result
    }

    /// The documented default configuration for a family: the PLL fed by
    /// HSI, divided by 2, multiplied by the family's default feedback
    /// multiplier and divided by 2 again, with every bus prescaler at 1.
    /// This yields 80 MHz on L4, 108 MHz on L5, 64 MHz on G0 and 168 MHz on
    /// G4 — a known-safe frequency at or under each ceiling.
    pub open spec fn spec_default_for(family: Family) -> Clocks {
        Clocks {
            family,
            input_src: InputSrc::Pll(PllSrc::Hsi),
            pllm: Pllm::Div2,
            plln: match family {
                Family::L4 => 20,
                Family::L5 => 27,
                Family::G0 => 16,
                Family::G4 => 42,
            },
            pll_sai1_mul: 8,
            pll_sai2_mul: 8,
            pllr: Pllr::Div2,
            hclk_prescaler: HclkPrescaler::Div1,
            apb1_prescaler: ApbPrescaler::Div1,
            apb2_prescaler: ApbPrescaler::Div1,
            clk48_src: match family {
                Family::L4 | Family::L5 => Clk48Src::Msi,
                Family::G0 | Family::G4 => Clk48Src::Hsi48,
            },
            sai1_enabled: false,
            sai2_enabled: false,
            hse_bypass: false,
            security_system: false,
            hsi48_on: false,
            stop_wuck: StopWuck::Msi,
        }
    }

    /// Construct the family's default configuration. The result is well
    /// formed and valid.
    pub fn default_for(family: Family) -> (r: Clocks)
        ensures
            r == Clocks::spec_default_for(family),
            r.wf(),
            r.calc_fits(),
            r.spec_valid(),
    {
        Clocks {
            family,
            input_src: InputSrc::Pll(PllSrc::Hsi),
            pllm: Pllm::Div2,
            plln: match family {
                Family::L4 => 20,
                Family::L5 => 27,
                Family::G0 => 16,
                Family::G4 => 42,
            },
            pll_sai1_mul: 8,
            pll_sai2_mul: 8,
            pllr: Pllr::Div2,
            hclk_prescaler: HclkPrescaler::Div1,
            apb1_prescaler: ApbPrescaler::Div1,
            apb2_prescaler: ApbPrescaler::Div1,
            clk48_src: match family {
                Family::L4 | Family::L5 => Clk48Src::Msi,
                Family::G0 | Family::G4 => Clk48Src::Hsi48,
            },
            sai1_enabled: false,
            sai2_enabled: false,
            hse_bypass: false,
            security_system: false,
            hsi48_on: false,
            stop_wuck: StopWuck::Msi,
        }
    }
}

impl Default for Clocks {
    /// The L4 default: the PLL on HSI at 80 MHz, every bus at 80 MHz.
    fn default() -> (r: Clocks)
        ensures
            r == Clocks::spec_default_for(Family::L4),
            r.wf(),
            r.calc_fits(),
            r.spec_valid(),
    {
        Clocks::default_for(Family::L4)
    }
}

/// Dividing a non-negative value by at least one never grows it.
proof fn lemma_div_by_at_least_one_shrinks(x: int, d: int)
    requires
        0 <= x,
        1 <= d,
    ensures
        x / d <= x,
{
    assert(x / d <= x) by (nonlinear_arith)
        requires
            0 <= x,
            1 <= d,
    ;
}

/// A bus clock derived with a prescaler of at least 2 can be doubled back
/// without leaving the core bus frequency's range.
proof fn lemma_halved_bus_doubles_back(hclk: int, p: int)
    requires
        0 <= hclk,
        2 <= p,
    ensures
        hclk / p * 2 <= hclk,
{
    assert(hclk / p * 2 <= hclk) by (nonlinear_arith)
        requires
            0 <= hclk,
            2 <= p,
    ;
}

} // verus!
