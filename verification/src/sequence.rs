//! The oscillator/PLL sequencer: the ordered register writes and
//! wait-for-ready polling that bring the selected source and PLL online and
//! switch the system clock multiplexer, plus the wake reconciler and the two
//! runtime mutators.
//!
//! Each operation's contract gives the final register state as a function of
//! the configuration and the state on entry, phase by phase, in the order
//! the silicon mandates: wait states first, then the source, then the PLL
//! (fully stopped before its fields change, outputs enabled only after its
//! ready flag), then the multiplexer and the auxiliary fields, and last the
//! power-saving cleanup of the default oscillator.

use vstd::prelude::*;

use crate::config::{calc_sysclock, spec_wait_state, wait_state, Clocks};
use crate::registers::{Flash, Rcc};
use crate::sources::{InputSrc, MsiRange, PllSrc, StopWuck};
use crate::ClocksValid;
use crate::Family;
use crate::SpeedError;

verus! {

/// Whether the SAI1 PLL is brought up alongside the main PLL: only the L
/// families carry the SAI PLL blocks.
pub open spec fn spec_sai1_applies(c: Clocks) -> bool {
    (c.family is L4 || c.family is L5) && c.sai1_enabled
}

/// Whether the SAI2 PLL is brought up alongside the main PLL: only the
/// larger L4 parts carry the second SAI block.
pub open spec fn spec_sai2_applies(c: Clocks) -> bool {
    c.family is L4 && c.sai2_enabled
}

/// Registers after the selected oscillator (or, for the PLL, the PLL's feed)
/// has been enabled and its ready flag polled. The tunable MSI oscillator,
/// when it is the system source, is first disabled and observed not ready,
/// then reconfigured to the target range and re-enabled: it does not accept
/// range changes while enabled but not yet ready.
pub open spec fn spec_source_enabled(c: Clocks, r: Rcc) -> Rcc {
    match c.input_src {
        InputSrc::Msi(range) => Rcc {
            msion: true,
            msirdy: true,
            msirange: range.spec_bits(),
            msirgsel: true,
            ..r
        },
        InputSrc::Hse(_) => Rcc { hseon: true, hserdy: true, ..r },
        InputSrc::Hsi => Rcc { hsion: true, hsirdy: true, ..r },
        InputSrc::Pll(pll_src) => match pll_src {
            PllSrc::Msi(range) => Rcc {
                msion: true,
                msirdy: true,
                msirange: range.spec_bits(),
                msirgsel: true,
                ..r
            },
            PllSrc::Hse(_) => Rcc { hseon: true, hserdy: true, ..r },
            PllSrc::Hsi => Rcc { hsion: true, hsirdy: true, ..r },
            PllSrc::NoSource => r,
        },
        InputSrc::Lsi => Rcc { lsion: true, lsirdy: true, ..r },
        InputSrc::Lse => Rcc { lseon: true, lserdy: true, ..r },
    }
}

/// Registers after the PLL divider, multiplier and source-select fields have
/// been written. Hardware forbids changing them while the PLL is on, so the
/// PLL is disabled and its ready flag observed clear first. Without the PLL
/// as source this phase writes nothing.
pub open spec fn spec_pll_configured(c: Clocks, r: Rcc) -> Rcc {
    match c.input_src {
        InputSrc::Pll(pll_src) => Rcc {
            pllon: false,
            pllrdy: false,
            pllsrc: pll_src.spec_bits(),
            plln: c.plln,
            pllm: c.pllm.spec_bits(),
            pllr: c.pllr.spec_bits(c.family),
            pllsai1n: if spec_sai1_applies(c) {
                c.pll_sai1_mul
            } else {
                r.pllsai1n
            },
            pllsai2n: if spec_sai2_applies(c) {
                c.pll_sai2_mul
            } else {
                r.pllsai2n
            },
            ..r
        },
        _ => r,
    }
}

/// Registers after the PLL (and any enabled SAI PLL) has been re-enabled,
/// its ready flag polled, and — only then — its output-enable fields set.
/// Without the PLL as source this phase writes nothing.
pub open spec fn spec_pll_enabled(c: Clocks, r: Rcc) -> Rcc {
    match c.input_src {
        InputSrc::Pll(_) => Rcc {
            pllon: true,
            pllrdy: true,
            pllpen: true,
            pllqen: true,
            pllren: true,
            pllsai1on: spec_sai1_applies(c) || r.pllsai1on,
            pllsai1rdy: spec_sai1_applies(c) || r.pllsai1rdy,
            pllsai1pen: spec_sai1_applies(c) || r.pllsai1pen,
            pllsai1qen: spec_sai1_applies(c) || r.pllsai1qen,
            pllsai1ren: spec_sai1_applies(c) || r.pllsai1ren,
            pllsai2on: spec_sai2_applies(c) || r.pllsai2on,
            pllsai2rdy: spec_sai2_applies(c) || r.pllsai2rdy,
            pllsai2pen: spec_sai2_applies(c) || r.pllsai2pen,
            pllsai2ren: spec_sai2_applies(c) || r.pllsai2ren,
            ..r
        },
        _ => r,
    }
}

/// Registers after the system clock multiplexer has been switched to the
/// configured source and the auxiliary fields programmed: the prescalers,
/// the wake fallback selector (L families), the security system, the 48 MHz
/// domain selector and the HSI48 oscillator (both absent on G0).
pub open spec fn spec_mux_and_aux(c: Clocks, r: Rcc) -> Rcc {
    let r1 = Rcc {
        sw: c.input_src.spec_bits(c.family),
        hpre: c.hclk_prescaler.spec_bits(),
        ppre1: c.apb1_prescaler.spec_bits(),
        ppre2: if c.family !is G0 {
            c.apb2_prescaler.spec_bits()
        } else {
            r.ppre2
        },
        stopwuck: if c.family is L4 || c.family is L5 {
            c.stop_wuck is Hsi
        } else {
            r.stopwuck
        },
        csson: c.security_system,
        clk48sel: if c.family !is G0 {
            c.clk48_src.spec_bits()
        } else {
            r.clk48sel
        },
        ..r
    };
    if c.family !is G0 && c.hsi48_on {
        Rcc { hsi48on: true, hsi48rdy: true, ..r1 }
    } else {
        r1
    }
}

/// Registers after the power-saving cleanup: the family's default-active
/// oscillator (MSI on the L families, HSI on the G families) is disabled
/// unless it is the active source or feeds the active PLL — disabling it
/// then would starve the running clock.
pub open spec fn spec_unused_default_disabled(c: Clocks, r: Rcc) -> Rcc {
    if c.family is L4 || c.family is L5 {
        match c.input_src {
            InputSrc::Msi(_) => r,
            InputSrc::Pll(pll_src) => if pll_src matches PllSrc::Msi(_) {
                r
            } else {
                Rcc { msion: false, ..r }
            },
            _ => Rcc { msion: false, ..r },
        }
    } else {
        match c.input_src {
            InputSrc::Hsi => r,
            InputSrc::Pll(pll_src) => if pll_src is Hsi {
                r
            } else {
                Rcc { hsion: false, ..r }
            },
            _ => Rcc { hsion: false, ..r },
        }
    }
}

/// The clock-control block as `setup` leaves it on a valid configuration:
/// the phases above in order, the HSE bypass programmed right after the
/// source comes up, and the system configuration controller enabled at the
/// end.
pub open spec fn spec_setup_rcc(c: Clocks, r: Rcc) -> Rcc {
    let r1 = Rcc { hsebyp: c.hse_bypass, ..spec_source_enabled(c, r) };
    let r2 = spec_pll_enabled(c, spec_pll_configured(c, r1));
    let r3 = spec_unused_default_disabled(c, spec_mux_and_aux(c, r2));
    Rcc { syscfg_enabled: true, ..r3 }
}

/// The clock-control block as the wake reconciler leaves it. Hardware wakes
/// from a low-power mode on one of two fallback oscillators, so the intended
/// source is re-enabled and re-awaited exactly as in `setup`, and the
/// multiplexer re-switched — except where the fallback already is the
/// intended source, in which case nothing needs doing.
/// The wake reconciler's re-enabling of the PLL's feed oscillator: needed
/// only where the wake fallback is not that oscillator already.
pub open spec fn spec_reselect_pll_feed(c: Clocks, r: Rcc) -> Rcc {
    match c.input_src {
        InputSrc::Pll(pll_src) => match pll_src {
            PllSrc::Hse(_) => Rcc { hseon: true, hserdy: true, ..r },
            PllSrc::Hsi => if (c.family is L4 || c.family is L5) && c.stop_wuck is Msi {
                Rcc { hsion: true, hsirdy: true, ..r }
            } else {
                r
            },
            PllSrc::Msi(_) => if c.stop_wuck is Hsi {
                Rcc { msion: true, msirdy: true, ..r }
            } else {
                r
            },
            PllSrc::NoSource => r,
        },
        _ => r,
    }
}

pub open spec fn spec_reselect_rcc(c: Clocks, r: Rcc) -> Rcc {
    match c.input_src {
        InputSrc::Hse(_) => Rcc {
            hseon: true,
            hserdy: true,
            sw: c.input_src.spec_bits(c.family),
            ..r
        },
        InputSrc::Pll(_) => Rcc {
            pllon: true,
            pllrdy: true,
            sw: c.input_src.spec_bits(c.family),
            ..spec_reselect_pll_feed(c, r)
        },
        InputSrc::Hsi => if (c.family is L4 || c.family is L5) && c.stop_wuck is Msi {
            Rcc {
                hsion: true,
                hsirdy: true,
                sw: c.input_src.spec_bits(c.family),
                ..r
            }
        } else {
            r
        },
        InputSrc::Msi(_) => if c.stop_wuck is Hsi {
            Rcc {
                msion: true,
                msirdy: true,
                sw: c.input_src.spec_bits(c.family),
                ..r
            }
        } else {
            r
        },
        InputSrc::Lsi => Rcc {
            lsion: true,
            lsirdy: true,
            sw: c.input_src.spec_bits(c.family),
            ..r
        },
        InputSrc::Lse => Rcc {
            lseon: true,
            lserdy: true,
            sw: c.input_src.spec_bits(c.family),
            ..r
        },
    }
}

impl Clocks {
    /// Sequencer phase: enable the selected oscillator (or the PLL's feed)
    /// and poll its ready flag.
    fn enable_source(&self, r: Rcc) -> (r2: Rcc)
        ensures
            r2 == spec_source_enabled(*self, r),
    {
        match self.input_src {
            // MSI boots as the default source: it is turned off and
            // observed not ready before its range changes, then re-enabled
            // and awaited.
            InputSrc::Msi(range) => Rcc {
                msion: true,
                msirdy: true,
                msirange: range.bits(),
                msirgsel: true,
                ..r
            },
            InputSrc::Hse(_) => Rcc { hseon: true, hserdy: true, ..r },
            InputSrc::Hsi => Rcc { hsion: true, hsirdy: true, ..r },
            InputSrc::Pll(pll_src) => match pll_src {
                PllSrc::Msi(range) => Rcc {
                    msion: true,
                    msirdy: true,
                    msirange: range.bits(),
                    msirgsel: true,
                    ..r
                },
                PllSrc::Hse(_) => Rcc { hseon: true, hserdy: true, ..r },
                PllSrc::Hsi => Rcc { hsion: true, hsirdy: true, ..r },
                PllSrc::NoSource => r,
            },
            InputSrc::Lsi => Rcc { lsion: true, lsirdy: true, ..r },
            InputSrc::Lse => Rcc { lseon: true, lserdy: true, ..r },
        }
    }

    /// Sequencer phase: with the PLL fully stopped, write its divider,
    /// multiplier and source-select fields. Writes nothing when the PLL is
    /// not the selected source.
    fn configure_pll(&self, r: Rcc) -> (r2: Rcc)
        ensures
            r2 == spec_pll_configured(*self, r),
    {
        let mut r = r;
        if let InputSrc::Pll(pll_src) = self.input_src {
            // The PLL's fields may only change while it is fully stopped:
            // disable it and observe the ready flag clear first.
            r.pllon = false;
            r.pllrdy = false;

            r.pllsrc = pll_src.bits();
            r.plln = self.plln;
            r.pllm = self.pllm.bits();
            r.pllr = self.pllr.bits(self.family);
            if matches!(self.family, Family::L4 | Family::L5) && self.sai1_enabled {
                r.pllsai1n = self.pll_sai1_mul;
            }
            if matches!(self.family, Family::L4) && self.sai2_enabled {
                r.pllsai2n = self.pll_sai2_mul;
            }
        }
        r
    }

    /// Sequencer phase: re-enable the PLL (and any enabled SAI PLL), poll
    /// its ready flag, and only then enable its outputs — enabling them
    /// before readiness is a documented hazard. Writes nothing when the PLL
    /// is not the selected source.
    fn enable_pll(&self, r: Rcc) -> (r2: Rcc)
        ensures
            r2 == spec_pll_enabled(*self, r),
    {
        if let InputSrc::Pll(_) = self.input_src {
            let sai1: bool = matches!(self.family, Family::L4 | Family::L5) && self.sai1_enabled;
            let sai2: bool = matches!(self.family, Family::L4) && self.sai2_enabled;
            Rcc {
                pllon: true,
                pllrdy: true,
                pllpen: true,
                pllqen: true,
                pllren: true,
                pllsai1on: sai1 || r.pllsai1on,
                pllsai1rdy: sai1 || r.pllsai1rdy,
                pllsai1pen: sai1 || r.pllsai1pen,
                pllsai1qen: sai1 || r.pllsai1qen,
                pllsai1ren: sai1 || r.pllsai1ren,
                pllsai2on: sai2 || r.pllsai2on,
                pllsai2rdy: sai2 || r.pllsai2rdy,
                pllsai2pen: sai2 || r.pllsai2pen,
                pllsai2ren: sai2 || r.pllsai2ren,
                ..r
            }
        } else {
            r
        }
    }

    /// Sequencer phase: switch the system clock multiplexer to the
    /// configured source and program the auxiliary fields.
    fn apply_mux_and_aux(&self, r: Rcc) -> (r2: Rcc)
        ensures
            r2 == spec_mux_and_aux(*self, r),
    {
        let r1 = Rcc {
            sw: self.input_src.bits(self.family),
            hpre: self.hclk_prescaler.bits(),
            ppre1: self.apb1_prescaler.bits(),
            ppre2: if !matches!(self.family, Family::G0) {
                self.apb2_prescaler.bits()
            } else {
                r.ppre2
            },
            stopwuck: if matches!(self.family, Family::L4 | Family::L5) {
                matches!(self.stop_wuck, StopWuck::Hsi)
            } else {
                r.stopwuck
            },
            csson: self.security_system,
            clk48sel: if !matches!(self.family, Family::G0) {
                self.clk48_src.bits()
            } else {
                r.clk48sel
            },
            ..r
        };
        // Enable the HSI48 as required, used for USB, RNG and similar.
        if !matches!(self.family, Family::G0) && self.hsi48_on {
            Rcc { hsi48on: true, hsi48rdy: true, ..r1 }
        } else {
            r1
        }
    }

    /// Sequencer phase: power-saving cleanup. Disable the family's default
    /// oscillator where it is neither the active source nor the active
    /// PLL's feed; disabling it then would starve the running clock.
    fn disable_unused_default(&self, r: Rcc) -> (r2: Rcc)
        ensures
            r2 == spec_unused_default_disabled(*self, r),
    {
        if matches!(self.family, Family::L4 | Family::L5) {
            match self.input_src {
                InputSrc::Msi(_) => r,
                InputSrc::Pll(pll_src) => match pll_src {
                    PllSrc::Msi(_) => r,
                    _ => Rcc { msion: false, ..r },
                },
                _ => Rcc { msion: false, ..r },
            }
        } else {
            match self.input_src {
                InputSrc::Hsi => r,
                InputSrc::Pll(pll_src) => match pll_src {
                    PllSrc::Hsi => r,
                    _ => Rcc { hsion: false, ..r },
                },
                _ => Rcc { hsion: false, ..r },
            }
        }
    }

    /// The sequencer's phases on the clock-control block, in the mandated
    /// order: source up, bypass programmed, PLL configured while stopped and
    /// then brought up, multiplexer switched with the auxiliary fields, the
    /// unused default oscillator dropped, and the system configuration
    /// controller enabled.
    fn apply_to_rcc(&self, r: Rcc) -> (r2: Rcc)
        ensures
            r2 == spec_setup_rcc(*self, r),
    {
        let r1 = self.enable_source(r);
        // Bypass mode applies to an externally driven HSE; programmed only
        // after that oscillator was enabled.
        let r1 = Rcc { hsebyp: self.hse_bypass, ..r1 };
        let r2 = self.enable_pll(self.configure_pll(r1));
        let r3 = self.disable_unused_default(self.apply_mux_and_aux(r2));
        Rcc { syscfg_enabled: true, ..r3 }
    }

    /// Apply the configuration to the hardware: validate it, program the
    /// flash wait states for the target core bus frequency, bring the
    /// selected source (and PLL) online with every mandated wait, switch the
    /// system clock multiplexer, program the auxiliary fields, and disable
    /// the unused default oscillator.
    ///
    /// On an invalid configuration this returns the speed error without
    /// touching any register; validation therefore precedes every
    /// irreversible write.
    pub fn setup(&self, rcc: &mut Rcc, flash: &mut Flash) -> (res: Result<(), SpeedError>)
        requires
            self.wf(),
            self.calc_fits(),
        ensures
            res is Ok <==> self.spec_valid(),
            self.spec_valid() ==> *final(rcc) == spec_setup_rcc(*self, *old(rcc)),
            self.spec_valid() ==> final(flash).latency == spec_wait_state(
                self.family,
                self.spec_hclk(),
            ),
            !self.spec_valid() ==> *final(rcc) == *old(rcc) && *final(flash) == *old(flash),
    {
        if let ClocksValid::NotValid = self.validate_speeds() {
            return Err(SpeedError {});
        }

        // Adjust the flash wait states to the target core bus frequency
        // before the PLL comes up, or the access timing would be wrong for
        // the new frequency.
        let (_, sysclk) = calc_sysclock(self.input_src, self.pllm, self.plln, self.pllr);
        let hclk: u32 = sysclk / (self.hclk_prescaler.value() as u32);
        flash.latency = wait_state(self.family, hclk);

        *rcc = self.apply_to_rcc(*rcc);
        Ok(())
    }

    /// Wake reconciler step: re-enable the PLL's feed oscillator, with its
    /// ready wait, where the wake fallback is not that oscillator already.
    fn reselect_pll_feed(&self, r: Rcc) -> (r2: Rcc)
        ensures
            r2 == spec_reselect_pll_feed(*self, r),
    {
        if let InputSrc::Pll(pll_src) = self.input_src {
            match pll_src {
                PllSrc::Hse(_) => Rcc { hseon: true, hserdy: true, ..r },
                PllSrc::Hsi => {
                    // The L families generally wake on MSI; only then does
                    // HSI need re-enabling. The G families wake on HSI
                    // already.
                    if matches!(self.family, Family::L4 | Family::L5) && matches!(
                        self.stop_wuck,
                        StopWuck::Msi,
                    ) {
                        Rcc { hsion: true, hsirdy: true, ..r }
                    } else {
                        r
                    }
                },
                PllSrc::Msi(_) => {
                    if matches!(self.stop_wuck, StopWuck::Hsi) {
                        Rcc { msion: true, msirdy: true, ..r }
                    } else {
                        r
                    }
                },
                PllSrc::NoSource => r,
            }
        } else {
            r
        }
    }

    /// Re-select the input source after a wake from Stop or Standby mode,
    /// where hardware autonomously reverts the multiplexer to a fallback
    /// oscillator. The configuration is assumed already validated; every
    /// hardware wait is re-run exactly as in `setup`, since a powered-down
    /// source is not implicitly ready. Where the fallback already is the
    /// intended source, no register is touched.
    pub fn re_select_input(&self, rcc: &mut Rcc)
        requires
            self.wf(),
            self.spec_valid(),
        ensures
            *final(rcc) == spec_reselect_rcc(*self, *old(rcc)),
    {
        let r: Rcc = *rcc;
        let r2: Rcc = match self.input_src {
            InputSrc::Hse(_) => Rcc {
                hseon: true,
                hserdy: true,
                sw: self.input_src.bits(self.family),
                ..r
            },
            InputSrc::Pll(_) => {
                let r1 = self.reselect_pll_feed(r);

                // The PLL itself was stopped by the low-power mode: it is
                // stopped cleanly, the multiplexer re-switched, and the PLL
                // brought back up with its ready wait.
                Rcc {
                    pllon: true,
                    pllrdy: true,
                    sw: self.input_src.bits(self.family),
                    ..r1
                }
            },
            InputSrc::Hsi => {
                // Hardware forces the fallback oscillator on wake: only when
                // that fallback is MSI does HSI need re-enabling and
                // re-selecting; otherwise the hardware already selected it.
                if matches!(self.family, Family::L4 | Family::L5) && matches!(
                    self.stop_wuck,
                    StopWuck::Msi,
                ) {
                    Rcc {
                        hsion: true,
                        hsirdy: true,
                        sw: self.input_src.bits(self.family),
                        ..r
                    }
                } else {
                    r
                }
            },
            InputSrc::Msi(_) => {
                if matches!(self.stop_wuck, StopWuck::Hsi) {
                    Rcc {
                        msion: true,
                        msirdy: true,
                        sw: self.input_src.bits(self.family),
                        ..r
                    }
                } else {
                    r
                }
            },
            InputSrc::Lsi => Rcc {
                lsion: true,
                lsirdy: true,
                sw: self.input_src.bits(self.family),
                ..r
            },
            InputSrc::Lse => Rcc {
                lseon: true,
                lserdy: true,
                sw: self.input_src.bits(self.family),
                ..r
            },
        };
        *rcc = r2;
    }

    /// Change the tunable MSI oscillator's range while it is the active
    /// system source. Permitted only then — the usage precondition is hard,
    /// and a caller that cannot prove it must treat a violation as fatal.
    /// Hardware allows the range change while the oscillator is enabled and
    /// ready, so the multiplexer is not disturbed; the wait observes
    /// readiness before the range field is written. Ends with MSI on at the
    /// new speed, and the configuration updated to match.
    pub fn change_msi_speed(&mut self, range: MsiRange, rcc: &mut Rcc)
        requires
            old(self).wf(),
            old(self).input_src is Msi,
        ensures
            *final(self) == (Clocks { input_src: InputSrc::Msi(range), ..*old(self) }),
            final(self).wf(),
            *final(rcc) == (Rcc {
                msirdy: true,
                msirange: range.spec_bits(),
                msirgsel: true,
                ..*old(rcc)
            }),
    {
        // The range may be modified while MSI is off or while it is ready,
        // but not while it is on and not yet ready: wait for readiness.
        let mut r: Rcc = *rcc;
        r.msirdy = true;

        r.msirange = range.bits();
        r.msirgsel = true;
        *rcc = r;

        // Update the configuration to reflect the new speed.
        self.input_src = InputSrc::Msi(range);
    }

    /// Repurpose the tunable MSI oscillator as the fixed 48 MHz domain
    /// source, for use with `Clk48Src::Msi`. Permitted only when MSI is not
    /// the system source, directly or via the PLL — the usage precondition
    /// is hard, and a caller that cannot prove it must treat a violation as
    /// fatal, since reconfiguring the active source would corrupt the
    /// running clock. May need re-running after a wake from Stop mode.
    pub fn enable_msi_48(&self, rcc: &mut Rcc)
        requires
            self.wf(),
            self.family is L4 || self.family is L5,
            !(self.input_src matches InputSrc::Msi(_)),
            !(self.input_src matches InputSrc::Pll(PllSrc::Msi(_))),
        ensures
            *final(rcc) == (Rcc {
                msion: true,
                msirdy: true,
                msirange: MsiRange::R48M.spec_bits(),
                msirgsel: true,
                ..*old(rcc)
            }),
    {
        // MSI does not accept range changes while enabled but not ready:
        // disable it and observe it not ready, then reconfigure and
        // re-enable it with its ready wait.
        let mut r: Rcc = *rcc;
        r.msion = false;
        r.msirdy = false;

        r.msirange = MsiRange::R48M.bits();
        r.msirgsel = true;
        r.msion = true;
        r.msirdy = true;
        *rcc = r;
    }
}

} // verus!
