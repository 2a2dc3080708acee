use clocktree::config::{calc_sysclock, wait_state, Clocks};
use clocktree::dividers::{ApbPrescaler, HclkPrescaler, Pllm, Pllr, Prediv};
use clocktree::registers::{Flash, Rcc};
use clocktree::sources::{Clk48Src, InputSrc, MsiRange, PllSrc, StopWuck};
use clocktree::{ClocksValid, Family};

#[test]
fn default_l4_is_80_mhz_end_to_end() {
    let c = Clocks::default_for(Family::L4);
    // 16 MHz HSI, divider 2, multiplier 20, output divider 2:
    // 16_000_000 / 2 * 20 / 2 == 80_000_000 exactly.
    assert_eq!(c.sysclk(), 80_000_000);
    assert_eq!(c.hclk(), 80_000_000);
    assert_eq!(c.systick(), 80_000_000);
    assert_eq!(c.apb1(), 80_000_000);
    assert_eq!(c.apb2(), 80_000_000);
    assert!(matches!(c.validate_speeds(), ClocksValid::Valid));
}

#[test]
fn defaults_of_other_families() {
    let l5 = Clocks::default_for(Family::L5);
    assert_eq!(l5.sysclk(), 108_000_000);
    assert!(matches!(l5.validate_speeds(), ClocksValid::Valid));

    let g0 = Clocks::default_for(Family::G0);
    assert_eq!(g0.sysclk(), 64_000_000);
    assert!(matches!(g0.validate_speeds(), ClocksValid::Valid));

    let g4 = Clocks::default_for(Family::G4);
    assert_eq!(g4.sysclk(), 168_000_000);
    assert!(matches!(g4.validate_speeds(), ClocksValid::Valid));
}

#[test]
fn sysclock_formula_truncates_never_rounds() {
    // 16_000_000 / 3 == 5_333_333 (truncated), * 10 == 53_333_330,
    // / 2 == 26_666_665. Any rounding would give a different value.
    let (input, sys) = calc_sysclock(
        InputSrc::Pll(PllSrc::Hse(16_000_000)),
        Pllm::Div3,
        10,
        Pllr::Div2,
    );
    assert_eq!(input, 16_000_000);
    assert_eq!(sys, 26_666_665);
}

#[test]
fn calc_sysclock_non_pll_sources() {
    let (input, sys) = calc_sysclock(InputSrc::Hsi, Pllm::Div2, 20, Pllr::Div2);
    assert_eq!(input, 16_000_000);
    assert_eq!(sys, 16_000_000);

    let (input, sys) = calc_sysclock(
        InputSrc::Msi(MsiRange::R4M),
        Pllm::Div2,
        20,
        Pllr::Div2,
    );
    assert_eq!(input, 4_000_000);
    assert_eq!(sys, 4_000_000);

    let (input, sys) = calc_sysclock(InputSrc::Lse, Pllm::Div2, 20, Pllr::Div2);
    assert_eq!(input, 32_768);
    assert_eq!(sys, 32_768);
}

#[test]
fn validator_rejects_multiplier_out_of_range() {
    // Out-of-range multiplier rejects even though the frequency that would
    // result (16M / 2 * 6 / 2 = 24 MHz) is far below the ceiling.
    let mut c = Clocks::default_for(Family::L4);
    c.plln = 6;
    assert!(matches!(c.validate_speeds(), ClocksValid::NotValid));
    c.plln = 87;
    assert!(matches!(c.validate_speeds(), ClocksValid::NotValid));
    c.plln = 7;
    assert!(matches!(c.validate_speeds(), ClocksValid::Valid));

    let mut g0 = Clocks::default_for(Family::G0);
    g0.plln = 8;
    assert!(matches!(g0.validate_speeds(), ClocksValid::NotValid));
    g0.plln = 9;
    assert!(matches!(g0.validate_speeds(), ClocksValid::Valid));

    let mut g4 = Clocks::default_for(Family::G4);
    g4.plln = 127;
    // 16M / 2 * 127 / 2 = 508 MHz: in range for the multiplier but far
    // above the ceiling, so still rejected — by the frequency check.
    assert!(matches!(g4.validate_speeds(), ClocksValid::NotValid));
    g4.plln = 128;
    assert!(matches!(g4.validate_speeds(), ClocksValid::NotValid));
}

#[test]
fn validator_rejects_sai_multiplier_out_of_range() {
    let mut c = Clocks::default_for(Family::L4);
    c.pll_sai1_mul = 87;
    assert!(matches!(c.validate_speeds(), ClocksValid::NotValid));
    c.pll_sai1_mul = 8;
    c.pll_sai2_mul = 6;
    assert!(matches!(c.validate_speeds(), ClocksValid::NotValid));
}

#[test]
fn validator_rejects_frequency_over_ceiling() {
    // Multiplier in range, but 16M / 2 * 30 / 2 = 120 MHz > 80 MHz.
    let mut c = Clocks::default_for(Family::L4);
    c.plln = 30;
    assert!(matches!(c.validate_speeds(), ClocksValid::NotValid));

    // A direct external source above the ceiling, no PLL involved.
    let mut c = Clocks::default_for(Family::L4);
    c.input_src = InputSrc::Hse(100_000_000);
    assert!(matches!(c.validate_speeds(), ClocksValid::NotValid));
    c.input_src = InputSrc::Hse(80_000_000);
    assert!(matches!(c.validate_speeds(), ClocksValid::Valid));
}

#[test]
fn wait_state_uses_inclusive_breakpoints() {
    assert_eq!(wait_state(Family::L4, 16_000_000), 0);
    assert_eq!(wait_state(Family::L4, 16_000_001), 1);
    assert_eq!(wait_state(Family::L4, 32_000_000), 1);
    assert_eq!(wait_state(Family::L4, 64_000_000), 3);
    assert_eq!(wait_state(Family::L4, 80_000_000), 4);

    assert_eq!(wait_state(Family::L5, 20_000_000), 0);
    assert_eq!(wait_state(Family::L5, 100_000_000), 4);
    assert_eq!(wait_state(Family::L5, 100_000_001), 5);

    assert_eq!(wait_state(Family::G0, 24_000_000), 0);
    assert_eq!(wait_state(Family::G0, 48_000_000), 1);
    assert_eq!(wait_state(Family::G0, 48_000_001), 2);

    assert_eq!(wait_state(Family::G4, 34_000_000), 0);
    assert_eq!(wait_state(Family::G4, 136_000_001), 4);
    assert_eq!(wait_state(Family::G4, 170_000_000), 4);
}

#[test]
fn wait_state_is_monotonic_spot_checks() {
    let freqs = [
        0u32,
        15_999_999,
        16_000_000,
        16_000_001,
        48_000_000,
        64_000_001,
        200_000_000,
    ];
    for family in [Family::L4, Family::L5, Family::G0, Family::G4] {
        let mut last = 0u8;
        for f in freqs {
            let w = wait_state(family, f);
            assert!(w >= last);
            last = w;
        }
    }
}

#[test]
fn apb_timer_doubles_unless_prescaler_is_one() {
    // Prescaler 1, bus at 80 MHz: timer frequency is the bus frequency.
    let mut c = Clocks::default_for(Family::L4);
    c.input_src = InputSrc::Hse(80_000_000);
    assert_eq!(c.apb1(), 80_000_000);
    assert_eq!(c.apb1_timer(), 80_000_000);
    assert_eq!(c.apb2_timer(), 80_000_000);

    // Prescaler 2, bus at 40 MHz: timer frequency doubles back to 80 MHz.
    c.apb1_prescaler = ApbPrescaler::Div2;
    assert_eq!(c.apb1(), 40_000_000);
    assert_eq!(c.apb1_timer(), 80_000_000);

    c.apb2_prescaler = ApbPrescaler::Div4;
    assert_eq!(c.apb2(), 20_000_000);
    assert_eq!(c.apb2_timer(), 40_000_000);
}

#[test]
fn usb_domain_is_48_mhz() {
    let g4 = Clocks::default_for(Family::G4);
    assert_eq!(g4.usb(), 48_000_000);

    let mut l4 = Clocks::default_for(Family::L4);
    l4.clk48_src = Clk48Src::Hsi48;
    assert_eq!(l4.usb(), 48_000_000);
}

#[test]
fn setup_rejects_invalid_without_touching_registers() {
    let mut c = Clocks::default_for(Family::L4);
    c.plln = 90;
    let mut rcc = Rcc::at_reset();
    let mut flash = Flash { latency: 7 };
    let res = c.setup(&mut rcc, &mut flash);
    assert!(res.is_err());
    assert_eq!(rcc, Rcc::at_reset());
    assert_eq!(flash.latency, 7);
}

#[test]
fn setup_l4_default_programs_registers() {
    let c = Clocks::default_for(Family::L4);
    let mut rcc = Rcc::at_reset();
    let mut flash = Flash { latency: 0 };
    assert!(c.setup(&mut rcc, &mut flash).is_ok());

    // 80 MHz core bus on L4: above the 64 MHz breakpoint, code 4.
    assert_eq!(flash.latency, 4);

    // The PLL's feed (HSI) is up and awaited.
    assert!(rcc.hsion);
    assert!(rcc.hsirdy);

    // The PLL was configured and brought up, outputs enabled.
    assert!(rcc.pllon);
    assert!(rcc.pllrdy);
    assert_eq!(rcc.pllsrc, 0b10);
    assert_eq!(rcc.plln, 20);
    assert_eq!(rcc.pllm, 0b0001);
    assert_eq!(rcc.pllr, 0b00);
    assert!(rcc.pllpen);
    assert!(rcc.pllqen);
    assert!(rcc.pllren);

    // Multiplexer on the PLL; prescalers at division by one.
    assert_eq!(rcc.sw, 0b11);
    assert_eq!(rcc.hpre, 0b0000);
    assert_eq!(rcc.ppre1, 0b000);
    assert_eq!(rcc.ppre2, 0b000);
    assert!(!rcc.stopwuck);
    assert_eq!(rcc.clk48sel, 0b11);
    assert!(!rcc.hsi48on);

    // MSI is neither the source nor the PLL feed: disabled for power.
    assert!(!rcc.msion);

    assert!(rcc.syscfg_enabled);
}

#[test]
fn setup_msi_source_reconfigures_range() {
    let mut c = Clocks::default_for(Family::L4);
    c.input_src = InputSrc::Msi(MsiRange::R16M);
    let mut rcc = Rcc::at_reset();
    let mut flash = Flash { latency: 0 };
    assert!(c.setup(&mut rcc, &mut flash).is_ok());

    assert!(rcc.msion);
    assert!(rcc.msirdy);
    assert!(rcc.msirgsel);
    assert_eq!(rcc.msirange, 0b1000);
    assert_eq!(rcc.sw, 0b00);
    // 16 MHz core bus maps to the lowest wait-state tier on L4.
    assert_eq!(flash.latency, 0);
    // The PLL was never the source, so it stays down.
    assert!(!rcc.pllon);
    // HSI is not the default oscillator on L4; it stays as it was.
    assert!(!rcc.hsion);
}

#[test]
fn setup_g0_hsi_disables_nothing_needed() {
    let mut c = Clocks::default_for(Family::G0);
    c.input_src = InputSrc::Hsi;
    let mut rcc = Rcc::at_reset();
    let mut flash = Flash { latency: 0 };
    assert!(c.setup(&mut rcc, &mut flash).is_ok());
    assert!(rcc.hsion);
    assert!(rcc.hsirdy);
    assert_eq!(rcc.sw, 0b000);
    // 16 MHz is at or below the 24 MHz breakpoint.
    assert_eq!(flash.latency, 0);
    // No 48 MHz domain on G0: its selector is untouched.
    assert_eq!(rcc.clk48sel, 0);
}

#[test]
fn setup_then_reselect_changes_nothing() {
    let c = Clocks::default_for(Family::L4);
    let mut rcc = Rcc::at_reset();
    let mut flash = Flash { latency: 0 };
    assert!(c.setup(&mut rcc, &mut flash).is_ok());

    let before = rcc;
    let sys_before = c.sysclk();
    let hclk_before = c.hclk();
    let apb1_before = c.apb1();

    c.re_select_input(&mut rcc);

    assert_eq!(rcc, before);
    assert_eq!(c.sysclk(), sys_before);
    assert_eq!(c.hclk(), hclk_before);
    assert_eq!(c.apb1(), apb1_before);
}

#[test]
fn reselect_reenables_msi_after_hsi_wake() {
    let mut c = Clocks::default_for(Family::L4);
    c.input_src = InputSrc::Msi(MsiRange::R4M);
    c.stop_wuck = StopWuck::Hsi;
    let mut rcc = Rcc::at_reset();
    let mut flash = Flash { latency: 0 };
    assert!(c.setup(&mut rcc, &mut flash).is_ok());

    // Model the wake: hardware reverted to HSI and dropped MSI.
    rcc.msion = false;
    rcc.msirdy = false;
    rcc.sw = 0b01;

    c.re_select_input(&mut rcc);
    assert!(rcc.msion);
    assert!(rcc.msirdy);
    assert_eq!(rcc.sw, 0b00);
}

#[test]
fn change_msi_speed_updates_config_and_range() {
    let mut c = Clocks::default_for(Family::L4);
    c.input_src = InputSrc::Msi(MsiRange::R4M);
    let mut rcc = Rcc::at_reset();
    let mut flash = Flash { latency: 0 };
    assert!(c.setup(&mut rcc, &mut flash).is_ok());
    assert_eq!(c.sysclk(), 4_000_000);

    c.change_msi_speed(MsiRange::R16M, &mut rcc);
    assert!(matches!(c.input_src, InputSrc::Msi(MsiRange::R16M)));
    assert_eq!(rcc.msirange, 0b1000);
    assert!(rcc.msirgsel);
    assert!(rcc.msirdy);
    // The next query recomputes from the mutated configuration.
    assert_eq!(c.sysclk(), 16_000_000);
}

#[test]
fn enable_msi_48_brings_msi_up_at_48_mhz() {
    let mut c = Clocks::default_for(Family::L4);
    c.input_src = InputSrc::Hsi;
    let mut rcc = Rcc::at_reset();
    c.enable_msi_48(&mut rcc);
    assert!(rcc.msion);
    assert!(rcc.msirdy);
    assert!(rcc.msirgsel);
    assert_eq!(rcc.msirange, 0b1011);
}

#[test]
fn divider_and_prescaler_values() {
    assert_eq!(Prediv::Div1.value(), 1);
    assert_eq!(Prediv::Div8.value(), 8);
    assert_eq!(Pllm::Div1.value(), 1);
    assert_eq!(Pllm::Div16.value(), 16);
    assert_eq!(Pllm::Div16.bits(), 0b1111);
    assert_eq!(Pllr::Div2.value(), 2);
    assert_eq!(Pllr::Div7.value(), 7);
    assert_eq!(Pllr::Div6.bits(Family::G0), 0b101);
    assert_eq!(Pllr::Div6.bits(Family::L4), 0b10);
    assert_eq!(HclkPrescaler::Div1.value(), 1);
    assert_eq!(HclkPrescaler::Div512.value(), 512);
    assert_eq!(HclkPrescaler::Div512.bits(), 0b1111);
    assert_eq!(ApbPrescaler::Div1.value(), 1);
    assert_eq!(ApbPrescaler::Div16.value(), 16);
    assert_eq!(ApbPrescaler::Div16.bits(), 0b111);
    assert_eq!(MsiRange::R100k.value(), 100_000);
    assert_eq!(MsiRange::R48M.value(), 48_000_000);
}

#[test]
fn source_selection_bits() {
    assert_eq!(PllSrc::NoSource.bits(), 0b00);
    assert_eq!(PllSrc::Msi(MsiRange::R4M).bits(), 0b01);
    assert_eq!(PllSrc::Hsi.bits(), 0b10);
    assert_eq!(PllSrc::Hse(8_000_000).bits(), 0b11);

    assert_eq!(InputSrc::Msi(MsiRange::R4M).bits(Family::L4), 0b00);
    assert_eq!(InputSrc::Hsi.bits(Family::L4), 0b01);
    assert_eq!(InputSrc::Hsi.bits(Family::G0), 0b000);
    assert_eq!(InputSrc::Lse.bits(Family::G0), 0b100);
    assert_eq!(InputSrc::Pll(PllSrc::Hsi).bits(Family::G4), 0b11);

    assert_eq!(Clk48Src::Hsi48.bits(), 0b00);
    assert_eq!(Clk48Src::Msi.bits(), 0b11);
    assert_eq!(StopWuck::Msi.bits(), 0);
    assert_eq!(StopWuck::Hsi.bits(), 1);
}

#[test]
fn hclk_prescaler_divides_core_bus() {
    let mut c = Clocks::default_for(Family::L4);
    c.hclk_prescaler = HclkPrescaler::Div4;
    assert_eq!(c.sysclk(), 80_000_000);
    assert_eq!(c.hclk(), 20_000_000);
    assert_eq!(c.apb1(), 20_000_000);
}

#[test]
fn pll_without_feed_yields_zero() {
    let mut c = Clocks::default_for(Family::L4);
    c.input_src = InputSrc::Pll(PllSrc::NoSource);
    assert_eq!(c.sysclk(), 0);
    assert!(matches!(c.validate_speeds(), ClocksValid::Valid));
}
