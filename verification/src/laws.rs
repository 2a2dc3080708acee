//! Laws that relate the library's components: what the validator rejects,
//! how the wait-state selector orders its tiers, and that reconciling after
//! a wake leaves a just-applied configuration's clock tree as it was.

use vstd::prelude::*;

use crate::config::{
    spec_max_clock, spec_plln_max, spec_plln_min, spec_wait_state, spec_wait_state_breakpoints,
    Clocks,
};
use crate::registers::Rcc;
use crate::sequence::{spec_reselect_rcc, spec_setup_rcc};
use crate::Family;

verus! {

/// A PLL feedback multiplier outside the family's documented range makes
/// the configuration invalid, whatever frequencies would result.
pub proof fn lemma_mul_out_of_range_not_valid(c: Clocks)
    requires
        !(spec_plln_min(c.family) <= c.plln as int <= spec_plln_max(c.family)),
    ensures
        !c.spec_valid(),
{
}

/// A SAI multiplier outside its documented range, on a family that has the
/// SAI PLL blocks, makes the configuration invalid as well.
pub proof fn lemma_sai_mul_out_of_range_not_valid(c: Clocks)
    requires
        c.family is L4 || c.family is L5,
        !(7 <= c.pll_sai1_mul <= 86) || !(7 <= c.pll_sai2_mul <= 86),
    ensures
        !c.spec_valid(),
{
}

/// A derived frequency — system, core bus, or either peripheral bus —
/// above the family's ceiling makes the configuration invalid.
pub proof fn lemma_over_ceiling_not_valid(c: Clocks)
    requires
        c.spec_sysclk() > spec_max_clock(c.family) || c.spec_hclk() > spec_max_clock(c.family)
            || c.spec_apb1() > spec_max_clock(c.family) || (c.family !is G0 && c.spec_apb2()
            > spec_max_clock(c.family)),
    ensures
        !c.spec_valid(),
{
}

/// The wait-state selector is monotonic: a higher core bus frequency never
/// maps to a lower wait-state code.
pub proof fn lemma_wait_state_monotonic(family: Family, f1: int, f2: int)
    requires
        f1 <= f2,
    ensures
        spec_wait_state(family, f1) <= spec_wait_state(family, f2),
{
}

/// The selector's breakpoints are inclusive upper bounds: a frequency equal
/// to breakpoint `i` still maps to tier `i`, and one just above it maps to
/// tier `i + 1`.
pub proof fn lemma_wait_state_inclusive(family: Family, i: int)
    requires
        0 <= i < spec_wait_state_breakpoints(family).len(),
    ensures
        spec_wait_state(family, spec_wait_state_breakpoints(family)[i]) == i,
        spec_wait_state(family, spec_wait_state_breakpoints(family)[i] + 1) == i + 1,
{
}

/// Reconciling immediately after `setup`, with the configuration unchanged,
/// leaves every register field that determines a derived frequency — the
/// multiplexer selection, the MSI range, the PLL divider chain and the bus
/// prescalers — exactly as `setup` left it; and the derived frequencies are
/// functions of the configuration alone, which the reconciler does not
/// touch. Reconciliation under no actual mode transition changes nothing.
pub proof fn lemma_reselect_after_setup_preserves_frequencies(c: Clocks, r0: Rcc)
    requires
        c.wf(),
    ensures
        ({
            let after_setup = spec_setup_rcc(c, r0);
            let reconciled = spec_reselect_rcc(c, after_setup);
            &&& reconciled.sw == after_setup.sw
            &&& reconciled.msirange == after_setup.msirange
            &&& reconciled.msirgsel == after_setup.msirgsel
            &&& reconciled.pllsrc == after_setup.pllsrc
            &&& reconciled.plln == after_setup.plln
            &&& reconciled.pllm == after_setup.pllm
            &&& reconciled.pllr == after_setup.pllr
            &&& reconciled.hpre == after_setup.hpre
            &&& reconciled.ppre1 == after_setup.ppre1
            &&& reconciled.ppre2 == after_setup.ppre2
        }),
{
}

} // verus!
