//! Clock planning: derive the system clock and the peripheral bus clock
//! from the external oscillator.
//!
//! The clock tree feeds the external oscillator (HSE) through a
//! predivider (1..=16) into a PLL multiplier (2..=16) to produce the
//! system clock, which the APB1 prescaler (1, 2, 4, 8 or 16) divides
//! down to the peripheral bus clock. A requested frequency pair is
//! reachable only as an exact integer-ratio derivation; anything else is
//! rejected at planning time, before any register is touched.

use vstd::prelude::*;

verus! {

/// Highest system clock the part supports, in Hz.
pub const MAX_SYSCLK: u32 = 72_000_000;

/// Highest APB1 peripheral bus clock the part supports, in Hz.
pub const MAX_PCLK1: u32 = 36_000_000;

/// A locked clock configuration, produced once at startup and immutable
/// afterwards. Downstream components read the derived frequencies; the
/// divider fields say how the hardware is to be programmed.
#[derive(Clone, Copy, Debug, PartialEq, Eq, Structural)]
pub struct ClockPlan {
    /// External oscillator frequency, Hz.
    pub hse: u32,
    /// PLL input predivider, 1..=16.
    pub pll_div: u32,
    /// PLL multiplier, 2..=16.
    pub pll_mul: u32,
    /// Derived system clock, Hz.
    pub sysclk: u32,
    /// APB1 prescaler, one of 1, 2, 4, 8, 16.
    pub ppre1: u32,
    /// Derived APB1 peripheral bus clock, Hz.
    pub pclk1: u32,
}

/// Why a requested frequency pair cannot be locked.
#[derive(Clone, Copy, Debug, PartialEq, Eq, Structural)]
pub enum ClockError {
    /// No predivider/multiplier pair derives the requested system clock
    /// from the oscillator, or the request is out of the part's range.
    UnreachableSysclk,
    /// The system clock is reachable, but no APB1 prescaler derives the
    /// requested peripheral bus clock from it.
    UnreachablePclk1,
}

/// The predivider/multiplier pair `(div, mul)` legally derives `sysclk`
/// from the oscillator `hse`: the divider keeps the frequency exact and
/// the multiplied result lands exactly on `sysclk`, within range.
pub open spec fn valid_pll(hse: u32, div: u32, mul: u32, sysclk: u32) -> bool {
    &&& 1 <= div <= 16
    &&& 2 <= mul <= 16
    &&& hse as int % div as int == 0
    &&& (hse as int / div as int) * (mul as int) == sysclk as int
    &&& 1 <= sysclk <= MAX_SYSCLK
}

/// Some predivider/multiplier pair derives `sysclk` from `hse`.
pub open spec fn sysclk_achievable(hse: u32, sysclk: u32) -> bool {
    exists|div: u32, mul: u32| valid_pll(hse, div, mul, sysclk)
}

/// The APB1 prescaler `ppre1` derives `pclk1` exactly from `sysclk`,
/// within the bus's range.
pub open spec fn valid_ppre1(sysclk: u32, ppre1: u32, pclk1: u32) -> bool {
    &&& (ppre1 == 1 || ppre1 == 2 || ppre1 == 4 || ppre1 == 8 || ppre1 == 16)
    &&& (ppre1 as int) * (pclk1 as int) == sysclk as int
    &&& 1 <= pclk1 <= MAX_PCLK1
}

/// Some APB1 prescaler derives `pclk1` from `sysclk`.
pub open spec fn pclk1_achievable(sysclk: u32, pclk1: u32) -> bool {
    exists|p: u32| valid_ppre1(sysclk, p, pclk1)
}

impl ClockPlan {
    /// The plan is internally consistent: its dividers really derive its
    /// frequencies.
    pub open spec fn wf(self) -> bool {
        &&& valid_pll(self.hse, self.pll_div, self.pll_mul, self.sysclk)
        &&& valid_ppre1(self.sysclk, self.ppre1, self.pclk1)
    }
}

/// Derive a clock plan for the requested system and peripheral bus
/// frequencies, or report exactly why none exists. The result is a pure
/// function of the three inputs: the same request always yields the same
/// plan, with the smallest usable PLL multiplier.
pub fn plan_clocks(hse: u32, target_sysclk: u32, target_pclk1: u32) -> (r: Result<
    ClockPlan,
    ClockError,
>)
    ensures
        match r {
            Ok(plan) => {
                &&& plan.hse == hse
                &&& plan.sysclk == target_sysclk
                &&& plan.pclk1 == target_pclk1
                &&& plan.wf()
                &&& forall|d: u32, m: u32|
                    valid_pll(hse, d, m, target_sysclk) ==> plan.pll_mul <= m
            },
            Err(ClockError::UnreachableSysclk) => !sysclk_achievable(hse, target_sysclk),
            Err(ClockError::UnreachablePclk1) => sysclk_achievable(hse, target_sysclk)
                && !pclk1_achievable(target_sysclk, target_pclk1),
        },
        r is Ok <==> sysclk_achievable(hse, target_sysclk) && pclk1_achievable(
            target_sysclk,
            target_pclk1,
        ),
{
    if target_sysclk < 1 || target_sysclk > MAX_SYSCLK {
        assert(!sysclk_achievable(hse, target_sysclk));
        return Err(ClockError::UnreachableSysclk);
    }
    let mut mul: u32 = 2;
    while mul <= 16
        invariant
            2 <= mul <= 17,
            1 <= target_sysclk <= MAX_SYSCLK,
            forall|d: u32, m: u32| valid_pll(hse, d, m, target_sysclk) ==> m >= mul,
        decreases 17 - mul,
    {
        let mut div: u32 = 1;
        while div <= 16
            invariant
                2 <= mul <= 16,
                1 <= div <= 17,
                1 <= target_sysclk <= MAX_SYSCLK,
                forall|d: u32, m: u32| valid_pll(hse, d, m, target_sysclk) ==> m >= mul,
                forall|d: u32| valid_pll(hse, d, mul, target_sysclk) ==> d >= div,
            decreases 17 - div,
        {
            let q: u32 = hse / div;
            proof {
                assert((q as u64) * (mul as u64) <= 0xFFFF_FFFFu64 * 16) by (nonlinear_arith)
                    requires
                        q as u64 <= 0xFFFF_FFFFu64,
                        mul as u64 <= 16u64,
                ;
            }
            if hse % div == 0 && (q as u64) * (mul as u64) == target_sysclk as u64 {
                assert(valid_pll(hse, div, mul, target_sysclk));
                match find_ppre1(target_sysclk, target_pclk1) {
                    Some(p) => {
                        return Ok(
                            ClockPlan {
                                hse,
                                pll_div: div,
                                pll_mul: mul,
                                sysclk: target_sysclk,
                                ppre1: p,
                                pclk1: target_pclk1,
                            },
                        );
                    },
                    None => {
                        return Err(ClockError::UnreachablePclk1);
                    },
                }
            }
            div += 1;
        }
        mul += 1;
    }
    assert(!sysclk_achievable(hse, target_sysclk));
    Err(ClockError::UnreachableSysclk)
}

/// Find the APB1 prescaler that derives `pclk1` exactly from `sysclk`,
/// if one of the five hardware values does.
fn find_ppre1(sysclk: u32, pclk1: u32) -> (r: Option<u32>)
    ensures
        match r {
            Some(p) => valid_ppre1(sysclk, p, pclk1),
            None => !pclk1_achievable(sysclk, pclk1),
        },
        r is Some <==> pclk1_achievable(sysclk, pclk1),
{
    if pclk1 < 1 || pclk1 > MAX_PCLK1 {
        assert(!pclk1_achievable(sysclk, pclk1));
        return None;
    }
    let wide: u64 = pclk1 as u64;
    let target: u64 = sysclk as u64;
    if wide == target {
        assert(valid_ppre1(sysclk, 1, pclk1));
        return Some(1);
    }
    if wide * 2 == target {
        assert(valid_ppre1(sysclk, 2, pclk1));
        return Some(2);
    }
    if wide * 4 == target {
        assert(valid_ppre1(sysclk, 4, pclk1));
        return Some(4);
    }
    if wide * 8 == target {
        assert(valid_ppre1(sysclk, 8, pclk1));
        return Some(8);
    }
    if wide * 16 == target {
        assert(valid_ppre1(sysclk, 16, pclk1));
        return Some(16);
    }
    assert(!pclk1_achievable(sysclk, pclk1));
    None
}

/// Determinism law: the clock plan is a function of the request. Any
/// two well-formed plans that derive the same requested frequencies
/// from the same oscillator with the smallest usable multiplier — the
/// shape of every plan `plan_clocks` returns — agree in every field,
/// dividers included.
pub proof fn lemma_plan_deterministic(a: ClockPlan, b: ClockPlan)
    requires
        a.wf(),
        b.wf(),
        a.hse == b.hse,
        a.sysclk == b.sysclk,
        a.pclk1 == b.pclk1,
        forall|d: u32, m: u32| valid_pll(a.hse, d, m, a.sysclk) ==> a.pll_mul <= m,
        forall|d: u32, m: u32| valid_pll(b.hse, d, m, b.sysclk) ==> b.pll_mul <= m,
    ensures
        a == b,
{
    assert(valid_pll(a.hse, a.pll_div, a.pll_mul, a.sysclk));
    assert(valid_pll(a.hse, b.pll_div, b.pll_mul, a.sysclk));
    assert(a.pll_mul == b.pll_mul);
    let m: int = a.pll_mul as int;
    let q1: int = a.hse as int / a.pll_div as int;
    let q2: int = a.hse as int / b.pll_div as int;
    assert(q1 * m == a.sysclk as int);
    assert(q2 * m == a.sysclk as int);
    assert(q1 == q2) by (nonlinear_arith)
        requires
            q1 * m == q2 * m,
            m >= 2,
    ;
    assert(q1 >= 1) by (nonlinear_arith)
        requires
            q1 * m == a.sysclk as int,
            a.sysclk >= 1,
            m >= 2,
    ;
    vstd::arithmetic::div_mod::lemma_fundamental_div_mod(a.hse as int, a.pll_div as int);
    vstd::arithmetic::div_mod::lemma_fundamental_div_mod(a.hse as int, b.pll_div as int);
    assert(a.hse as int == a.pll_div as int * q1);
    assert(a.hse as int == b.pll_div as int * q1);
    assert(a.pll_div == b.pll_div) by (nonlinear_arith)
        requires
            a.hse as int == a.pll_div as int * q1,
            a.hse as int == b.pll_div as int * q1,
            q1 >= 1,
    ;
    assert(a.ppre1 as int * a.pclk1 as int == a.sysclk as int);
    assert(b.ppre1 as int * a.pclk1 as int == a.sysclk as int);
    assert(a.ppre1 == b.ppre1) by (nonlinear_arith)
        requires
            a.ppre1 as int * a.pclk1 as int == a.sysclk as int,
            b.ppre1 as int * a.pclk1 as int == a.sysclk as int,
            a.pclk1 >= 1,
    ;
}

} // verus!
