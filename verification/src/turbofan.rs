//! Sensitivity and optimizer machinery of the turbofan.
//!
//! A [`Turbofan`] carries the numeric policy of the search: the learning
//! rate, the central-difference half-steps of the two objectives, and the
//! thrust floor of the fuel-consumption descent.  Its methods build the
//! perturbation stencils of the sensitivity engine, mask a vector of partial
//! derivatives to the tunable subset of variables, apply one clamped
//! optimizer step for either objective, and decide whether the descent
//! continues.
//!
//! The floating-point evaluation of the gas path supplies thrust, specific
//! fuel consumption and the partial derivatives; every quantity crosses this
//! boundary as a fixed-point nano-unit scalar, and everything the optimizer
//! then does with it is verified here.

use vstd::arithmetic::div_mod::{
    lemma_div_by_multiple, lemma_div_is_ordered, lemma_div_multiples_vanish, lemma_div_of0,
    lemma_div_pos_is_pos,
};
use vstd::arithmetic::mul::lemma_mul_inequality;
use vstd::prelude::*;

use crate::constants::{MIN_THRUST, OPTIMIZATION_RATE, SCALE, SFC_STEP, THRUST_STEP};
use crate::variables::{combined, sat64, sat_add64, sat_sub64, scaled, Variables};
use crate::varselect::VarSelector;
use crate::EngineError;

verus! {

/// The masked gradient component of one variable: the supplied partial
/// derivative for a tunable variable, exactly zero for a fixed technology
/// parameter.
pub open spec fn masked(partials: Variables, s: VarSelector) -> i64 {
    if s.spec_tunable() {
        partials.spec_get(s)
    } else {
        0i64
    }
}

/// A turbofan design exercise: the numeric policy of the gradient search.
///
/// All values are in nano-units.
#[derive(Clone, Copy, Debug, PartialEq, Eq, Structural)]
pub struct Turbofan {
    /// Learning rate applied to a gradient before it is added to the
    /// design vector.
    pub optimization_rate: i64,
    /// Central-difference half-step for thrust derivatives.
    pub thrust_step: i64,
    /// Central-difference half-step for specific-fuel-consumption
    /// derivatives.
    pub sfc_step: i64,
    /// Minimum allowable thrust (nano-newtons) of the descent.
    pub thrust_floor: i64,
}

impl Turbofan {
    /// Constructs a new turbofan with the documented numeric policy.
    pub fn new() -> (r: Self)
        ensures
            r.optimization_rate == OPTIMIZATION_RATE,
            r.thrust_step == THRUST_STEP,
            r.sfc_step == SFC_STEP,
            r.thrust_floor == MIN_THRUST,
    {
        Turbofan {
            optimization_rate: OPTIMIZATION_RATE,
            thrust_step: THRUST_STEP,
            sfc_step: SFC_STEP,
            thrust_floor: MIN_THRUST,
        }
    }

    /// Builds the central-difference stencil around a design vector: the
    /// pair of vectors whose selected field is moved up and down by the
    /// half-step, every other field unchanged.
    pub fn perturbed(&self, v: &Variables, s: VarSelector, step: i64) -> (pair: (
        Variables,
        Variables,
    ))
        requires
            step >= 0,
        ensures
            pair.0.spec_get(s) as int == sat64(v.spec_get(s) + step),
            pair.1.spec_get(s) as int == sat64(v.spec_get(s) - step),
            forall|t: VarSelector| t != s ==> #[trigger] pair.0.spec_get(t) == v.spec_get(t),
            forall|t: VarSelector| t != s ==> #[trigger] pair.1.spec_get(t) == v.spec_get(t),
    {
        let mut high = *v;
        high.set(s, sat_add64(v.get(s), step));
        let mut low = *v;
        low.set(s, sat_sub64(v.get(s), step));
        (high, low)
    }

    /// Assembles a gradient from a vector of partial derivatives: tunable
    /// variables keep their partial derivative, every fixed technology
    /// parameter gets a component of exactly zero.
    pub fn gradient_from_partials(&self, partials: &Variables) -> (g: Variables)
        ensures
            forall|s: VarSelector| #[trigger] g.spec_get(s) == masked(*partials, s),
    {
        Variables {
            inlet_mach_number: partials.inlet_mach_number,
            inlet_diameter: partials.inlet_diameter,
            inlet_efficiency: 0,
            fan_pressure_ratio: partials.fan_pressure_ratio,
            fan_efficiency: 0,
            fan_bypass: partials.fan_bypass,
            lpc_pressure_ratio: partials.lpc_pressure_ratio,
            lpc_efficiency: 0,
            hpc_pressure_ratio: partials.hpc_pressure_ratio,
            hpc_efficiency: 0,
            hpc_discharge_temp: partials.hpc_discharge_temp,
            combustor_pressure_recovery: 0,
            combustor_efficiency: 0,
            hpt_inlet_temp: partials.hpt_inlet_temp,
            hpt_efficiency: 0,
            lpt_efficiency: 0,
            bypass_pressure_recovery: 0,
            fuel_delta_h: 0,
            fuel_cp: 0,
        }
    }

    /// Performs one gradient-ascent step for maximizing thrust: the masked
    /// gradient, scaled by the learning rate, is added to the design vector
    /// with the clamped element-wise addition.
    pub fn step_thrust_optimization(&self, variables: &Variables, partials: &Variables) -> (r:
        Variables)
        ensures
            forall|s: VarSelector| #[trigger] r.spec_get(s) as int == combined(
                variables.spec_get(s) as int,
                scaled(masked(*partials, s) as int, self.optimization_rate as int),
                s,
            ),
    {
        let step = self.gradient_from_partials(partials).mult(self.optimization_rate);
        variables.plus(&step)
    }

    /// Performs one gradient-descent step for minimizing specific fuel
    /// consumption: the negated masked gradient, scaled by the learning
    /// rate, is added to the design vector with the clamped element-wise
    /// addition.
    pub fn step_sfc_optimization(&self, variables: &Variables, partials: &Variables) -> (r:
        Variables)
        ensures
            forall|s: VarSelector| #[trigger] r.spec_get(s) as int == combined(
                variables.spec_get(s) as int,
                sat64(-scaled(masked(*partials, s) as int, self.optimization_rate as int)),
                s,
            ),
    {
        let step = self.gradient_from_partials(partials).mult(self.optimization_rate);
        let reversed = step.mult(-SCALE);
        proof {
            assert forall|s: VarSelector| #[trigger] reversed.spec_get(s) as int == sat64(
                -scaled(masked(*partials, s) as int, self.optimization_rate as int),
            ) by {
                lemma_scale_by_neg_unit(step.spec_get(s));
            }
        }
        variables.plus(&reversed)
    }

    /// Decides whether the fuel-consumption descent takes another step:
    /// it continues exactly while the thrust is at or above the floor.
    pub fn descent_continues(&self, thrust: i64) -> (r: bool)
        ensures
            r == (thrust >= self.thrust_floor),
    {
        thrust >= self.thrust_floor
    }
}

/// Scaling an `i64` value by the fixed-point factor for minus one negates
/// it (with saturation at the lower end of the range).
proof fn lemma_scale_by_neg_unit(x: i64)
    ensures
        scaled(x as int, -(SCALE as int)) == sat64(-(x as int)),
{
    let s: int = SCALE as int;
    assert((x as int) * (-s) == -((x as int) * s)) by (nonlinear_arith);
    if x >= 0 {
        lemma_div_multiples_vanish(x as int, s);
        assert((s * (x as int)) / s == x as int);
    } else {
        lemma_div_multiples_vanish(-(x as int), s);
        assert((s * -(x as int)) / s == -(x as int));
    }
}

/// Samples an inclusive range at evenly spaced points: point `i` of `n` is
/// the left end plus `i/n` of the span, rounded down to a nano-unit.  Every
/// point lies in the range.
pub fn sweep_points(left: i64, right: i64, n: usize) -> (r: Vec<i64>)
    requires
        left <= right,
        1 <= n,
    ensures
        r@.len() == n,
        forall|i: int| 0 <= i < n ==> #[trigger] r@[i] as int == left + ((right - left) * i) / (
        n as int),
        forall|i: int| 0 <= i < n ==> left <= #[trigger] r@[i] <= right,
{
    let d: u128 = (right as i128 - left as i128) as u128;
    let mut r: Vec<i64> = Vec::new();
    let mut k: usize = 0;
    while k < n
        invariant
            left <= right,
            1 <= n,
            d as int == right - left,
            r@.len() == k,
            k <= n,
            forall|i: int| 0 <= i < k ==> #[trigger] r@[i] as int == left + ((right - left) * i)
                / (n as int),
            forall|i: int| 0 <= i < k ==> left <= #[trigger] r@[i] <= right,
        decreases n - k,
    {
        proof {
            assert(d as int * (k as int) <= 0xFFFF_FFFF_FFFF_FFFFu128 as int
                * 0xFFFF_FFFF_FFFF_FFFFu128 as int) by (nonlinear_arith)
                requires
                    0 <= d as int <= 0xFFFF_FFFF_FFFF_FFFFu128 as int,
                    0 <= k as int <= 0xFFFF_FFFF_FFFF_FFFFu128 as int,
            ;
        }
        let off: u128 = d * (k as u128) / (n as u128);
        proof {
            lemma_div_pos_is_pos(d as int * k as int, n as int);
            lemma_mul_inequality(k as int, n as int, d as int);
            lemma_div_is_ordered(d as int * k as int, d as int * n as int, n as int);
            lemma_div_by_multiple(d as int, n as int);
            assert(d as int * k as int == k as int * d as int);
            assert(d as int * n as int == n as int * d as int);
            assert(off as int <= d as int);
        }
        let val: i64 = (left as i128 + off as i128) as i64;
        r.push(val);
        k += 1;
    }
    r
}

/// Classifies the outputs of one cycle evaluation.  The evaluation reports
/// each output as `Some` nano-unit value when it is finite and `None` when
/// the gas path produced a non-numeric or infinite quantity; a missing
/// output is surfaced as the `NonPhysicalState` failure instead of a
/// silently poisoned number.
pub fn cycle_outputs(thrust: Option<i64>, sfc: Option<i64>) -> (r: Result<
    (i64, i64),
    EngineError,
>)
    ensures
        match r {
            Ok(pair) => thrust == Some(pair.0) && sfc == Some(pair.1),
            Err(e) => {
                &&& thrust is None || sfc is None
                &&& e == EngineError::NonPhysicalState
            },
        },
{
    match (thrust, sfc) {
        (Some(t), Some(s)) => Ok((t, s)),
        _ => Err(EngineError::NonPhysicalState),
    }
}

/// Law: an optimizer step never moves a bounded variable against the sign
/// of its masked gradient component.  From a design vector whose selected
/// field lies within its documented bounds, the thrust-ascent step does not
/// decrease a field whose masked gradient component is nonnegative, and
/// does not increase one whose component is nonpositive.
pub proof fn lemma_step_follows_gradient_sign(
    tf: Turbofan,
    v: Variables,
    partials: Variables,
    s: VarSelector,
    lo: i64,
    hi: i64,
)
    requires
        s.spec_bounds() == Some((lo, hi)),
        lo <= v.spec_get(s) <= hi,
        tf.optimization_rate >= 0,
    ensures
        masked(partials, s) >= 0 ==> combined(
            v.spec_get(s) as int,
            scaled(masked(partials, s) as int, tf.optimization_rate as int),
            s,
        ) >= v.spec_get(s) as int,
        masked(partials, s) <= 0 ==> combined(
            v.spec_get(s) as int,
            scaled(masked(partials, s) as int, tf.optimization_rate as int),
            s,
        ) <= v.spec_get(s) as int,
{
    let m: int = masked(partials, s) as int;
    let k: int = tf.optimization_rate as int;
    let p: int = m * k;
    if m == 0 {
        assert(p == 0) by (nonlinear_arith)
            requires
                m == 0,
                p == m * k,
        ;
        lemma_div_of0(SCALE as int);
        assert(scaled(m, k) == 0);
    } else if m > 0 {
        assert(p >= 0) by (nonlinear_arith)
            requires
                m >= 0,
                k >= 0,
                p == m * k,
        ;
        lemma_div_pos_is_pos(p, SCALE as int);
        assert(scaled(m, k) >= 0);
    } else {
        assert(p <= 0) by (nonlinear_arith)
            requires
                m <= 0,
                k >= 0,
                p == m * k,
        ;
        lemma_div_pos_is_pos(-p, SCALE as int);
        assert(scaled(m, k) <= 0);
    }
}

} // verus!
