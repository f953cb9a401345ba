//! Tests of the optimizer machinery: the numeric policy, the perturbation
//! stencils, gradient masking, the clamped optimizer steps, the descent
//! stopping rule and range sampling.

use jetlab::constants::{MIN_THRUST, OPTIMIZATION_RATE, SFC_STEP, THRUST_STEP};
use jetlab::turbofan::{cycle_outputs, sweep_points, Turbofan};
use jetlab::variables::Variables;
use jetlab::varselect::VarSelector;
use jetlab::EngineError;

#[test]
fn new_turbofan_carries_the_documented_policy() {
    let tf = Turbofan::new();
    assert_eq!(tf.optimization_rate, OPTIMIZATION_RATE);
    assert_eq!(tf.thrust_step, THRUST_STEP);
    assert_eq!(tf.sfc_step, SFC_STEP);
    assert_eq!(tf.thrust_floor, MIN_THRUST);
    assert_eq!(tf.thrust_step, 1_000);
    assert_eq!(tf.sfc_step, 1_000_000);
}

#[test]
fn perturbation_moves_only_the_selected_field() {
    let tf = Turbofan::new();
    let v = Variables::vanilla_plus();
    for s in VarSelector::all() {
        let (hi, lo) = tf.perturbed(&v, s, tf.sfc_step);
        assert_eq!(hi.get(s), v.get(s) + SFC_STEP);
        assert_eq!(lo.get(s), v.get(s) - SFC_STEP);
        for t in VarSelector::all() {
            if t != s {
                assert_eq!(hi.get(t), v.get(t));
                assert_eq!(lo.get(t), v.get(t));
            }
        }
    }
}

#[test]
fn gradient_masking_zeroes_the_fixed_parameters() {
    let tf = Turbofan::new();
    let mut partials = Variables::vanilla_plus();
    for s in VarSelector::all() {
        partials.set(s, 55_555);
    }
    let g = tf.gradient_from_partials(&partials);
    for s in VarSelector::all() {
        if s.tunable() {
            assert_eq!(g.get(s), 55_555);
        } else {
            assert_eq!(g.get(s), 0);
        }
    }
}

#[test]
fn thrust_step_adds_a_tenth_of_the_gradient() {
    let tf = Turbofan::new();
    let v = Variables::vanilla_plus();
    let mut partials = v.mult(0);
    // A slope of 10.0 on the bypass ratio: one step moves it by 1.0.
    partials.set(VarSelector::FanBypass, 10_000_000_000);
    // A slope on a fixed parameter must be ignored.
    partials.set(VarSelector::FanEfficiency, 10_000_000_000);
    let w = tf.step_thrust_optimization(&v, &partials);
    assert_eq!(w.fan_bypass, 7_000_000_000);
    assert_eq!(w.fan_efficiency, v.fan_efficiency);
    assert_eq!(w.hpt_inlet_temp, v.hpt_inlet_temp);
}

#[test]
fn thrust_step_respects_the_clamp() {
    let tf = Turbofan::new();
    let v = Variables::vanilla_plus();
    let mut partials = v.mult(0);
    partials.set(VarSelector::InletMachNumber, i64::MAX);
    partials.set(VarSelector::FanBypass, i64::MIN);
    let w = tf.step_thrust_optimization(&v, &partials);
    assert_eq!(w.inlet_mach_number, 635_000_000);
    assert_eq!(w.fan_bypass, 1_000_000_000);
}

#[test]
fn sfc_step_moves_against_the_gradient() {
    let tf = Turbofan::new();
    let v = Variables::vanilla_plus();
    let mut partials = v.mult(0);
    partials.set(VarSelector::FanBypass, 10_000_000_000);
    let w = tf.step_sfc_optimization(&v, &partials);
    assert_eq!(w.fan_bypass, 5_000_000_000);
    assert_eq!(w.lpt_efficiency, v.lpt_efficiency);
}

#[test]
fn descent_stops_exactly_below_the_floor() {
    let tf = Turbofan::new();
    assert!(tf.descent_continues(MIN_THRUST));
    assert!(tf.descent_continues(MIN_THRUST + 1));
    assert!(!tf.descent_continues(MIN_THRUST - 1));
}

#[test]
fn cycle_outputs_demand_both_finite_values() {
    assert_eq!(cycle_outputs(Some(10), Some(20)), Ok((10, 20)));
    assert_eq!(
        cycle_outputs(None, Some(20)),
        Err(EngineError::NonPhysicalState)
    );
    assert_eq!(
        cycle_outputs(Some(10), None),
        Err(EngineError::NonPhysicalState)
    );
    assert_eq!(cycle_outputs(None, None), Err(EngineError::NonPhysicalState));
}

#[test]
fn sweep_points_are_evenly_spaced() {
    assert_eq!(sweep_points(0, 10, 5), vec![0, 2, 4, 6, 8]);
    assert_eq!(sweep_points(-4, 4, 4), vec![-4, -2, 0, 2]);
    assert_eq!(sweep_points(5, 5, 3), vec![5, 5, 5]);
    let pts = sweep_points(200_000_000, 635_000_000, 1000);
    assert_eq!(pts.len(), 1000);
    assert_eq!(pts[0], 200_000_000);
    for w in pts.windows(2) {
        assert!(w[0] <= w[1]);
    }
    for p in pts {
        assert!((200_000_000..=635_000_000).contains(&p));
    }
}
