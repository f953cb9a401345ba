//! Tests of the design vector: baseline values, selector-directed access,
//! the clamped element-wise addition, fixed-point scaling and validation.

use jetlab::constants::{OPTIMIZATION_RATE, SCALE};
use jetlab::variables::Variables;
use jetlab::varselect::VarSelector;
use jetlab::EngineError;

#[test]
fn baseline_holds_the_documented_values() {
    let v = Variables::vanilla_plus();
    assert_eq!(v.inlet_mach_number, 400_000_000);
    assert_eq!(v.inlet_diameter, 1_270_000_000);
    assert_eq!(v.inlet_efficiency, 980_000_000);
    assert_eq!(v.fan_pressure_ratio, 1_500_000_000);
    assert_eq!(v.fan_efficiency, 920_000_000);
    assert_eq!(v.fan_bypass, 6_000_000_000);
    assert_eq!(v.lpc_pressure_ratio, 2_500_000_000);
    assert_eq!(v.lpc_efficiency, 900_000_000);
    assert_eq!(v.hpc_pressure_ratio, 12_500_000_000);
    assert_eq!(v.hpc_efficiency, 870_000_000);
    assert_eq!(v.hpc_discharge_temp, 960_000_000_000);
    assert_eq!(v.combustor_pressure_recovery, 950_000_000);
    assert_eq!(v.combustor_efficiency, 980_000_000);
    assert_eq!(v.hpt_inlet_temp, 1_527_594_000_000);
    assert_eq!(v.hpt_efficiency, 900_000_000);
    assert_eq!(v.lpt_efficiency, 900_000_000);
    assert_eq!(v.bypass_pressure_recovery, 970_000_000);
    assert_eq!(v.fuel_delta_h, 43_000_000_000_000_000);
    assert_eq!(v.fuel_cp, 1_147_000_000_000);
}

#[test]
fn accessors_reach_each_field_once() {
    // Write a unique sentinel through every selector, then check each named
    // field directly: every selector must reach its own field.
    let mut v = Variables::vanilla_plus();
    for (i, s) in VarSelector::all().into_iter().enumerate() {
        v.set(s, 7_000 + i as i64);
        assert_eq!(v.get(s), 7_000 + i as i64);
    }
    assert_eq!(v.inlet_mach_number, 7_000);
    assert_eq!(v.inlet_diameter, 7_001);
    assert_eq!(v.inlet_efficiency, 7_002);
    assert_eq!(v.fan_pressure_ratio, 7_003);
    assert_eq!(v.fan_efficiency, 7_004);
    assert_eq!(v.fan_bypass, 7_005);
    assert_eq!(v.lpc_pressure_ratio, 7_006);
    assert_eq!(v.lpc_efficiency, 7_007);
    assert_eq!(v.hpc_pressure_ratio, 7_008);
    assert_eq!(v.hpc_efficiency, 7_009);
    assert_eq!(v.hpc_discharge_temp, 7_010);
    assert_eq!(v.combustor_pressure_recovery, 7_011);
    assert_eq!(v.combustor_efficiency, 7_012);
    assert_eq!(v.hpt_inlet_temp, 7_013);
    assert_eq!(v.hpt_efficiency, 7_014);
    assert_eq!(v.lpt_efficiency, 7_015);
    assert_eq!(v.bypass_pressure_recovery, 7_016);
    assert_eq!(v.fuel_delta_h, 7_017);
    assert_eq!(v.fuel_cp, 7_018);
}

#[test]
fn set_leaves_every_other_field_unchanged() {
    let base = Variables::vanilla_plus();
    for s in VarSelector::all() {
        let mut v = base;
        v.set(s, 123_456_789);
        for t in VarSelector::all() {
            if t == s {
                assert_eq!(v.get(t), 123_456_789);
            } else {
                assert_eq!(v.get(t), base.get(t));
            }
        }
    }
}

#[test]
fn addition_clamps_every_bounded_field() {
    let base = Variables::vanilla_plus();
    let mut up = base.mult(0);
    let mut down = base.mult(0);
    for s in VarSelector::all() {
        up.set(s, i64::MAX);
        down.set(s, i64::MIN);
    }
    let hi = base.plus(&up);
    let lo = base.plus(&down);
    for s in VarSelector::all() {
        if let Some((min, max)) = s.bounds() {
            assert_eq!(hi.get(s), max);
            assert_eq!(lo.get(s), min);
        }
    }
}

#[test]
fn repeated_updates_stay_within_bounds() {
    let mut v = Variables::vanilla_plus();
    let mut nudge = v.mult(0);
    for (i, s) in VarSelector::all().into_iter().enumerate() {
        nudge.set(s, if i % 2 == 0 { 250_000_000 } else { -250_000_000 });
    }
    for step in 0..24 {
        v = if step % 3 == 2 {
            v.plus(&nudge.mult(-SCALE))
        } else {
            v.plus(&nudge)
        };
        for s in VarSelector::all() {
            if let Some((min, max)) = s.bounds() {
                assert!(min <= v.get(s) && v.get(s) <= max);
            }
        }
    }
}

#[test]
fn addition_is_exact_between_the_bounds() {
    let base = Variables::vanilla_plus();
    let mut nudge = base.mult(0);
    nudge.set(VarSelector::InletMachNumber, 100_000_000);
    nudge.set(VarSelector::LptEfficiency, -1_000_000);
    let v = base.plus(&nudge);
    assert_eq!(v.inlet_mach_number, 500_000_000);
    assert_eq!(v.lpt_efficiency, 899_000_000);
    assert_eq!(v.fuel_cp, base.fuel_cp);
}

#[test]
fn addition_saturates_unbounded_fields() {
    let mut a = Variables::vanilla_plus();
    a.set(VarSelector::FuelDeltaH, i64::MAX - 5);
    let mut b = a.mult(0);
    b.set(VarSelector::FuelDeltaH, 100);
    let v = a.plus(&b);
    assert_eq!(v.fuel_delta_h, i64::MAX);
    let mut c = Variables::vanilla_plus();
    c.set(VarSelector::FuelDeltaH, i64::MIN + 5);
    let mut d = c.mult(0);
    d.set(VarSelector::FuelDeltaH, -100);
    let w = c.plus(&d);
    assert_eq!(w.fuel_delta_h, i64::MIN);
}

#[test]
fn scaling_rounds_toward_zero() {
    let mut v = Variables::vanilla_plus();
    v.set(VarSelector::FuelCp, 15);
    let w = v.mult(OPTIMIZATION_RATE);
    assert_eq!(w.fuel_cp, 1);
    v.set(VarSelector::FuelCp, -15);
    let w = v.mult(OPTIMIZATION_RATE);
    assert_eq!(w.fuel_cp, -1);
}

#[test]
fn scaling_by_the_rate_is_a_tenth() {
    let v = Variables::vanilla_plus();
    let w = v.mult(OPTIMIZATION_RATE);
    assert_eq!(w.inlet_mach_number, 40_000_000);
    assert_eq!(w.fan_bypass, 600_000_000);
    assert_eq!(w.fuel_delta_h, 4_300_000_000_000_000);
}

#[test]
fn scaling_by_minus_one_negates() {
    let v = Variables::vanilla_plus();
    let w = v.mult(-SCALE);
    assert_eq!(w.inlet_mach_number, -400_000_000);
    assert_eq!(w.hpt_inlet_temp, -1_527_594_000_000);
    assert_eq!(w.mult(-SCALE), v);
}

#[test]
fn baseline_is_physical() {
    assert_eq!(Variables::vanilla_plus().validate(), Ok(()));
}

#[test]
fn validation_rejects_each_violated_invariant() {
    let base = Variables::vanilla_plus();
    let cases: Vec<(VarSelector, i64)> = vec![
        (VarSelector::InletMachNumber, 0),
        (VarSelector::InletDiameter, -1),
        (VarSelector::FanPressureRatio, SCALE - 1),
        (VarSelector::LpcPressureRatio, 999_999_999),
        (VarSelector::HpcPressureRatio, 0),
        (VarSelector::InletEfficiency, 0),
        (VarSelector::FanEfficiency, SCALE + 1),
        (VarSelector::LpcEfficiency, -5),
        (VarSelector::HpcEfficiency, 2 * SCALE),
        (VarSelector::CombustorEfficiency, 0),
        (VarSelector::HptEfficiency, SCALE + 1),
        (VarSelector::LptEfficiency, 0),
        (VarSelector::CombustorPressureRecovery, 0),
        (VarSelector::BypassPressureRecovery, SCALE + 1),
        (VarSelector::HpcDischargeTemp, 0),
        (VarSelector::HptInletTemp, 0),
    ];
    for (s, bad) in cases {
        let mut v = base;
        v.set(s, bad);
        assert_eq!(v.validate(), Err(EngineError::NonPhysicalState));
    }
    // Turbine inlet must stay hotter than the compressor discharge.
    let mut v = base;
    v.set(VarSelector::HptInletTemp, base.hpc_discharge_temp);
    assert_eq!(v.validate(), Err(EngineError::NonPhysicalState));
    // The closed ends of the intervals are physical.
    let mut v = base;
    v.set(VarSelector::FanPressureRatio, SCALE);
    v.set(VarSelector::HptEfficiency, SCALE);
    assert_eq!(v.validate(), Ok(()));
}
