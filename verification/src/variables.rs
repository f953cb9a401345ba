//! The design vector of the engine.
//!
//! [`Variables`] holds the nineteen engine parameters in fixed-point
//! nano-units (see [`crate::constants::SCALE`]).  The module provides
//! selector-directed access to the fields, the clamped element-wise addition
//! used by the optimizer, scaling by a fixed-point factor, the baseline
//! reference engine, and validation of the physical invariants.

use vstd::prelude::*;

use crate::constants::{
    BASELINE_BYPASS_PRESSURE_RECOVERY, BASELINE_COMBUSTOR_EFFICIENCY,
    BASELINE_COMBUSTOR_PRESSURE_RECOVERY, BASELINE_FAN_BYPASS, BASELINE_FAN_EFFICIENCY,
    BASELINE_FAN_PRESSURE_RATIO, BASELINE_FUEL_CP, BASELINE_FUEL_DELTA_H,
    BASELINE_HPC_DISCHARGE_TEMP, BASELINE_HPC_EFFICIENCY, BASELINE_HPC_PRESSURE_RATIO,
    BASELINE_HPT_EFFICIENCY, BASELINE_HPT_INLET_TEMP, BASELINE_INLET_DIAMETER,
    BASELINE_INLET_EFFICIENCY, BASELINE_INLET_MACH_NUMBER, BASELINE_LPC_EFFICIENCY,
    BASELINE_LPC_PRESSURE_RATIO, BASELINE_LPT_EFFICIENCY, SCALE,
};
use crate::varselect::VarSelector;
use crate::EngineError;

verus! {

/// Saturation of a mathematical integer to the `i64` range.
pub open spec fn sat64(x: int) -> int {
    if x > i64::MAX as int {
        i64::MAX as int
    } else if x < i64::MIN as int {
        i64::MIN as int
    } else {
        x
    }
}

/// Clamping of a mathematical integer to an inclusive interval.
pub open spec fn clamp_to(x: int, lo: int, hi: int) -> int {
    if x < lo {
        lo
    } else if x > hi {
        hi
    } else {
        x
    }
}

/// Division of a scaled product by [`SCALE`], rounding toward zero.
pub open spec fn trunc_div_scale(p: int) -> int {
    if p >= 0 {
        p / (SCALE as int)
    } else {
        -((-p) / (SCALE as int))
    }
}

/// The value of one field after an additive update: the mathematical sum,
/// clamped to the field's documented bounds, or saturated to the `i64` range
/// for a field without documented bounds.
pub open spec fn combined(a: int, b: int, s: VarSelector) -> int {
    match s.spec_bounds() {
        Some(bounds) => clamp_to(a + b, bounds.0 as int, bounds.1 as int),
        None => sat64(a + b),
    }
}

/// The value of one field after scaling by the fixed-point factor `k`:
/// the product divided by [`SCALE`] rounding toward zero, saturated to the
/// `i64` range.
pub open spec fn scaled(v: int, k: int) -> int {
    sat64(trunc_div_scale(v * k))
}

/// Holds all engine design variables, in nano-units.
#[derive(Clone, Copy, Debug, PartialEq, Eq, Structural)]
pub struct Variables {
    /// Inlet Mach number
    pub inlet_mach_number: i64,
    /// Inlet diameter (in m)
    pub inlet_diameter: i64,
    /// Inlet efficiency
    pub inlet_efficiency: i64,
    /// Fan pressure ratio
    pub fan_pressure_ratio: i64,
    /// Fan adiabatic efficiency
    pub fan_efficiency: i64,
    /// Fan bypass ratio
    pub fan_bypass: i64,
    /// Low pressure compressor pressure ratio
    pub lpc_pressure_ratio: i64,
    /// Low pressure compressor adiabatic efficiency
    pub lpc_efficiency: i64,
    /// High pressure compressor pressure ratio
    pub hpc_pressure_ratio: i64,
    /// High pressure compressor adiabatic efficiency
    pub hpc_efficiency: i64,
    /// High pressure compressor discharge temperature (in K)
    pub hpc_discharge_temp: i64,
    /// Combustor pressure recovery coefficient
    pub combustor_pressure_recovery: i64,
    /// Combustor efficiency
    pub combustor_efficiency: i64,
    /// High pressure turbine inlet temperature (in K)
    pub hpt_inlet_temp: i64,
    /// High pressure turbine efficiency
    pub hpt_efficiency: i64,
    /// Low pressure turbine efficiency
    pub lpt_efficiency: i64,
    /// Bypass duct pressure recovery coefficient
    pub bypass_pressure_recovery: i64,
    /// Fuel enthalpy of combustion (in J/kg)
    pub fuel_delta_h: i64,
    /// Fuel specific heat capacity at constant pressure (in J/kg-K)
    pub fuel_cp: i64,
}

/// Saturating addition on `i64`.
pub(crate) fn sat_add64(a: i64, b: i64) -> (r: i64)
    ensures
        r as int == sat64(a + b),
{
    let sum: i128 = a as i128 + b as i128;
    if sum > i64::MAX as i128 {
        i64::MAX
    } else if sum < i64::MIN as i128 {
        i64::MIN
    } else {
        sum as i64
    }
}

/// Saturating subtraction on `i64`.
pub(crate) fn sat_sub64(a: i64, b: i64) -> (r: i64)
    ensures
        r as int == sat64(a - b),
{
    let diff: i128 = a as i128 - b as i128;
    if diff > i64::MAX as i128 {
        i64::MAX
    } else if diff < i64::MIN as i128 {
        i64::MIN
    } else {
        diff as i64
    }
}

/// One field of an additive update: clamped for a bounded field, saturated
/// otherwise.
fn add_field(a: i64, b: i64, s: VarSelector) -> (r: i64)
    ensures
        r as int == combined(a as int, b as int, s),
{
    match s.bounds() {
        Some((lo, hi)) => {
            let sum: i128 = a as i128 + b as i128;
            if sum < lo as i128 {
                lo
            } else if sum > hi as i128 {
                hi
            } else {
                sum as i64
            }
        },
        None => sat_add64(a, b),
    }
}

/// One field of a scaling: the product with `k` divided by [`SCALE`],
/// rounding toward zero, saturated to the `i64` range.
fn scale_field(v: i64, k: i64) -> (r: i64)
    ensures
        r as int == scaled(v as int, k as int),
{
    let neg: bool = (v < 0) != (k < 0);
    let av: u128 = if v >= 0 {
        v as u128
    } else {
        (-(v as i128)) as u128
    };
    let ak: u128 = if k >= 0 {
        k as u128
    } else {
        (-(k as i128)) as u128
    };
    proof {
        assert(av * ak <= 0x8000_0000_0000_0000u128 * 0x8000_0000_0000_0000u128)
            by (nonlinear_arith)
            requires
                av <= 0x8000_0000_0000_0000u128,
                ak <= 0x8000_0000_0000_0000u128,
        ;
    }
    let prod: u128 = av * ak;
    proof {
        let p: int = (v as int) * (k as int);
        if v >= 0 && k >= 0 {
            assert(prod as int == p && p >= 0) by (nonlinear_arith)
                requires
                    av as int == v as int,
                    ak as int == k as int,
                    prod == av * ak,
                    v >= 0,
                    k >= 0,
                    p == (v as int) * (k as int),
            ;
        } else if v >= 0 && k < 0 {
            assert(prod as int == -p && p <= 0) by (nonlinear_arith)
                requires
                    av as int == v as int,
                    ak as int == -(k as int),
                    prod == av * ak,
                    v >= 0,
                    k < 0,
                    p == (v as int) * (k as int),
            ;
        } else if v < 0 && k >= 0 {
            assert(prod as int == -p && p <= 0) by (nonlinear_arith)
                requires
                    av as int == -(v as int),
                    ak as int == k as int,
                    prod == av * ak,
                    v < 0,
                    k >= 0,
                    p == (v as int) * (k as int),
            ;
        } else {
            assert(prod as int == p && p >= 0) by (nonlinear_arith)
                requires
                    av as int == -(v as int),
                    ak as int == -(k as int),
                    prod == av * ak,
                    v < 0,
                    k < 0,
                    p == (v as int) * (k as int),
            ;
        }
    }
    let q: u128 = prod / 1_000_000_000u128;
    if neg {
        if q >= 0x8000_0000_0000_0000u128 {
            i64::MIN
        } else {
            -(q as i64)
        }
    } else {
        if q > i64::MAX as u128 {
            i64::MAX
        } else {
            q as i64
        }
    }
}

impl Variables {
    /// The value of the field named by a selector.
    pub open spec fn spec_get(self, s: VarSelector) -> i64 {
        match s {
            VarSelector::InletMachNumber => self.inlet_mach_number,
            VarSelector::InletDiameter => self.inlet_diameter,
            VarSelector::InletEfficiency => self.inlet_efficiency,
            VarSelector::FanPressureRatio => self.fan_pressure_ratio,
            VarSelector::FanEfficiency => self.fan_efficiency,
            VarSelector::FanBypass => self.fan_bypass,
            VarSelector::LpcPressureRatio => self.lpc_pressure_ratio,
            VarSelector::LpcEfficiency => self.lpc_efficiency,
            VarSelector::HpcPressureRatio => self.hpc_pressure_ratio,
            VarSelector::HpcEfficiency => self.hpc_efficiency,
            VarSelector::HpcDischargeTemp => self.hpc_discharge_temp,
            VarSelector::CombustorPressureRecovery => self.combustor_pressure_recovery,
            VarSelector::CombustorEfficiency => self.combustor_efficiency,
            VarSelector::HptInletTemp => self.hpt_inlet_temp,
            VarSelector::HptEfficiency => self.hpt_efficiency,
            VarSelector::LptEfficiency => self.lpt_efficiency,
            VarSelector::BypassPressureRecovery => self.bypass_pressure_recovery,
            VarSelector::FuelDeltaH => self.fuel_delta_h,
            VarSelector::FuelCp => self.fuel_cp,
        }
    }

    /// Reads the field named by a selector.
    pub fn get(&self, s: VarSelector) -> (r: i64)
        ensures
            r == self.spec_get(s),
    {
        match s {
            VarSelector::InletMachNumber => self.inlet_mach_number,
            VarSelector::InletDiameter => self.inlet_diameter,
            VarSelector::InletEfficiency => self.inlet_efficiency,
            VarSelector::FanPressureRatio => self.fan_pressure_ratio,
            VarSelector::FanEfficiency => self.fan_efficiency,
            VarSelector::FanBypass => self.fan_bypass,
            VarSelector::LpcPressureRatio => self.lpc_pressure_ratio,
            VarSelector::LpcEfficiency => self.lpc_efficiency,
            VarSelector::HpcPressureRatio => self.hpc_pressure_ratio,
            VarSelector::HpcEfficiency => self.hpc_efficiency,
            VarSelector::HpcDischargeTemp => self.hpc_discharge_temp,
            VarSelector::CombustorPressureRecovery => self.combustor_pressure_recovery,
            VarSelector::CombustorEfficiency => self.combustor_efficiency,
            VarSelector::HptInletTemp => self.hpt_inlet_temp,
            VarSelector::HptEfficiency => self.hpt_efficiency,
            VarSelector::LptEfficiency => self.lpt_efficiency,
            VarSelector::BypassPressureRecovery => self.bypass_pressure_recovery,
            VarSelector::FuelDeltaH => self.fuel_delta_h,
            VarSelector::FuelCp => self.fuel_cp,
        }
    }

    /// Writes the field named by a selector; every other field is unchanged.
    pub fn set(&mut self, s: VarSelector, val: i64)
        ensures
            forall|t: VarSelector| #[trigger]
                final(self).spec_get(t) == if t == s {
                    val
                } else {
                    old(self).spec_get(t)
                },
    {
        match s {
            VarSelector::InletMachNumber => self.inlet_mach_number = val,
            VarSelector::InletDiameter => self.inlet_diameter = val,
            VarSelector::InletEfficiency => self.inlet_efficiency = val,
            VarSelector::FanPressureRatio => self.fan_pressure_ratio = val,
            VarSelector::FanEfficiency => self.fan_efficiency = val,
            VarSelector::FanBypass => self.fan_bypass = val,
            VarSelector::LpcPressureRatio => self.lpc_pressure_ratio = val,
            VarSelector::LpcEfficiency => self.lpc_efficiency = val,
            VarSelector::HpcPressureRatio => self.hpc_pressure_ratio = val,
            VarSelector::HpcEfficiency => self.hpc_efficiency = val,
            VarSelector::HpcDischargeTemp => self.hpc_discharge_temp = val,
            VarSelector::CombustorPressureRecovery => self.combustor_pressure_recovery = val,
            VarSelector::CombustorEfficiency => self.combustor_efficiency = val,
            VarSelector::HptInletTemp => self.hpt_inlet_temp = val,
            VarSelector::HptEfficiency => self.hpt_efficiency = val,
            VarSelector::LptEfficiency => self.lpt_efficiency = val,
            VarSelector::BypassPressureRecovery => self.bypass_pressure_recovery = val,
            VarSelector::FuelDeltaH => self.fuel_delta_h = val,
            VarSelector::FuelCp => self.fuel_cp = val,
        }
    }

    /// Adds another vector element-wise.  Each bounded field is clamped to
    /// its documented `[min, max]` interval after summation; fields without
    /// documented bounds are summed with saturation at the `i64` range.
    pub fn plus(&self, other: &Variables) -> (r: Variables)
        ensures
            forall|s: VarSelector| #[trigger] r.spec_get(s) as int == combined(
                self.spec_get(s) as int,
                other.spec_get(s) as int,
                s,
            ),
    {
        let r = Variables {
            inlet_mach_number: add_field(
                self.inlet_mach_number,
                other.inlet_mach_number,
                VarSelector::InletMachNumber,
            ),
            inlet_diameter: add_field(
                self.inlet_diameter,
                other.inlet_diameter,
                VarSelector::InletDiameter,
            ),
            inlet_efficiency: add_field(
                self.inlet_efficiency,
                other.inlet_efficiency,
                VarSelector::InletEfficiency,
            ),
            fan_pressure_ratio: add_field(
                self.fan_pressure_ratio,
                other.fan_pressure_ratio,
                VarSelector::FanPressureRatio,
            ),
            fan_efficiency: add_field(
                self.fan_efficiency,
                other.fan_efficiency,
                VarSelector::FanEfficiency,
            ),
            fan_bypass: add_field(self.fan_bypass, other.fan_bypass, VarSelector::FanBypass),
            lpc_pressure_ratio: add_field(
                self.lpc_pressure_ratio,
                other.lpc_pressure_ratio,
                VarSelector::LpcPressureRatio,
            ),
            lpc_efficiency: add_field(
                self.lpc_efficiency,
                other.lpc_efficiency,
                VarSelector::LpcEfficiency,
            ),
            hpc_pressure_ratio: add_field(
                self.hpc_pressure_ratio,
                other.hpc_pressure_ratio,
                VarSelector::HpcPressureRatio,
            ),
            hpc_efficiency: add_field(
                self.hpc_efficiency,
                other.hpc_efficiency,
                VarSelector::HpcEfficiency,
            ),
            hpc_discharge_temp: add_field(
                self.hpc_discharge_temp,
                other.hpc_discharge_temp,
                VarSelector::HpcDischargeTemp,
            ),
            combustor_pressure_recovery: add_field(
                self.combustor_pressure_recovery,
                other.combustor_pressure_recovery,
                VarSelector::CombustorPressureRecovery,
            ),
            combustor_efficiency: add_field(
                self.combustor_efficiency,
                other.combustor_efficiency,
                VarSelector::CombustorEfficiency,
            ),
            hpt_inlet_temp: add_field(
                self.hpt_inlet_temp,
                other.hpt_inlet_temp,
                VarSelector::HptInletTemp,
            ),
            hpt_efficiency: add_field(
                self.hpt_efficiency,
                other.hpt_efficiency,
                VarSelector::HptEfficiency,
            ),
            lpt_efficiency: add_field(
                self.lpt_efficiency,
                other.lpt_efficiency,
                VarSelector::LptEfficiency,
            ),
            bypass_pressure_recovery: add_field(
                self.bypass_pressure_recovery,
                other.bypass_pressure_recovery,
                VarSelector::BypassPressureRecovery,
            ),
            fuel_delta_h: add_field(self.fuel_delta_h, other.fuel_delta_h, VarSelector::FuelDeltaH),
            fuel_cp: add_field(self.fuel_cp, other.fuel_cp, VarSelector::FuelCp),
        };
        r
    }

    /// Applies a constant fixed-point multiplier to each value: each field
    /// becomes its product with `k`, divided by [`SCALE`] rounding toward
    /// zero, saturated to the `i64` range.
    pub fn mult(&self, k: i64) -> (r: Variables)
        ensures
            forall|s: VarSelector| #[trigger] r.spec_get(s) as int == scaled(
                self.spec_get(s) as int,
                k as int,
            ),
    {
        let r = Variables {
            inlet_mach_number: scale_field(self.inlet_mach_number, k),
            inlet_diameter: scale_field(self.inlet_diameter, k),
            inlet_efficiency: scale_field(self.inlet_efficiency, k),
            fan_pressure_ratio: scale_field(self.fan_pressure_ratio, k),
            fan_efficiency: scale_field(self.fan_efficiency, k),
            fan_bypass: scale_field(self.fan_bypass, k),
            lpc_pressure_ratio: scale_field(self.lpc_pressure_ratio, k),
            lpc_efficiency: scale_field(self.lpc_efficiency, k),
            hpc_pressure_ratio: scale_field(self.hpc_pressure_ratio, k),
            hpc_efficiency: scale_field(self.hpc_efficiency, k),
            hpc_discharge_temp: scale_field(self.hpc_discharge_temp, k),
            combustor_pressure_recovery: scale_field(self.combustor_pressure_recovery, k),
            combustor_efficiency: scale_field(self.combustor_efficiency, k),
            hpt_inlet_temp: scale_field(self.hpt_inlet_temp, k),
            hpt_efficiency: scale_field(self.hpt_efficiency, k),
            lpt_efficiency: scale_field(self.lpt_efficiency, k),
            bypass_pressure_recovery: scale_field(self.bypass_pressure_recovery, k),
            fuel_delta_h: scale_field(self.fuel_delta_h, k),
            fuel_cp: scale_field(self.fuel_cp, k),
        };
        r
    }

    /// The baseline ("vanilla-plus") reference engine.
    pub open spec fn spec_vanilla_plus() -> Variables {
        Variables {
            inlet_mach_number: BASELINE_INLET_MACH_NUMBER,
            inlet_diameter: BASELINE_INLET_DIAMETER,
            inlet_efficiency: BASELINE_INLET_EFFICIENCY,
            fan_pressure_ratio: BASELINE_FAN_PRESSURE_RATIO,
            fan_efficiency: BASELINE_FAN_EFFICIENCY,
            fan_bypass: BASELINE_FAN_BYPASS,
            lpc_pressure_ratio: BASELINE_LPC_PRESSURE_RATIO,
            lpc_efficiency: BASELINE_LPC_EFFICIENCY,
            hpc_pressure_ratio: BASELINE_HPC_PRESSURE_RATIO,
            hpc_efficiency: BASELINE_HPC_EFFICIENCY,
            hpc_discharge_temp: BASELINE_HPC_DISCHARGE_TEMP,
            combustor_pressure_recovery: BASELINE_COMBUSTOR_PRESSURE_RECOVERY,
            combustor_efficiency: BASELINE_COMBUSTOR_EFFICIENCY,
            hpt_inlet_temp: BASELINE_HPT_INLET_TEMP,
            hpt_efficiency: BASELINE_HPT_EFFICIENCY,
            lpt_efficiency: BASELINE_LPT_EFFICIENCY,
            bypass_pressure_recovery: BASELINE_BYPASS_PRESSURE_RECOVERY,
            fuel_delta_h: BASELINE_FUEL_DELTA_H,
            fuel_cp: BASELINE_FUEL_CP,
        }
    }

    /// Builds the baseline ("vanilla-plus") reference engine.
    pub fn vanilla_plus() -> (r: Variables)
        ensures
            r == Self::spec_vanilla_plus(),
    {
        Variables {
            inlet_mach_number: BASELINE_INLET_MACH_NUMBER,
            inlet_diameter: BASELINE_INLET_DIAMETER,
            inlet_efficiency: BASELINE_INLET_EFFICIENCY,
            fan_pressure_ratio: BASELINE_FAN_PRESSURE_RATIO,
            fan_efficiency: BASELINE_FAN_EFFICIENCY,
            fan_bypass: BASELINE_FAN_BYPASS,
            lpc_pressure_ratio: BASELINE_LPC_PRESSURE_RATIO,
            lpc_efficiency: BASELINE_LPC_EFFICIENCY,
            hpc_pressure_ratio: BASELINE_HPC_PRESSURE_RATIO,
            hpc_efficiency: BASELINE_HPC_EFFICIENCY,
            hpc_discharge_temp: BASELINE_HPC_DISCHARGE_TEMP,
            combustor_pressure_recovery: BASELINE_COMBUSTOR_PRESSURE_RECOVERY,
            combustor_efficiency: BASELINE_COMBUSTOR_EFFICIENCY,
            hpt_inlet_temp: BASELINE_HPT_INLET_TEMP,
            hpt_efficiency: BASELINE_HPT_EFFICIENCY,
            lpt_efficiency: BASELINE_LPT_EFFICIENCY,
            bypass_pressure_recovery: BASELINE_BYPASS_PRESSURE_RECOVERY,
            fuel_delta_h: BASELINE_FUEL_DELTA_H,
            fuel_cp: BASELINE_FUEL_CP,
        }
    }

    /// The physical invariants of the cycle model: positive inlet Mach
    /// number, diameter and temperatures; compressor pressure ratios at
    /// least one; efficiencies and recovery coefficients in `(0, 1]`; and a
    /// turbine inlet hotter than the compressor discharge.
    pub open spec fn spec_is_physical(self) -> bool {
        &&& self.inlet_mach_number > 0
        &&& self.inlet_diameter > 0
        &&& self.fan_pressure_ratio >= SCALE
        &&& self.lpc_pressure_ratio >= SCALE
        &&& self.hpc_pressure_ratio >= SCALE
        &&& 0 < self.inlet_efficiency <= SCALE
        &&& 0 < self.fan_efficiency <= SCALE
        &&& 0 < self.lpc_efficiency <= SCALE
        &&& 0 < self.hpc_efficiency <= SCALE
        &&& 0 < self.combustor_efficiency <= SCALE
        &&& 0 < self.hpt_efficiency <= SCALE
        &&& 0 < self.lpt_efficiency <= SCALE
        &&& 0 < self.combustor_pressure_recovery <= SCALE
        &&& 0 < self.bypass_pressure_recovery <= SCALE
        &&& self.hpc_discharge_temp > 0
        &&& self.hpt_inlet_temp > 0
        &&& self.hpt_inlet_temp > self.hpc_discharge_temp
    }

    /// Checks the physical invariants of the cycle model, reporting
    /// `NonPhysicalState` exactly when one of them fails.
    pub fn validate(&self) -> (r: Result<(), EngineError>)
        ensures
            match r {
                Ok(()) => self.spec_is_physical(),
                Err(e) => !self.spec_is_physical() && e == EngineError::NonPhysicalState,
            },
    {
        if self.inlet_mach_number <= 0
            || self.inlet_diameter <= 0
            || self.fan_pressure_ratio < SCALE
            || self.lpc_pressure_ratio < SCALE
            || self.hpc_pressure_ratio < SCALE
            || self.inlet_efficiency <= 0 || self.inlet_efficiency > SCALE
            || self.fan_efficiency <= 0 || self.fan_efficiency > SCALE
            || self.lpc_efficiency <= 0 || self.lpc_efficiency > SCALE
            || self.hpc_efficiency <= 0 || self.hpc_efficiency > SCALE
            || self.combustor_efficiency <= 0 || self.combustor_efficiency > SCALE
            || self.hpt_efficiency <= 0 || self.hpt_efficiency > SCALE
            || self.lpt_efficiency <= 0 || self.lpt_efficiency > SCALE
            || self.combustor_pressure_recovery <= 0 || self.combustor_pressure_recovery > SCALE
            || self.bypass_pressure_recovery <= 0 || self.bypass_pressure_recovery > SCALE
            || self.hpc_discharge_temp <= 0
            || self.hpt_inlet_temp <= 0
            || self.hpt_inlet_temp <= self.hpc_discharge_temp {
            Err(EngineError::NonPhysicalState)
        } else {
            Ok(())
        }
    }
}

/// Law: an additive update respects the box constraints — after any update,
/// every bounded field of the result lies within its documented `[min, max]`
/// interval, inclusive.
pub proof fn lemma_update_within_bounds(a: Variables, b: Variables, s: VarSelector, lo: i64, hi: i64)
    requires
        s.spec_bounds() == Some((lo, hi)),
    ensures
        lo as int <= combined(a.spec_get(s) as int, b.spec_get(s) as int, s) <= hi as int,
{
}

} // verus!
