//! Fixed-point constants of the design space.
//!
//! Quantities are stored in nano-units: an `i64` value represents the
//! physical quantity multiplied by [`SCALE`].  Every documented bound and
//! baseline value has at most nine decimal places, so all of them are exact
//! in this representation.

use vstd::prelude::*;

verus! {

/// Nano-units per unit: a stored `i64` value divided by `SCALE` is the
/// physical quantity.
pub const SCALE: i64 = 1_000_000_000;

/// Learning rate applied to a gradient before it is added to the design
/// vector (0.1).
pub const OPTIMIZATION_RATE: i64 = 100_000_000;

/// Central-difference half-step used for thrust derivatives (1e-6).
pub const THRUST_STEP: i64 = 1_000;

/// Central-difference half-step used for specific-fuel-consumption
/// derivatives (1e-3).
pub const SFC_STEP: i64 = 1_000_000;

/// Minimum allowable thrust in nano-newtons: the required thrust of
/// 80067.989 N per engine raised by a one-percent safety margin.
pub const MIN_THRUST: i64 = 80_868_668_890_000;

/// Box constraints of the gradient search, in nano-units.
pub const INLET_MACH_NUMBER_MIN: i64 = 200_000_000;
pub const INLET_MACH_NUMBER_MAX: i64 = 635_000_000;
pub const INLET_DIAMETER_MIN: i64 = 1_219_200_000;
pub const INLET_DIAMETER_MAX: i64 = 1_371_600_000;
pub const FAN_PRESSURE_RATIO_MIN: i64 = 1_000_000_000;
pub const FAN_PRESSURE_RATIO_MAX: i64 = 1_800_000_000;
pub const FAN_BYPASS_MIN: i64 = 1_000_000_000;
pub const FAN_BYPASS_MAX: i64 = 11_000_000_000;
pub const LPC_PRESSURE_RATIO_MIN: i64 = 1_000_000_000;
pub const LPC_PRESSURE_RATIO_MAX: i64 = 3_000_000_000;
pub const HPC_PRESSURE_RATIO_MIN: i64 = 1_000_000_000;
pub const HPC_PRESSURE_RATIO_MAX: i64 = 22_500_000_000;
pub const HPC_DISCHARGE_TEMP_MIN: i64 = 0;
pub const HPC_DISCHARGE_TEMP_MAX: i64 = 1_172_039_000_000;
pub const HPT_INLET_TEMP_MIN: i64 = 0;
pub const HPT_INLET_TEMP_MAX: i64 = 1_699_817_000_000;

/// Baseline ("vanilla-plus") reference engine, in nano-units.
pub const BASELINE_INLET_MACH_NUMBER: i64 = 400_000_000;
pub const BASELINE_INLET_DIAMETER: i64 = 1_270_000_000;
pub const BASELINE_INLET_EFFICIENCY: i64 = 980_000_000;
pub const BASELINE_FAN_PRESSURE_RATIO: i64 = 1_500_000_000;
pub const BASELINE_FAN_EFFICIENCY: i64 = 920_000_000;
pub const BASELINE_FAN_BYPASS: i64 = 6_000_000_000;
pub const BASELINE_LPC_PRESSURE_RATIO: i64 = 2_500_000_000;
pub const BASELINE_LPC_EFFICIENCY: i64 = 900_000_000;
pub const BASELINE_HPC_PRESSURE_RATIO: i64 = 12_500_000_000;
pub const BASELINE_HPC_EFFICIENCY: i64 = 870_000_000;
pub const BASELINE_HPC_DISCHARGE_TEMP: i64 = 960_000_000_000;
pub const BASELINE_COMBUSTOR_PRESSURE_RECOVERY: i64 = 950_000_000;
pub const BASELINE_COMBUSTOR_EFFICIENCY: i64 = 980_000_000;
pub const BASELINE_HPT_INLET_TEMP: i64 = 1_527_594_000_000;
pub const BASELINE_HPT_EFFICIENCY: i64 = 900_000_000;
pub const BASELINE_LPT_EFFICIENCY: i64 = 900_000_000;
pub const BASELINE_BYPASS_PRESSURE_RECOVERY: i64 = 970_000_000;
pub const BASELINE_FUEL_DELTA_H: i64 = 43_000_000_000_000_000;
pub const BASELINE_FUEL_CP: i64 = 1_147_000_000_000;

} // verus!
