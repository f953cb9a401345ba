//! The closed enumeration of design variables.
//!
//! A [`VarSelector`] names one field of the design vector.  It carries the
//! canonical lowercase name used at the external boundary, a human-readable
//! label, the box constraints of the bounded variables, and the distinction
//! between tunable variables (search directions of the optimizer) and fixed
//! technology parameters.

use vstd::prelude::*;
use vstd::string::StrSliceExecFns;

use crate::constants::{
    FAN_BYPASS_MAX, FAN_BYPASS_MIN, FAN_PRESSURE_RATIO_MAX, FAN_PRESSURE_RATIO_MIN,
    HPC_DISCHARGE_TEMP_MAX, HPC_DISCHARGE_TEMP_MIN, HPC_PRESSURE_RATIO_MAX,
    HPC_PRESSURE_RATIO_MIN, HPT_INLET_TEMP_MAX, HPT_INLET_TEMP_MIN, INLET_DIAMETER_MAX,
    INLET_DIAMETER_MIN, INLET_MACH_NUMBER_MAX, INLET_MACH_NUMBER_MIN, LPC_PRESSURE_RATIO_MAX,
    LPC_PRESSURE_RATIO_MIN,
};
use crate::EngineError;

verus! {

/// Identifies one field of the design vector.
#[derive(Clone, Copy, Debug, PartialEq, Eq, Structural)]
pub enum VarSelector {
    InletMachNumber,
    InletDiameter,
    InletEfficiency,
    FanPressureRatio,
    FanEfficiency,
    FanBypass,
    LpcPressureRatio,
    LpcEfficiency,
    HpcPressureRatio,
    HpcEfficiency,
    HpcDischargeTemp,
    CombustorPressureRecovery,
    CombustorEfficiency,
    HptInletTemp,
    HptEfficiency,
    LptEfficiency,
    BypassPressureRecovery,
    FuelDeltaH,
    FuelCp,
}

/// Compares two strings character by character.
fn str_eq(a: &str, b: &str) -> (r: bool)
    ensures
        r == (a@ == b@),
{
    let la: usize = a.unicode_len();
    let lb: usize = b.unicode_len();
    if la != lb {
        proof {
            assert(a@ != b@) by {
                assert(a@.len() != b@.len());
            }
        }
        return false;
    }
    let mut i: usize = 0;
    while i < la
        invariant
            la == a@.len(),
            lb == b@.len(),
            la == lb,
            i <= la,
            forall|j: int| 0 <= j < i ==> a@[j] == b@[j],
        decreases la - i,
    {
        let ca: char = a.get_char(i);
        let cb: char = b.get_char(i);
        if ca != cb {
            return false;
        }
        i += 1;
    }
    proof {
        assert(a@ =~= b@);
    }
    true
}

impl VarSelector {
    /// The canonical lowercase name of the variable, as a character sequence.
    pub open spec fn spec_name(self) -> Seq<char> {
        match self {
            VarSelector::InletMachNumber => "inlet_mach_number"@,
            VarSelector::InletDiameter => "inlet_diameter"@,
            VarSelector::InletEfficiency => "inlet_efficiency"@,
            VarSelector::FanPressureRatio => "fan_pressure_ratio"@,
            VarSelector::FanEfficiency => "fan_efficiency"@,
            VarSelector::FanBypass => "fan_bypass"@,
            VarSelector::LpcPressureRatio => "lpc_pressure_ratio"@,
            VarSelector::LpcEfficiency => "lpc_efficiency"@,
            VarSelector::HpcPressureRatio => "hpc_pressure_ratio"@,
            VarSelector::HpcEfficiency => "hpc_efficiency"@,
            VarSelector::HpcDischargeTemp => "hpc_discharge_temp"@,
            VarSelector::CombustorPressureRecovery => "combustor_pressure_recovery"@,
            VarSelector::CombustorEfficiency => "combustor_efficiency"@,
            VarSelector::HptInletTemp => "hpt_inlet_temp"@,
            VarSelector::HptEfficiency => "hpt_efficiency"@,
            VarSelector::LptEfficiency => "lpt_efficiency"@,
            VarSelector::BypassPressureRecovery => "bypass_pressure_recovery"@,
            VarSelector::FuelDeltaH => "fuel_delta_h"@,
            VarSelector::FuelCp => "fuel_cp"@,
        }
    }

    /// The canonical lowercase name of the variable.
    pub fn canonical_name(&self) -> (r: &'static str)
        ensures
            r@ == self.spec_name(),
    {
        match self {
            VarSelector::InletMachNumber => "inlet_mach_number",
            VarSelector::InletDiameter => "inlet_diameter",
            VarSelector::InletEfficiency => "inlet_efficiency",
            VarSelector::FanPressureRatio => "fan_pressure_ratio",
            VarSelector::FanEfficiency => "fan_efficiency",
            VarSelector::FanBypass => "fan_bypass",
            VarSelector::LpcPressureRatio => "lpc_pressure_ratio",
            VarSelector::LpcEfficiency => "lpc_efficiency",
            VarSelector::HpcPressureRatio => "hpc_pressure_ratio",
            VarSelector::HpcEfficiency => "hpc_efficiency",
            VarSelector::HpcDischargeTemp => "hpc_discharge_temp",
            VarSelector::CombustorPressureRecovery => "combustor_pressure_recovery",
            VarSelector::CombustorEfficiency => "combustor_efficiency",
            VarSelector::HptInletTemp => "hpt_inlet_temp",
            VarSelector::HptEfficiency => "hpt_efficiency",
            VarSelector::LptEfficiency => "lpt_efficiency",
            VarSelector::BypassPressureRecovery => "bypass_pressure_recovery",
            VarSelector::FuelDeltaH => "fuel_delta_h",
            VarSelector::FuelCp => "fuel_cp",
        }
    }

    /// The human-readable label of the variable, as a character sequence.
    pub open spec fn spec_label(self) -> Seq<char> {
        match self {
            VarSelector::InletMachNumber => "Inlet Mach Number"@,
            VarSelector::InletDiameter => "Inlet Diameter (m)"@,
            VarSelector::InletEfficiency => "Inlet Efficiency"@,
            VarSelector::FanPressureRatio => "Fan Pressure Ratio"@,
            VarSelector::FanEfficiency => "Fan Efficiency"@,
            VarSelector::FanBypass => "Fan Bypass Ratio"@,
            VarSelector::LpcPressureRatio => "LPC Pressure Ratio"@,
            VarSelector::LpcEfficiency => "LPC Efficiency"@,
            VarSelector::HpcPressureRatio => "HPC Pressure Ratio"@,
            VarSelector::HpcEfficiency => "HPC Efficiency"@,
            VarSelector::HpcDischargeTemp => "HPC Discharge Temperature (K)"@,
            VarSelector::CombustorPressureRecovery => "Combustor Pressure Recovery Coefficient"@,
            VarSelector::CombustorEfficiency => "Combustor Efficiency"@,
            VarSelector::HptInletTemp => "HPT Inlet Temperature (K)"@,
            VarSelector::HptEfficiency => "HPT Efficiency"@,
            VarSelector::LptEfficiency => "LPT Efficiency"@,
            VarSelector::BypassPressureRecovery => "Bypass Pressure Recovery Coefficient"@,
            VarSelector::FuelDeltaH => "Fuel Enthalpy (J/kg)"@,
            VarSelector::FuelCp => "Fuel CP (J/kg-K)"@,
        }
    }

    /// The human-readable label of the variable.
    pub fn label(&self) -> (r: &'static str)
        ensures
            r@ == self.spec_label(),
    {
        match self {
            VarSelector::InletMachNumber => "Inlet Mach Number",
            VarSelector::InletDiameter => "Inlet Diameter (m)",
            VarSelector::InletEfficiency => "Inlet Efficiency",
            VarSelector::FanPressureRatio => "Fan Pressure Ratio",
            VarSelector::FanEfficiency => "Fan Efficiency",
            VarSelector::FanBypass => "Fan Bypass Ratio",
            VarSelector::LpcPressureRatio => "LPC Pressure Ratio",
            VarSelector::LpcEfficiency => "LPC Efficiency",
            VarSelector::HpcPressureRatio => "HPC Pressure Ratio",
            VarSelector::HpcEfficiency => "HPC Efficiency",
            VarSelector::HpcDischargeTemp => "HPC Discharge Temperature (K)",
            VarSelector::CombustorPressureRecovery => "Combustor Pressure Recovery Coefficient",
            VarSelector::CombustorEfficiency => "Combustor Efficiency",
            VarSelector::HptInletTemp => "HPT Inlet Temperature (K)",
            VarSelector::HptEfficiency => "HPT Efficiency",
            VarSelector::LptEfficiency => "LPT Efficiency",
            VarSelector::BypassPressureRecovery => "Bypass Pressure Recovery Coefficient",
            VarSelector::FuelDeltaH => "Fuel Enthalpy (J/kg)",
            VarSelector::FuelCp => "Fuel CP (J/kg-K)",
        }
    }

    /// The selector a character sequence resolves to, if it is one of the
    /// nineteen canonical names.
    pub open spec fn spec_from_name(n: Seq<char>) -> Option<VarSelector> {
        if n == "inlet_mach_number"@ {
            Some(VarSelector::InletMachNumber)
        } else if n == "inlet_diameter"@ {
            Some(VarSelector::InletDiameter)
        } else if n == "inlet_efficiency"@ {
            Some(VarSelector::InletEfficiency)
        } else if n == "fan_pressure_ratio"@ {
            Some(VarSelector::FanPressureRatio)
        } else if n == "fan_efficiency"@ {
            Some(VarSelector::FanEfficiency)
        } else if n == "fan_bypass"@ {
            Some(VarSelector::FanBypass)
        } else if n == "lpc_pressure_ratio"@ {
            Some(VarSelector::LpcPressureRatio)
        } else if n == "lpc_efficiency"@ {
            Some(VarSelector::LpcEfficiency)
        } else if n == "hpc_pressure_ratio"@ {
            Some(VarSelector::HpcPressureRatio)
        } else if n == "hpc_efficiency"@ {
            Some(VarSelector::HpcEfficiency)
        } else if n == "hpc_discharge_temp"@ {
            Some(VarSelector::HpcDischargeTemp)
        } else if n == "combustor_pressure_recovery"@ {
            Some(VarSelector::CombustorPressureRecovery)
        } else if n == "combustor_efficiency"@ {
            Some(VarSelector::CombustorEfficiency)
        } else if n == "hpt_inlet_temp"@ {
            Some(VarSelector::HptInletTemp)
        } else if n == "hpt_efficiency"@ {
            Some(VarSelector::HptEfficiency)
        } else if n == "lpt_efficiency"@ {
            Some(VarSelector::LptEfficiency)
        } else if n == "bypass_pressure_recovery"@ {
            Some(VarSelector::BypassPressureRecovery)
        } else if n == "fuel_delta_h"@ {
            Some(VarSelector::FuelDeltaH)
        } else if n == "fuel_cp"@ {
            Some(VarSelector::FuelCp)
        } else {
            None
        }
    }

    /// Resolves a canonical lowercase name to its selector.  Every string
    /// that is not a canonical name is rejected as `InvalidSelectorName`.
    pub fn from_name(name: &str) -> (r: Result<VarSelector, EngineError>)
        ensures
            r == match Self::spec_from_name(name@) {
                Some(s) => Ok::<VarSelector, EngineError>(s),
                None => Err::<VarSelector, EngineError>(EngineError::InvalidSelectorName),
            },
            match r {
                Ok(s) => name@ == s.spec_name(),
                Err(e) => {
                    &&& e == EngineError::InvalidSelectorName
                    &&& forall|s: VarSelector| name@ != #[trigger] s.spec_name()
                },
            },
    {
        if str_eq(name, "inlet_mach_number") {
            Ok(VarSelector::InletMachNumber)
        } else if str_eq(name, "inlet_diameter") {
            Ok(VarSelector::InletDiameter)
        } else if str_eq(name, "inlet_efficiency") {
            Ok(VarSelector::InletEfficiency)
        } else if str_eq(name, "fan_pressure_ratio") {
            Ok(VarSelector::FanPressureRatio)
        } else if str_eq(name, "fan_efficiency") {
            Ok(VarSelector::FanEfficiency)
        } else if str_eq(name, "fan_bypass") {
            Ok(VarSelector::FanBypass)
        } else if str_eq(name, "lpc_pressure_ratio") {
            Ok(VarSelector::LpcPressureRatio)
        } else if str_eq(name, "lpc_efficiency") {
            Ok(VarSelector::LpcEfficiency)
        } else if str_eq(name, "hpc_pressure_ratio") {
            Ok(VarSelector::HpcPressureRatio)
        } else if str_eq(name, "hpc_efficiency") {
            Ok(VarSelector::HpcEfficiency)
        } else if str_eq(name, "hpc_discharge_temp") {
            Ok(VarSelector::HpcDischargeTemp)
        } else if str_eq(name, "combustor_pressure_recovery") {
            Ok(VarSelector::CombustorPressureRecovery)
        } else if str_eq(name, "combustor_efficiency") {
            Ok(VarSelector::CombustorEfficiency)
        } else if str_eq(name, "hpt_inlet_temp") {
            Ok(VarSelector::HptInletTemp)
        } else if str_eq(name, "hpt_efficiency") {
            Ok(VarSelector::HptEfficiency)
        } else if str_eq(name, "lpt_efficiency") {
            Ok(VarSelector::LptEfficiency)
        } else if str_eq(name, "bypass_pressure_recovery") {
            Ok(VarSelector::BypassPressureRecovery)
        } else if str_eq(name, "fuel_delta_h") {
            Ok(VarSelector::FuelDeltaH)
        } else if str_eq(name, "fuel_cp") {
            Ok(VarSelector::FuelCp)
        } else {
            Err(EngineError::InvalidSelectorName)
        }
    }

    /// Whether the optimizer treats the variable as a search direction.
    /// Efficiencies, recovery coefficients and fuel properties are fixed
    /// technology parameters.
    pub open spec fn spec_tunable(self) -> bool {
        match self {
            VarSelector::InletMachNumber => true,
            VarSelector::InletDiameter => true,
            VarSelector::FanPressureRatio => true,
            VarSelector::FanBypass => true,
            VarSelector::LpcPressureRatio => true,
            VarSelector::HpcPressureRatio => true,
            VarSelector::HpcDischargeTemp => true,
            VarSelector::HptInletTemp => true,
            _ => false,
        }
    }

    /// Whether the optimizer treats the variable as a search direction.
    pub fn tunable(&self) -> (r: bool)
        ensures
            r == self.spec_tunable(),
    {
        match self {
            VarSelector::InletMachNumber => true,
            VarSelector::InletDiameter => true,
            VarSelector::FanPressureRatio => true,
            VarSelector::FanBypass => true,
            VarSelector::LpcPressureRatio => true,
            VarSelector::HpcPressureRatio => true,
            VarSelector::HpcDischargeTemp => true,
            VarSelector::HptInletTemp => true,
            _ => false,
        }
    }

    /// The documented box constraint of the variable, in nano-units, or
    /// `None` for a variable that is summed unclamped.
    pub open spec fn spec_bounds(self) -> Option<(i64, i64)> {
        match self {
            VarSelector::InletMachNumber => Some((INLET_MACH_NUMBER_MIN, INLET_MACH_NUMBER_MAX)),
            VarSelector::InletDiameter => Some((INLET_DIAMETER_MIN, INLET_DIAMETER_MAX)),
            VarSelector::FanPressureRatio => Some((FAN_PRESSURE_RATIO_MIN, FAN_PRESSURE_RATIO_MAX)),
            VarSelector::FanBypass => Some((FAN_BYPASS_MIN, FAN_BYPASS_MAX)),
            VarSelector::LpcPressureRatio => Some((LPC_PRESSURE_RATIO_MIN, LPC_PRESSURE_RATIO_MAX)),
            VarSelector::HpcPressureRatio => Some((HPC_PRESSURE_RATIO_MIN, HPC_PRESSURE_RATIO_MAX)),
            VarSelector::HpcDischargeTemp => Some((HPC_DISCHARGE_TEMP_MIN, HPC_DISCHARGE_TEMP_MAX)),
            VarSelector::HptInletTemp => Some((HPT_INLET_TEMP_MIN, HPT_INLET_TEMP_MAX)),
            _ => None,
        }
    }

    /// The documented box constraint of the variable, in nano-units.
    pub fn bounds(&self) -> (r: Option<(i64, i64)>)
        ensures
            r == self.spec_bounds(),
    {
        match self {
            VarSelector::InletMachNumber => Some((INLET_MACH_NUMBER_MIN, INLET_MACH_NUMBER_MAX)),
            VarSelector::InletDiameter => Some((INLET_DIAMETER_MIN, INLET_DIAMETER_MAX)),
            VarSelector::FanPressureRatio => Some((FAN_PRESSURE_RATIO_MIN, FAN_PRESSURE_RATIO_MAX)),
            VarSelector::FanBypass => Some((FAN_BYPASS_MIN, FAN_BYPASS_MAX)),
            VarSelector::LpcPressureRatio => Some((LPC_PRESSURE_RATIO_MIN, LPC_PRESSURE_RATIO_MAX)),
            VarSelector::HpcPressureRatio => Some((HPC_PRESSURE_RATIO_MIN, HPC_PRESSURE_RATIO_MAX)),
            VarSelector::HpcDischargeTemp => Some((HPC_DISCHARGE_TEMP_MIN, HPC_DISCHARGE_TEMP_MAX)),
            VarSelector::HptInletTemp => Some((HPT_INLET_TEMP_MIN, HPT_INLET_TEMP_MAX)),
            _ => None,
        }
    }

    /// The canonical order of the nineteen selectors.
    pub open spec fn selector_order() -> Seq<VarSelector> {
        seq![
            VarSelector::InletMachNumber,
            VarSelector::InletDiameter,
            VarSelector::InletEfficiency,
            VarSelector::FanPressureRatio,
            VarSelector::FanEfficiency,
            VarSelector::FanBypass,
            VarSelector::LpcPressureRatio,
            VarSelector::LpcEfficiency,
            VarSelector::HpcPressureRatio,
            VarSelector::HpcEfficiency,
            VarSelector::HpcDischargeTemp,
            VarSelector::CombustorPressureRecovery,
            VarSelector::CombustorEfficiency,
            VarSelector::HptInletTemp,
            VarSelector::HptEfficiency,
            VarSelector::LptEfficiency,
            VarSelector::BypassPressureRecovery,
            VarSelector::FuelDeltaH,
            VarSelector::FuelCp,
        ]
    }

    /// All nineteen selectors, in canonical order.
    pub fn all() -> (r: Vec<VarSelector>)
        ensures
            r@ == Self::selector_order(),
    {
        let mut v: Vec<VarSelector> = Vec::new();
        v.push(VarSelector::InletMachNumber);
        v.push(VarSelector::InletDiameter);
        v.push(VarSelector::InletEfficiency);
        v.push(VarSelector::FanPressureRatio);
        v.push(VarSelector::FanEfficiency);
        v.push(VarSelector::FanBypass);
        v.push(VarSelector::LpcPressureRatio);
        v.push(VarSelector::LpcEfficiency);
        v.push(VarSelector::HpcPressureRatio);
        v.push(VarSelector::HpcEfficiency);
        v.push(VarSelector::HpcDischargeTemp);
        v.push(VarSelector::CombustorPressureRecovery);
        v.push(VarSelector::CombustorEfficiency);
        v.push(VarSelector::HptInletTemp);
        v.push(VarSelector::HptEfficiency);
        v.push(VarSelector::LptEfficiency);
        v.push(VarSelector::BypassPressureRecovery);
        v.push(VarSelector::FuelDeltaH);
        v.push(VarSelector::FuelCp);
        proof {
            assert(v@ =~= Self::selector_order());
        }
        v
    }

    /// Law: the canonical order lists every selector, so a sweep over
    /// [`VarSelector::all`] visits each design variable exactly once.
    pub proof fn lemma_selector_order_complete(s: VarSelector)
        ensures
            Self::selector_order().contains(s),
    {
        let order = Self::selector_order();
        match s {
            VarSelector::InletMachNumber => assert(order[0] == s),
            VarSelector::InletDiameter => assert(order[1] == s),
            VarSelector::InletEfficiency => assert(order[2] == s),
            VarSelector::FanPressureRatio => assert(order[3] == s),
            VarSelector::FanEfficiency => assert(order[4] == s),
            VarSelector::FanBypass => assert(order[5] == s),
            VarSelector::LpcPressureRatio => assert(order[6] == s),
            VarSelector::LpcEfficiency => assert(order[7] == s),
            VarSelector::HpcPressureRatio => assert(order[8] == s),
            VarSelector::HpcEfficiency => assert(order[9] == s),
            VarSelector::HpcDischargeTemp => assert(order[10] == s),
            VarSelector::CombustorPressureRecovery => assert(order[11] == s),
            VarSelector::CombustorEfficiency => assert(order[12] == s),
            VarSelector::HptInletTemp => assert(order[13] == s),
            VarSelector::HptEfficiency => assert(order[14] == s),
            VarSelector::LptEfficiency => assert(order[15] == s),
            VarSelector::BypassPressureRecovery => assert(order[16] == s),
            VarSelector::FuelDeltaH => assert(order[17] == s),
            VarSelector::FuelCp => assert(order[18] == s),
        }
    }

    /// Law: the name round trip is the identity — resolving the canonical
    /// name of any selector gives back that selector.
    pub proof fn lemma_name_round_trip(s: VarSelector)
        ensures
            Self::spec_from_name(s.spec_name()) == Some(s),
    {
        assert forall|t: VarSelector| s.spec_name() == #[trigger] t.spec_name() implies s == t by {
            Self::lemma_names_injective(s, t);
        }
        assert(VarSelector::InletMachNumber.spec_name() == "inlet_mach_number"@);
        assert(VarSelector::InletDiameter.spec_name() == "inlet_diameter"@);
        assert(VarSelector::InletEfficiency.spec_name() == "inlet_efficiency"@);
        assert(VarSelector::FanPressureRatio.spec_name() == "fan_pressure_ratio"@);
        assert(VarSelector::FanEfficiency.spec_name() == "fan_efficiency"@);
        assert(VarSelector::FanBypass.spec_name() == "fan_bypass"@);
        assert(VarSelector::LpcPressureRatio.spec_name() == "lpc_pressure_ratio"@);
        assert(VarSelector::LpcEfficiency.spec_name() == "lpc_efficiency"@);
        assert(VarSelector::HpcPressureRatio.spec_name() == "hpc_pressure_ratio"@);
        assert(VarSelector::HpcEfficiency.spec_name() == "hpc_efficiency"@);
        assert(VarSelector::HpcDischargeTemp.spec_name() == "hpc_discharge_temp"@);
        assert(VarSelector::CombustorPressureRecovery.spec_name()
            == "combustor_pressure_recovery"@);
        assert(VarSelector::CombustorEfficiency.spec_name() == "combustor_efficiency"@);
        assert(VarSelector::HptInletTemp.spec_name() == "hpt_inlet_temp"@);
        assert(VarSelector::HptEfficiency.spec_name() == "hpt_efficiency"@);
        assert(VarSelector::LptEfficiency.spec_name() == "lpt_efficiency"@);
        assert(VarSelector::BypassPressureRecovery.spec_name() == "bypass_pressure_recovery"@);
        assert(VarSelector::FuelDeltaH.spec_name() == "fuel_delta_h"@);
        assert(VarSelector::FuelCp.spec_name() == "fuel_cp"@);
    }

    /// Law: canonical names are distinct, so resolving a canonical name with
    /// [`VarSelector::from_name`] gives back the selector it was taken from.
    pub proof fn lemma_names_injective(s1: VarSelector, s2: VarSelector)
        requires
            s1.spec_name() == s2.spec_name(),
        ensures
            s1 == s2,
    {
        reveal_strlit("inlet_mach_number");
        reveal_strlit("inlet_diameter");
        reveal_strlit("inlet_efficiency");
        reveal_strlit("fan_pressure_ratio");
        reveal_strlit("fan_efficiency");
        reveal_strlit("fan_bypass");
        reveal_strlit("lpc_pressure_ratio");
        reveal_strlit("lpc_efficiency");
        reveal_strlit("hpc_pressure_ratio");
        reveal_strlit("hpc_efficiency");
        reveal_strlit("hpc_discharge_temp");
        reveal_strlit("combustor_pressure_recovery");
        reveal_strlit("combustor_efficiency");
        reveal_strlit("hpt_inlet_temp");
        reveal_strlit("hpt_efficiency");
        reveal_strlit("lpt_efficiency");
        reveal_strlit("bypass_pressure_recovery");
        reveal_strlit("fuel_delta_h");
        reveal_strlit("fuel_cp");
        assert("inlet_mach_number"@.len() == 17);
        assert("inlet_diameter"@.len() == 14);
        assert("inlet_efficiency"@.len() == 16);
        assert("fan_pressure_ratio"@.len() == 18);
        assert("fan_efficiency"@.len() == 14);
        assert("fan_bypass"@.len() == 10);
        assert("lpc_pressure_ratio"@.len() == 18);
        assert("lpc_efficiency"@.len() == 14);
        assert("hpc_pressure_ratio"@.len() == 18);
        assert("hpc_efficiency"@.len() == 14);
        assert("hpc_discharge_temp"@.len() == 18);
        assert("combustor_pressure_recovery"@.len() == 27);
        assert("combustor_efficiency"@.len() == 20);
        assert("hpt_inlet_temp"@.len() == 14);
        assert("hpt_efficiency"@.len() == 14);
        assert("lpt_efficiency"@.len() == 14);
        assert("bypass_pressure_recovery"@.len() == 24);
        assert("fuel_delta_h"@.len() == 12);
        assert("fuel_cp"@.len() == 7);
        // The names of equal length are told apart by the characters at
        // indices 0, 2 and 4.
        assert("inlet_diameter"@[0] == 'i' && "inlet_diameter"@[2] == 'l' && "inlet_diameter"@[4]
            == 't');
        assert("fan_efficiency"@[0] == 'f' && "fan_efficiency"@[2] == 'n' && "fan_efficiency"@[4]
            == 'e');
        assert("lpc_efficiency"@[0] == 'l' && "lpc_efficiency"@[2] == 'c' && "lpc_efficiency"@[4]
            == 'e');
        assert("hpc_efficiency"@[0] == 'h' && "hpc_efficiency"@[2] == 'c' && "hpc_efficiency"@[4]
            == 'e');
        assert("hpt_inlet_temp"@[0] == 'h' && "hpt_inlet_temp"@[2] == 't' && "hpt_inlet_temp"@[4]
            == 'i');
        assert("hpt_efficiency"@[0] == 'h' && "hpt_efficiency"@[2] == 't' && "hpt_efficiency"@[4]
            == 'e');
        assert("lpt_efficiency"@[0] == 'l' && "lpt_efficiency"@[2] == 't' && "lpt_efficiency"@[4]
            == 'e');
        assert("fan_pressure_ratio"@[0] == 'f' && "fan_pressure_ratio"@[4] == 'p');
        assert("lpc_pressure_ratio"@[0] == 'l' && "lpc_pressure_ratio"@[4] == 'p');
        assert("hpc_pressure_ratio"@[0] == 'h' && "hpc_pressure_ratio"@[4] == 'p');
        assert("hpc_discharge_temp"@[0] == 'h' && "hpc_discharge_temp"@[4] == 'd');
    }
}

} // verus!
