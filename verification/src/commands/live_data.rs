//! The PID groups of the live-data commands (all read from the PCM).

use vstd::prelude::*;
use crate::protocol::j1979::{pid_codes, Pid};

verus! {

/// Engine: RPM, load, coolant temperature, vehicle speed, throttle.
pub fn engine_data_pids() -> (r: Vec<Pid>)
    ensures
        pid_codes(r@) == seq![0x0Cu8, 0x04u8, 0x05u8, 0x0Du8, 0x11u8],
{
    let r = vec![
        Pid(Pid::ENGINE_RPM),
        Pid(Pid::ENGINE_LOAD),
        Pid(Pid::COOLANT_TEMP),
        Pid(Pid::VEHICLE_SPEED),
        Pid(Pid::THROTTLE_POS),
    ];
    proof {
        assert(pid_codes(r@) =~= seq![0x0Cu8, 0x04u8, 0x05u8, 0x0Du8, 0x11u8]);
    }
    r
}

/// Fuel: tank level and MAF rate.
pub fn fuel_data_pids() -> (r: Vec<Pid>)
    ensures
        pid_codes(r@) == seq![0x2Fu8, 0x10u8],
{
    let r = vec![Pid(Pid::FUEL_TANK_LEVEL), Pid(Pid::MAF_RATE)];
    proof {
        assert(pid_codes(r@) =~= seq![0x2Fu8, 0x10u8]);
    }
    r
}

/// Temperatures: coolant, intake, ambient and engine oil.
pub fn temperature_data_pids() -> (r: Vec<Pid>)
    ensures
        pid_codes(r@) == seq![0x05u8, 0x0Fu8, 0x46u8, 0x5Cu8],
{
    let r = vec![
        Pid(Pid::COOLANT_TEMP),
        Pid(Pid::INTAKE_TEMP),
        Pid(Pid::AMBIENT_TEMP),
        Pid(Pid::ENGINE_OIL_TEMP),
    ];
    proof {
        assert(pid_codes(r@) =~= seq![0x05u8, 0x0Fu8, 0x46u8, 0x5Cu8]);
    }
    r
}

/// Fuel trims of both banks, short and long term.
pub fn fuel_trim_data_pids() -> (r: Vec<Pid>)
    ensures
        pid_codes(r@) == seq![0x06u8, 0x07u8, 0x08u8, 0x09u8],
{
    let r = vec![
        Pid(Pid::SHORT_FUEL_TRIM_B1),
        Pid(Pid::LONG_FUEL_TRIM_B1),
        Pid(Pid::SHORT_FUEL_TRIM_B2),
        Pid(Pid::LONG_FUEL_TRIM_B2),
    ];
    proof {
        assert(pid_codes(r@) =~= seq![0x06u8, 0x07u8, 0x08u8, 0x09u8]);
    }
    r
}

/// Emissions: timing advance, both O2 sensors, EGR commanded and error.
pub fn emissions_data_pids() -> (r: Vec<Pid>)
    ensures
        pid_codes(r@) == seq![0x0Eu8, 0x14u8, 0x15u8, 0x2Cu8, 0x2Du8],
{
    let r = vec![
        Pid(Pid::TIMING_ADVANCE),
        Pid(Pid::O2_B1S1_VOLTAGE),
        Pid(Pid::O2_B1S2_VOLTAGE),
        Pid(Pid::EGR_COMMANDED),
        Pid(Pid::EGR_ERROR),
    ];
    proof {
        assert(pid_codes(r@) =~= seq![0x0Eu8, 0x14u8, 0x15u8, 0x2Cu8, 0x2Du8]);
    }
    r
}

/// Powertrain: fuel rate, driver demand and actual torque, relative throttle, module voltage.
pub fn powertrain_data_pids() -> (r: Vec<Pid>)
    ensures
        pid_codes(r@) == seq![0x5Eu8, 0x61u8, 0x62u8, 0x5Au8, 0x42u8],
{
    let r = vec![
        Pid(Pid::ENGINE_FUEL_RATE),
        Pid(Pid::DRIVER_DEMAND_TORQUE),
        Pid(Pid::ACTUAL_ENGINE_TORQUE),
        Pid(Pid::REL_THROTTLE_POS),
        Pid(Pid::CONTROL_MODULE_VOLTAGE),
    ];
    proof {
        assert(pid_codes(r@) =~= seq![0x5Eu8, 0x61u8, 0x62u8, 0x5Au8, 0x42u8]);
    }
    r
}

} // verus!
