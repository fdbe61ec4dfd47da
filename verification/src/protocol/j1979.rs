//! SAE J1979 (OBD-II) message coding.
//!
//! Requests are sent to the functional address `0x7DF`; the responses are decoded here:
//! Mode 01 live data, Modes 03/07/0A trouble codes, Mode 04 clearing and Mode 09 VIN.

use vstd::prelude::*;
use crate::error::{Error, is_invalid_data_error, is_protocol_error};
use crate::text::{digit, digit_char, trim_end_nul, trim_trailing_nul, utf8_decode};
use crate::transport::isotp::copy_range;
use crate::types::CanId;

verus! {

/// The functional (broadcast) request identifier of OBD-II.
pub fn functional_request_id() -> (r: CanId)
    ensures
        r.0 == 0x7DF,
{
    CanId(0x7DF)
}

/// An OBD-II parameter identifier.
#[derive(Clone, Copy, Debug, PartialEq, Eq, Hash, Structural)]
pub struct Pid(pub u8);

/// The codes of the parameter identifiers the toolkit knows.
impl Pid {
    pub const ENGINE_LOAD: u8 = 0x04;
    pub const COOLANT_TEMP: u8 = 0x05;
    pub const SHORT_FUEL_TRIM_B1: u8 = 0x06;
    pub const LONG_FUEL_TRIM_B1: u8 = 0x07;
    pub const SHORT_FUEL_TRIM_B2: u8 = 0x08;
    pub const LONG_FUEL_TRIM_B2: u8 = 0x09;
    pub const ENGINE_RPM: u8 = 0x0C;
    pub const VEHICLE_SPEED: u8 = 0x0D;
    pub const TIMING_ADVANCE: u8 = 0x0E;
    pub const INTAKE_TEMP: u8 = 0x0F;
    pub const MAF_RATE: u8 = 0x10;
    pub const THROTTLE_POS: u8 = 0x11;
    pub const O2_SENSORS_PRESENT: u8 = 0x13;
    pub const O2_B1S1_VOLTAGE: u8 = 0x14;
    pub const O2_B1S2_VOLTAGE: u8 = 0x15;
    pub const EGR_COMMANDED: u8 = 0x2C;
    pub const EGR_ERROR: u8 = 0x2D;
    pub const FUEL_TANK_LEVEL: u8 = 0x2F;
    pub const FUEL_AIR_EQUIV_RATIO: u8 = 0x44;
    pub const CONTROL_MODULE_VOLTAGE: u8 = 0x42;
    pub const AMBIENT_TEMP: u8 = 0x46;
    pub const RUNTIME_MIL_ON: u8 = 0x4D;
    pub const RUNTIME_SINCE_CLEAR: u8 = 0x4E;
    pub const REL_THROTTLE_POS: u8 = 0x5A;
    pub const ENGINE_OIL_TEMP: u8 = 0x5C;
    pub const ENGINE_FUEL_RATE: u8 = 0x5E;
    pub const DRIVER_DEMAND_TORQUE: u8 = 0x61;
    pub const ACTUAL_ENGINE_TORQUE: u8 = 0x62;
}

impl From<u8> for Pid {
    fn from(value: u8) -> (r: Pid) {
        Pid(value)
    }
}

impl vstd::std_specs::convert::FromSpecImpl<u8> for Pid {
    open spec fn obeys_from_spec() -> bool {
        true
    }

    open spec fn from_spec(v: u8) -> Pid {
        Pid(v)
    }
}

/// The number of data bytes that follow a PID in a Mode 01 response.
pub open spec fn pid_data_length(code: u8) -> nat {
    if code == 0x0C || code == 0x10 || code == 0x42 || code == 0x14 || code == 0x15
        || code == 0x4D || code == 0x4E || code == 0x5E {
        2
    } else if code == 0x44 {
        4
    } else {
        1
    }
}

/// A diagnostic trouble code in its five-character form and its description.
#[derive(Clone, Debug)]
pub struct Dtc {
    pub code: String,
    pub description: String,
}

/// The letter of a trouble code's system (the two top bits of its first byte).
pub open spec fn dtc_system_letter(system: int) -> char {
    if system == 0 {
        'P'
    } else if system == 1 {
        'C'
    } else if system == 2 {
        'B'
    } else {
        'U'
    }
}

/// The five characters of the trouble code encoded by two bytes: the system letter, the
/// two-bit first digit, the low nibble of the first byte and the second byte as two
/// upper-case hexadecimal digits.
pub open spec fn dtc_code(b0: u8, b1: u8) -> Seq<char> {
    seq![
        dtc_system_letter(b0 as int / 64),
        digit_char((b0 as int / 16) % 4),
        digit_char(b0 as int % 16),
        digit_char(b1 as int / 16),
        digit_char(b1 as int % 16),
    ]
}

/// The description that accompanies a decoded trouble code.
pub open spec fn dtc_description(code: Seq<char>) -> Seq<char> {
    "Diagnostic Trouble Code "@ + code
}

/// `d` is the trouble code encoded by `b0`, `b1`.
pub open spec fn is_dtc_of(d: Dtc, b0: u8, b1: u8) -> bool {
    d.code@ == dtc_code(b0, b1) && d.description@ == dtc_description(dtc_code(b0, b1))
}

impl Dtc {
    /// Decodes a trouble code from its two bytes.
    pub fn from_bytes(bytes: &[u8]) -> (r: Result<Dtc, Error>)
        ensures
            bytes@.len() == 2 <==> r is Ok,
            r matches Ok(d) ==> is_dtc_of(d, bytes@[0], bytes@[1]),
            r matches Err(e) ==> is_invalid_data_error(e, "DTC must be 2 bytes"@),
    {
        if bytes.len() != 2 {
            return Err(Error::invalid_data("DTC must be 2 bytes"));
        }
        let b0 = bytes[0];
        let b1 = bytes[1];
        let system = (b0 & 0xC0) >> 6;
        let first = (b0 & 0x30) >> 4;
        let second = b0 & 0x0F;
        assert(system == b0 / 64 && first == (b0 / 16) % 4 && second == b0 % 16) by (bit_vector)
            requires
                system == (b0 & 0xC0) >> 6,
                first == (b0 & 0x30) >> 4,
                second == b0 & 0x0F,
        ;
        let letter = if system == 0 {
            'P'
        } else if system == 1 {
            'C'
        } else if system == 2 {
            'B'
        } else {
            'U'
        };
        let mut code = String::new();
        crate::text::push_char(&mut code, letter);
        crate::text::push_char(&mut code, digit(first));
        crate::text::push_char(&mut code, digit(second));
        crate::text::push_char(&mut code, digit(b1 / 16));
        crate::text::push_char(&mut code, digit(b1 % 16));
        let mut description = String::from_str("Diagnostic Trouble Code ");
        description.append(code.as_str());
        proof {
            assert(code@ =~= dtc_code(b0, b1));
            assert(description@ =~= dtc_description(dtc_code(b0, b1)));
        }
        Ok(Dtc { code, description })
    }
}

/// One parameter read from a Mode 01 response: its PID and the raw data bytes.
#[derive(Clone, Debug)]
pub struct PidReading {
    pub pid: Pid,
    pub raw_value: Vec<u8>,
}

/// A reading as a pair of PID code and data bytes.
pub open spec fn reading_view(r: PidReading) -> (u8, Seq<u8>) {
    (r.pid.0, r.raw_value@)
}

/// The SAE J1979 formula that turns the raw integer of a PID into an engineering value.
/// Each variant names its formula over the raw integer `A` (one byte) or `AB` (a
/// big-endian word).
#[derive(Clone, Copy, Debug, PartialEq, Eq, Structural)]
pub enum Scaling {
    /// `A * 100 / 255`, in percent.
    Percent,
    /// `A - 40`, in degrees Celsius.
    Celsius,
    /// `(A - 128) * 100 / 128`, in percent.
    FuelTrim,
    /// `AB / 4`, in revolutions per minute.
    Rpm,
    /// `A`, in km/h.
    Speed,
    /// `A / 2 - 64`, in degrees before top dead centre.
    TimingAdvance,
    /// `A`, a bit mask without unit.
    SensorMask,
    /// `A * 0.005`, in volts (the first of two bytes).
    OxygenVoltage,
    /// `AB / 100`, in grams per second.
    AirFlow,
    /// `AB * 2 / 65536`, a ratio λ (the first two of four bytes).
    EquivalenceRatio,
    /// `AB / 1000`, in volts.
    ModuleVoltage,
    /// `AB`, in minutes.
    Minutes,
    /// `AB * 0.05`, in litres per hour.
    FuelRate,
    /// `A - 125`, in percent of reference torque.
    Torque,
}

/// The formula of a PID code, if the toolkit interprets it.
pub open spec fn pid_scaling(code: u8) -> Option<Scaling> {
    if code == 0x04 || code == 0x2F || code == 0x11 || code == 0x5A || code == 0x2C {
        Some(Scaling::Percent)
    } else if code == 0x05 || code == 0x0F || code == 0x46 || code == 0x5C {
        Some(Scaling::Celsius)
    } else if code == 0x06 || code == 0x07 || code == 0x08 || code == 0x09 || code == 0x2D {
        Some(Scaling::FuelTrim)
    } else if code == 0x0C {
        Some(Scaling::Rpm)
    } else if code == 0x0D {
        Some(Scaling::Speed)
    } else if code == 0x0E {
        Some(Scaling::TimingAdvance)
    } else if code == 0x13 {
        Some(Scaling::SensorMask)
    } else if code == 0x14 || code == 0x15 {
        Some(Scaling::OxygenVoltage)
    } else if code == 0x10 {
        Some(Scaling::AirFlow)
    } else if code == 0x44 {
        Some(Scaling::EquivalenceRatio)
    } else if code == 0x42 {
        Some(Scaling::ModuleVoltage)
    } else if code == 0x4D || code == 0x4E {
        Some(Scaling::Minutes)
    } else if code == 0x5E {
        Some(Scaling::FuelRate)
    } else if code == 0x61 || code == 0x62 {
        Some(Scaling::Torque)
    } else {
        None
    }
}

/// The number of data bytes a formula needs before it yields a value.
pub open spec fn scaling_min_len(s: Scaling) -> nat {
    match s {
        Scaling::OxygenVoltage | Scaling::Rpm | Scaling::AirFlow | Scaling::ModuleVoltage
        | Scaling::Minutes | Scaling::FuelRate => 2,
        Scaling::EquivalenceRatio => 4,
        _ => 1,
    }
}

/// Whether a formula reads the big-endian word of the first two bytes (else the first
/// byte alone).
pub open spec fn scaling_reads_word(s: Scaling) -> bool {
    match s {
        Scaling::Rpm | Scaling::AirFlow | Scaling::EquivalenceRatio | Scaling::ModuleVoltage
        | Scaling::Minutes | Scaling::FuelRate => true,
        _ => false,
    }
}

/// The raw integer a formula reads from the data bytes.
pub open spec fn scaling_input(s: Scaling, raw: Seq<u8>) -> nat {
    if scaling_reads_word(s) {
        (raw[0] as nat) * 256 + raw[1] as nat
    } else {
        raw[0] as nat
    }
}

/// The unit printed after a formula's value.
pub open spec fn scaling_unit(s: Scaling) -> Option<Seq<char>> {
    match s {
        Scaling::Percent | Scaling::FuelTrim | Scaling::Torque => Some("%"@),
        Scaling::Celsius => Some("°C"@),
        Scaling::Rpm => Some("rpm"@),
        Scaling::Speed => Some("km/h"@),
        Scaling::TimingAdvance => Some("°"@),
        Scaling::SensorMask => None,
        Scaling::OxygenVoltage | Scaling::ModuleVoltage => Some("V"@),
        Scaling::AirFlow => Some("g/s"@),
        Scaling::EquivalenceRatio => Some("λ"@),
        Scaling::Minutes => Some("min"@),
        Scaling::FuelRate => Some("L/h"@),
    }
}

/// What an interpretation of a reading starts from: the formula and its raw integer,
/// when the PID has a formula and enough data bytes arrived.
pub open spec fn measurement(code: u8, raw: Seq<u8>) -> Option<(Scaling, nat)> {
    match pid_scaling(code) {
        Some(s) => if raw.len() >= scaling_min_len(s) {
            Some((s, scaling_input(s, raw)))
        } else {
            None
        },
        None => None,
    }
}

impl Scaling {
    /// The unit printed after this formula's value.
    pub fn unit(&self) -> (r: Option<&'static str>)
        ensures
            match scaling_unit(*self) {
                Some(u) => r matches Some(t) && t@ == u,
                None => r is None,
            },
    {
        match self {
            Scaling::Percent | Scaling::FuelTrim | Scaling::Torque => Some("%"),
            Scaling::Celsius => Some("°C"),
            Scaling::Rpm => Some("rpm"),
            Scaling::Speed => Some("km/h"),
            Scaling::TimingAdvance => Some("°"),
            Scaling::SensorMask => None,
            Scaling::OxygenVoltage | Scaling::ModuleVoltage => Some("V"),
            Scaling::AirFlow => Some("g/s"),
            Scaling::EquivalenceRatio => Some("λ"),
            Scaling::Minutes => Some("min"),
            Scaling::FuelRate => Some("L/h"),
        }
    }
}

/// The Mode 01 decoder hands every PID that has a formula exactly as many data bytes as
/// its formula reads: a word formula (RPM, air flow, voltages, run times, fuel rate) gets
/// two bytes, the equivalence ratio four, a one-byte formula one. So a decoded reading
/// of such a PID can always be measured.
pub proof fn law_decoded_length_fits_formula(code: u8, raw: Seq<u8>)
    requires
        pid_scaling(code) is Some,
        raw.len() == pid_data_length(code),
    ensures
        pid_data_length(code) == scaling_min_len(pid_scaling(code)->0),
        measurement(code, raw) is Some,
{
}

/// Each named PID is measured with its SAE J1979 formula, and no other PID has one.
pub proof fn law_formula_of_each_pid(code: u8)
    ensures
        pid_scaling(Pid::ENGINE_LOAD) == Some(Scaling::Percent),
        pid_scaling(Pid::FUEL_TANK_LEVEL) == Some(Scaling::Percent),
        pid_scaling(Pid::THROTTLE_POS) == Some(Scaling::Percent),
        pid_scaling(Pid::REL_THROTTLE_POS) == Some(Scaling::Percent),
        pid_scaling(Pid::EGR_COMMANDED) == Some(Scaling::Percent),
        pid_scaling(Pid::SHORT_FUEL_TRIM_B1) == Some(Scaling::FuelTrim),
        pid_scaling(Pid::LONG_FUEL_TRIM_B1) == Some(Scaling::FuelTrim),
        pid_scaling(Pid::SHORT_FUEL_TRIM_B2) == Some(Scaling::FuelTrim),
        pid_scaling(Pid::LONG_FUEL_TRIM_B2) == Some(Scaling::FuelTrim),
        pid_scaling(Pid::EGR_ERROR) == Some(Scaling::FuelTrim),
        pid_scaling(Pid::ENGINE_RPM) == Some(Scaling::Rpm),
        pid_scaling(Pid::VEHICLE_SPEED) == Some(Scaling::Speed),
        pid_scaling(Pid::TIMING_ADVANCE) == Some(Scaling::TimingAdvance),
        pid_scaling(Pid::O2_SENSORS_PRESENT) == Some(Scaling::SensorMask),
        pid_scaling(Pid::O2_B1S1_VOLTAGE) == Some(Scaling::OxygenVoltage),
        pid_scaling(Pid::O2_B1S2_VOLTAGE) == Some(Scaling::OxygenVoltage),
        pid_scaling(Pid::MAF_RATE) == Some(Scaling::AirFlow),
        pid_scaling(Pid::FUEL_AIR_EQUIV_RATIO) == Some(Scaling::EquivalenceRatio),
        pid_scaling(Pid::CONTROL_MODULE_VOLTAGE) == Some(Scaling::ModuleVoltage),
        pid_scaling(Pid::RUNTIME_MIL_ON) == Some(Scaling::Minutes),
        pid_scaling(Pid::RUNTIME_SINCE_CLEAR) == Some(Scaling::Minutes),
        pid_scaling(Pid::ENGINE_FUEL_RATE) == Some(Scaling::FuelRate),
        pid_scaling(Pid::DRIVER_DEMAND_TORQUE) == Some(Scaling::Torque),
        pid_scaling(Pid::ACTUAL_ENGINE_TORQUE) == Some(Scaling::Torque),
        pid_scaling(code) is Some ==> code == Pid::ENGINE_LOAD || code == Pid::COOLANT_TEMP
            || code == Pid::SHORT_FUEL_TRIM_B1 || code == Pid::LONG_FUEL_TRIM_B1 || code
            == Pid::SHORT_FUEL_TRIM_B2 || code == Pid::LONG_FUEL_TRIM_B2 || code
            == Pid::ENGINE_RPM || code == Pid::VEHICLE_SPEED || code == Pid::TIMING_ADVANCE
            || code == Pid::INTAKE_TEMP || code == Pid::MAF_RATE || code == Pid::THROTTLE_POS
            || code == Pid::O2_SENSORS_PRESENT || code == Pid::O2_B1S1_VOLTAGE || code
            == Pid::O2_B1S2_VOLTAGE || code == Pid::EGR_COMMANDED || code == Pid::EGR_ERROR
            || code == Pid::FUEL_TANK_LEVEL || code == Pid::FUEL_AIR_EQUIV_RATIO || code
            == Pid::CONTROL_MODULE_VOLTAGE || code == Pid::AMBIENT_TEMP || code
            == Pid::RUNTIME_MIL_ON || code == Pid::RUNTIME_SINCE_CLEAR || code
            == Pid::REL_THROTTLE_POS || code == Pid::ENGINE_OIL_TEMP || code
            == Pid::ENGINE_FUEL_RATE || code == Pid::DRIVER_DEMAND_TORQUE || code
            == Pid::ACTUAL_ENGINE_TORQUE,
{
}

/// A temperature PID (coolant, intake air, ambient air, engine oil) and only such a PID is
/// measured as `A - 40` in degrees Celsius: its reading is the formula applied to its one
/// data byte, shown in °C.
pub proof fn law_temperatures_in_celsius(code: u8, raw: Seq<u8>)
    requires
        raw.len() >= 1,
    ensures
        pid_scaling(code) == Some(Scaling::Celsius) <==> (code == Pid::COOLANT_TEMP || code
            == Pid::INTAKE_TEMP || code == Pid::AMBIENT_TEMP || code == Pid::ENGINE_OIL_TEMP),
        (code == Pid::COOLANT_TEMP || code == Pid::INTAKE_TEMP || code == Pid::AMBIENT_TEMP
            || code == Pid::ENGINE_OIL_TEMP) ==> measurement(code, raw) == Some(
            (Scaling::Celsius, raw[0] as nat),
        ),
        scaling_unit(Scaling::Celsius) == Some("°C"@),
{
}

impl PidReading {
    /// The formula of this reading and the raw integer it applies to; `None` for a PID
    /// without formula or with too few data bytes.
    pub fn measure(&self) -> (r: Option<(Scaling, u32)>)
        ensures
            match measurement(self.pid.0, self.raw_value@) {
                Some((s, a)) => r == Some((s, a as u32)),
                None => r is None,
            },
    {
        let c = self.pid.0;
        let s = if c == Pid::ENGINE_LOAD || c == Pid::FUEL_TANK_LEVEL || c == Pid::THROTTLE_POS
            || c == Pid::REL_THROTTLE_POS || c == Pid::EGR_COMMANDED {
            Scaling::Percent
        } else if c == Pid::COOLANT_TEMP || c == Pid::INTAKE_TEMP || c == Pid::AMBIENT_TEMP
            || c == Pid::ENGINE_OIL_TEMP {
            Scaling::Celsius
        } else if c == Pid::SHORT_FUEL_TRIM_B1 || c == Pid::LONG_FUEL_TRIM_B1
            || c == Pid::SHORT_FUEL_TRIM_B2 || c == Pid::LONG_FUEL_TRIM_B2 || c == Pid::EGR_ERROR {
            Scaling::FuelTrim
        } else if c == Pid::ENGINE_RPM {
            Scaling::Rpm
        } else if c == Pid::VEHICLE_SPEED {
            Scaling::Speed
        } else if c == Pid::TIMING_ADVANCE {
            Scaling::TimingAdvance
        } else if c == Pid::O2_SENSORS_PRESENT {
            Scaling::SensorMask
        } else if c == Pid::O2_B1S1_VOLTAGE || c == Pid::O2_B1S2_VOLTAGE {
            Scaling::OxygenVoltage
        } else if c == Pid::MAF_RATE {
            Scaling::AirFlow
        } else if c == Pid::FUEL_AIR_EQUIV_RATIO {
            Scaling::EquivalenceRatio
        } else if c == Pid::CONTROL_MODULE_VOLTAGE {
            Scaling::ModuleVoltage
        } else if c == Pid::RUNTIME_MIL_ON || c == Pid::RUNTIME_SINCE_CLEAR {
            Scaling::Minutes
        } else if c == Pid::ENGINE_FUEL_RATE {
            Scaling::FuelRate
        } else if c == Pid::DRIVER_DEMAND_TORQUE || c == Pid::ACTUAL_ENGINE_TORQUE {
            Scaling::Torque
        } else {
            return None;
        };
        let n = self.raw_value.len();
        let (needed, word): (usize, bool) = match s {
            Scaling::OxygenVoltage => (2, false),
            Scaling::Rpm | Scaling::AirFlow | Scaling::ModuleVoltage | Scaling::Minutes
            | Scaling::FuelRate => (2, true),
            Scaling::EquivalenceRatio => (4, true),
            _ => (1, false),
        };
        if n < needed {
            return None;
        }
        let a: u32 = if word {
            (self.raw_value[0] as u32) * 256 + self.raw_value[1] as u32
        } else {
            self.raw_value[0] as u32
        };
        Some((s, a))
    }
}

/// The readings of a Mode 01 response, decoded from byte `offset` on against the
/// requested PIDs from index `i` on.
///
/// Each requested PID is looked for at the current offset: when the byte there is that
/// PID its data bytes follow (a reading whose data would run past the end stops the
/// decoding); otherwise the byte is skipped and the PID is not reported. Decoding stops at
/// the end of the response or of the requested PIDs.
pub open spec fn mode01_readings(response: Seq<u8>, pids: Seq<u8>, i: int, offset: int) -> Seq<
    (u8, Seq<u8>),
>
    decreases pids.len() - i,
{
    if i < 0 || i >= pids.len() || offset < 0 || offset >= response.len() {
        seq![]
    } else if response[offset] == pids[i] {
        let start = offset + 1;
        let end = start + pid_data_length(pids[i]);
        if end <= response.len() {
            seq![(pids[i], response.subrange(start, end))] + mode01_readings(
                response,
                pids,
                i + 1,
                end,
            )
        } else {
            seq![]
        }
    } else {
        mode01_readings(response, pids, i + 1, offset + 1)
    }
}

/// The codes of a list of PIDs.
pub open spec fn pid_codes(pids: Seq<Pid>) -> Seq<u8> {
    pids.map_values(|p: Pid| p.0)
}

/// The number of trouble codes a Modes 03/07/0A response carries: the announced count,
/// limited by the complete byte pairs that follow the header.
pub open spec fn dtc_count(response: Seq<u8>) -> int {
    let pairs = (response.len() - 2) / 2;
    if (response[1] as int) < pairs {
        response[1] as int
    } else {
        pairs
    }
}

/// `response` is a well-formed Mode 09 VIN reply header.
pub open spec fn is_vin_header(response: Seq<u8>) -> bool {
    response.len() >= 3 && response[0] == 0x49 && response[1] == 0x02
}

/// The OBD-II service coder.
pub struct J1979;

impl J1979 {
    pub fn new() -> (r: J1979) {
        J1979
    }

    /// The Mode 01 request for the given PIDs.
    pub fn live_data_request(&self, pids: &[Pid]) -> (r: Vec<u8>)
        ensures
            r@ == seq![0x01u8] + pid_codes(pids@),
    {
        let mut request: Vec<u8> = vec![0x01];
        let mut i: usize = 0;
        while i < pids.len()
            invariant
                i <= pids@.len(),
                request@ == seq![0x01u8] + pid_codes(pids@.take(i as int)),
            decreases pids@.len() - i,
        {
            request.push(pids[i].0);
            i = i + 1;
            proof {
                assert(pid_codes(pids@.take(i as int)) =~= pid_codes(pids@.take(i - 1)).push(
                    pids@[i - 1].0,
                ));
            }
        }
        proof {
            assert(pids@.take(pids@.len() as int) =~= pids@);
        }
        request
    }

    /// The Mode 03 request (stored trouble codes).
    pub fn stored_dtcs_request(&self) -> (r: Vec<u8>)
        ensures
            r@ == seq![0x03u8],
    {
        vec![0x03]
    }

    /// The Mode 04 request (clear trouble codes).
    pub fn clear_dtcs_request(&self) -> (r: Vec<u8>)
        ensures
            r@ == seq![0x04u8],
    {
        vec![0x04]
    }

    /// The Mode 07 request (pending trouble codes).
    pub fn pending_dtcs_request(&self) -> (r: Vec<u8>)
        ensures
            r@ == seq![0x07u8],
    {
        vec![0x07]
    }

    /// The Mode 0A request (permanent trouble codes).
    pub fn permanent_dtcs_request(&self) -> (r: Vec<u8>)
        ensures
            r@ == seq![0x0Au8],
    {
        vec![0x0A]
    }

    /// The Mode 09 PID 02 request (VIN).
    pub fn vin_request(&self) -> (r: Vec<u8>)
        ensures
            r@ == seq![0x09u8, 0x02u8],
    {
        vec![0x09, 0x02]
    }

    /// Decodes a Mode 01 response against the requested PIDs.
    pub fn parse_mode_01_response(&self, response: &[u8], pids: &[Pid]) -> (r: Result<
        Vec<PidReading>,
        Error,
    >)
        ensures
            (response@.len() >= 2 && response@[0] == 0x41) <==> r is Ok,
            r matches Ok(v) ==> v@.map_values(|x: PidReading| reading_view(x)) == mode01_readings(
                response@,
                pid_codes(pids@),
                0,
                1,
            ),
            r matches Err(e) ==> is_protocol_error(e, "Invalid Mode 01 response"@),
    {
        if response.len() < 2 || response[0] != 0x41 {
            return Err(Error::protocol("Invalid Mode 01 response"));
        }
        let ghost codes = pid_codes(pids@);
        let mut values: Vec<PidReading> = Vec::new();
        let mut offset: usize = 1;
        let mut i: usize = 0;
        while i < pids.len()
            invariant_except_break
                i <= pids@.len(),
                offset <= response@.len(),
                codes == pid_codes(pids@),
                values@.map_values(|x: PidReading| reading_view(x)) + mode01_readings(
                    response@,
                    codes,
                    i as int,
                    offset as int,
                ) == mode01_readings(response@, codes, 0, 1),
            ensures
                values@.map_values(|x: PidReading| reading_view(x)) == mode01_readings(
                    response@,
                    codes,
                    0,
                    1,
                ),
            decreases pids@.len() - i,
        {
            let ghost before = values@.map_values(|x: PidReading| reading_view(x));
            if offset >= response.len() {
                proof {
                    assert(before + mode01_readings(response@, codes, i as int, offset as int)
                        =~= before);
                }
                break;
            }
            let pid = pids[i];
            if response[offset] == pid.0 {
                let start = offset + 1;
                let len = self.get_pid_data_length(pid);
                if len <= response.len() - start {
                    let raw = copy_range(response, start, start + len);
                    values.push(PidReading { pid, raw_value: raw });
                    proof {
                        let item = (codes[i as int], response@.subrange(
                            start as int,
                            (start + len) as int,
                        ));
                        assert(values@.map_values(|x: PidReading| reading_view(x)) =~= before.push(
                            item,
                        ));
                        assert(seq![item] + mode01_readings(
                            response@,
                            codes,
                            i + 1,
                            (start + len) as int,
                        ) == mode01_readings(response@, codes, i as int, offset as int));
                        assert(before + (seq![item] + mode01_readings(
                            response@,
                            codes,
                            i + 1,
                            (start + len) as int,
                        )) =~= before.push(item) + mode01_readings(
                            response@,
                            codes,
                            i + 1,
                            (start + len) as int,
                        ));
                    }
                    offset = start + len;
                } else {
                    proof {
                        assert(before + mode01_readings(response@, codes, i as int, offset as int)
                            =~= before);
                    }
                    break;
                }
            } else {
                offset = offset + 1;
            }
            i = i + 1;
        }
        proof {
            let v = values@.map_values(|x: PidReading| reading_view(x));
            if i >= pids.len() {
                assert(v + mode01_readings(response@, codes, i as int, offset as int) =~= v);
            }
        }
        Ok(values)
    }

    /// Decodes a Modes 03/07/0A response into its trouble codes.
    pub fn parse_dtc_response(&self, response: &[u8]) -> (r: Result<Vec<Dtc>, Error>)
        ensures
            response@.len() >= 2 <==> r is Ok,
            r matches Ok(v) ==> {
                &&& v@.len() == dtc_count(response@)
                &&& forall|j: int|
                    0 <= j < v@.len() ==> is_dtc_of(
                        #[trigger] v@[j],
                        response@[2 + 2 * j],
                        response@[3 + 2 * j],
                    )
            },
            r matches Err(e) ==> is_protocol_error(e, "Invalid DTC response"@),
    {
        if response.len() < 2 {
            return Err(Error::protocol("Invalid DTC response"));
        }
        let num_dtcs = response[1] as usize;
        let mut dtcs: Vec<Dtc> = Vec::new();
        let mut offset: usize = 2;
        let mut k: usize = 0;
        while k < num_dtcs
            invariant
                2 <= response@.len(),
                num_dtcs == response@[1],
                k <= num_dtcs,
                offset == 2 + 2 * dtcs@.len(),
                dtcs@.len() <= k,
                dtcs@.len() <= dtc_count(response@),
                dtcs@.len() < k ==> dtcs@.len() == (response@.len() - 2) / 2,
                dtcs@.len() == k || offset + 2 > response@.len(),
                forall|j: int|
                    0 <= j < dtcs@.len() ==> is_dtc_of(
                        #[trigger] dtcs@[j],
                        response@[2 + 2 * j],
                        response@[3 + 2 * j],
                    ),
            decreases num_dtcs - k,
        {
            if offset <= response.len() && response.len() - offset >= 2 {
                let pair = copy_range(response, offset, offset + 2);
                let d = Dtc::from_bytes(pair.as_slice());
                match d {
                    Ok(d) => {
                        dtcs.push(d);
                    },
                    Err(_) => {
                        assert(false);
                    },
                }
                offset = offset + 2;
            }
            k = k + 1;
        }
        Ok(dtcs)
    }

    /// Checks a Mode 04 reply: a positive reply starts with `0x44`.
    pub fn check_clear_response(&self, response: &[u8]) -> (r: Result<(), Error>)
        ensures
            (response@.len() > 0 && response@[0] == 0x44) <==> r is Ok,
            r matches Err(e) ==> is_protocol_error(e, "Failed to clear DTCs"@),
    {
        if response.len() > 0 && response[0] == 0x44 {
            Ok(())
        } else {
            Err(Error::protocol("Failed to clear DTCs"))
        }
    }

    /// Decodes a Mode 09 VIN reply: the bytes after the three-byte header, as UTF-8, without
    /// trailing NULs.
    pub fn parse_vin_response(&self, response: &[u8]) -> (r: Result<String, Error>)
        ensures
            (is_vin_header(response@) && vstd::utf8::valid_utf8(response@.skip(3))) <==> r is Ok,
            r matches Ok(vin) ==> vin@ == trim_trailing_nul(
                vstd::utf8::decode_utf8(response@.skip(3)),
            ),
            r matches Err(e) ==> if is_vin_header(response@) {
                is_invalid_data_error(e, "Invalid VIN encoding"@)
            } else {
                is_protocol_error(e, "Invalid VIN response"@)
            },
    {
        if response.len() >= 3 && response[0] == 0x49 && response[1] == 0x02 {
            let bytes = copy_range(response, 3, response.len());
            proof {
                assert(bytes@ =~= response@.skip(3));
            }
            match utf8_decode(bytes) {
                Some(s) => Ok(trim_end_nul(s.as_str())),
                None => Err(Error::invalid_data("Invalid VIN encoding")),
            }
        } else {
            Err(Error::protocol("Invalid VIN response"))
        }
    }

    /// The number of data bytes that follow `pid` in a Mode 01 response.
    pub fn get_pid_data_length(&self, pid: Pid) -> (r: usize)
        ensures
            r == pid_data_length(pid.0),
    {
        let c = pid.0;
        if c == Pid::ENGINE_RPM || c == Pid::MAF_RATE || c == Pid::CONTROL_MODULE_VOLTAGE
            || c == Pid::O2_B1S1_VOLTAGE || c == Pid::O2_B1S2_VOLTAGE || c == Pid::RUNTIME_MIL_ON
            || c == Pid::RUNTIME_SINCE_CLEAR || c == Pid::ENGINE_FUEL_RATE {
            2
        } else if c == Pid::FUEL_AIR_EQUIV_RATIO {
            4
        } else {
            1
        }
    }
}

} // verus!
