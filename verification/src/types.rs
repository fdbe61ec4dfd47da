//! CAN identifiers, frames, buses and the modules of the vehicle.

use vstd::prelude::*;

verus! {

/// A CAN message identifier (11-bit standard or 29-bit extended).
///
/// The high bit of the raw `u32` value distinguishes extended frames
/// (`0x80000000` set) from standard frames.
#[derive(Clone, Copy, Debug, PartialEq, Eq, Hash, Structural)]
pub struct CanId(pub u32);

/// Whether a raw identifier value carries the extended-frame flag.
pub open spec fn spec_is_extended(raw: u32) -> bool {
    raw & 0x8000_0000 != 0
}

/// The effective identifier of a raw value: 29 bits for extended frames, 11 bits otherwise.
pub open spec fn spec_effective_id(raw: u32) -> u32 {
    if spec_is_extended(raw) {
        raw & 0x1FFF_FFFF
    } else {
        raw & 0x7FF
    }
}

impl CanId {
    /// Constructs a `CanId` from a raw integer value.
    pub fn new(id: u32) -> (r: CanId)
        ensures
            r.0 == id,
    {
        CanId(id)
    }

    /// Returns `true` if the frame uses a 29-bit extended identifier.
    pub fn is_extended(&self) -> (r: bool)
        ensures
            r == spec_is_extended(self.0),
    {
        self.0 & 0x8000_0000 != 0
    }

    /// Returns the effective identifier value (11 or 29 bits, flag bit stripped).
    pub fn id(&self) -> (r: u32)
        ensures
            r == spec_effective_id(self.0),
    {
        if self.is_extended() {
            self.0 & 0x1FFF_FFFF
        } else {
            self.0 & 0x7FF
        }
    }
}

impl From<u32> for CanId {
    fn from(id: u32) -> (r: CanId) {
        CanId::new(id)
    }
}

impl vstd::std_specs::convert::FromSpecImpl<u32> for CanId {
    open spec fn obeys_from_spec() -> bool {
        true
    }

    open spec fn from_spec(id: u32) -> CanId {
        CanId(id)
    }
}

/// A raw CAN frame consisting of an identifier and its payload bytes.
#[derive(Clone, Debug, PartialEq, Eq)]
pub struct CanFrame {
    /// The frame identifier.
    pub id: CanId,
    /// The raw payload bytes (0–8 bytes for classical CAN).
    pub data: Vec<u8>,
}

impl CanFrame {
    /// Creates a new frame with the given identifier and data.
    pub fn new(id: CanId, data: Vec<u8>) -> (r: CanFrame)
        ensures
            r.id == id,
            r.data@ == data@,
    {
        CanFrame { id, data }
    }

    /// Returns the number of data bytes in the frame.
    pub fn len(&self) -> (r: usize)
        ensures
            r == self.data@.len(),
    {
        self.data.len()
    }

    /// Returns `true` if the frame carries no payload bytes.
    pub fn is_empty(&self) -> (r: bool)
        ensures
            r == (self.data@.len() == 0),
    {
        self.data.len() == 0
    }
}

/// Which physical CAN bus a module lives on.
#[derive(Clone, Copy, Debug, PartialEq, Eq, Hash, Structural)]
pub enum CanBus {
    /// High-Speed CAN — 500 kbps, pins 6/14 (PCM, TCM, ABS, RCM, PSCM).
    HsCan,
    /// Medium-Speed CAN — 125 kbps, pins 3/11 (BCM, IPC, APIM, HVAC, DSM, PAM).
    MsCan,
}

impl CanBus {
    /// Returns the nominal bit rate in bits per second.
    pub fn speed(&self) -> (r: u32)
        ensures
            r == (match self {
                CanBus::HsCan => 500_000u32,
                CanBus::MsCan => 125_000u32,
            }),
    {
        match self {
            CanBus::HsCan => 500_000,
            CanBus::MsCan => 125_000,
        }
    }
}

/// Ford Fusion 2017 SEL ECU module identifiers.
#[derive(Clone, Copy, Debug, PartialEq, Eq, Hash, Structural)]
pub enum Module {
    /// Powertrain Control Module (HS-CAN).
    Pcm,
    /// Transmission Control Module (HS-CAN).
    Tcm,
    /// Anti-lock Braking System module (HS-CAN).
    Abs,
    /// Restraint Control Module / airbag controller (HS-CAN).
    Rcm,
    /// Power Steering Control Module (HS-CAN).
    Pscm,
    /// Body Control Module (MS-CAN).
    Bcm,
    /// Instrument Panel Cluster (MS-CAN).
    Ipc,
    /// Accessory Protocol Interface Module / SYNC (MS-CAN).
    Apim,
    /// Parking Aid Module / ultrasonic sensors (MS-CAN).
    Pam,
    /// Driver Seat Module (MS-CAN).
    Dsm,
    /// HVAC control module (MS-CAN).
    Hvac,
}

/// The bus on which a module communicates: the powertrain and chassis modules sit on
/// HS-CAN, the body and comfort modules on MS-CAN.
pub open spec fn spec_module_bus(m: Module) -> CanBus {
    match m {
        Module::Pcm | Module::Tcm | Module::Abs | Module::Rcm | Module::Pscm => CanBus::HsCan,
        _ => CanBus::MsCan,
    }
}

/// The UDS request identifier of a module.
pub open spec fn spec_request_id(m: Module) -> u32 {
    match m {
        Module::Pcm => 0x7E0,
        Module::Tcm => 0x7E1,
        Module::Abs => 0x7E2,
        Module::Rcm => 0x7E3,
        Module::Pscm => 0x7E4,
        Module::Bcm => 0x726,
        Module::Ipc => 0x720,
        Module::Apim => 0x7D0,
        Module::Pam => 0x733,
        Module::Dsm => 0x727,
        Module::Hvac => 0x703,
    }
}

/// The UDS response identifier of a module.
pub open spec fn spec_response_id(m: Module) -> u32 {
    match m {
        Module::Pcm => 0x7E8,
        Module::Tcm => 0x7E9,
        Module::Abs => 0x7EA,
        Module::Rcm => 0x7EB,
        Module::Pscm => 0x7EC,
        Module::Bcm => 0x72E,
        Module::Ipc => 0x728,
        Module::Apim => 0x7D8,
        Module::Pam => 0x73B,
        Module::Dsm => 0x72F,
        Module::Hvac => 0x70B,
    }
}

/// The short display name of a module.
pub open spec fn spec_module_name(m: Module) -> Seq<char> {
    match m {
        Module::Pcm => "PCM"@,
        Module::Tcm => "TCM"@,
        Module::Abs => "ABS"@,
        Module::Rcm => "RCM"@,
        Module::Pscm => "PSCM"@,
        Module::Bcm => "BCM"@,
        Module::Ipc => "IPC"@,
        Module::Apim => "APIM"@,
        Module::Pam => "PAM"@,
        Module::Dsm => "DSM"@,
        Module::Hvac => "HVAC"@,
    }
}

/// The variant name of a module, as its `Debug` rendering shows it.
pub open spec fn spec_module_debug_name(m: Module) -> Seq<char> {
    match m {
        Module::Pcm => "Pcm"@,
        Module::Tcm => "Tcm"@,
        Module::Abs => "Abs"@,
        Module::Rcm => "Rcm"@,
        Module::Pscm => "Pscm"@,
        Module::Bcm => "Bcm"@,
        Module::Ipc => "Ipc"@,
        Module::Apim => "Apim"@,
        Module::Pam => "Pam"@,
        Module::Dsm => "Dsm"@,
        Module::Hvac => "Hvac"@,
    }
}

/// The canonical ordered list of all supported modules: every variant once, in declaration
/// order.
pub open spec fn spec_all_modules() -> Seq<Module> {
    seq![
        Module::Pcm,
        Module::Tcm,
        Module::Abs,
        Module::Rcm,
        Module::Pscm,
        Module::Bcm,
        Module::Ipc,
        Module::Apim,
        Module::Pam,
        Module::Dsm,
        Module::Hvac,
    ]
}

impl Module {
    /// Returns the CAN bus this module communicates on.
    pub fn bus(&self) -> (r: CanBus)
        ensures
            r == spec_module_bus(*self),
    {
        match self {
            Module::Pcm | Module::Tcm | Module::Abs | Module::Rcm | Module::Pscm => CanBus::HsCan,
            Module::Bcm | Module::Ipc | Module::Apim | Module::Pam | Module::Dsm | Module::Hvac => {
                CanBus::MsCan
            },
        }
    }

    /// Returns the standard UDS request CAN ID for this module.
    pub fn request_id(&self) -> (r: CanId)
        ensures
            r.0 == spec_request_id(*self),
    {
        match self {
            Module::Pcm => CanId::new(0x7E0),
            Module::Tcm => CanId::new(0x7E1),
            Module::Abs => CanId::new(0x7E2),
            Module::Rcm => CanId::new(0x7E3),
            Module::Pscm => CanId::new(0x7E4),
            Module::Bcm => CanId::new(0x726),
            Module::Ipc => CanId::new(0x720),
            Module::Apim => CanId::new(0x7D0),
            Module::Pam => CanId::new(0x733),
            Module::Dsm => CanId::new(0x727),
            Module::Hvac => CanId::new(0x703),
        }
    }

    /// Returns the UDS response CAN ID for this module.
    pub fn response_id(&self) -> (r: CanId)
        ensures
            r.0 == spec_response_id(*self),
    {
        match self {
            Module::Pcm => CanId::new(0x7E8),
            Module::Tcm => CanId::new(0x7E9),
            Module::Abs => CanId::new(0x7EA),
            Module::Rcm => CanId::new(0x7EB),
            Module::Pscm => CanId::new(0x7EC),
            Module::Bcm => CanId::new(0x72E),
            Module::Ipc => CanId::new(0x728),
            Module::Apim => CanId::new(0x7D8),
            Module::Pam => CanId::new(0x73B),
            Module::Dsm => CanId::new(0x72F),
            Module::Hvac => CanId::new(0x70B),
        }
    }

    /// Returns the short display name of this module (e.g. `"PCM"`, `"BCM"`).
    pub fn name(&self) -> (r: &'static str)
        ensures
            r@ == spec_module_name(*self),
    {
        match self {
            Module::Pcm => "PCM",
            Module::Tcm => "TCM",
            Module::Abs => "ABS",
            Module::Rcm => "RCM",
            Module::Pscm => "PSCM",
            Module::Bcm => "BCM",
            Module::Ipc => "IPC",
            Module::Apim => "APIM",
            Module::Pam => "PAM",
            Module::Dsm => "DSM",
            Module::Hvac => "HVAC",
        }
    }

    /// The variant name of the module (its `Debug` rendering).
    pub fn debug_name(&self) -> (r: &'static str)
        ensures
            r@ == spec_module_debug_name(*self),
    {
        match self {
            Module::Pcm => "Pcm",
            Module::Tcm => "Tcm",
            Module::Abs => "Abs",
            Module::Rcm => "Rcm",
            Module::Pscm => "Pscm",
            Module::Bcm => "Bcm",
            Module::Ipc => "Ipc",
            Module::Apim => "Apim",
            Module::Pam => "Pam",
            Module::Dsm => "Dsm",
            Module::Hvac => "Hvac",
        }
    }

    /// Returns the canonical ordered slice of all supported modules.
    pub fn all() -> (r: &'static [Module])
        ensures
            r@ == spec_all_modules(),
            forall|m: Module| #[trigger] r@.contains(m),
    {
        let r: &'static [Module] = &[
            Module::Pcm,
            Module::Tcm,
            Module::Abs,
            Module::Rcm,
            Module::Pscm,
            Module::Bcm,
            Module::Ipc,
            Module::Apim,
            Module::Pam,
            Module::Dsm,
            Module::Hvac,
        ];
        r
    }
}

/// Which DTC memory bank to query.
#[derive(Clone, Copy, Debug, PartialEq, Eq, Structural)]
pub enum DtcKind {
    /// Confirmed fault codes stored in non-volatile memory (Mode 03).
    Stored,
    /// Fault codes that have not yet confirmed (Mode 07).
    Pending,
    /// Fault codes that cannot be cleared by Mode 04 (Mode 0A).
    Permanent,
}

} // verus!
