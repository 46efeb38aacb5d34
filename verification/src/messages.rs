//! Typed form of the payloads that a printer publishes and accepts: state
//! reports, version answers and the command requests, together with the
//! rules by which some numbers travel as decimal or hexadecimal text.

use vstd::prelude::*;
use crate::text::{
    chars_of, dec_digits, hex_digits, i32_to_decimal, parse_i32_decimal, parse_signed_dec,
    parse_u32_decimal, parse_u32_hex, parse_unsigned_dec, parse_unsigned_hex, signed_dec_digits,
    slice_equals, u32_to_decimal, u32_to_hex,
};

verus! {

// ---------------------------------------------------------------------
// Reports
// ---------------------------------------------------------------------

/// A payload of the report channel: one of the two recognised shapes.
#[derive(Debug, Clone, PartialEq)]
pub enum Message {
    Print(Print),
    Info(Info),
}

/// A state report.
#[derive(Default, Debug, Clone, PartialEq)]
pub struct Print {
    pub print: PrintData,
}

/// The body of a state report. Every field is optional: a printer sends the
/// full table on request and partial tables in between.
#[derive(Default, Debug, Clone, PartialEq)]
pub struct PrintData {
    pub gcode_state: Option<GcodeState>,
    /// Sent as decimal text.
    pub gcode_file_prepare_percent: Option<u32>,
    pub project_id: Option<String>,
    pub subtask_name: Option<String>,
    pub layer_num: Option<i32>,
    pub total_layer_num: Option<i32>,
    pub ams_mapping: Option<Vec<i32>>,
    pub ams_mapping2: Option<Vec<AmsMapping2Entry>>,
    pub ams: Option<PrintAms>,
    pub vt_tray: Option<PrintTray>,
    pub vir_slot: Option<Vec<PrintTray>>,
    pub command: Option<String>,
    pub param: Option<String>,
    pub url: Option<String>,
    pub use_ams: Option<bool>,
    pub sequence_id: Option<String>,
    pub nozzle_temp_max: Option<u32>,
    pub nozzle_temp_min: Option<u32>,
    pub tray_color: Option<String>,
    pub tray_id: Option<i32>,
    pub slot_id: Option<i32>,
    pub ams_id: Option<i32>,
    pub cali_idx: Option<i32>,
    pub tray_info_idx: Option<String>,
    pub tray_type: Option<String>,
    pub reason: Option<String>,
    pub result: Option<String>,
    pub nozzle_diameter: Option<String>,
    pub filament_id: Option<String>,
    pub filaments: Option<Vec<Filament>>,
    pub fun: Option<String>,
    pub device: Option<PrintDevice>,
}

/// One calibration profile of a filament.
#[derive(Default, Debug, Clone, PartialEq)]
pub struct Filament {
    pub filament_id: String,
    pub name: String,
    pub k_value: String,
    pub setting_id: Option<String>,
    pub cali_idx: i32,
    pub nozzle_id: Option<String>,
    pub extruder_id: Option<i32>,
}

/// Nozzles and extruders of the device.
#[derive(Default, Debug, Clone, PartialEq)]
pub struct PrintDevice {
    pub extruder: Option<PrintDeviceExtruder>,
    /// Absent also where the nozzle table could not be read.
    pub nozzle: Option<PrintDeviceNozzle>,
}

#[derive(Default, Debug, Clone, PartialEq)]
pub struct PrintDeviceExtruder {
    pub info: Vec<PrintDeviceExtruderInfo>,
    pub state: Option<i32>,
}

#[derive(Default, Debug, Clone, PartialEq)]
pub struct PrintDeviceExtruderInfo {
    pub id: i32,
    pub snow: i32,
    pub spre: i32,
    pub star: i32,
}

#[derive(Default, Debug, Clone, PartialEq)]
pub struct PrintDeviceNozzle {
    pub info: Vec<PrintDeviceNozzleInfo>,
    pub exist: Option<i32>,
    pub state: Option<i32>,
}

#[derive(Default, Debug, Clone, PartialEq)]
pub struct PrintDeviceNozzleInfo {
    pub id: i32,
    /// Diameter in millimetres, held as the bits of a single-precision
    /// number.
    pub diameter: u32,
    pub nozzle_type: String,
}

/// The material system as a report describes it.
#[derive(Default, Debug, Clone, PartialEq)]
pub struct PrintAms {
    pub ams: Option<Vec<PrintAmsData>>,
    pub ams_exist_bits: Option<String>,
    pub tray_exist_bits: Option<String>,
    pub tray_is_bbl_bits: Option<String>,
    /// Sent as decimal text.
    pub tray_tar: Option<i32>,
    /// Sent as decimal text.
    pub tray_now: Option<i32>,
    /// Sent as decimal text.
    pub tray_pre: Option<i32>,
    pub tray_read_done_bits: Option<String>,
    pub tray_reading_bits: Option<String>,
}

/// One unit of the material system with its trays.
#[derive(Default, Debug, Clone, PartialEq)]
pub struct PrintAmsData {
    /// Sent as decimal text.
    pub id: u32,
    pub humidity: String,
    pub tray: Vec<PrintTray>,
    /// Sent as hexadecimal text.
    pub info: Option<u32>,
}

/// One tray. A slot that holds no spool has no identifier.
#[derive(Default, Debug, Clone, PartialEq)]
pub struct PrintTray {
    /// Sent as decimal text.
    pub id: Option<u32>,
    /// Calibration coefficient, held as the bits of a single-precision
    /// number.
    pub k: Option<u32>,
    pub cali_idx: Option<i32>,
    pub tray_info_idx: Option<String>,
    pub tray_type: Option<String>,
    pub tray_color: Option<String>,
    /// Sent as decimal text.
    pub nozzle_temp_max: Option<u32>,
    /// Sent as decimal text.
    pub nozzle_temp_min: Option<u32>,
}

#[derive(Debug, PartialEq, Clone)]
pub struct AmsMapping2Entry {
    pub ams_id: i32,
    pub slot_id: i32,
}

/// Phase of the print job.
#[derive(Debug, PartialEq, Eq, Structural, Clone, Copy)]
#[allow(clippy::upper_case_acronyms)]
pub enum GcodeState {
    Unknown,
    IDLE,
    SLICING,
    PREPARE,
    RUNNING,
    FINISH,
    FAILED,
    PAUSE,
    /// Any phase that this model does not know.
    Unsupported,
}

impl Default for GcodeState {
    fn default() -> (state: Self)
        ensures
            state == GcodeState::Unknown,
    {
        GcodeState::Unknown
    }
}

impl GcodeState {
    /// The word that stands for the phase on the wire.
    pub open spec fn spec_name(self) -> Seq<char> {
        match self {
            GcodeState::Unknown => "Unknown"@,
            GcodeState::IDLE => "IDLE"@,
            GcodeState::SLICING => "SLICING"@,
            GcodeState::PREPARE => "PREPARE"@,
            GcodeState::RUNNING => "RUNNING"@,
            GcodeState::FINISH => "FINISH"@,
            GcodeState::FAILED => "FAILED"@,
            GcodeState::PAUSE => "PAUSE"@,
            GcodeState::Unsupported => "Unsupported"@,
        }
    }

    /// The phase that a word of the wire stands for: a word that names no
    /// phase is `Unsupported`.
    pub open spec fn spec_from_name(name: Seq<char>) -> GcodeState {
        if name == "Unknown"@ {
            GcodeState::Unknown
        } else if name == "IDLE"@ {
            GcodeState::IDLE
        } else if name == "SLICING"@ {
            GcodeState::SLICING
        } else if name == "PREPARE"@ {
            GcodeState::PREPARE
        } else if name == "RUNNING"@ {
            GcodeState::RUNNING
        } else if name == "FINISH"@ {
            GcodeState::FINISH
        } else if name == "FAILED"@ {
            GcodeState::FAILED
        } else if name == "PAUSE"@ {
            GcodeState::PAUSE
        } else {
            GcodeState::Unsupported
        }
    }

    /// The word that stands for the phase on the wire.
    pub fn name(&self) -> (word: String)
        ensures
            word@ == self.spec_name(),
    {
        match self {
            GcodeState::Unknown => "Unknown".to_owned(),
            GcodeState::IDLE => "IDLE".to_owned(),
            GcodeState::SLICING => "SLICING".to_owned(),
            GcodeState::PREPARE => "PREPARE".to_owned(),
            GcodeState::RUNNING => "RUNNING".to_owned(),
            GcodeState::FINISH => "FINISH".to_owned(),
            GcodeState::FAILED => "FAILED".to_owned(),
            GcodeState::PAUSE => "PAUSE".to_owned(),
            GcodeState::Unsupported => "Unsupported".to_owned(),
        }
    }

    /// Reads a phase from its word on the wire.
    pub fn from_name(word: &str) -> (state: GcodeState)
        ensures
            state == Self::spec_from_name(word@),
    {
        let chars = chars_of(word);
        let n: usize = chars.len();
        assert(chars@.subrange(0, n as int) =~= word@);
        if slice_equals(&chars, 0, n, "Unknown") {
            GcodeState::Unknown
        } else if slice_equals(&chars, 0, n, "IDLE") {
            GcodeState::IDLE
        } else if slice_equals(&chars, 0, n, "SLICING") {
            GcodeState::SLICING
        } else if slice_equals(&chars, 0, n, "PREPARE") {
            GcodeState::PREPARE
        } else if slice_equals(&chars, 0, n, "RUNNING") {
            GcodeState::RUNNING
        } else if slice_equals(&chars, 0, n, "FINISH") {
            GcodeState::FINISH
        } else if slice_equals(&chars, 0, n, "FAILED") {
            GcodeState::FAILED
        } else if slice_equals(&chars, 0, n, "PAUSE") {
            GcodeState::PAUSE
        } else {
            GcodeState::Unsupported
        }
    }
}

/// Reading the word of a phase gives the phase back.
pub proof fn lemma_gcode_state_round_trip(state: GcodeState)
    ensures
        GcodeState::spec_from_name(state.spec_name()) == state,
{
    reveal_strlit("Unknown");
    reveal_strlit("IDLE");
    reveal_strlit("SLICING");
    reveal_strlit("PREPARE");
    reveal_strlit("RUNNING");
    reveal_strlit("FINISH");
    reveal_strlit("FAILED");
    reveal_strlit("PAUSE");
    reveal_strlit("Unsupported");
    assert("Unknown"@[0] == 'U' && "Unknown"@.len() == 7);
    assert("IDLE"@.len() == 4);
    assert("SLICING"@[0] == 'S' && "SLICING"@.len() == 7);
    assert("PREPARE"@[0] == 'P' && "PREPARE"@.len() == 7);
    assert("RUNNING"@[0] == 'R' && "RUNNING"@.len() == 7);
    assert("FINISH"@[1] == 'I' && "FINISH"@.len() == 6);
    assert("FAILED"@[1] == 'A' && "FAILED"@.len() == 6);
    assert("PAUSE"@.len() == 5);
    assert("Unsupported"@.len() == 11);
}

// ---------------------------------------------------------------------
// Version answer
// ---------------------------------------------------------------------

#[derive(Default, Debug, Clone, PartialEq)]
pub struct Info {
    pub info: InfoData,
}

#[derive(Default, Debug, Clone, PartialEq, Eq)]
pub struct InfoData {
    pub command: String,
    pub sequence_id: String,
    pub module: Vec<InfoModule>,
    pub result: Option<String>,
    pub reason: Option<String>,
}

#[derive(Default, Debug, Clone, PartialEq, Eq)]
pub struct InfoModule {
    pub name: String,
    pub project_name: Option<String>,
    pub product_name: Option<String>,
    pub sw_ver: String,
    pub hw_ver: String,
    pub sn: String,
    pub flag: Option<i32>,
    pub loader_ver: Option<String>,
    pub ota_ver: Option<String>,
}

// ---------------------------------------------------------------------
// Commands
// ---------------------------------------------------------------------

/// Asks the printer to publish its full state.
#[derive(Default, Debug, Clone, PartialEq)]
pub struct PushAllCommand {
    pub pushing: PushAll,
}

#[derive(Default, Debug, Clone, PartialEq)]
pub struct PushAll {
    pub command: String,
    pub sequence_id: Option<String>,
}

impl PushAllCommand {
    /// Whether this is the request as `new` builds it.
    pub open spec fn is_request(&self) -> bool {
        &&& self.pushing.command@ == "pushall"@
        &&& self.pushing.sequence_id matches Some(id)
        &&& id@ == "1"@
    }

    pub fn new() -> (cmd: Self)
        ensures
            cmd.is_request(),
    {
        PushAllCommand {
            pushing: PushAll { command: "pushall".to_owned(), sequence_id: Some("1".to_owned()) },
        }
    }
}

/// Asks the printer for the versions of its modules.
#[derive(Default, Debug, Clone, PartialEq)]
pub struct GetVersionCommand {
    pub info: GetVersion,
}

#[derive(Default, Debug, Clone, PartialEq)]
pub struct GetVersion {
    pub command: String,
    pub sequence_id: Option<String>,
}

impl GetVersionCommand {
    /// Whether this is the request as `new` builds it.
    pub open spec fn is_request(&self) -> bool {
        &&& self.info.command@ == "get_version"@
        &&& self.info.sequence_id matches Some(id)
        &&& id@ == "1"@
    }

    pub fn new() -> (cmd: Self)
        ensures
            cmd.is_request(),
    {
        GetVersionCommand {
            info: GetVersion { command: "get_version".to_owned(), sequence_id: Some("1".to_owned()) },
        }
    }
}

/// Tells the printer which filament a tray holds.
#[derive(Default, Debug, Clone, PartialEq)]
pub struct AmsFilamentSettingCommand {
    pub print: AmsFilamentSetting,
}

#[derive(Default, Debug, Clone, PartialEq)]
pub struct AmsFilamentSetting {
    pub command: String,
    pub ams_id: i32,
    pub tray_id: i32,
    pub slot_id: i32,
    pub tray_info_idx: String,
    pub setting_id: Option<String>,
    pub tray_color: String,
    pub nozzle_temp_min: u32,
    pub nozzle_temp_max: u32,
    pub tray_type: String,
    pub sequence_id: String,
}

impl AmsFilamentSettingCommand {
    #[allow(clippy::too_many_arguments)]
    pub fn new(
        ams_id: i32,
        tray_id: i32,
        slot_id: i32,
        tray_info_idx: &str,
        setting_id: Option<&str>,
        tray_type: &str,
        tray_color: &str,
        nozzle_temp_min: u32,
        nozzle_temp_max: u32,
    ) -> (cmd: Self)
        ensures
            cmd.print.command@ == "ams_filament_setting"@,
            cmd.print.ams_id == ams_id,
            cmd.print.tray_id == tray_id,
            cmd.print.slot_id == slot_id,
            cmd.print.tray_info_idx@ == tray_info_idx@,
            cmd.print.setting_id.is_some() == setting_id.is_some(),
            setting_id matches Some(id) ==> cmd.print.setting_id.unwrap()@ == id@,
            cmd.print.tray_color@ == tray_color@,
            cmd.print.nozzle_temp_min == nozzle_temp_min,
            cmd.print.nozzle_temp_max == nozzle_temp_max,
            cmd.print.tray_type@ == tray_type@,
            cmd.print.sequence_id@ == "1"@,
    {
        let setting: Option<String> = match setting_id {
            Some(id) => Some(id.to_owned()),
            None => None,
        };
        AmsFilamentSettingCommand {
            print: AmsFilamentSetting {
                command: "ams_filament_setting".to_owned(),
                ams_id,
                tray_id,
                slot_id,
                tray_info_idx: tray_info_idx.to_owned(),
                setting_id: setting,
                tray_color: tray_color.to_owned(),
                nozzle_temp_min,
                nozzle_temp_max,
                tray_type: tray_type.to_owned(),
                sequence_id: "1".to_owned(),
            },
        }
    }
}

/// Asks for the calibration profiles stored for a nozzle diameter.
#[derive(Default, Debug, Clone, PartialEq)]
pub struct ExtrusionCaliGetCommand {
    pub print: ExtrusionCaliGet,
}

#[derive(Default, Debug, Clone, PartialEq)]
pub struct ExtrusionCaliGet {
    pub command: String,
    pub filament_id: String,
    pub nozzle_diameter: String,
    pub sequence_id: String,
}

impl ExtrusionCaliGetCommand {
    pub fn new(nozzle_diameter: &str) -> (cmd: Self)
        ensures
            cmd.print.command@ == "extrusion_cali_get"@,
            cmd.print.filament_id@ == Seq::<char>::empty(),
            cmd.print.nozzle_diameter@ == nozzle_diameter@,
            cmd.print.sequence_id@ == "1"@,
    {
        ExtrusionCaliGetCommand {
            print: ExtrusionCaliGet {
                command: "extrusion_cali_get".to_owned(),
                filament_id: String::new(),
                nozzle_diameter: nozzle_diameter.to_owned(),
                sequence_id: "1".to_owned(),
            },
        }
    }
}

/// Selects a stored calibration profile for a tray.
#[derive(Default, Debug, Clone, PartialEq)]
pub struct ExtrusionCaliSelCommand {
    pub print: ExtrusionCaliSel,
}

#[derive(Default, Debug, Clone, PartialEq)]
pub struct ExtrusionCaliSel {
    pub command: String,
    pub cali_idx: i32,
    pub filament_id: String,
    pub nozzle_diameter: String,
    pub ams_id: i32,
    pub tray_id: i32,
    pub slot_id: i32,
    pub sequence_id: String,
}

impl ExtrusionCaliSelCommand {
    /// Builds the request; without a profile index it asks for the default
    /// profile, index -1.
    pub fn new(
        nozzle_diameter: &str,
        ams_id: i32,
        tray_id: i32,
        slot_id: i32,
        filament_id: &str,
        cali_idx: Option<i32>,
    ) -> (cmd: Self)
        ensures
            cmd.print.command@ == "extrusion_cali_sel"@,
            cmd.print.cali_idx == (match cali_idx {
                Some(idx) => idx,
                None => -1i32,
            }),
            cmd.print.filament_id@ == filament_id@,
            cmd.print.nozzle_diameter@ == nozzle_diameter@,
            cmd.print.ams_id == ams_id,
            cmd.print.tray_id == tray_id,
            cmd.print.slot_id == slot_id,
            cmd.print.sequence_id@ == "1"@,
    {
        let idx: i32 = match cali_idx {
            Some(idx) => idx,
            None => -1,
        };
        ExtrusionCaliSelCommand {
            print: ExtrusionCaliSel {
                command: "extrusion_cali_sel".to_owned(),
                cali_idx: idx,
                filament_id: filament_id.to_owned(),
                nozzle_diameter: nozzle_diameter.to_owned(),
                ams_id,
                tray_id,
                slot_id,
                sequence_id: "1".to_owned(),
            },
        }
    }
}

/// Stores one calibration profile.
#[derive(Default, Debug, Clone, PartialEq)]
pub struct ExtrusionCaliSetCommand {
    pub print: ExtrusionCaliSet,
}

#[derive(Default, Debug, Clone, PartialEq)]
pub struct ExtrusionCaliSet {
    pub command: String,
    pub filaments: Vec<ExtrusionCaliSetFilament>,
    pub nozzle_diameter: String,
    pub sequence_id: String,
}

#[derive(Default, Debug, Clone, PartialEq)]
pub struct ExtrusionCaliSetFilament {
    pub ams_id: i32,
    pub extruder_id: i32,
    pub filament_id: String,
    pub k_value: String,
    pub n_coef: String,
    pub name: String,
    pub nozzle_diameter: String,
    pub nozzle_id: String,
    pub setting_id: String,
    pub slot_id: i32,
    pub tray_id: i32,
}

impl ExtrusionCaliSetCommand {
    /// Builds the request: one profile, addressed to no tray (unit 0, slot 0,
    /// tray -1), with the coefficient `n` at zero.
    #[allow(clippy::too_many_arguments)]
    pub fn new(
        extruder_id: i32,
        nozzle_diameter: &str,
        nozzle_id: &str,
        filament_id: &str,
        setting_id: &str,
        k_value: &str,
        name: &str,
    ) -> (cmd: Self)
        ensures
            cmd.print.command@ == "extrusion_cali_set"@,
            cmd.print.nozzle_diameter@ == nozzle_diameter@,
            cmd.print.sequence_id@ == "1"@,
            cmd.print.filaments@.len() == 1,
            cmd.print.filaments@[0].ams_id == 0,
            cmd.print.filaments@[0].extruder_id == extruder_id,
            cmd.print.filaments@[0].filament_id@ == filament_id@,
            cmd.print.filaments@[0].k_value@ == k_value@,
            cmd.print.filaments@[0].n_coef@ == "0.000000"@,
            cmd.print.filaments@[0].name@ == name@,
            cmd.print.filaments@[0].nozzle_diameter@ == nozzle_diameter@,
            cmd.print.filaments@[0].nozzle_id@ == nozzle_id@,
            cmd.print.filaments@[0].setting_id@ == setting_id@,
            cmd.print.filaments@[0].slot_id == 0,
            cmd.print.filaments@[0].tray_id == -1,
    {
        let mut filaments: Vec<ExtrusionCaliSetFilament> = Vec::new();
        filaments.push(
            ExtrusionCaliSetFilament {
                ams_id: 0,
                extruder_id,
                filament_id: filament_id.to_owned(),
                k_value: k_value.to_owned(),
                n_coef: "0.000000".to_owned(),
                name: name.to_owned(),
                nozzle_diameter: nozzle_diameter.to_owned(),
                nozzle_id: nozzle_id.to_owned(),
                setting_id: setting_id.to_owned(),
                slot_id: 0,
                tray_id: -1,
            },
        );
        ExtrusionCaliSetCommand {
            print: ExtrusionCaliSet {
                command: "extrusion_cali_set".to_owned(),
                filaments,
                nozzle_diameter: nozzle_diameter.to_owned(),
                sequence_id: "1".to_owned(),
            },
        }
    }
}

// ---------------------------------------------------------------------
// Numbers that travel as text
// ---------------------------------------------------------------------

/// Why a text field could not be read as a number.
#[derive(Debug, Clone, Copy, PartialEq, Eq, Structural)]
pub enum NumberError {
    /// The text is empty, holds something other than digits behind an
    /// optional sign, or denotes a number out of range.
    Invalid,
}

/// An unsigned number as the decimal text that the wire carries.
pub fn u32_as_str_se(x: &u32) -> (text: String)
    ensures
        text@ == dec_digits(*x as nat),
{
    u32_to_decimal(*x)
}

/// Reads an unsigned number from the decimal text that the wire carries.
pub fn u32_as_str_de(text: &str) -> (value: Result<u32, NumberError>)
    ensures
        value.is_ok() == parse_unsigned_dec(text@, 0xffff_ffff).is_some(),
        value matches Ok(v) ==> parse_unsigned_dec(text@, 0xffff_ffff) == Some(v as nat),
{
    match parse_u32_decimal(text) {
        Some(v) => Ok(v),
        None => Err(NumberError::Invalid),
    }
}

/// An optional unsigned number as optional decimal text.
pub fn option_u32_as_str_se(value: &Option<u32>) -> (text: Option<String>)
    ensures
        text.is_some() == value.is_some(),
        value matches Some(v) ==> text.unwrap()@ == dec_digits(v as nat),
{
    match value {
        Some(v) => Some(u32_as_str_se(v)),
        None => None,
    }
}

/// Reads an optional unsigned number from optional decimal text: no text is
/// no number, and text that is no number is an error.
pub fn option_u32_as_str_de(text: Option<&str>) -> (value: Result<Option<u32>, NumberError>)
    ensures
        text.is_none() ==> value == Ok::<Option<u32>, NumberError>(None),
        text matches Some(t) ==> {
            &&& value.is_ok() == parse_unsigned_dec(t@, 0xffff_ffff).is_some()
            &&& value matches Ok(v) ==> v matches Some(n) && parse_unsigned_dec(t@, 0xffff_ffff)
                == Some(n as nat)
        },
{
    match text {
        Some(t) => match parse_u32_decimal(t) {
            Some(v) => Ok(Some(v)),
            None => Err(NumberError::Invalid),
        },
        None => Ok(None),
    }
}

/// A signed number as the decimal text that the wire carries.
pub fn as_str_se(x: &i32) -> (text: String)
    ensures
        text@ == signed_dec_digits(*x as int),
{
    i32_to_decimal(*x)
}

/// An optional signed number as optional decimal text.
pub fn option_as_str_se(value: &Option<i32>) -> (text: Option<String>)
    ensures
        text.is_some() == value.is_some(),
        value matches Some(v) ==> text.unwrap()@ == signed_dec_digits(v as int),
{
    match value {
        Some(v) => Some(as_str_se(v)),
        None => None,
    }
}

/// Reads an optional signed number from optional decimal text.
pub fn option_as_str_de(text: Option<&str>) -> (value: Result<Option<i32>, NumberError>)
    ensures
        text.is_none() ==> value == Ok::<Option<i32>, NumberError>(None),
        text matches Some(t) ==> {
            &&& value.is_ok() == parse_signed_dec(t@).is_some()
            &&& value matches Ok(v) ==> v matches Some(n) && parse_signed_dec(t@) == Some(n as int)
        },
{
    match text {
        Some(t) => match parse_i32_decimal(t) {
            Some(v) => Ok(Some(v)),
            None => Err(NumberError::Invalid),
        },
        None => Ok(None),
    }
}

/// An unsigned number as the lower-case hexadecimal text that the wire
/// carries.
pub fn u32_as_str_hex_se(x: &u32) -> (text: String)
    ensures
        text@ == hex_digits(*x as nat),
{
    u32_to_hex(*x)
}

/// An optional unsigned number as optional hexadecimal text.
pub fn option_u32_as_str_hex_se(value: &Option<u32>) -> (text: Option<String>)
    ensures
        text.is_some() == value.is_some(),
        value matches Some(v) ==> text.unwrap()@ == hex_digits(v as nat),
{
    match value {
        Some(v) => Some(u32_as_str_hex_se(v)),
        None => None,
    }
}

/// Reads an optional unsigned number from optional hexadecimal text.
pub fn option_u32_as_str_hex_de(text: Option<&str>) -> (value: Result<Option<u32>, NumberError>)
    ensures
        text.is_none() ==> value == Ok::<Option<u32>, NumberError>(None),
        text matches Some(t) ==> {
            &&& value.is_ok() == parse_unsigned_hex(t@).is_some()
            &&& value matches Ok(v) ==> v matches Some(n) && parse_unsigned_hex(t@) == Some(
                n as nat,
            )
        },
{
    match text {
        Some(t) => match parse_u32_hex(t) {
            Some(v) => Ok(Some(v)),
            None => Err(NumberError::Invalid),
        },
        None => Ok(None),
    }
}

/// Keeps a field that was read and drops one that was not: a fault in an
/// optional table must not fail the report around it.
pub fn ignore_errors<T, E>(read: Result<T, E>) -> (value: Option<T>)
    ensures
        value == (match read {
            Ok(v) => Some(v),
            Err(_) => None::<T>,
        }),
{
    match read {
        Ok(v) => Some(v),
        Err(_) => None,
    }
}

} // verus!
