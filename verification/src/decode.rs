//! Reading the typed messages out of a payload tree. Each shape says which
//! members it needs, which it may have, and of what type each is; members
//! it does not know are passed over.

use vstd::prelude::*;
use crate::json::{
    bool_field, i32_field, i32_text_field, member, phase_field, present, required_i32,
    required_single, required_u32, spec_required_u32, required_text, required_u32_text, single_field, spec_as_i32, spec_bool_field,
    spec_i32_field, spec_i32_text_field, spec_member, spec_phase_field, spec_present,
    spec_required_i32, spec_required_single, spec_required_text, spec_required_u32_text,
    spec_single_field, spec_text_field, spec_u32_field, spec_u32_hex_field, spec_u32_text_field,
    text_field, u32_field, u32_hex_field, u32_text_field, Json, Malformed, Members, NumberKind,
};
use crate::messages::{
    AmsFilamentSetting, AmsFilamentSettingCommand, AmsMapping2Entry, Filament, GetVersion,
    GetVersionCommand, Info, InfoData, InfoModule, Message, Print, PrintAms, PrintAmsData,
    PrintData, PrintDevice, PrintDeviceExtruder, PrintDeviceExtruderInfo, PrintDeviceNozzle,
    PrintDeviceNozzleInfo, PrintTray, PushAll, PushAllCommand,
};
use crate::session::WireRequest;

verus! {

/// A type that can be read out of a payload tree.
pub trait Decode: Sized {
    /// Whether `value` has the shape of the type.
    spec fn valid(value: Json) -> bool;

    /// Whether `decoded` is what `value` denotes.
    spec fn decodes(value: Json, decoded: Self) -> bool;

    /// Reads the type: a value of the shape gives what it denotes, and any
    /// other value is a fault.
    fn decode(value: &Json) -> (decoded: Result<Self, Malformed>)
        ensures
            decoded.is_ok() == Self::valid(*value),
            decoded matches Ok(d) ==> Self::decodes(*value, d),
    ;
}

/// Whether a reader gave the value `value`.
pub open spec fn spec_gives<T>(read: Result<T, Malformed>, value: T) -> bool {
    read == Ok::<T, Malformed>(value)
}

/// Whether every item has the shape of `T`.
pub open spec fn spec_valid_items<T: Decode>(items: Seq<Json>) -> bool {
    forall|i: int| 0 <= i < items.len() ==> T::valid(#[trigger] items[i])
}

/// Whether `decoded` holds what the items denote, one for one.
pub open spec fn spec_decodes_items<T: Decode>(items: Seq<Json>, decoded: Seq<T>) -> bool {
    &&& decoded.len() == items.len()
    &&& forall|i: int| 0 <= i < items.len() ==> T::decodes(items[i], #[trigger] decoded[i])
}

/// Whether the optional member `key` has the shape of `T` where it is
/// there and not null.
pub open spec fn spec_valid_opt<T: Decode>(members: Members, key: Seq<char>) -> bool {
    match spec_present(members, key) {
        Some(v) => T::valid(v),
        None => true,
    }
}

/// Whether `decoded` is what the optional member `key` denotes.
pub open spec fn spec_decodes_opt<T: Decode>(
    members: Members,
    key: Seq<char>,
    decoded: Option<T>,
) -> bool {
    match spec_present(members, key) {
        Some(v) => decoded matches Some(d) && T::decodes(v, d),
        None => decoded.is_none(),
    }
}

/// Whether the member `key` is there and has the shape of `T`.
pub open spec fn spec_valid_req<T: Decode>(members: Members, key: Seq<char>) -> bool {
    match spec_member(members, key) {
        Some(v) => T::valid(v),
        None => false,
    }
}

/// Whether `decoded` is what the member `key` denotes.
pub open spec fn spec_decodes_req<T: Decode>(members: Members, key: Seq<char>, decoded: T) -> bool {
    match spec_member(members, key) {
        Some(v) => T::decodes(v, decoded),
        None => false,
    }
}

/// Whether `decoded` is what the member `key` denotes where it has the
/// shape of `T`, and nothing where it is missing or of another shape.
pub open spec fn spec_decodes_lenient<T: Decode>(
    members: Members,
    key: Seq<char>,
    decoded: Option<T>,
) -> bool {
    match spec_member(members, key) {
        Some(v) => if T::valid(v) {
            decoded matches Some(d) && T::decodes(v, d)
        } else {
            decoded.is_none()
        },
        None => decoded.is_none(),
    }
}

/// Reads the optional member `key`.
pub fn opt_field<T: Decode>(members: &Vec<(String, Json)>, key: &str) -> (decoded: Result<
    Option<T>,
    Malformed,
>)
    ensures
        decoded.is_ok() == spec_valid_opt::<T>(members@, key@),
        decoded matches Ok(d) ==> spec_decodes_opt::<T>(members@, key@, d),
{
    match present(members, key) {
        Some(v) => match T::decode(v) {
            Ok(d) => Ok(Some(d)),
            Err(e) => Err(e),
        },
        None => Ok(None),
    }
}

/// Reads the member `key`, which must be there.
pub fn req_field<T: Decode>(members: &Vec<(String, Json)>, key: &str) -> (decoded: Result<
    T,
    Malformed,
>)
    ensures
        decoded.is_ok() == spec_valid_req::<T>(members@, key@),
        decoded matches Ok(d) ==> spec_decodes_req::<T>(members@, key@, d),
{
    match member(members, key) {
        Some(v) => T::decode(v),
        None => Err(Malformed::Fault),
    }
}

/// Reads the member `key` where it can be read, and passes over it where
/// it cannot.
pub fn lenient_field<T: Decode>(members: &Vec<(String, Json)>, key: &str) -> (decoded: Option<T>)
    ensures
        spec_decodes_lenient::<T>(members@, key@, decoded),
{
    match member(members, key) {
        Some(v) => match T::decode(v) {
            Ok(d) => Some(d),
            Err(_) => None,
        },
        None => None,
    }
}

impl Decode for i32 {
    open spec fn valid(value: Json) -> bool {
        value matches Json::Number(n) && spec_as_i32(n).is_ok()
    }

    open spec fn decodes(value: Json, decoded: i32) -> bool {
        value matches Json::Number(n) && spec_gives(spec_as_i32(n), decoded)
    }

    fn decode(value: &Json) -> (decoded: Result<i32, Malformed>) {
        match value {
            Json::Number(n) => match n.kind {
                NumberKind::PosInt(u) => if u <= 0x7fff_ffff {
                    Ok(u as i32)
                } else {
                    Err(Malformed::Fault)
                },
                NumberKind::NegInt(i) => if -0x8000_0000 <= i && i <= 0x7fff_ffff {
                    Ok(i as i32)
                } else {
                    Err(Malformed::Fault)
                },
                NumberKind::Float => Err(Malformed::Fault),
            },
            _ => Err(Malformed::Fault),
        }
    }
}

impl<T: Decode> Decode for Vec<T> {
    open spec fn valid(value: Json) -> bool {
        value matches Json::Array(items) && spec_valid_items::<T>(items@)
    }

    open spec fn decodes(value: Json, decoded: Vec<T>) -> bool {
        value matches Json::Array(items) && spec_decodes_items::<T>(items@, decoded@)
    }

    fn decode(value: &Json) -> (decoded: Result<Vec<T>, Malformed>) {
        match value {
            Json::Array(items) => {
                let mut out: Vec<T> = Vec::new();
                let mut i: usize = 0;
                while i < items.len()
                    invariant
                        *value == Json::Array(*items),
                        i <= items@.len(),
                        out@.len() == i,
                        forall|j: int| 0 <= j < i ==> T::valid(#[trigger] items@[j]),
                        forall|j: int| 0 <= j < i ==> T::decodes(items@[j], #[trigger] out@[j]),
                    decreases items@.len() - i,
                {
                    match T::decode(&items[i]) {
                        Ok(d) => {
                            out.push(d);
                        },
                        Err(e) => {
                            assert(!T::valid(items@[i as int]));
                            return Err(e);
                        },
                    }
                    i = i + 1;
                }
                Ok(out)
            },
            _ => Err(Malformed::Fault),
        }
    }
}

/// One pair of a tray mapping.
impl Decode for AmsMapping2Entry {
    open spec fn valid(value: Json) -> bool {
        value matches Json::Object(m) && {
            &&& spec_required_i32(m@, "ams_id"@).is_ok()
            &&& spec_required_i32(m@, "slot_id"@).is_ok()
        }
    }

    open spec fn decodes(value: Json, decoded: AmsMapping2Entry) -> bool {
        value matches Json::Object(m) && {
            &&& spec_gives(spec_required_i32(m@, "ams_id"@), decoded.ams_id)
            &&& spec_gives(spec_required_i32(m@, "slot_id"@), decoded.slot_id)
        }
    }

    fn decode(value: &Json) -> (decoded: Result<AmsMapping2Entry, Malformed>) {
        match value {
            Json::Object(m) => {
                let ams_id = required_i32(m, "ams_id")?;
                let slot_id = required_i32(m, "slot_id")?;
                Ok(AmsMapping2Entry { ams_id, slot_id })
            },
            _ => Err(Malformed::Fault),
        }
    }
}

/// One tray.
impl Decode for PrintTray {
    open spec fn valid(value: Json) -> bool {
        value matches Json::Object(m) && {
            &&& spec_u32_text_field(m@, "id"@).is_ok()
            &&& spec_single_field(m@, "k"@).is_ok()
            &&& spec_i32_field(m@, "cali_idx"@).is_ok()
            &&& spec_text_field(m@, "tray_info_idx"@).is_ok()
            &&& spec_text_field(m@, "tray_type"@).is_ok()
            &&& spec_text_field(m@, "tray_color"@).is_ok()
            &&& spec_u32_text_field(m@, "nozzle_temp_max"@).is_ok()
            &&& spec_u32_text_field(m@, "nozzle_temp_min"@).is_ok()
        }
    }

    open spec fn decodes(value: Json, decoded: PrintTray) -> bool {
        value matches Json::Object(m) && {
            &&& spec_gives(spec_u32_text_field(m@, "id"@), decoded.id)
            &&& spec_gives(spec_single_field(m@, "k"@), decoded.k)
            &&& spec_gives(spec_i32_field(m@, "cali_idx"@), decoded.cali_idx)
            &&& spec_gives(spec_text_field(m@, "tray_info_idx"@), decoded.tray_info_idx)
            &&& spec_gives(spec_text_field(m@, "tray_type"@), decoded.tray_type)
            &&& spec_gives(spec_text_field(m@, "tray_color"@), decoded.tray_color)
            &&& spec_gives(spec_u32_text_field(m@, "nozzle_temp_max"@), decoded.nozzle_temp_max)
            &&& spec_gives(spec_u32_text_field(m@, "nozzle_temp_min"@), decoded.nozzle_temp_min)
        }
    }

    fn decode(value: &Json) -> (decoded: Result<PrintTray, Malformed>) {
        match value {
            Json::Object(m) => {
                let id = u32_text_field(m, "id")?;
                let k = single_field(m, "k")?;
                let cali_idx = i32_field(m, "cali_idx")?;
                let tray_info_idx = text_field(m, "tray_info_idx")?;
                let tray_type = text_field(m, "tray_type")?;
                let tray_color = text_field(m, "tray_color")?;
                let nozzle_temp_max = u32_text_field(m, "nozzle_temp_max")?;
                let nozzle_temp_min = u32_text_field(m, "nozzle_temp_min")?;
                Ok(PrintTray { id, k, cali_idx, tray_info_idx, tray_type, tray_color, nozzle_temp_max, nozzle_temp_min })
            },
            _ => Err(Malformed::Fault),
        }
    }
}

/// One calibration profile.
impl Decode for Filament {
    open spec fn valid(value: Json) -> bool {
        value matches Json::Object(m) && {
            &&& spec_required_text(m@, "filament_id"@).is_ok()
            &&& spec_required_text(m@, "name"@).is_ok()
            &&& spec_required_text(m@, "k_value"@).is_ok()
            &&& spec_text_field(m@, "setting_id"@).is_ok()
            &&& spec_required_i32(m@, "cali_idx"@).is_ok()
            &&& spec_text_field(m@, "nozzle_id"@).is_ok()
            &&& spec_i32_field(m@, "extruder_id"@).is_ok()
        }
    }

    open spec fn decodes(value: Json, decoded: Filament) -> bool {
        value matches Json::Object(m) && {
            &&& spec_gives(spec_required_text(m@, "filament_id"@), decoded.filament_id)
            &&& spec_gives(spec_required_text(m@, "name"@), decoded.name)
            &&& spec_gives(spec_required_text(m@, "k_value"@), decoded.k_value)
            &&& spec_gives(spec_text_field(m@, "setting_id"@), decoded.setting_id)
            &&& spec_gives(spec_required_i32(m@, "cali_idx"@), decoded.cali_idx)
            &&& spec_gives(spec_text_field(m@, "nozzle_id"@), decoded.nozzle_id)
            &&& spec_gives(spec_i32_field(m@, "extruder_id"@), decoded.extruder_id)
        }
    }

    fn decode(value: &Json) -> (decoded: Result<Filament, Malformed>) {
        match value {
            Json::Object(m) => {
                let filament_id = required_text(m, "filament_id")?;
                let name = required_text(m, "name")?;
                let k_value = required_text(m, "k_value")?;
                let setting_id = text_field(m, "setting_id")?;
                let cali_idx = required_i32(m, "cali_idx")?;
                let nozzle_id = text_field(m, "nozzle_id")?;
                let extruder_id = i32_field(m, "extruder_id")?;
                Ok(Filament { filament_id, name, k_value, setting_id, cali_idx, nozzle_id, extruder_id })
            },
            _ => Err(Malformed::Fault),
        }
    }
}

/// One extruder.
impl Decode for PrintDeviceExtruderInfo {
    open spec fn valid(value: Json) -> bool {
        value matches Json::Object(m) && {
            &&& spec_required_i32(m@, "id"@).is_ok()
            &&& spec_required_i32(m@, "snow"@).is_ok()
            &&& spec_required_i32(m@, "spre"@).is_ok()
            &&& spec_required_i32(m@, "star"@).is_ok()
        }
    }

    open spec fn decodes(value: Json, decoded: PrintDeviceExtruderInfo) -> bool {
        value matches Json::Object(m) && {
            &&& spec_gives(spec_required_i32(m@, "id"@), decoded.id)
            &&& spec_gives(spec_required_i32(m@, "snow"@), decoded.snow)
            &&& spec_gives(spec_required_i32(m@, "spre"@), decoded.spre)
            &&& spec_gives(spec_required_i32(m@, "star"@), decoded.star)
        }
    }

    fn decode(value: &Json) -> (decoded: Result<PrintDeviceExtruderInfo, Malformed>) {
        match value {
            Json::Object(m) => {
                let id = required_i32(m, "id")?;
                let snow = required_i32(m, "snow")?;
                let spre = required_i32(m, "spre")?;
                let star = required_i32(m, "star")?;
                Ok(PrintDeviceExtruderInfo { id, snow, spre, star })
            },
            _ => Err(Malformed::Fault),
        }
    }
}

/// One nozzle.
impl Decode for PrintDeviceNozzleInfo {
    open spec fn valid(value: Json) -> bool {
        value matches Json::Object(m) && {
            &&& spec_required_i32(m@, "id"@).is_ok()
            &&& spec_required_single(m@, "diameter"@).is_ok()
            &&& spec_required_text(m@, "type"@).is_ok()
        }
    }

    open spec fn decodes(value: Json, decoded: PrintDeviceNozzleInfo) -> bool {
        value matches Json::Object(m) && {
            &&& spec_gives(spec_required_i32(m@, "id"@), decoded.id)
            &&& spec_gives(spec_required_single(m@, "diameter"@), decoded.diameter)
            &&& spec_gives(spec_required_text(m@, "type"@), decoded.nozzle_type)
        }
    }

    fn decode(value: &Json) -> (decoded: Result<PrintDeviceNozzleInfo, Malformed>) {
        match value {
            Json::Object(m) => {
                let id = required_i32(m, "id")?;
                let diameter = required_single(m, "diameter")?;
                let nozzle_type = required_text(m, "type")?;
                Ok(PrintDeviceNozzleInfo { id, diameter, nozzle_type })
            },
            _ => Err(Malformed::Fault),
        }
    }
}

/// The extruders of the device.
impl Decode for PrintDeviceExtruder {
    open spec fn valid(value: Json) -> bool {
        value matches Json::Object(m) && {
            &&& spec_valid_req::<Vec<PrintDeviceExtruderInfo>>(m@, "info"@)
            &&& spec_i32_field(m@, "state"@).is_ok()
        }
    }

    open spec fn decodes(value: Json, decoded: PrintDeviceExtruder) -> bool {
        value matches Json::Object(m) && {
            &&& spec_decodes_req::<Vec<PrintDeviceExtruderInfo>>(m@, "info"@, decoded.info)
            &&& spec_gives(spec_i32_field(m@, "state"@), decoded.state)
        }
    }

    fn decode(value: &Json) -> (decoded: Result<PrintDeviceExtruder, Malformed>) {
        match value {
            Json::Object(m) => {
                let info = req_field::<Vec<PrintDeviceExtruderInfo>>(m, "info")?;
                let state = i32_field(m, "state")?;
                Ok(PrintDeviceExtruder { info, state })
            },
            _ => Err(Malformed::Fault),
        }
    }
}

/// The nozzles of the device.
impl Decode for PrintDeviceNozzle {
    open spec fn valid(value: Json) -> bool {
        value matches Json::Object(m) && {
            &&& spec_valid_req::<Vec<PrintDeviceNozzleInfo>>(m@, "info"@)
            &&& spec_i32_field(m@, "exist"@).is_ok()
            &&& spec_i32_field(m@, "state"@).is_ok()
        }
    }

    open spec fn decodes(value: Json, decoded: PrintDeviceNozzle) -> bool {
        value matches Json::Object(m) && {
            &&& spec_decodes_req::<Vec<PrintDeviceNozzleInfo>>(m@, "info"@, decoded.info)
            &&& spec_gives(spec_i32_field(m@, "exist"@), decoded.exist)
            &&& spec_gives(spec_i32_field(m@, "state"@), decoded.state)
        }
    }

    fn decode(value: &Json) -> (decoded: Result<PrintDeviceNozzle, Malformed>) {
        match value {
            Json::Object(m) => {
                let info = req_field::<Vec<PrintDeviceNozzleInfo>>(m, "info")?;
                let exist = i32_field(m, "exist")?;
                let state = i32_field(m, "state")?;
                Ok(PrintDeviceNozzle { info, exist, state })
            },
            _ => Err(Malformed::Fault),
        }
    }
}

/// Nozzles and extruders: a nozzle table that cannot be read is left out.
impl Decode for PrintDevice {
    open spec fn valid(value: Json) -> bool {
        value matches Json::Object(m) && {
            &&& spec_valid_opt::<PrintDeviceExtruder>(m@, "extruder"@)
        }
    }

    open spec fn decodes(value: Json, decoded: PrintDevice) -> bool {
        value matches Json::Object(m) && {
            &&& spec_decodes_opt::<PrintDeviceExtruder>(m@, "extruder"@, decoded.extruder)
            &&& spec_decodes_lenient::<PrintDeviceNozzle>(m@, "nozzle"@, decoded.nozzle)
        }
    }

    fn decode(value: &Json) -> (decoded: Result<PrintDevice, Malformed>) {
        match value {
            Json::Object(m) => {
                let extruder = opt_field::<PrintDeviceExtruder>(m, "extruder")?;
                let nozzle = lenient_field::<PrintDeviceNozzle>(m, "nozzle");
                Ok(PrintDevice { extruder, nozzle })
            },
            _ => Err(Malformed::Fault),
        }
    }
}

/// One unit of the material system.
impl Decode for PrintAmsData {
    open spec fn valid(value: Json) -> bool {
        value matches Json::Object(m) && {
            &&& spec_required_u32_text(m@, "id"@).is_ok()
            &&& spec_required_text(m@, "humidity"@).is_ok()
            &&& spec_valid_req::<Vec<PrintTray>>(m@, "tray"@)
            &&& spec_u32_hex_field(m@, "info"@).is_ok()
        }
    }

    open spec fn decodes(value: Json, decoded: PrintAmsData) -> bool {
        value matches Json::Object(m) && {
            &&& spec_gives(spec_required_u32_text(m@, "id"@), decoded.id)
            &&& spec_gives(spec_required_text(m@, "humidity"@), decoded.humidity)
            &&& spec_decodes_req::<Vec<PrintTray>>(m@, "tray"@, decoded.tray)
            &&& spec_gives(spec_u32_hex_field(m@, "info"@), decoded.info)
        }
    }

    fn decode(value: &Json) -> (decoded: Result<PrintAmsData, Malformed>) {
        match value {
            Json::Object(m) => {
                let id = required_u32_text(m, "id")?;
                let humidity = required_text(m, "humidity")?;
                let tray = req_field::<Vec<PrintTray>>(m, "tray")?;
                let info = u32_hex_field(m, "info")?;
                Ok(PrintAmsData { id, humidity, tray, info })
            },
            _ => Err(Malformed::Fault),
        }
    }
}

/// The material system.
impl Decode for PrintAms {
    open spec fn valid(value: Json) -> bool {
        value matches Json::Object(m) && {
            &&& spec_valid_opt::<Vec<PrintAmsData>>(m@, "ams"@)
            &&& spec_text_field(m@, "ams_exist_bits"@).is_ok()
            &&& spec_text_field(m@, "tray_exist_bits"@).is_ok()
            &&& spec_text_field(m@, "tray_is_bbl_bits"@).is_ok()
            &&& spec_i32_text_field(m@, "tray_tar"@).is_ok()
            &&& spec_i32_text_field(m@, "tray_now"@).is_ok()
            &&& spec_i32_text_field(m@, "tray_pre"@).is_ok()
            &&& spec_text_field(m@, "tray_read_done_bits"@).is_ok()
            &&& spec_text_field(m@, "tray_reading_bits"@).is_ok()
        }
    }

    open spec fn decodes(value: Json, decoded: PrintAms) -> bool {
        value matches Json::Object(m) && {
            &&& spec_decodes_opt::<Vec<PrintAmsData>>(m@, "ams"@, decoded.ams)
            &&& spec_gives(spec_text_field(m@, "ams_exist_bits"@), decoded.ams_exist_bits)
            &&& spec_gives(spec_text_field(m@, "tray_exist_bits"@), decoded.tray_exist_bits)
            &&& spec_gives(spec_text_field(m@, "tray_is_bbl_bits"@), decoded.tray_is_bbl_bits)
            &&& spec_gives(spec_i32_text_field(m@, "tray_tar"@), decoded.tray_tar)
            &&& spec_gives(spec_i32_text_field(m@, "tray_now"@), decoded.tray_now)
            &&& spec_gives(spec_i32_text_field(m@, "tray_pre"@), decoded.tray_pre)
            &&& spec_gives(spec_text_field(m@, "tray_read_done_bits"@), decoded.tray_read_done_bits)
            &&& spec_gives(spec_text_field(m@, "tray_reading_bits"@), decoded.tray_reading_bits)
        }
    }

    fn decode(value: &Json) -> (decoded: Result<PrintAms, Malformed>) {
        match value {
            Json::Object(m) => {
                let ams = opt_field::<Vec<PrintAmsData>>(m, "ams")?;
                let ams_exist_bits = text_field(m, "ams_exist_bits")?;
                let tray_exist_bits = text_field(m, "tray_exist_bits")?;
                let tray_is_bbl_bits = text_field(m, "tray_is_bbl_bits")?;
                let tray_tar = i32_text_field(m, "tray_tar")?;
                let tray_now = i32_text_field(m, "tray_now")?;
                let tray_pre = i32_text_field(m, "tray_pre")?;
                let tray_read_done_bits = text_field(m, "tray_read_done_bits")?;
                let tray_reading_bits = text_field(m, "tray_reading_bits")?;
                Ok(PrintAms { ams, ams_exist_bits, tray_exist_bits, tray_is_bbl_bits, tray_tar, tray_now, tray_pre, tray_read_done_bits, tray_reading_bits })
            },
            _ => Err(Malformed::Fault),
        }
    }
}

/// The body of a state report.
impl Decode for PrintData {
    open spec fn valid(value: Json) -> bool {
        value matches Json::Object(m) && {
            &&& spec_phase_field(m@, "gcode_state"@).is_ok()
            &&& spec_u32_text_field(m@, "gcode_file_prepare_percent"@).is_ok()
            &&& spec_text_field(m@, "project_id"@).is_ok()
            &&& spec_text_field(m@, "subtask_name"@).is_ok()
            &&& spec_i32_field(m@, "layer_num"@).is_ok()
            &&& spec_i32_field(m@, "total_layer_num"@).is_ok()
            &&& spec_valid_opt::<Vec<i32>>(m@, "ams_mapping"@)
            &&& spec_valid_opt::<Vec<AmsMapping2Entry>>(m@, "ams_mapping2"@)
            &&& spec_valid_opt::<PrintAms>(m@, "ams"@)
            &&& spec_valid_opt::<PrintTray>(m@, "vt_tray"@)
            &&& spec_valid_opt::<Vec<PrintTray>>(m@, "vir_slot"@)
            &&& spec_text_field(m@, "command"@).is_ok()
            &&& spec_text_field(m@, "param"@).is_ok()
            &&& spec_text_field(m@, "url"@).is_ok()
            &&& spec_bool_field(m@, "use_ams"@).is_ok()
            &&& spec_text_field(m@, "sequence_id"@).is_ok()
            &&& spec_u32_field(m@, "nozzle_temp_max"@).is_ok()
            &&& spec_u32_field(m@, "nozzle_temp_min"@).is_ok()
            &&& spec_text_field(m@, "tray_color"@).is_ok()
            &&& spec_i32_field(m@, "tray_id"@).is_ok()
            &&& spec_i32_field(m@, "slot_id"@).is_ok()
            &&& spec_i32_field(m@, "ams_id"@).is_ok()
            &&& spec_i32_field(m@, "cali_idx"@).is_ok()
            &&& spec_text_field(m@, "tray_info_idx"@).is_ok()
            &&& spec_text_field(m@, "tray_type"@).is_ok()
            &&& spec_text_field(m@, "reason"@).is_ok()
            &&& spec_text_field(m@, "result"@).is_ok()
            &&& spec_text_field(m@, "nozzle_diameter"@).is_ok()
            &&& spec_text_field(m@, "filament_id"@).is_ok()
            &&& spec_valid_opt::<Vec<Filament>>(m@, "filaments"@)
            &&& spec_text_field(m@, "fun"@).is_ok()
            &&& spec_valid_opt::<PrintDevice>(m@, "device"@)
        }
    }

    open spec fn decodes(value: Json, decoded: PrintData) -> bool {
        value matches Json::Object(m) && {
            &&& spec_gives(spec_phase_field(m@, "gcode_state"@), decoded.gcode_state)
            &&& spec_gives(spec_u32_text_field(m@, "gcode_file_prepare_percent"@), decoded.gcode_file_prepare_percent)
            &&& spec_gives(spec_text_field(m@, "project_id"@), decoded.project_id)
            &&& spec_gives(spec_text_field(m@, "subtask_name"@), decoded.subtask_name)
            &&& spec_gives(spec_i32_field(m@, "layer_num"@), decoded.layer_num)
            &&& spec_gives(spec_i32_field(m@, "total_layer_num"@), decoded.total_layer_num)
            &&& spec_decodes_opt::<Vec<i32>>(m@, "ams_mapping"@, decoded.ams_mapping)
            &&& spec_decodes_opt::<Vec<AmsMapping2Entry>>(m@, "ams_mapping2"@, decoded.ams_mapping2)
            &&& spec_decodes_opt::<PrintAms>(m@, "ams"@, decoded.ams)
            &&& spec_decodes_opt::<PrintTray>(m@, "vt_tray"@, decoded.vt_tray)
            &&& spec_decodes_opt::<Vec<PrintTray>>(m@, "vir_slot"@, decoded.vir_slot)
            &&& spec_gives(spec_text_field(m@, "command"@), decoded.command)
            &&& spec_gives(spec_text_field(m@, "param"@), decoded.param)
            &&& spec_gives(spec_text_field(m@, "url"@), decoded.url)
            &&& spec_gives(spec_bool_field(m@, "use_ams"@), decoded.use_ams)
            &&& spec_gives(spec_text_field(m@, "sequence_id"@), decoded.sequence_id)
            &&& spec_gives(spec_u32_field(m@, "nozzle_temp_max"@), decoded.nozzle_temp_max)
            &&& spec_gives(spec_u32_field(m@, "nozzle_temp_min"@), decoded.nozzle_temp_min)
            &&& spec_gives(spec_text_field(m@, "tray_color"@), decoded.tray_color)
            &&& spec_gives(spec_i32_field(m@, "tray_id"@), decoded.tray_id)
            &&& spec_gives(spec_i32_field(m@, "slot_id"@), decoded.slot_id)
            &&& spec_gives(spec_i32_field(m@, "ams_id"@), decoded.ams_id)
            &&& spec_gives(spec_i32_field(m@, "cali_idx"@), decoded.cali_idx)
            &&& spec_gives(spec_text_field(m@, "tray_info_idx"@), decoded.tray_info_idx)
            &&& spec_gives(spec_text_field(m@, "tray_type"@), decoded.tray_type)
            &&& spec_gives(spec_text_field(m@, "reason"@), decoded.reason)
            &&& spec_gives(spec_text_field(m@, "result"@), decoded.result)
            &&& spec_gives(spec_text_field(m@, "nozzle_diameter"@), decoded.nozzle_diameter)
            &&& spec_gives(spec_text_field(m@, "filament_id"@), decoded.filament_id)
            &&& spec_decodes_opt::<Vec<Filament>>(m@, "filaments"@, decoded.filaments)
            &&& spec_gives(spec_text_field(m@, "fun"@), decoded.fun)
            &&& spec_decodes_opt::<PrintDevice>(m@, "device"@, decoded.device)
        }
    }

    fn decode(value: &Json) -> (decoded: Result<PrintData, Malformed>) {
        match value {
            Json::Object(m) => {
                let gcode_state = phase_field(m, "gcode_state")?;
                let gcode_file_prepare_percent = u32_text_field(m, "gcode_file_prepare_percent")?;
                let project_id = text_field(m, "project_id")?;
                let subtask_name = text_field(m, "subtask_name")?;
                let layer_num = i32_field(m, "layer_num")?;
                let total_layer_num = i32_field(m, "total_layer_num")?;
                let ams_mapping = opt_field::<Vec<i32>>(m, "ams_mapping")?;
                let ams_mapping2 = opt_field::<Vec<AmsMapping2Entry>>(m, "ams_mapping2")?;
                let ams = opt_field::<PrintAms>(m, "ams")?;
                let vt_tray = opt_field::<PrintTray>(m, "vt_tray")?;
                let vir_slot = opt_field::<Vec<PrintTray>>(m, "vir_slot")?;
                let command = text_field(m, "command")?;
                let param = text_field(m, "param")?;
                let url = text_field(m, "url")?;
                let use_ams = bool_field(m, "use_ams")?;
                let sequence_id = text_field(m, "sequence_id")?;
                let nozzle_temp_max = u32_field(m, "nozzle_temp_max")?;
                let nozzle_temp_min = u32_field(m, "nozzle_temp_min")?;
                let tray_color = text_field(m, "tray_color")?;
                let tray_id = i32_field(m, "tray_id")?;
                let slot_id = i32_field(m, "slot_id")?;
                let ams_id = i32_field(m, "ams_id")?;
                let cali_idx = i32_field(m, "cali_idx")?;
                let tray_info_idx = text_field(m, "tray_info_idx")?;
                let tray_type = text_field(m, "tray_type")?;
                let reason = text_field(m, "reason")?;
                let result = text_field(m, "result")?;
                let nozzle_diameter = text_field(m, "nozzle_diameter")?;
                let filament_id = text_field(m, "filament_id")?;
                let filaments = opt_field::<Vec<Filament>>(m, "filaments")?;
                let fun = text_field(m, "fun")?;
                let device = opt_field::<PrintDevice>(m, "device")?;
                Ok(PrintData { gcode_state, gcode_file_prepare_percent, project_id, subtask_name, layer_num, total_layer_num, ams_mapping, ams_mapping2, ams, vt_tray, vir_slot, command, param, url, use_ams, sequence_id, nozzle_temp_max, nozzle_temp_min, tray_color, tray_id, slot_id, ams_id, cali_idx, tray_info_idx, tray_type, reason, result, nozzle_diameter, filament_id, filaments, fun, device })
            },
            _ => Err(Malformed::Fault),
        }
    }
}

/// A state report: an object with the member `print`.
impl Decode for Print {
    open spec fn valid(value: Json) -> bool {
        value matches Json::Object(m) && {
            &&& spec_valid_req::<PrintData>(m@, "print"@)
        }
    }

    open spec fn decodes(value: Json, decoded: Print) -> bool {
        value matches Json::Object(m) && {
            &&& spec_decodes_req::<PrintData>(m@, "print"@, decoded.print)
        }
    }

    fn decode(value: &Json) -> (decoded: Result<Print, Malformed>) {
        match value {
            Json::Object(m) => {
                let print = req_field::<PrintData>(m, "print")?;
                Ok(Print { print })
            },
            _ => Err(Malformed::Fault),
        }
    }
}

/// One module of a version answer.
impl Decode for InfoModule {
    open spec fn valid(value: Json) -> bool {
        value matches Json::Object(m) && {
            &&& spec_required_text(m@, "name"@).is_ok()
            &&& spec_text_field(m@, "project_name"@).is_ok()
            &&& spec_text_field(m@, "product_name"@).is_ok()
            &&& spec_required_text(m@, "sw_ver"@).is_ok()
            &&& spec_required_text(m@, "hw_ver"@).is_ok()
            &&& spec_required_text(m@, "sn"@).is_ok()
            &&& spec_i32_field(m@, "flag"@).is_ok()
            &&& spec_text_field(m@, "loader_ver"@).is_ok()
            &&& spec_text_field(m@, "ota_ver"@).is_ok()
        }
    }

    open spec fn decodes(value: Json, decoded: InfoModule) -> bool {
        value matches Json::Object(m) && {
            &&& spec_gives(spec_required_text(m@, "name"@), decoded.name)
            &&& spec_gives(spec_text_field(m@, "project_name"@), decoded.project_name)
            &&& spec_gives(spec_text_field(m@, "product_name"@), decoded.product_name)
            &&& spec_gives(spec_required_text(m@, "sw_ver"@), decoded.sw_ver)
            &&& spec_gives(spec_required_text(m@, "hw_ver"@), decoded.hw_ver)
            &&& spec_gives(spec_required_text(m@, "sn"@), decoded.sn)
            &&& spec_gives(spec_i32_field(m@, "flag"@), decoded.flag)
            &&& spec_gives(spec_text_field(m@, "loader_ver"@), decoded.loader_ver)
            &&& spec_gives(spec_text_field(m@, "ota_ver"@), decoded.ota_ver)
        }
    }

    fn decode(value: &Json) -> (decoded: Result<InfoModule, Malformed>) {
        match value {
            Json::Object(m) => {
                let name = required_text(m, "name")?;
                let project_name = text_field(m, "project_name")?;
                let product_name = text_field(m, "product_name")?;
                let sw_ver = required_text(m, "sw_ver")?;
                let hw_ver = required_text(m, "hw_ver")?;
                let sn = required_text(m, "sn")?;
                let flag = i32_field(m, "flag")?;
                let loader_ver = text_field(m, "loader_ver")?;
                let ota_ver = text_field(m, "ota_ver")?;
                Ok(InfoModule { name, project_name, product_name, sw_ver, hw_ver, sn, flag, loader_ver, ota_ver })
            },
            _ => Err(Malformed::Fault),
        }
    }
}

/// The body of a version answer.
impl Decode for InfoData {
    open spec fn valid(value: Json) -> bool {
        value matches Json::Object(m) && {
            &&& spec_required_text(m@, "command"@).is_ok()
            &&& spec_required_text(m@, "sequence_id"@).is_ok()
            &&& spec_valid_req::<Vec<InfoModule>>(m@, "module"@)
            &&& spec_text_field(m@, "result"@).is_ok()
            &&& spec_text_field(m@, "reason"@).is_ok()
        }
    }

    open spec fn decodes(value: Json, decoded: InfoData) -> bool {
        value matches Json::Object(m) && {
            &&& spec_gives(spec_required_text(m@, "command"@), decoded.command)
            &&& spec_gives(spec_required_text(m@, "sequence_id"@), decoded.sequence_id)
            &&& spec_decodes_req::<Vec<InfoModule>>(m@, "module"@, decoded.module)
            &&& spec_gives(spec_text_field(m@, "result"@), decoded.result)
            &&& spec_gives(spec_text_field(m@, "reason"@), decoded.reason)
        }
    }

    fn decode(value: &Json) -> (decoded: Result<InfoData, Malformed>) {
        match value {
            Json::Object(m) => {
                let command = required_text(m, "command")?;
                let sequence_id = required_text(m, "sequence_id")?;
                let module = req_field::<Vec<InfoModule>>(m, "module")?;
                let result = text_field(m, "result")?;
                let reason = text_field(m, "reason")?;
                Ok(InfoData { command, sequence_id, module, result, reason })
            },
            _ => Err(Malformed::Fault),
        }
    }
}

/// A version answer: an object with the member `info`.
impl Decode for Info {
    open spec fn valid(value: Json) -> bool {
        value matches Json::Object(m) && {
            &&& spec_valid_req::<InfoData>(m@, "info"@)
        }
    }

    open spec fn decodes(value: Json, decoded: Info) -> bool {
        value matches Json::Object(m) && {
            &&& spec_decodes_req::<InfoData>(m@, "info"@, decoded.info)
        }
    }

    fn decode(value: &Json) -> (decoded: Result<Info, Malformed>) {
        match value {
            Json::Object(m) => {
                let info = req_field::<InfoData>(m, "info")?;
                Ok(Info { info })
            },
            _ => Err(Malformed::Fault),
        }
    }
}

/// Whether `message` is what a payload denotes: the shapes are tried in
/// order, a state report first, then a version answer.
pub open spec fn spec_decodes_message(value: Json, message: Option<Message>) -> bool {
    if Print::valid(value) {
        message matches Some(Message::Print(report)) && Print::decodes(value, report)
    } else if Info::valid(value) {
        message matches Some(Message::Info(answer)) && Info::decodes(value, answer)
    } else {
        message.is_none()
    }
}

/// Reads the message of a payload; a payload of no known shape gives
/// nothing.
pub fn decode_message(value: &Json) -> (message: Option<Message>)
    ensures
        spec_decodes_message(*value, message),
{
    match Print::decode(value) {
        Ok(report) => Some(Message::Print(report)),
        Err(_) => match Info::decode(value) {
            Ok(answer) => Some(Message::Info(answer)),
            Err(_) => None,
        },
    }
}

/// A payload that is no object, or an object without the member `print`,
/// is no state report.
pub proof fn lemma_report_needs_print(value: Json)
    requires
        !(value matches Json::Object(m) && spec_member(m@, "print"@).is_some()),
    ensures
        !Print::valid(value),
{
}

/// A state report whose body is no object is no state report, whatever
/// else the payload holds.
pub proof fn lemma_report_body_is_object(value: Json)
    requires
        Print::valid(value),
    ensures
        value matches Json::Object(m) && spec_member(m@, "print"@) matches Some(Json::Object(_)),
{
}

/// A payload that is neither a state report nor a version answer denotes
/// no message.
pub proof fn lemma_unknown_shape_is_nothing(value: Json, message: Option<Message>)
    requires
        spec_decodes_message(value, message),
        !Print::valid(value),
        !Info::valid(value),
    ensures
        message.is_none(),
{
}


/// The body of a request for the full state.
impl Decode for PushAll {
    open spec fn valid(value: Json) -> bool {
        value matches Json::Object(m) && {
            &&& spec_required_text(m@, "command"@).is_ok()
            &&& spec_text_field(m@, "sequence_id"@).is_ok()
        }
    }

    open spec fn decodes(value: Json, decoded: PushAll) -> bool {
        value matches Json::Object(m) && {
            &&& spec_gives(spec_required_text(m@, "command"@), decoded.command)
            &&& spec_gives(spec_text_field(m@, "sequence_id"@), decoded.sequence_id)
        }
    }

    fn decode(value: &Json) -> (decoded: Result<PushAll, Malformed>) {
        match value {
            Json::Object(m) => {
                let command = required_text(m, "command")?;
                let sequence_id = text_field(m, "sequence_id")?;
                Ok(PushAll { command, sequence_id })
            },
            _ => Err(Malformed::Fault),
        }
    }
}

/// A request for the full state: an object with the member `pushing`.
impl Decode for PushAllCommand {
    open spec fn valid(value: Json) -> bool {
        value matches Json::Object(m) && {
            &&& spec_valid_req::<PushAll>(m@, "pushing"@)
        }
    }

    open spec fn decodes(value: Json, decoded: PushAllCommand) -> bool {
        value matches Json::Object(m) && {
            &&& spec_decodes_req::<PushAll>(m@, "pushing"@, decoded.pushing)
        }
    }

    fn decode(value: &Json) -> (decoded: Result<PushAllCommand, Malformed>) {
        match value {
            Json::Object(m) => {
                let pushing = req_field::<PushAll>(m, "pushing")?;
                Ok(PushAllCommand { pushing })
            },
            _ => Err(Malformed::Fault),
        }
    }
}

/// The body of a request for the versions.
impl Decode for GetVersion {
    open spec fn valid(value: Json) -> bool {
        value matches Json::Object(m) && {
            &&& spec_required_text(m@, "command"@).is_ok()
            &&& spec_text_field(m@, "sequence_id"@).is_ok()
        }
    }

    open spec fn decodes(value: Json, decoded: GetVersion) -> bool {
        value matches Json::Object(m) && {
            &&& spec_gives(spec_required_text(m@, "command"@), decoded.command)
            &&& spec_gives(spec_text_field(m@, "sequence_id"@), decoded.sequence_id)
        }
    }

    fn decode(value: &Json) -> (decoded: Result<GetVersion, Malformed>) {
        match value {
            Json::Object(m) => {
                let command = required_text(m, "command")?;
                let sequence_id = text_field(m, "sequence_id")?;
                Ok(GetVersion { command, sequence_id })
            },
            _ => Err(Malformed::Fault),
        }
    }
}

/// A request for the versions: an object with the member `info`.
impl Decode for GetVersionCommand {
    open spec fn valid(value: Json) -> bool {
        value matches Json::Object(m) && {
            &&& spec_valid_req::<GetVersion>(m@, "info"@)
        }
    }

    open spec fn decodes(value: Json, decoded: GetVersionCommand) -> bool {
        value matches Json::Object(m) && {
            &&& spec_decodes_req::<GetVersion>(m@, "info"@, decoded.info)
        }
    }

    fn decode(value: &Json) -> (decoded: Result<GetVersionCommand, Malformed>) {
        match value {
            Json::Object(m) => {
                let info = req_field::<GetVersion>(m, "info")?;
                Ok(GetVersionCommand { info })
            },
            _ => Err(Malformed::Fault),
        }
    }
}

/// The body of a filament setting request.
impl Decode for AmsFilamentSetting {
    open spec fn valid(value: Json) -> bool {
        value matches Json::Object(m) && {
            &&& spec_required_text(m@, "command"@).is_ok()
            &&& spec_required_i32(m@, "ams_id"@).is_ok()
            &&& spec_required_i32(m@, "tray_id"@).is_ok()
            &&& spec_required_i32(m@, "slot_id"@).is_ok()
            &&& spec_required_text(m@, "tray_info_idx"@).is_ok()
            &&& spec_text_field(m@, "setting_id"@).is_ok()
            &&& spec_required_text(m@, "tray_color"@).is_ok()
            &&& spec_required_u32(m@, "nozzle_temp_min"@).is_ok()
            &&& spec_required_u32(m@, "nozzle_temp_max"@).is_ok()
            &&& spec_required_text(m@, "tray_type"@).is_ok()
            &&& spec_required_text(m@, "sequence_id"@).is_ok()
        }
    }

    open spec fn decodes(value: Json, decoded: AmsFilamentSetting) -> bool {
        value matches Json::Object(m) && {
            &&& spec_gives(spec_required_text(m@, "command"@), decoded.command)
            &&& spec_gives(spec_required_i32(m@, "ams_id"@), decoded.ams_id)
            &&& spec_gives(spec_required_i32(m@, "tray_id"@), decoded.tray_id)
            &&& spec_gives(spec_required_i32(m@, "slot_id"@), decoded.slot_id)
            &&& spec_gives(spec_required_text(m@, "tray_info_idx"@), decoded.tray_info_idx)
            &&& spec_gives(spec_text_field(m@, "setting_id"@), decoded.setting_id)
            &&& spec_gives(spec_required_text(m@, "tray_color"@), decoded.tray_color)
            &&& spec_gives(spec_required_u32(m@, "nozzle_temp_min"@), decoded.nozzle_temp_min)
            &&& spec_gives(spec_required_u32(m@, "nozzle_temp_max"@), decoded.nozzle_temp_max)
            &&& spec_gives(spec_required_text(m@, "tray_type"@), decoded.tray_type)
            &&& spec_gives(spec_required_text(m@, "sequence_id"@), decoded.sequence_id)
        }
    }

    fn decode(value: &Json) -> (decoded: Result<AmsFilamentSetting, Malformed>) {
        match value {
            Json::Object(m) => {
                let command = required_text(m, "command")?;
                let ams_id = required_i32(m, "ams_id")?;
                let tray_id = required_i32(m, "tray_id")?;
                let slot_id = required_i32(m, "slot_id")?;
                let tray_info_idx = required_text(m, "tray_info_idx")?;
                let setting_id = text_field(m, "setting_id")?;
                let tray_color = required_text(m, "tray_color")?;
                let nozzle_temp_min = required_u32(m, "nozzle_temp_min")?;
                let nozzle_temp_max = required_u32(m, "nozzle_temp_max")?;
                let tray_type = required_text(m, "tray_type")?;
                let sequence_id = required_text(m, "sequence_id")?;
                Ok(AmsFilamentSetting { command, ams_id, tray_id, slot_id, tray_info_idx, setting_id, tray_color, nozzle_temp_min, nozzle_temp_max, tray_type, sequence_id })
            },
            _ => Err(Malformed::Fault),
        }
    }
}

/// A filament setting request: an object with the member `print`.
impl Decode for AmsFilamentSettingCommand {
    open spec fn valid(value: Json) -> bool {
        value matches Json::Object(m) && {
            &&& spec_valid_req::<AmsFilamentSetting>(m@, "print"@)
        }
    }

    open spec fn decodes(value: Json, decoded: AmsFilamentSettingCommand) -> bool {
        value matches Json::Object(m) && {
            &&& spec_decodes_req::<AmsFilamentSetting>(m@, "print"@, decoded.print)
        }
    }

    fn decode(value: &Json) -> (decoded: Result<AmsFilamentSettingCommand, Malformed>) {
        match value {
            Json::Object(m) => {
                let print = req_field::<AmsFilamentSetting>(m, "print")?;
                Ok(AmsFilamentSettingCommand { print })
            },
            _ => Err(Malformed::Fault),
        }
    }
}

/// Whether `request` is what a payload denotes as a request: the shapes are
/// tried in order, the request for the full state first, then the request
/// for the versions, then the filament setting.
pub open spec fn spec_decodes_request(value: Json, request: Option<WireRequest>) -> bool {
    if PushAllCommand::valid(value) {
        request matches Some(WireRequest::PushAll(r)) && PushAllCommand::decodes(value, r)
    } else if GetVersionCommand::valid(value) {
        request matches Some(WireRequest::GetVersion(r)) && GetVersionCommand::decodes(value, r)
    } else if AmsFilamentSettingCommand::valid(value) {
        request matches Some(WireRequest::AmsFilamentSetting(r))
            && AmsFilamentSettingCommand::decodes(value, r)
    } else {
        request.is_none()
    }
}

/// Reads the request of a payload; a payload of no known shape gives
/// nothing.
pub fn decode_wire_request(value: &Json) -> (request: Option<WireRequest>)
    ensures
        spec_decodes_request(*value, request),
{
    match PushAllCommand::decode(value) {
        Ok(r) => Some(WireRequest::PushAll(r)),
        Err(_) => match GetVersionCommand::decode(value) {
            Ok(r) => Some(WireRequest::GetVersion(r)),
            Err(_) => match AmsFilamentSettingCommand::decode(value) {
                Ok(r) => Some(WireRequest::AmsFilamentSetting(r)),
                Err(_) => None,
            },
        },
    }
}

} // verus!
