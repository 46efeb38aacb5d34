//! The text of a request as it goes over the wire: a flat object inside the
//! object that names the family of the request.

use vstd::prelude::*;
use vstd::string::*;
use crate::messages::AmsFilamentSetting;
use crate::session::{RequestView, WireRequest};
use crate::text::{dec_digits, i32_to_decimal, signed_dec_digits, spec_text, u32_to_decimal};

verus! {

/// The error of `serde_json`, carried through as it is: nothing is known of
/// what it holds.
#[verifier::external_type_specification]
#[verifier::external_body]
pub struct ExJsonError(serde_json::Error);

/// What `serde_json` makes of a text: the JSON string literal that it
/// writes for the text, quotes included, or nothing where it refuses the
/// text.
pub uninterp spec fn json_string_literal(text: Seq<char>) -> Option<Seq<char>>;

/// Writes a text as a JSON string literal. Wraps `serde_json::to_string` on
/// a string slice. Whether it succeeds, and the literal it then gives, are
/// a function of the text alone: the call reads nothing but its argument.
#[verifier::external_body]
fn quote(text: &str) -> (literal: Result<String, serde_json::Error>)
    ensures
        literal.is_ok() == json_string_literal(text@).is_some(),
        literal matches Ok(l) ==> json_string_literal(text@) == Some(l@),
{
    serde_json::to_string(text)
}

/// Why a request could not be written.
#[derive(Debug, Clone, Copy, PartialEq, Eq, Structural)]
pub enum EncodeError {
    /// A text of the request could not be written as a string literal.
    Text,
}

/// The string literals of a filament setting request.
pub struct SettingLiterals {
    pub command: String,
    pub tray_info_idx: String,
    pub setting_id: Option<String>,
    pub tray_color: String,
    pub tray_type: String,
    pub sequence_id: String,
}

/// The text of a request that carries a command word and, where it has one,
/// a sequence token, given their string literals. `opening` opens the two
/// objects and names the command member.
pub open spec fn spec_simple_payload(
    opening: Seq<char>,
    command: Seq<char>,
    sequence_id: Option<Seq<char>>,
) -> Seq<char> {
    match sequence_id {
        Some(id) => opening + command + ",\"sequence_id\":"@ + id + "}}"@,
        None => opening + command + "}}"@,
    }
}

/// The text of a filament setting request, given its numbers and the string
/// literals of its texts. A request without a setting name has no such
/// member.
pub open spec fn spec_setting_payload(
    ams_id: i32,
    tray_id: i32,
    slot_id: i32,
    nozzle_temp_min: u32,
    nozzle_temp_max: u32,
    command: Seq<char>,
    tray_info_idx: Seq<char>,
    setting_id: Option<Seq<char>>,
    tray_color: Seq<char>,
    tray_type: Seq<char>,
    sequence_id: Seq<char>,
) -> Seq<char> {
    let head = "{\"print\":{\"command\":"@ + command + ",\"ams_id\":"@ + signed_dec_digits(
        ams_id as int,
    ) + ",\"tray_id\":"@ + signed_dec_digits(tray_id as int) + ",\"slot_id\":"@
        + signed_dec_digits(slot_id as int) + ",\"tray_info_idx\":"@ + tray_info_idx;
    let named = match setting_id {
        Some(id) => head + ",\"setting_id\":"@ + id,
        None => head,
    };
    named + ",\"tray_color\":"@ + tray_color + ",\"nozzle_temp_min\":"@ + dec_digits(
        nozzle_temp_min as nat,
    ) + ",\"nozzle_temp_max\":"@ + dec_digits(nozzle_temp_max as nat) + ",\"tray_type\":"@
        + tray_type + ",\"sequence_id\":"@ + sequence_id + "}}"@
}

/// Whether `serde_json` writes a literal for a text.
pub open spec fn spec_has_literal(text: Seq<char>) -> bool {
    json_string_literal(text).is_some()
}

/// The literal that `serde_json` writes for a text that it does not refuse.
pub open spec fn spec_literal(text: Seq<char>) -> Seq<char> {
    match json_string_literal(text) {
        Some(literal) => literal,
        None => Seq::empty(),
    }
}

/// Whether an optional text can be written: a text that is not there needs
/// no literal.
pub open spec fn spec_optional_writable(text: Option<Seq<char>>) -> bool {
    match text {
        Some(t) => spec_has_literal(t),
        None => true,
    }
}

/// An optional text as its optional string literal.
pub open spec fn spec_optional_literal(text: Option<Seq<char>>) -> Option<Seq<char>> {
    match text {
        Some(t) => Some(spec_literal(t)),
        None => None,
    }
}

/// Whether a request can be written: `serde_json` writes a literal for
/// every text that the request holds.
pub open spec fn spec_writable(request: RequestView) -> bool {
    match request {
        RequestView::PushAll { command, sequence_id } => spec_has_literal(command)
            && spec_optional_writable(sequence_id),
        RequestView::GetVersion { command, sequence_id } => spec_has_literal(command)
            && spec_optional_writable(sequence_id),
        RequestView::AmsFilamentSetting { body } => {
            &&& spec_has_literal(body.command)
            &&& spec_has_literal(body.tray_info_idx)
            &&& spec_optional_writable(body.setting_id)
            &&& spec_has_literal(body.tray_color)
            &&& spec_has_literal(body.tray_type)
            &&& spec_has_literal(body.sequence_id)
        },
    }
}

/// The text of a request that can be written.
pub open spec fn spec_request_payload(request: RequestView) -> Seq<char> {
    match request {
        RequestView::PushAll { command, sequence_id } => spec_simple_payload(
            "{\"pushing\":{\"command\":"@,
            spec_literal(command),
            spec_optional_literal(sequence_id),
        ),
        RequestView::GetVersion { command, sequence_id } => spec_simple_payload(
            "{\"info\":{\"command\":"@,
            spec_literal(command),
            spec_optional_literal(sequence_id),
        ),
        RequestView::AmsFilamentSetting { body } => spec_setting_payload(
            body.ams_id,
            body.tray_id,
            body.slot_id,
            body.nozzle_temp_min,
            body.nozzle_temp_max,
            spec_literal(body.command),
            spec_literal(body.tray_info_idx),
            spec_optional_literal(body.setting_id),
            spec_literal(body.tray_color),
            spec_literal(body.tray_type),
            spec_literal(body.sequence_id),
        ),
    }
}

/// Writes a request that carries a command word and, where it has one, a
/// sequence token, from their string literals.
pub fn simple_payload(opening: &str, command: &str, sequence_id: Option<&str>) -> (text: String)
    ensures
        text@ == spec_simple_payload(
            opening@,
            command@,
            match sequence_id {
                Some(id) => Some(id@),
                None => None,
            },
        ),
{
    let mut text = opening.to_owned();
    text.append(command);
    match sequence_id {
        Some(id) => {
            text.append(",\"sequence_id\":");
            text.append(id);
        },
        None => {},
    }
    text.append("}}");
    text
}

/// Writes a filament setting request from its numbers and the string
/// literals of its texts.
pub fn setting_payload(body: &AmsFilamentSetting, literals: &SettingLiterals) -> (text: String)
    ensures
        text@ == spec_setting_payload(
            body.ams_id,
            body.tray_id,
            body.slot_id,
            body.nozzle_temp_min,
            body.nozzle_temp_max,
            literals.command@,
            literals.tray_info_idx@,
            spec_text(literals.setting_id),
            literals.tray_color@,
            literals.tray_type@,
            literals.sequence_id@,
        ),
{
    let mut text = "{\"print\":{\"command\":".to_owned();
    text.append(literals.command.as_str());
    text.append(",\"ams_id\":");
    text.append(i32_to_decimal(body.ams_id).as_str());
    text.append(",\"tray_id\":");
    text.append(i32_to_decimal(body.tray_id).as_str());
    text.append(",\"slot_id\":");
    text.append(i32_to_decimal(body.slot_id).as_str());
    text.append(",\"tray_info_idx\":");
    text.append(literals.tray_info_idx.as_str());
    match &literals.setting_id {
        Some(id) => {
            text.append(",\"setting_id\":");
            text.append(id.as_str());
        },
        None => {},
    }
    text.append(",\"tray_color\":");
    text.append(literals.tray_color.as_str());
    text.append(",\"nozzle_temp_min\":");
    text.append(u32_to_decimal(body.nozzle_temp_min).as_str());
    text.append(",\"nozzle_temp_max\":");
    text.append(u32_to_decimal(body.nozzle_temp_max).as_str());
    text.append(",\"tray_type\":");
    text.append(literals.tray_type.as_str());
    text.append(",\"sequence_id\":");
    text.append(literals.sequence_id.as_str());
    text.append("}}");
    text
}

/// The string literal of an optional text: nothing for a text that is not
/// there, and a fault exactly where `serde_json` refuses the text.
fn quote_optional(text: &Option<String>) -> (literal: Result<Option<String>, EncodeError>)
    ensures
        literal.is_ok() == spec_optional_writable(spec_text(*text)),
        literal matches Ok(l) ==> spec_text(l) == spec_optional_literal(spec_text(*text)),
        literal matches Err(e) ==> e == EncodeError::Text,
{
    match text {
        Some(t) => match quote(t.as_str()) {
            Ok(l) => Ok(Some(l)),
            Err(_) => Err(EncodeError::Text),
        },
        None => Ok(None),
    }
}

/// The string literal of a text, and a fault exactly where `serde_json`
/// refuses the text.
fn quote_text(text: &String) -> (literal: Result<String, EncodeError>)
    ensures
        literal.is_ok() == spec_has_literal(text@),
        literal matches Ok(l) ==> l@ == spec_literal(text@),
        literal matches Err(e) ==> e == EncodeError::Text,
{
    match quote(text.as_str()) {
        Ok(l) => Ok(l),
        Err(_) => Err(EncodeError::Text),
    }
}

fn as_slice(text: &Option<String>) -> (slice: Option<&str>)
    ensures
        slice.is_some() == text.is_some(),
        slice matches Some(s) ==> s@ == text.unwrap()@,
{
    match text {
        Some(t) => Some(t.as_str()),
        None => None,
    }
}

/// Writes a request as the text that goes over the wire. Every text of the
/// request becomes the string literal that `serde_json` writes for it, and
/// every number its decimal digits. The request is written exactly where
/// `serde_json` refuses none of its texts.
pub fn request_payload(request: &WireRequest) -> (payload: Result<String, EncodeError>)
    ensures
        payload.is_ok() == spec_writable(request@),
        payload matches Ok(text) ==> text@ == spec_request_payload(request@),
        payload matches Err(e) ==> e == EncodeError::Text,
{
    match request {
        WireRequest::PushAll(cmd) => {
            let command = quote_text(&cmd.pushing.command)?;
            let sequence_id = quote_optional(&cmd.pushing.sequence_id)?;
            Ok(simple_payload("{\"pushing\":{\"command\":", command.as_str(), as_slice(&sequence_id)))
        },
        WireRequest::GetVersion(cmd) => {
            let command = quote_text(&cmd.info.command)?;
            let sequence_id = quote_optional(&cmd.info.sequence_id)?;
            Ok(simple_payload("{\"info\":{\"command\":", command.as_str(), as_slice(&sequence_id)))
        },
        WireRequest::AmsFilamentSetting(cmd) => {
            let literals = SettingLiterals {
                command: quote_text(&cmd.print.command)?,
                tray_info_idx: quote_text(&cmd.print.tray_info_idx)?,
                setting_id: quote_optional(&cmd.print.setting_id)?,
                tray_color: quote_text(&cmd.print.tray_color)?,
                tray_type: quote_text(&cmd.print.tray_type)?,
                sequence_id: quote_text(&cmd.print.sequence_id)?,
            };
            Ok(setting_payload(&cmd.print, &literals))
        },
    }
}

} // verus!
