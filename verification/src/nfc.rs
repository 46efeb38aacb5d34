//! State of the tag reader bridge: what tag lies on the reader, and how its
//! identifier is shown.

use vstd::prelude::*;
use vstd::string::*;
use vstd::utf8::{decode_utf8, valid_utf8};
use crate::discovery::{spec_trim, trim_range};
use crate::text::{chars_of, push_char, slice_equals, string_of};

verus! {

/// Bus address of the reader bridge.
pub const PICO_NFC_ADDR: u8 = 0x55;

/// Tag of a kind that the bridge does not know.
pub const TAG_TYPE_UNKNOWN: u8 = 0;

/// NTAG tag.
pub const TAG_TYPE_NTAG: u8 = 1;

/// MIFARE Classic tag with 1 KB.
pub const TAG_TYPE_MIFARE_1K: u8 = 2;

/// MIFARE Classic tag with 4 KB.
pub const TAG_TYPE_MIFARE_4K: u8 = 3;

/// Most bytes that a tag identifier has.
pub const MAX_UID_LEN: u8 = 10;

/// What was read from the data blocks of a tag.
#[derive(Debug, Clone, Default)]
pub struct DecodedTagInfo {
    pub vendor: String,
    pub material: String,
    pub material_subtype: String,
    pub color_name: String,
    pub color_rgba: u32,
    pub spool_weight: i32,
    pub tag_type_name: String,
}

/// State of the reader bridge.
#[derive(Debug)]
pub struct NfcBridgeState {
    pub initialized: bool,
    /// Firmware version of the bridge: major, minor.
    pub firmware_version: (u8, u8),
    pub tag_present: bool,
    pub tag_uid: [u8; 10],
    pub tag_uid_len: u8,
    pub tag_type: u8,
    pub decoded_info: Option<DecodedTagInfo>,
}

/// The state of the bridge as the user interface reads it.
#[derive(Debug, Clone, Copy)]
pub struct NfcStatus {
    pub initialized: bool,
    pub tag_present: bool,
    pub uid_len: u8,
    pub uid: [u8; 10],
}

/// The upper-case hexadecimal digit that stands for `d`, for `d` below
/// sixteen.
pub open spec fn spec_upper_hex_digit(d: int) -> char {
    if d < 10 {
        (d + 48) as char
    } else {
        (d + 55) as char
    }
}

/// The two upper-case hexadecimal digits of a byte.
pub open spec fn spec_hex_byte(b: u8) -> Seq<char> {
    seq![spec_upper_hex_digit(b as int / 16), spec_upper_hex_digit(b as int % 16)]
}

/// A tag identifier as text: two hexadecimal digits for each byte, and a
/// colon between each two bytes.
pub open spec fn spec_uid_hex(uid: Seq<u8>) -> Seq<char>
    decreases uid.len(),
{
    if uid.len() == 0 {
        Seq::empty()
    } else if uid.len() == 1 {
        spec_hex_byte(uid[0])
    } else {
        spec_uid_hex(uid.drop_last()) + seq![':'] + spec_hex_byte(uid.last())
    }
}

/// Whether the state shows a tag with an identifier.
pub open spec fn spec_has_uid(state: NfcBridgeState) -> bool {
    state.tag_present && state.tag_uid_len > 0
}

fn upper_hex_digit(d: u8) -> (c: char)
    requires
        d < 16,
    ensures
        c == spec_upper_hex_digit(d as int),
{
    if d < 10 {
        (d + 48) as char
    } else {
        (d + 55) as char
    }
}

impl Clone for NfcBridgeState {
    fn clone(&self) -> (copy: Self)
        ensures
            copy.initialized == self.initialized,
            copy.firmware_version == self.firmware_version,
            copy.tag_present == self.tag_present,
            copy.tag_uid == self.tag_uid,
            copy.tag_uid_len == self.tag_uid_len,
            copy.tag_type == self.tag_type,
            copy.decoded_info.is_some() == self.decoded_info.is_some(),
    {
        NfcBridgeState {
            initialized: self.initialized,
            firmware_version: (self.firmware_version.0, self.firmware_version.1),
            tag_present: self.tag_present,
            tag_uid: self.tag_uid,
            tag_uid_len: self.tag_uid_len,
            tag_type: self.tag_type,
            decoded_info: self.decoded_info.clone(),
        }
    }
}

impl NfcBridgeState {
    /// Well-formedness: the identifier is no longer than the room for it.
    pub open spec fn wf(&self) -> bool {
        self.tag_uid_len <= MAX_UID_LEN
    }

    /// The state before the bridge was reached: nothing known, no tag.
    pub fn new() -> (state: Self)
        ensures
            state.wf(),
            !state.initialized,
            state.firmware_version == (0u8, 0u8),
            !state.tag_present,
            state.tag_uid@ == Seq::new(10, |i: int| 0u8),
            state.tag_uid_len == 0,
            state.tag_type == TAG_TYPE_UNKNOWN,
            state.decoded_info.is_none(),
    {
        let uid: [u8; 10] = [0; 10];
        assert(uid@ =~= Seq::new(10, |i: int| 0u8));
        NfcBridgeState {
            initialized: false,
            firmware_version: (0, 0),
            tag_present: false,
            tag_uid: uid,
            tag_uid_len: 0,
            tag_type: TAG_TYPE_UNKNOWN,
            decoded_info: None,
        }
    }

    /// The state as the user interface reads it.
    pub fn status(&self) -> (status: NfcStatus)
        ensures
            status.initialized == self.initialized,
            status.tag_present == self.tag_present,
            status.uid_len == self.tag_uid_len,
            status.uid == self.tag_uid,
    {
        NfcStatus {
            initialized: self.initialized,
            tag_present: self.tag_present,
            uid_len: self.tag_uid_len,
            uid: self.tag_uid,
        }
    }
}

/// The identifier of the tag on the reader as text, or the empty text where
/// there is none.
pub fn get_uid_hex_string(state: &NfcBridgeState) -> (text: String)
    requires
        state.wf(),
    ensures
        text@ == (if spec_has_uid(*state) {
            spec_uid_hex(state.tag_uid@.subrange(0, state.tag_uid_len as int))
        } else {
            Seq::<char>::empty()
        }),
{
    let mut text = String::new();
    if !state.tag_present || state.tag_uid_len == 0 {
        return text;
    }
    let n: usize = state.tag_uid_len as usize;
    let mut i: usize = 0;
    assert(state.tag_uid@.subrange(0, 0) =~= Seq::<u8>::empty());
    while i < n
        invariant
            i <= n <= 10,
            n == state.tag_uid_len,
            text@ == spec_uid_hex(state.tag_uid@.subrange(0, i as int)),
        decreases n - i,
    {
        let ghost before = text@;
        let b: u8 = state.tag_uid[i];
        if i > 0 {
            push_char(&mut text, ':');
        }
        push_char(&mut text, upper_hex_digit(b / 16));
        push_char(&mut text, upper_hex_digit(b % 16));
        proof {
            let next = state.tag_uid@.subrange(0, i + 1);
            assert(next.drop_last() =~= state.tag_uid@.subrange(0, i as int));
            assert(next.last() == b);
            if i == 0 {
                assert(text@ =~= spec_hex_byte(b));
            } else {
                assert(text@ =~= before + seq![':'] + spec_hex_byte(b));
            }
        }
        i = i + 1;
    }
    text
}

/// Get UID as hex string: none where no tag with an identifier lies on the
/// reader.
pub fn get_uid_hex(state: &NfcBridgeState) -> (text: Option<String>)
    requires
        state.wf(),
    ensures
        text.is_some() == spec_has_uid(*state),
        text matches Some(t) ==> t@ == spec_uid_hex(
            state.tag_uid@.subrange(0, state.tag_uid_len as int),
        ),
{
    if !state.tag_present || state.tag_uid_len == 0 {
        return None;
    }
    Some(get_uid_hex_string(state))
}

/// Why a command to the bridge gave nothing.
#[derive(Debug, Clone, Copy, PartialEq, Eq, Structural)]
pub enum BridgeError {
    /// The bridge answered with a status other than success.
    CommandFailed,
}

impl BridgeError {
    /// The words that tell of the fault.
    pub fn message(&self) -> (text: &'static str)
        ensures
            text@ == "Command failed"@,
    {
        "Command failed"
    }
}

/// The firmware version in the bridge's answer to the version command:
/// status, major, minor. A status other than zero is a failure.
pub fn decode_version(resp: &[u8; 3]) -> (version: Result<(u8, u8), BridgeError>)
    ensures
        version == (if resp@[0] != 0 {
            Err::<(u8, u8), BridgeError>(BridgeError::CommandFailed)
        } else {
            Ok::<(u8, u8), BridgeError>((resp@[1], resp@[2]))
        }),
{
    if resp[0] != 0 {
        Err(BridgeError::CommandFailed)
    } else {
        Ok((resp[1], resp[2]))
    }
}

/// Whether the answer to a scan shows a tag: status zero and an identifier
/// of one to ten bytes.
pub open spec fn spec_scan_found(resp: Seq<u8>) -> bool {
    resp[0] == 0 && 0 < resp[1] <= MAX_UID_LEN
}

/// Takes in the bridge's answer to a scan: status, identifier length,
/// identifier. Where the answer shows a tag, the state holds its identifier
/// and the bytes behind it stay as they were; where it shows none, the tag
/// and what was read from it are forgotten. Returns whether a tag was found.
pub fn apply_scan_response(state: &mut NfcBridgeState, resp: &[u8; 12]) -> (found: bool)
    ensures
        found == spec_scan_found(resp@),
        final(state).wf(),
        final(state).initialized == old(state).initialized,
        final(state).firmware_version == old(state).firmware_version,
        final(state).tag_type == old(state).tag_type,
        final(state).tag_present == found,
        found ==> final(state).tag_uid_len == resp@[1] && final(state).decoded_info == old(
            state,
        ).decoded_info && forall|i: int|
            0 <= i < 10 ==> final(state).tag_uid@[i] == (if i < resp@[1] {
                resp@[i + 2]
            } else {
                old(state).tag_uid@[i]
            }),
        !found ==> final(state).tag_uid_len == 0 && final(state).decoded_info.is_none()
            && final(state).tag_uid == old(state).tag_uid,
{
    let uid_len: u8 = resp[1];
    if resp[0] != 0 || uid_len == 0 || uid_len > MAX_UID_LEN {
        state.tag_present = false;
        state.tag_uid_len = 0;
        state.decoded_info = None;
        return false;
    }
    state.tag_present = true;
    state.tag_uid_len = uid_len;
    let mut uid: [u8; 10] = state.tag_uid;
    let n: usize = uid_len as usize;
    let mut i: usize = 0;
    while i < n
        invariant
            i <= n <= 10,
            forall|j: int|
                0 <= j < 10 ==> uid@[j] == (if j < i {
                    resp@[j + 2]
                } else {
                    old(state).tag_uid@[j]
                }),
        decreases n - i,
    {
        uid[i] = resp[i + 2];
        i = i + 1;
    }
    state.tag_uid = uid;
    true
}

/// The red, green or blue part of a colour: `shift` is 24, 16 or 8.
pub open spec fn spec_channel(rgba: u32, shift: u32) -> u32 {
    (rgba >> shift) & 0xff
}

/// The basic colour that a colour is close to, if it is close to one. The
/// tests are made in this order, and the first that holds decides.
pub open spec fn spec_basic_color(r: u32, g: u32, b: u32) -> Option<Seq<char>> {
    if r > 200 && g < 100 && b < 100 {
        Some("Red"@)
    } else if r < 100 && g > 200 && b < 100 {
        Some("Green"@)
    } else if r < 100 && g < 100 && b > 200 {
        Some("Blue"@)
    } else if r > 200 && g > 200 && b < 100 {
        Some("Yellow"@)
    } else if r > 200 && g > 200 && b > 200 {
        Some("White"@)
    } else if r < 50 && g < 50 && b < 50 {
        Some("Black"@)
    } else if r > 200 && g > 100 && b < 100 {
        Some("Orange"@)
    } else {
        None
    }
}

/// The name under which a colour is shown: the basic colour it is close to,
/// or else a number sign and the hexadecimal digits of red, green and blue.
pub open spec fn spec_color_name(rgba: u32) -> Seq<char> {
    let r = spec_channel(rgba, 24);
    let g = spec_channel(rgba, 16);
    let b = spec_channel(rgba, 8);
    match spec_basic_color(r, g, b) {
        Some(name) => name,
        None => seq!['#'] + spec_hex_byte(r as u8) + spec_hex_byte(g as u8) + spec_hex_byte(
            b as u8,
        ),
    }
}

/// Format color RGBA as a name, with the hexadecimal form where the colour
/// has no name.
pub fn format_color_name(rgba: u32) -> (name: String)
    ensures
        name@ == spec_color_name(rgba),
{
    let r: u32 = (rgba >> 24) & 0xff;
    let g: u32 = (rgba >> 16) & 0xff;
    let b: u32 = (rgba >> 8) & 0xff;
    assert(((rgba >> 24u32) & 0xff) < 256) by (bit_vector);
    assert(((rgba >> 16u32) & 0xff) < 256) by (bit_vector);
    assert(((rgba >> 8u32) & 0xff) < 256) by (bit_vector);
    if r > 200 && g < 100 && b < 100 {
        "Red".to_owned()
    } else if r < 100 && g > 200 && b < 100 {
        "Green".to_owned()
    } else if r < 100 && g < 100 && b > 200 {
        "Blue".to_owned()
    } else if r > 200 && g > 200 && b < 100 {
        "Yellow".to_owned()
    } else if r > 200 && g > 200 && b > 200 {
        "White".to_owned()
    } else if r < 50 && g < 50 && b < 50 {
        "Black".to_owned()
    } else if r > 200 && g > 100 && b < 100 {
        "Orange".to_owned()
    } else {
        let mut name = String::new();
        push_char(&mut name, '#');
        let r8: u8 = r as u8;
        let g8: u8 = g as u8;
        let b8: u8 = b as u8;
        push_char(&mut name, upper_hex_digit(r8 / 16));
        push_char(&mut name, upper_hex_digit(r8 % 16));
        push_char(&mut name, upper_hex_digit(g8 / 16));
        push_char(&mut name, upper_hex_digit(g8 % 16));
        push_char(&mut name, upper_hex_digit(b8 / 16));
        push_char(&mut name, upper_hex_digit(b8 % 16));
        assert(name@ =~= seq!['#'] + spec_hex_byte(r8) + spec_hex_byte(g8) + spec_hex_byte(b8));
        name
    }
}

// ---------------------------------------------------------------------
// Tag data
// ---------------------------------------------------------------------

/// The text that `String::from_utf8_lossy` makes of bytes.
pub uninterp spec fn lossy_text(bytes: Seq<u8>) -> Seq<char>;

/// Reads bytes as text. Wraps `String::from_utf8_lossy`: the result is a
/// function of the bytes alone, and for bytes that are valid UTF-8 it is
/// the text they encode.
#[verifier::external_body]
fn lossy(bytes: &[u8]) -> (text: String)
    ensures
        text@ == lossy_text(bytes@),
        valid_utf8(bytes@) ==> text@ == decode_utf8(bytes@),
{
    String::from_utf8_lossy(bytes).into_owned()
}

/// What was read from the data blocks of a tag, as a mathematical value.
pub struct TagInfoView {
    pub vendor: Seq<char>,
    pub material: Seq<char>,
    pub material_subtype: Seq<char>,
    pub color_name: Seq<char>,
    pub color_rgba: u32,
    pub spool_weight: i32,
    pub tag_type_name: Seq<char>,
}

impl View for DecodedTagInfo {
    type V = TagInfoView;

    open spec fn view(&self) -> TagInfoView {
        TagInfoView {
            vendor: self.vendor@,
            material: self.material@,
            material_subtype: self.material_subtype@,
            color_name: self.color_name@,
            color_rgba: self.color_rgba,
            spool_weight: self.spool_weight,
            tag_type_name: self.tag_type_name@,
        }
    }
}

/// Where the first zero byte stands in `bytes`; their number where there is
/// none.
pub open spec fn spec_zero_at(bytes: Seq<u8>) -> int
    decreases bytes.len(),
{
    if bytes.len() == 0 {
        0
    } else if bytes[0] == 0 {
        0
    } else {
        1 + spec_zero_at(bytes.drop_first())
    }
}

/// The text in a field that a zero byte ends.
pub open spec fn spec_cstring(bytes: Seq<u8>) -> Seq<char> {
    let end = spec_zero_at(bytes);
    if 0 <= end <= bytes.len() {
        lossy_text(bytes.subrange(0, end))
    } else {
        lossy_text(bytes)
    }
}

/// Whether `text` begins with `prefix`.
pub open spec fn spec_starts_with(text: Seq<char>, prefix: Seq<char>) -> bool {
    prefix.len() <= text.len() && text.subrange(0, prefix.len() as int) == prefix
}

/// The subtype of a material, from its detailed name and its type: what
/// follows "Bambu", the type and a space; or else what follows the type,
/// without white space around it; or else the detailed name itself.
pub open spec fn spec_subtype(detailed: Seq<char>, material: Seq<char>) -> Seq<char> {
    let branded = "Bambu "@ + material + " "@;
    if spec_starts_with(detailed, branded) {
        detailed.subrange(branded.len() as int, detailed.len() as int)
    } else if spec_starts_with(detailed, material) {
        spec_trim(detailed.subrange(material.len() as int, detailed.len() as int))
    } else {
        detailed
    }
}

/// The number that four bytes denote, most significant byte first.
pub open spec fn spec_be_u32(b0: u8, b1: u8, b2: u8, b3: u8) -> u32 {
    (b0 as int * 0x100_0000 + b1 as int * 0x1_0000 + b2 as int * 0x100 + b3 as int) as u32
}

/// The signed number that two bytes denote, least significant byte first.
pub open spec fn spec_le_i16(lo: u8, hi: u8) -> i32 {
    let v = lo as int + hi as int * 0x100;
    if v >= 0x8000 {
        (v - 0x1_0000) as i32
    } else {
        v as i32
    }
}

/// A tag of the vendor of which nothing could be read.
pub open spec fn spec_unread_tag() -> TagInfoView {
    TagInfoView {
        vendor: Seq::empty(),
        material: Seq::empty(),
        material_subtype: Seq::empty(),
        color_name: Seq::empty(),
        color_rgba: 0,
        spool_weight: 0,
        tag_type_name: "Bambu Lab"@,
    }
}

/// What the data blocks of a tag of the vendor say. The blocks are sixteen
/// bytes each: the second holds the material type, the third the detailed
/// name, the fourth the colour in its first four bytes and the spool weight
/// in the two that follow. Fewer than four blocks say nothing.
pub open spec fn spec_decode_bambu_tag(data: Seq<u8>) -> TagInfoView {
    if data.len() < 64 {
        spec_unread_tag()
    } else {
        let material = spec_cstring(data.subrange(16, 32));
        let detailed = spec_cstring(data.subrange(32, 48));
        let color = spec_be_u32(data[48], data[49], data[50], data[51]);
        TagInfoView {
            vendor: "Bambu"@,
            material,
            material_subtype: spec_subtype(detailed, material),
            color_name: spec_color_name(color),
            color_rgba: color,
            spool_weight: spec_le_i16(data[52], data[53]),
            tag_type_name: "Bambu Lab"@,
        }
    }
}

/// Extract the text of a field that a zero byte ends, from
/// `data[from..to]`.
fn extract_cstring(data: &[u8], from: usize, to: usize) -> (text: String)
    requires
        from <= to <= data@.len(),
    ensures
        text@ == spec_cstring(data@.subrange(from as int, to as int)),
{
    let ghost field = data@.subrange(from as int, to as int);
    let mut end: usize = from;
    while end < to && data[end] != 0
        invariant
            from <= end <= to <= data@.len(),
            spec_zero_at(field) == (end - from) + spec_zero_at(
                data@.subrange(end as int, to as int),
            ),
            field == data@.subrange(from as int, to as int),
        decreases to - end,
    {
        assert(data@.subrange(end as int, to as int).drop_first() =~= data@.subrange(
            end + 1,
            to as int,
        ));
        end = end + 1;
    }
    proof {
        let rest = data@.subrange(end as int, to as int);
        if end < to {
            assert(rest[0] == data@[end as int]);
        }
        assert(spec_zero_at(rest) == 0);
        assert(field.subrange(0, end - from) =~= data@.subrange(from as int, end as int));
    }
    let part = vstd::slice::slice_subrange(data, from, end);
    lossy(part)
}

/// The subtype of a material, from its detailed name and its type.
pub fn material_subtype(detailed: &str, material: &str) -> (subtype: String)
    ensures
        subtype@ == spec_subtype(detailed@, material@),
{
    let chars = chars_of(detailed);
    let n: usize = chars.len();
    let mut branded = "Bambu ".to_owned();
    branded.append(material);
    branded.append(" ");
    let b: usize = branded.as_str().unicode_len();
    let m: usize = material.unicode_len();
    if b <= n && slice_equals(&chars, 0, b, branded.as_str()) {
        string_of(&chars, b, n)
    } else if m <= n && slice_equals(&chars, 0, m, material) {
        let r = trim_range(&chars, m, n);
        string_of(&chars, r.0, r.1)
    } else {
        assert(chars@.subrange(0, n as int) =~= detailed@);
        string_of(&chars, 0, n)
    }
}

/// Decode the data blocks of a tag of the vendor.
pub fn decode_bambu_tag(block_data: &[u8]) -> (info: DecodedTagInfo)
    ensures
        info@ == spec_decode_bambu_tag(block_data@),
{
    if block_data.len() < 64 {
        return DecodedTagInfo {
            vendor: String::new(),
            material: String::new(),
            material_subtype: String::new(),
            color_name: String::new(),
            color_rgba: 0,
            spool_weight: 0,
            tag_type_name: "Bambu Lab".to_owned(),
        };
    }
    let material = extract_cstring(block_data, 16, 32);
    let detailed = extract_cstring(block_data, 32, 48);
    let color: u32 = (block_data[48] as u32) * 0x100_0000 + (block_data[49] as u32) * 0x1_0000 + (
    block_data[50] as u32) * 0x100 + (block_data[51] as u32);
    let raw: u32 = (block_data[52] as u32) + (block_data[53] as u32) * 0x100;
    let weight: i32 = if raw >= 0x8000 {
        raw as i32 - 0x1_0000
    } else {
        raw as i32
    };
    let subtype = material_subtype(detailed.as_str(), material.as_str());
    DecodedTagInfo {
        vendor: "Bambu".to_owned(),
        material,
        material_subtype: subtype,
        color_name: format_color_name(color),
        color_rgba: color,
        spool_weight: weight,
        tag_type_name: "Bambu Lab".to_owned(),
    }
}

/// What is known of an NTAG tag: its kind, and nothing of its content.
pub open spec fn spec_ntag() -> TagInfoView {
    TagInfoView {
        vendor: Seq::empty(),
        material: Seq::empty(),
        material_subtype: Seq::empty(),
        color_name: Seq::empty(),
        color_rgba: 0,
        spool_weight: 0,
        tag_type_name: "NTAG"@,
    }
}

/// What the bridge's answer to the read command says of the tag: status,
/// kind of tag, identifier length, identifier, data. Nothing where the
/// status is a failure or the kind is unknown.
pub open spec fn spec_tag_data(resp: Seq<u8>) -> Option<TagInfoView> {
    if resp[0] != 0 {
        None
    } else if resp[1] == TAG_TYPE_MIFARE_1K || resp[1] == TAG_TYPE_MIFARE_4K {
        Some(spec_decode_bambu_tag(resp.subrange(3 + resp[2] as int, resp.len() as int)))
    } else if resp[1] == TAG_TYPE_NTAG {
        Some(spec_ntag())
    } else {
        None
    }
}

/// An optional tag content as a mathematical value.
pub open spec fn spec_info_view(info: Option<DecodedTagInfo>) -> Option<TagInfoView> {
    match info {
        Some(i) => Some(i@),
        None => None,
    }
}

/// Takes in the bridge's answer to the read command. A failure status
/// changes nothing. Otherwise the state holds the kind of the tag and what
/// was read from it. Returns whether content was read.
pub fn apply_tag_data(state: &mut NfcBridgeState, resp: &[u8; 100]) -> (read: bool)
    requires
        3 + resp@[2] <= 100,
    ensures
        read == spec_tag_data(resp@).is_some(),
        final(state).initialized == old(state).initialized,
        final(state).firmware_version == old(state).firmware_version,
        final(state).tag_present == old(state).tag_present,
        final(state).tag_uid == old(state).tag_uid,
        final(state).tag_uid_len == old(state).tag_uid_len,
        resp@[0] != 0 ==> *final(state) == *old(state),
        resp@[0] == 0 ==> final(state).tag_type == resp@[1] && spec_info_view(
            final(state).decoded_info,
        ) == spec_tag_data(resp@),
{
    if resp[0] != 0 {
        return false;
    }
    let tag_type: u8 = resp[1];
    let offset: usize = 3 + resp[2] as usize;
    state.tag_type = tag_type;
    if tag_type == TAG_TYPE_MIFARE_1K || tag_type == TAG_TYPE_MIFARE_4K {
        let data = vstd::slice::slice_subrange(resp.as_slice(), offset, 100);
        state.decoded_info = Some(decode_bambu_tag(data));
        true
    } else if tag_type == TAG_TYPE_NTAG {
        state.decoded_info = Some(
            DecodedTagInfo {
                vendor: String::new(),
                material: String::new(),
                material_subtype: String::new(),
                color_name: String::new(),
                color_rgba: 0,
                spool_weight: 0,
                tag_type_name: "NTAG".to_owned(),
            },
        );
        true
    } else {
        state.decoded_info = None;
        false
    }
}

// ---------------------------------------------------------------------
// Tag data for the user interface
// ---------------------------------------------------------------------

/// Room of one text field, the ending zero byte included.
pub const FIELD_SIZE: usize = 32;

/// What was read from a tag, in the fixed fields that the user interface
/// reads: each text ends at its first zero byte.
#[derive(Debug, Clone, Copy)]
pub struct DecodedTagData {
    pub vendor: [u8; 32],
    pub material: [u8; 32],
    pub material_subtype: [u8; 32],
    pub color_name: [u8; 32],
    pub color_rgba: u32,
    pub spool_weight: i32,
    pub tag_type: [u8; 32],
}

/// How many bytes of a text go into a field: all that fit before the
/// ending zero byte.
pub open spec fn spec_copied_len(bytes: Seq<u8>) -> int {
    if bytes.len() < FIELD_SIZE - 1 {
        bytes.len() as int
    } else {
        FIELD_SIZE - 1
    }
}

/// Whether `after` is the field `before` once the text of `bytes` was
/// written into it: the bytes that fit, a zero byte, and behind it what the
/// field held.
pub open spec fn spec_field_holds(after: Seq<u8>, bytes: Seq<u8>, before: Seq<u8>) -> bool {
    &&& after.len() == FIELD_SIZE
    &&& forall|i: int|
        0 <= i < FIELD_SIZE ==> after[i] == (if i < spec_copied_len(bytes) {
            bytes[i]
        } else if i == spec_copied_len(bytes) {
            0u8
        } else {
            before[i]
        })
}

/// Whether every byte of a field is zero.
pub open spec fn spec_field_empty(field: Seq<u8>) -> bool {
    field.len() == FIELD_SIZE && forall|i: int| 0 <= i < FIELD_SIZE ==> field[i] == 0
}

/// Copies a text into a field, cut to the room of the field, and ends it
/// with a zero byte.
pub fn copy_str_to_buf(src: &str, dst: &mut [u8; 32])
    ensures
        spec_field_holds(final(dst)@, src.spec_bytes(), old(dst)@),
{
    let bytes = src.as_bytes();
    let len: usize = if bytes.len() < FIELD_SIZE - 1 {
        bytes.len()
    } else {
        FIELD_SIZE - 1
    };
    let mut i: usize = 0;
    while i < len
        invariant
            i <= len <= 31,
            len == spec_copied_len(bytes@),
            bytes@ == src.spec_bytes(),
            forall|j: int|
                0 <= j < 32 ==> dst@[j] == (if j < i {
                    bytes@[j]
                } else {
                    old(dst)@[j]
                }),
        decreases len - i,
    {
        dst[i] = bytes[i];
        i = i + 1;
    }
    dst[len] = 0;
}

impl Default for DecodedTagData {
    fn default() -> (data: Self)
        ensures
            spec_field_empty(data.vendor@),
            spec_field_empty(data.material@),
            spec_field_empty(data.material_subtype@),
            spec_field_empty(data.color_name@),
            data.color_rgba == 0,
            data.spool_weight == 0,
            spec_field_empty(data.tag_type@),
    {
        DecodedTagData {
            vendor: [0; 32],
            material: [0; 32],
            material_subtype: [0; 32],
            color_name: [0; 32],
            color_rgba: 0,
            spool_weight: 0,
            tag_type: [0; 32],
        }
    }
}

/// Set decoded tag data: every text goes into its field, and the numbers
/// are stored as they are.
pub fn set_decoded_tag_data(
    data: &mut DecodedTagData,
    vendor: &str,
    material: &str,
    subtype: &str,
    color_name: &str,
    color_rgba: u32,
    spool_weight: i32,
    tag_type: &str,
)
    ensures
        spec_field_holds(final(data).vendor@, vendor.spec_bytes(), old(data).vendor@),
        spec_field_holds(final(data).material@, material.spec_bytes(), old(data).material@),
        spec_field_holds(
            final(data).material_subtype@,
            subtype.spec_bytes(),
            old(data).material_subtype@,
        ),
        spec_field_holds(final(data).color_name@, color_name.spec_bytes(), old(data).color_name@),
        final(data).color_rgba == color_rgba,
        final(data).spool_weight == spool_weight,
        spec_field_holds(final(data).tag_type@, tag_type.spec_bytes(), old(data).tag_type@),
{
    copy_str_to_buf(vendor, &mut data.vendor);
    copy_str_to_buf(material, &mut data.material);
    copy_str_to_buf(subtype, &mut data.material_subtype);
    copy_str_to_buf(color_name, &mut data.color_name);
    data.color_rgba = color_rgba;
    data.spool_weight = spool_weight;
    copy_str_to_buf(tag_type, &mut data.tag_type);
}

/// Clear decoded tag data, as when the tag was taken away.
pub fn clear_decoded_tag_data(data: &mut DecodedTagData)
    ensures
        spec_field_empty(final(data).vendor@),
        spec_field_empty(final(data).material@),
        spec_field_empty(final(data).material_subtype@),
        spec_field_empty(final(data).color_name@),
        final(data).color_rgba == 0,
        final(data).spool_weight == 0,
        spec_field_empty(final(data).tag_type@),
{
    *data = DecodedTagData::default();
}

// ---------------------------------------------------------------------
// Bringing up and polling the bridge
// ---------------------------------------------------------------------

/// Takes in the answer to the version command when the bridge was found:
/// a version that was read is kept, one that was not leaves the version as
/// it is, and either way the bridge counts as initialized.
pub fn init_bridge(state: &mut NfcBridgeState, version: Result<(u8, u8), BridgeError>)
    ensures
        final(state).initialized,
        final(state).firmware_version == (match version {
            Ok(v) => v,
            Err(_) => old(state).firmware_version,
        }),
        final(state).tag_present == old(state).tag_present,
        final(state).tag_uid == old(state).tag_uid,
        final(state).tag_uid_len == old(state).tag_uid_len,
        final(state).tag_type == old(state).tag_type,
        final(state).decoded_info == old(state).decoded_info,
{
    match version {
        Ok(v) => {
            state.firmware_version = v;
        },
        Err(_) => {},
    }
    state.initialized = true;
}

/// The state with which the manager of the bridge starts: none where the
/// bridge was not found on the bus.
pub fn init_nfc_manager(found: bool, version: Result<(u8, u8), BridgeError>) -> (state: Option<
    NfcBridgeState,
>)
    ensures
        state.is_some() == found,
        state matches Some(s) ==> s.wf() && s.initialized && !s.tag_present && s.tag_uid_len == 0
            && s.tag_type == TAG_TYPE_UNKNOWN && s.decoded_info.is_none() && s.firmware_version
            == (match version {
            Ok(v) => v,
            Err(_) => (0u8, 0u8),
        }),
{
    if !found {
        return None;
    }
    let mut state = NfcBridgeState::new();
    init_bridge(&mut state, version);
    Some(state)
}

/// What came of reading the data of a tag.
#[derive(Debug, Clone, Copy, PartialEq, Eq, Structural)]
pub enum ReadOutcome {
    /// Content was read.
    Decoded,
    /// Nothing yet: read again at the next round.
    NotYet,
    /// The bus failed: do not read this tag again.
    Failed,
}

/// What a scan asks of the caller.
#[derive(Debug, Clone, Copy, PartialEq, Eq, Structural)]
pub struct ScanDecision {
    /// A tag lies on the reader that did not lie there at the last scan.
    pub appeared: bool,
    /// The tag was taken away since the last scan: clear what was read.
    pub removed: bool,
    /// Read the data of the tag now.
    pub read_data: bool,
}

/// What the poll loop remembers from round to round.
#[derive(Debug, Clone, Copy, PartialEq, Eq, Structural)]
pub struct NfcPoller {
    /// Whether the last scan found a tag.
    pub last_tag_present: bool,
    /// Whether the data of the tag on the reader needs no more reading.
    pub tag_data_read: bool,
}

/// The memory of the poll loop and the decision after a scan. A tag that
/// appears is read afresh; a tag that stays is read until its data was read
/// or reading failed; a tag that goes is forgotten.
pub open spec fn spec_on_scan(poller: NfcPoller, found: bool) -> (NfcPoller, ScanDecision) {
    let appeared = found && !poller.last_tag_present;
    let removed = !found && poller.last_tag_present;
    let read_data = found && (appeared || !poller.tag_data_read);
    (
        NfcPoller {
            last_tag_present: found,
            tag_data_read: if appeared || removed {
                false
            } else {
                poller.tag_data_read
            },
        },
        ScanDecision { appeared, removed, read_data },
    )
}

/// The memory of the poll loop after an attempt to read the data of a tag.
pub open spec fn spec_on_read(poller: NfcPoller, outcome: ReadOutcome) -> NfcPoller {
    NfcPoller {
        last_tag_present: poller.last_tag_present,
        tag_data_read: poller.tag_data_read || outcome != ReadOutcome::NotYet,
    }
}

impl NfcPoller {
    /// The memory before the first scan.
    pub fn new() -> (poller: Self)
        ensures
            poller == (NfcPoller { last_tag_present: false, tag_data_read: false }),
    {
        NfcPoller { last_tag_present: false, tag_data_read: false }
    }

    /// Takes in whether a scan found a tag.
    pub fn on_scan(&mut self, found: bool) -> (decision: ScanDecision)
        ensures
            (*final(self), decision) == spec_on_scan(*old(self), found),
    {
        let appeared = found && !self.last_tag_present;
        let removed = !found && self.last_tag_present;
        let read_data = found && (appeared || !self.tag_data_read);
        if appeared || removed {
            self.tag_data_read = false;
        }
        self.last_tag_present = found;
        ScanDecision { appeared, removed, read_data }
    }

    /// Takes in what came of reading the data of the tag.
    pub fn on_read(&mut self, outcome: ReadOutcome)
        ensures
            *final(self) == spec_on_read(*old(self), outcome),
    {
        if outcome != ReadOutcome::NotYet {
            self.tag_data_read = true;
        }
    }
}

/// A tag whose data was read, or could not be read, is not read again while
/// it stays on the reader.
pub proof fn lemma_read_once(poller: NfcPoller, outcome: ReadOutcome)
    requires
        poller.last_tag_present,
        outcome != ReadOutcome::NotYet,
    ensures
        !spec_on_scan(spec_on_read(poller, outcome), true).1.read_data,
        !spec_on_scan(spec_on_read(poller, outcome), true).1.appeared,
{
}

} // verus!
