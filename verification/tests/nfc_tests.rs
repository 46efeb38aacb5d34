use spoolbuddy::nfc::{init_bridge, init_nfc_manager, NfcPoller, ReadOutcome, ScanDecision};
use spoolbuddy::nfc::{
    apply_scan_response, apply_tag_data, clear_decoded_tag_data, copy_str_to_buf, decode_bambu_tag,
    decode_version, format_color_name, get_uid_hex, get_uid_hex_string, material_subtype,
    set_decoded_tag_data, BridgeError, DecodedTagData, NfcBridgeState, PICO_NFC_ADDR,
    TAG_TYPE_MIFARE_1K, TAG_TYPE_NTAG, TAG_TYPE_UNKNOWN,
};

fn blocks(material: &str, detailed: &str, color: [u8; 4], weight: [u8; 2]) -> Vec<u8> {
    let mut data = vec![0u8; 64];
    data[8..13].copy_from_slice(b"GFA00");
    data[16..16 + material.len()].copy_from_slice(material.as_bytes());
    data[32..32 + detailed.len()].copy_from_slice(detailed.as_bytes());
    data[48..52].copy_from_slice(&color);
    data[52..54].copy_from_slice(&weight);
    data
}

#[test]
fn fresh_bridge_state() {
    let state = NfcBridgeState::new();
    assert!(!state.initialized);
    assert_eq!(state.firmware_version, (0, 0));
    assert!(!state.tag_present);
    assert_eq!(state.tag_uid, [0; 10]);
    assert_eq!(state.tag_uid_len, 0);
    assert_eq!(state.tag_type, TAG_TYPE_UNKNOWN);
    assert!(state.decoded_info.is_none());
    assert_eq!(get_uid_hex(&state), None);
    assert_eq!(get_uid_hex_string(&state), "");
    let status = state.status();
    assert!(!status.initialized && !status.tag_present);
    assert_eq!((status.uid_len, status.uid), (0, [0; 10]));
    assert_eq!(PICO_NFC_ADDR, 0x55);
}

#[test]
fn identifier_as_text() {
    let mut state = NfcBridgeState::new();
    state.tag_present = true;
    state.tag_uid = [0x04, 0xAB, 0x0F, 0xF0, 0x00, 0x99, 0x10, 1, 2, 3];
    state.tag_uid_len = 1;
    assert_eq!(get_uid_hex(&state), Some("04".to_string()));
    state.tag_uid_len = 4;
    assert_eq!(get_uid_hex(&state), Some("04:AB:0F:F0".to_string()));
    state.tag_uid_len = 10;
    assert_eq!(get_uid_hex_string(&state), "04:AB:0F:F0:00:99:10:01:02:03");
    state.tag_present = false;
    assert_eq!(get_uid_hex(&state), None);
    state.tag_present = true;
    state.tag_uid_len = 0;
    assert_eq!(get_uid_hex(&state), None);
}

#[test]
fn version_answer() {
    assert_eq!(decode_version(&[0, 1, 7]), Ok((1, 7)));
    assert_eq!(decode_version(&[2, 1, 7]), Err(BridgeError::CommandFailed));
    assert_eq!(BridgeError::CommandFailed.message(), "Command failed");
}

#[test]
fn scan_answer() {
    let mut state = NfcBridgeState::new();
    state.tag_uid = [9; 10];
    let found = apply_scan_response(&mut state, &[0, 4, 1, 2, 3, 4, 5, 6, 7, 8, 9, 10]);
    assert!(found);
    assert!(state.tag_present);
    assert_eq!(state.tag_uid_len, 4);
    assert_eq!(state.tag_uid, [1, 2, 3, 4, 9, 9, 9, 9, 9, 9]);
    assert_eq!(get_uid_hex(&state), Some("01:02:03:04".to_string()));

    for answer in [[1u8, 4, 1, 2, 3, 4, 0, 0, 0, 0, 0, 0], [0, 0, 1, 2, 3, 4, 0, 0, 0, 0, 0, 0], [0, 11, 1, 2, 3, 4, 0, 0, 0, 0, 0, 0]] {
        let mut state = NfcBridgeState::new();
        apply_scan_response(&mut state, &[0, 10, 1, 2, 3, 4, 5, 6, 7, 8, 9, 10]);
        assert_eq!(state.tag_uid_len, 10);
        assert!(!apply_scan_response(&mut state, &answer));
        assert!(!state.tag_present);
        assert_eq!(state.tag_uid_len, 0);
        assert!(state.decoded_info.is_none());
    }
}

#[test]
fn colour_names() {
    assert_eq!(format_color_name(0xFF0000FF), "Red");
    assert_eq!(format_color_name(0x00FF00FF), "Green");
    assert_eq!(format_color_name(0x0000FFFF), "Blue");
    assert_eq!(format_color_name(0xFFFF00FF), "Yellow");
    assert_eq!(format_color_name(0xFFFFFFFF), "White");
    assert_eq!(format_color_name(0x000000FF), "Black");
    assert_eq!(format_color_name(0xFF8000FF), "Orange");
    assert_eq!(format_color_name(0x808080FF), "#808080");
    assert_eq!(format_color_name(0x0AB1C200), "#0AB1C2");
    assert_eq!(format_color_name(0xC8640000), "#C86400");
    assert_eq!(format_color_name(0xC9650000), "Orange");
}

#[test]
fn tag_blocks_are_decoded() {
    let data = blocks("PLA", "PLA Basic", [0xFF, 0x00, 0x00, 0xFF], [0xE8, 0x03]);
    let info = decode_bambu_tag(&data);
    assert_eq!(info.vendor, "Bambu");
    assert_eq!(info.material, "PLA");
    assert_eq!(info.material_subtype, "Basic");
    assert_eq!(info.color_name, "Red");
    assert_eq!(info.color_rgba, 0xFF0000FF);
    assert_eq!(info.spool_weight, 1000);
    assert_eq!(info.tag_type_name, "Bambu Lab");
    let negative = decode_bambu_tag(&blocks("PETG", "Bambu PETG HF", [1, 2, 3, 4], [0xFF, 0xFF]));
    assert_eq!(negative.material_subtype, "HF");
    assert_eq!(negative.spool_weight, -1);
    assert_eq!(negative.color_rgba, 0x01020304);
    assert_eq!(negative.color_name, "Black");
    let full = decode_bambu_tag(&blocks("ABCDEFGHIJKLMNOP", "x", [0, 0, 0, 0], [0, 0x80]));
    assert_eq!(full.material, "ABCDEFGHIJKLMNOP");
    assert_eq!(full.material_subtype, "x");
    assert_eq!(full.spool_weight, -32768);
}

#[test]
fn short_tag_data_says_nothing() {
    let info = decode_bambu_tag(&[1u8; 63]);
    assert_eq!(info.tag_type_name, "Bambu Lab");
    assert_eq!(info.vendor, "");
    assert_eq!(info.material, "");
    assert_eq!(info.color_rgba, 0);
    assert_eq!(info.spool_weight, 0);
}

#[test]
fn bytes_that_are_no_text_are_replaced() {
    let mut data = blocks("PLA", "PLA", [0, 0, 0, 0], [0, 0]);
    data[16] = 0xff;
    let info = decode_bambu_tag(&data);
    assert_eq!(info.material, "\u{fffd}LA");
    assert_eq!(info.material_subtype, "PLA");
}

#[test]
fn subtypes() {
    assert_eq!(material_subtype("Bambu PLA Matte", "PLA"), "Matte");
    assert_eq!(material_subtype("PLA  Silk ", "PLA"), "Silk");
    assert_eq!(material_subtype("PLA", "PLA"), "");
    assert_eq!(material_subtype("Support W", "PLA"), "Support W");
    assert_eq!(material_subtype("Bambu PLA", "PLA"), "Bambu PLA");
    assert_eq!(material_subtype("anything", ""), "anything");
}

#[test]
fn read_answer() {
    let mut resp = [0u8; 100];
    resp[1] = TAG_TYPE_MIFARE_1K;
    resp[2] = 4;
    resp[7..71].copy_from_slice(&blocks("PLA", "PLA Basic", [0, 0, 0xFF, 0xFF], [250, 0]));
    let mut state = NfcBridgeState::new();
    assert!(apply_tag_data(&mut state, &resp));
    assert_eq!(state.tag_type, TAG_TYPE_MIFARE_1K);
    let info = state.decoded_info.clone().unwrap();
    assert_eq!(info.material, "PLA");
    assert_eq!(info.color_name, "Blue");
    assert_eq!(info.spool_weight, 250);

    resp[1] = TAG_TYPE_NTAG;
    assert!(apply_tag_data(&mut state, &resp));
    assert_eq!(state.decoded_info.clone().unwrap().tag_type_name, "NTAG");
    assert_eq!(state.decoded_info.clone().unwrap().material, "");

    resp[0] = 2;
    resp[1] = 9;
    assert!(!apply_tag_data(&mut state, &resp));
    assert_eq!(state.tag_type, TAG_TYPE_NTAG);
    assert!(state.decoded_info.is_some());

    resp[0] = 0;
    assert!(!apply_tag_data(&mut state, &resp));
    assert_eq!(state.tag_type, 9);
    assert!(state.decoded_info.is_none());

    resp[1] = TAG_TYPE_MIFARE_1K;
    resp[2] = 97;
    assert!(apply_tag_data(&mut state, &resp));
    assert_eq!(state.decoded_info.clone().unwrap().vendor, "");
    let copy = state.clone();
    assert_eq!(copy.tag_type, TAG_TYPE_MIFARE_1K);
}

#[test]
fn fixed_fields() {
    let mut field = [7u8; 32];
    copy_str_to_buf("PLA", &mut field);
    assert_eq!(&field[..5], &[b'P', b'L', b'A', 0, 7]);
    copy_str_to_buf("0123456789012345678901234567890123456789", &mut field);
    assert_eq!(&field[..31], b"0123456789012345678901234567890");
    assert_eq!(field[31], 0);
    copy_str_to_buf("", &mut field);
    assert_eq!(&field[..2], &[0, b'1']);

    let mut data = DecodedTagData::default();
    set_decoded_tag_data(&mut data, "Bambu", "PLA", "Basic", "Red", 0xFF0000FF, 1000, "Bambu Lab");
    assert_eq!(&data.vendor[..6], b"Bambu\0");
    assert_eq!(&data.material[..4], b"PLA\0");
    assert_eq!(&data.material_subtype[..6], b"Basic\0");
    assert_eq!(&data.color_name[..4], b"Red\0");
    assert_eq!(&data.tag_type[..10], b"Bambu Lab\0");
    assert_eq!((data.color_rgba, data.spool_weight), (0xFF0000FF, 1000));
    clear_decoded_tag_data(&mut data);
    assert_eq!(data.vendor, [0; 32]);
    assert_eq!(data.tag_type, [0; 32]);
    assert_eq!((data.color_rgba, data.spool_weight), (0, 0));
}

#[test]
fn bridge_is_brought_up() {
    assert!(init_nfc_manager(false, Ok((1, 2))).is_none());
    let state = init_nfc_manager(true, Ok((1, 2))).unwrap();
    assert!(state.initialized);
    assert_eq!(state.firmware_version, (1, 2));
    let state = init_nfc_manager(true, Err(BridgeError::CommandFailed)).unwrap();
    assert!(state.initialized);
    assert_eq!(state.firmware_version, (0, 0));
    let mut state = NfcBridgeState::new();
    state.firmware_version = (3, 4);
    init_bridge(&mut state, Err(BridgeError::CommandFailed));
    assert_eq!(state.firmware_version, (3, 4));
    assert!(state.initialized);
}

#[test]
fn poll_loop_reads_a_tag_once() {
    let mut poller = NfcPoller::new();
    assert_eq!(poller.on_scan(false), ScanDecision { appeared: false, removed: false, read_data: false });
    assert_eq!(poller.on_scan(true), ScanDecision { appeared: true, removed: false, read_data: true });
    poller.on_read(ReadOutcome::NotYet);
    assert_eq!(poller.on_scan(true), ScanDecision { appeared: false, removed: false, read_data: true });
    poller.on_read(ReadOutcome::Decoded);
    assert_eq!(poller.on_scan(true), ScanDecision { appeared: false, removed: false, read_data: false });
    assert_eq!(poller.on_scan(false), ScanDecision { appeared: false, removed: true, read_data: false });
    assert_eq!(poller.on_scan(false), ScanDecision { appeared: false, removed: false, read_data: false });
    assert_eq!(poller.on_scan(true), ScanDecision { appeared: true, removed: false, read_data: true });
    poller.on_read(ReadOutcome::Failed);
    assert_eq!(poller.on_scan(true), ScanDecision { appeared: false, removed: false, read_data: false });
    assert_eq!(poller, NfcPoller { last_tag_present: true, tag_data_read: true });
}
