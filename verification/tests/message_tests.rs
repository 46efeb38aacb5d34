use spoolbuddy::messages::{
    as_str_se, ignore_errors, option_as_str_de, option_as_str_se, option_u32_as_str_de,
    option_u32_as_str_hex_de, option_u32_as_str_hex_se, option_u32_as_str_se, u32_as_str_de,
    u32_as_str_hex_se, u32_as_str_se, AmsFilamentSettingCommand, ExtrusionCaliGetCommand,
    ExtrusionCaliSelCommand, ExtrusionCaliSetCommand, GcodeState, GetVersionCommand, NumberError,
    PushAllCommand,
};
use spoolbuddy::session::{
    decode_request, encode_command, PrinterCommand, WireRequest,
};
use spoolbuddy::text::{parse_i32_decimal, parse_u32_decimal, parse_u32_hex, u32_to_hex};
use spoolbuddy::wire::{request_payload, setting_payload, simple_payload, SettingLiterals};

#[test]
fn test_push_all_command() {
    let cmd = PushAllCommand::new();
    let json = request_payload(&WireRequest::PushAll(cmd)).unwrap();
    assert!(json.contains("pushall"));
}

#[test]
fn test_ams_filament_setting() {
    let cmd = AmsFilamentSettingCommand::new(0, 0, 0, "GFL99", None, "PLA", "FF0000FF", 190, 250);
    let json = request_payload(&WireRequest::AmsFilamentSetting(cmd)).unwrap();
    assert!(json.contains("ams_filament_setting"));
    assert!(json.contains("GFL99"));
}

#[test]
fn push_all_payload_is_exact() {
    let json = request_payload(&encode_command(&PrinterCommand::PushAll)).unwrap();
    assert_eq!(json, "{\"pushing\":{\"command\":\"pushall\",\"sequence_id\":\"1\"}}");
    let json = request_payload(&encode_command(&PrinterCommand::GetVersion)).unwrap();
    assert_eq!(json, "{\"info\":{\"command\":\"get_version\",\"sequence_id\":\"1\"}}");
}

#[test]
fn filament_setting_payload_is_exact() {
    let cmd = AmsFilamentSettingCommand::new(1, 2, 6, "GFL99", None, "PLA", "FF0000FF", 190, 250);
    let json = request_payload(&WireRequest::AmsFilamentSetting(cmd)).unwrap();
    assert_eq!(
        json,
        "{\"print\":{\"command\":\"ams_filament_setting\",\"ams_id\":1,\"tray_id\":2,\"slot_id\":6,\"tray_info_idx\":\"GFL99\",\"tray_color\":\"FF0000FF\",\"nozzle_temp_min\":190,\"nozzle_temp_max\":250,\"tray_type\":\"PLA\",\"sequence_id\":\"1\"}}"
    );
    let cmd = AmsFilamentSettingCommand::new(-1, 0, -2147483648, "a", Some("s"), "t", "c", 0, 4294967295);
    let json = request_payload(&WireRequest::AmsFilamentSetting(cmd)).unwrap();
    assert_eq!(
        json,
        "{\"print\":{\"command\":\"ams_filament_setting\",\"ams_id\":-1,\"tray_id\":0,\"slot_id\":-2147483648,\"tray_info_idx\":\"a\",\"setting_id\":\"s\",\"tray_color\":\"c\",\"nozzle_temp_min\":0,\"nozzle_temp_max\":4294967295,\"tray_type\":\"t\",\"sequence_id\":\"1\"}}"
    );
}

#[test]
fn texts_of_a_payload_are_escaped() {
    let cmd = AmsFilamentSettingCommand::new(0, 0, 0, "a\"b", None, "line\nbreak", "back\\slash", 1, 2);
    let json = request_payload(&WireRequest::AmsFilamentSetting(cmd)).unwrap();
    assert!(json.contains("\"tray_info_idx\":\"a\\\"b\""));
    assert!(json.contains("\"tray_type\":\"line\\nbreak\""));
    assert!(json.contains("\"tray_color\":\"back\\\\slash\""));
}

#[test]
fn payloads_from_given_literals() {
    assert_eq!(simple_payload("{\"x\":{\"command\":", "\"c\"", None), "{\"x\":{\"command\":\"c\"}}");
    assert_eq!(
        simple_payload("{\"x\":{\"command\":", "\"c\"", Some("\"7\"")),
        "{\"x\":{\"command\":\"c\",\"sequence_id\":\"7\"}}"
    );
    let cmd = AmsFilamentSettingCommand::new(3, 1, 13, "", None, "", "", 5, 6);
    let literals = SettingLiterals {
        command: "C".to_string(),
        tray_info_idx: "I".to_string(),
        setting_id: Some("S".to_string()),
        tray_color: "K".to_string(),
        tray_type: "T".to_string(),
        sequence_id: "Q".to_string(),
    };
    assert_eq!(
        setting_payload(&cmd.print, &literals),
        "{\"print\":{\"command\":C,\"ams_id\":3,\"tray_id\":1,\"slot_id\":13,\"tray_info_idx\":I,\"setting_id\":S,\"tray_color\":K,\"nozzle_temp_min\":5,\"nozzle_temp_max\":6,\"tray_type\":T,\"sequence_id\":Q}}"
    );
}

#[test]
fn commands_survive_encoding_and_decoding() {
    let commands = vec![
        PrinterCommand::PushAll,
        PrinterCommand::GetVersion,
        PrinterCommand::SetFilament {
            ams_id: 0,
            tray_id: 3,
            slot_id: 3,
            tray_info_idx: "GFL99".to_string(),
            tray_type: "PLA".to_string(),
            tray_color: "FF0000FF".to_string(),
            nozzle_temp_min: 190,
            nozzle_temp_max: 250,
        },
    ];
    for command in commands {
        let back = decode_request(&encode_command(&command)).unwrap();
        assert_eq!(format!("{:?}", back), format!("{:?}", command));
    }
}

#[test]
fn request_with_a_foreign_word_is_no_command() {
    let mut cmd = PushAllCommand::new();
    cmd.pushing.command = "pushsome".to_string();
    assert!(decode_request(&WireRequest::PushAll(cmd)).is_none());
    let mut cmd = GetVersionCommand::new();
    cmd.info.command = String::new();
    assert!(decode_request(&WireRequest::GetVersion(cmd)).is_none());
    let mut cmd = AmsFilamentSettingCommand::new(0, 0, 0, "a", None, "b", "c", 1, 2);
    cmd.print.command = "pushall".to_string();
    assert!(decode_request(&WireRequest::AmsFilamentSetting(cmd)).is_none());
}

#[test]
fn command_constructors_fill_every_field() {
    let cmd = PushAllCommand::new();
    assert_eq!(cmd.pushing.command, "pushall");
    assert_eq!(cmd.pushing.sequence_id, Some("1".to_string()));
    let cmd = GetVersionCommand::new();
    assert_eq!(cmd.info.command, "get_version");
    assert_eq!(cmd.info.sequence_id, Some("1".to_string()));
    let cmd = AmsFilamentSettingCommand::new(1, 2, 3, "idx", Some("set"), "type", "color", 4, 5);
    assert_eq!(cmd.print.command, "ams_filament_setting");
    assert_eq!((cmd.print.ams_id, cmd.print.tray_id, cmd.print.slot_id), (1, 2, 3));
    assert_eq!(cmd.print.tray_info_idx, "idx");
    assert_eq!(cmd.print.setting_id, Some("set".to_string()));
    assert_eq!(cmd.print.tray_type, "type");
    assert_eq!(cmd.print.tray_color, "color");
    assert_eq!((cmd.print.nozzle_temp_min, cmd.print.nozzle_temp_max), (4, 5));
    assert_eq!(cmd.print.sequence_id, "1");
    let cmd = ExtrusionCaliGetCommand::new("0.4");
    assert_eq!(cmd.print.command, "extrusion_cali_get");
    assert_eq!(cmd.print.filament_id, "");
    assert_eq!(cmd.print.nozzle_diameter, "0.4");
    assert_eq!(cmd.print.sequence_id, "1");
    let cmd = ExtrusionCaliSelCommand::new("0.4", 1, 2, 3, "GFL99", None);
    assert_eq!(cmd.print.command, "extrusion_cali_sel");
    assert_eq!(cmd.print.cali_idx, -1);
    assert_eq!((cmd.print.ams_id, cmd.print.tray_id, cmd.print.slot_id), (1, 2, 3));
    assert_eq!(cmd.print.filament_id, "GFL99");
    let cmd = ExtrusionCaliSelCommand::new("0.4", 1, 2, 3, "GFL99", Some(7));
    assert_eq!(cmd.print.cali_idx, 7);
    let cmd = ExtrusionCaliSetCommand::new(1, "0.4", "HS00-0.4", "GFL99", "GFSL99", "0.020000", "mine");
    assert_eq!(cmd.print.command, "extrusion_cali_set");
    assert_eq!(cmd.print.nozzle_diameter, "0.4");
    assert_eq!(cmd.print.sequence_id, "1");
    assert_eq!(cmd.print.filaments.len(), 1);
    let f = &cmd.print.filaments[0];
    assert_eq!((f.ams_id, f.extruder_id, f.slot_id, f.tray_id), (0, 1, 0, -1));
    assert_eq!(f.filament_id, "GFL99");
    assert_eq!(f.k_value, "0.020000");
    assert_eq!(f.n_coef, "0.000000");
    assert_eq!(f.name, "mine");
    assert_eq!(f.nozzle_diameter, "0.4");
    assert_eq!(f.nozzle_id, "HS00-0.4");
    assert_eq!(f.setting_id, "GFSL99");
}

#[test]
fn decimal_text_round_trips() {
    for x in [0u32, 1, 9, 10, 99, 100, 4294967295] {
        assert_eq!(u32_as_str_se(&x), x.to_string());
        assert_eq!(u32_as_str_de(&u32_as_str_se(&x)), Ok(x));
    }
    for x in [0i32, 1, -1, 10, -10, 2147483647, -2147483648] {
        assert_eq!(as_str_se(&x), x.to_string());
        assert_eq!(option_as_str_de(Some(&as_str_se(&x))), Ok(Some(x)));
    }
}

#[test]
fn decimal_text_is_read_as_the_standard_reads_it() {
    assert_eq!(parse_u32_decimal("007"), Some(7));
    assert_eq!(parse_u32_decimal("+7"), Some(7));
    assert_eq!(parse_u32_decimal("4294967295"), Some(4294967295));
    assert_eq!(parse_u32_decimal("4294967296"), None);
    assert_eq!(parse_u32_decimal("99999999999999999999999"), None);
    assert_eq!(parse_u32_decimal(""), None);
    assert_eq!(parse_u32_decimal("+"), None);
    assert_eq!(parse_u32_decimal("-1"), None);
    assert_eq!(parse_u32_decimal("1 "), None);
    assert_eq!(parse_u32_decimal("0x10"), None);
    assert_eq!(parse_i32_decimal("-2147483648"), Some(-2147483648));
    assert_eq!(parse_i32_decimal("-2147483649"), None);
    assert_eq!(parse_i32_decimal("2147483647"), Some(2147483647));
    assert_eq!(parse_i32_decimal("2147483648"), None);
    assert_eq!(parse_i32_decimal("+12"), Some(12));
    assert_eq!(parse_i32_decimal("-0"), Some(0));
    assert_eq!(parse_i32_decimal("-"), None);
    assert_eq!(parse_i32_decimal("--1"), None);
    assert_eq!(parse_i32_decimal("-+1"), None);
    assert_eq!(parse_i32_decimal(""), None);
}

#[test]
fn hexadecimal_text_round_trips() {
    for x in [0u32, 9, 10, 15, 16, 255, 0xdeadbeef, 0xffffffff] {
        assert_eq!(u32_as_str_hex_se(&x), format!("{:x}", x));
        assert_eq!(option_u32_as_str_hex_de(Some(&u32_to_hex(x))), Ok(Some(x)));
    }
    assert_eq!(parse_u32_hex("FF"), Some(255));
    assert_eq!(parse_u32_hex("+fF"), Some(255));
    assert_eq!(parse_u32_hex("100000000"), None);
    assert_eq!(parse_u32_hex("g"), None);
    assert_eq!(parse_u32_hex(""), None);
    assert_eq!(parse_u32_hex("0x1"), None);
}

#[test]
fn optional_numbers_as_text() {
    assert_eq!(option_u32_as_str_se(&None), None);
    assert_eq!(option_u32_as_str_se(&Some(42)), Some("42".to_string()));
    assert_eq!(option_u32_as_str_de(None), Ok(None));
    assert_eq!(option_u32_as_str_de(Some("42")), Ok(Some(42)));
    assert_eq!(option_u32_as_str_de(Some("4x")), Err(NumberError::Invalid));
    assert_eq!(u32_as_str_de("x"), Err(NumberError::Invalid));
    assert_eq!(option_as_str_se(&Some(-5)), Some("-5".to_string()));
    assert_eq!(option_as_str_se(&None), None);
    assert_eq!(option_as_str_de(None), Ok(None));
    assert_eq!(option_as_str_de(Some("")), Err(NumberError::Invalid));
    assert_eq!(option_u32_as_str_hex_se(&Some(255)), Some("ff".to_string()));
    assert_eq!(option_u32_as_str_hex_se(&None), None);
    assert_eq!(option_u32_as_str_hex_de(None), Ok(None));
    assert_eq!(option_u32_as_str_hex_de(Some("zz")), Err(NumberError::Invalid));
}

#[test]
fn faulty_optional_table_is_dropped() {
    let good: Result<u8, String> = Ok(3);
    let bad: Result<u8, String> = Err("no".to_string());
    assert_eq!(ignore_errors(good), Some(3));
    assert_eq!(ignore_errors(bad), None);
}

#[test]
fn phase_words() {
    let all = [
        (GcodeState::Unknown, "Unknown"),
        (GcodeState::IDLE, "IDLE"),
        (GcodeState::SLICING, "SLICING"),
        (GcodeState::PREPARE, "PREPARE"),
        (GcodeState::RUNNING, "RUNNING"),
        (GcodeState::FINISH, "FINISH"),
        (GcodeState::FAILED, "FAILED"),
        (GcodeState::PAUSE, "PAUSE"),
        (GcodeState::Unsupported, "Unsupported"),
    ];
    for (state, word) in all {
        assert_eq!(state.name(), word);
        assert_eq!(GcodeState::from_name(word), state);
    }
    assert_eq!(GcodeState::from_name("OFFLINE"), GcodeState::Unsupported);
    assert_eq!(GcodeState::from_name("running"), GcodeState::Unsupported);
    assert_eq!(GcodeState::from_name(""), GcodeState::Unsupported);
    assert_eq!(GcodeState::default(), GcodeState::Unknown);
}
