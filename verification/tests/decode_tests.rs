use serde_json::Value;
use spoolbuddy::decode::{decode_message, decode_wire_request, Decode};
use spoolbuddy::json::{member, Json, JsonNumber, NumberKind};
use spoolbuddy::manager::PrinterManager;
use spoolbuddy::messages::{GcodeState, Info, Message, Print, PrintTray};
use spoolbuddy::session::{
    decode_request, encode_command, BambuMqttClient, PrinterCommand, PrinterConfig, PrinterEvent,
    SessionInput, WireRequest,
};
use spoolbuddy::wire::request_payload;

fn tree(value: Value) -> Json {
    match value {
        Value::Null => Json::Null,
        Value::Bool(b) => Json::Bool(b),
        Value::Number(n) => Json::Number(if let Some(u) = n.as_u64() {
            JsonNumber { kind: NumberKind::PosInt(u), single: (u as f32).to_bits() }
        } else if let Some(i) = n.as_i64() {
            JsonNumber { kind: NumberKind::NegInt(i), single: (i as f32).to_bits() }
        } else {
            JsonNumber { kind: NumberKind::Float, single: (n.as_f64().unwrap() as f32).to_bits() }
        }),
        Value::String(s) => Json::Text(s),
        Value::Array(items) => Json::Array(items.into_iter().map(tree).collect()),
        Value::Object(members) => {
            Json::Object(members.into_iter().map(|(k, v)| (k, tree(v))).collect())
        }
    }
}

fn parse(text: &str) -> Json {
    tree(serde_json::from_str::<Value>(text).unwrap())
}

fn report(text: &str) -> Option<Print> {
    Print::decode(&parse(text)).ok()
}

fn client() -> BambuMqttClient {
    let mut client = BambuMqttClient::new(PrinterConfig {
        serial: "S1".to_string(),
        ip_address: "10.0.0.9".to_string(),
        access_code: "secret".to_string(),
        name: None,
    });
    client.step(SessionInput::TransportOpened);
    client.step(SessionInput::ConnAck);
    client.step(SessionInput::Ready);
    client
}

#[test]
fn running_payload_becomes_running_state() {
    let payload = parse(r#"{"print":{"gcode_state":"RUNNING","layer_num":10,"total_layer_num":120}}"#);
    match client().handle_payload(Some(&payload)) {
        Some(PrinterEvent::StateUpdate { serial, state }) => {
            assert_eq!(serial, "S1");
            assert_eq!(state.gcode_state, Some("RUNNING".to_string()));
            assert_eq!(state.phase(), GcodeState::RUNNING);
            assert_eq!(state.layer_num, Some(10));
            assert_eq!(state.total_layer_num, Some(120));
            assert_eq!(state.print_progress, None);
            assert!(state.ams_trays.is_empty());
            assert!(state.vt_tray.is_none());
        }
        other => panic!("{:?}", other),
    }
}

#[test]
fn numbers_that_travel_as_text_are_read() {
    let text = r#"{"print":{
        "gcode_file_prepare_percent":"42",
        "subtask_name":"benchy",
        "nozzle_temp_max":260,
        "ams":{"ams":[
            {"id":"0","humidity":"3","info":"1003","tray":[
                {"id":"0","tray_type":"PLA","tray_color":"FF0000FF","tray_info_idx":"GFL99","k":0.02,"cali_idx":-1,"nozzle_temp_max":"240","nozzle_temp_min":"190"},
                {"id":"1"},
                {}
            ]},
            {"id":"1","humidity":"4","tray":[]}
        ],"tray_tar":"255","tray_now":"-1","tray_exist_bits":"3"},
        "vt_tray":{"id":"254","tray_type":"TPU","k":1},
        "ams_mapping":[0,-1,3],
        "ams_mapping2":[{"ams_id":0,"slot_id":2}],
        "use_ams":true,
        "unknown_member":{"x":[1,2,3]}
    }}"#;
    let data = report(text).unwrap().print;
    assert_eq!(data.gcode_file_prepare_percent, Some(42));
    assert_eq!(data.subtask_name, Some("benchy".to_string()));
    assert_eq!(data.nozzle_temp_max, Some(260));
    assert_eq!(data.ams_mapping, Some(vec![0, -1, 3]));
    assert_eq!(data.ams_mapping2.as_ref().unwrap()[0].slot_id, 2);
    assert_eq!(data.use_ams, Some(true));
    let ams = data.ams.as_ref().unwrap();
    assert_eq!(ams.tray_tar, Some(255));
    assert_eq!(ams.tray_now, Some(-1));
    assert_eq!(ams.tray_pre, None);
    assert_eq!(ams.tray_exist_bits, Some("3".to_string()));
    let units = ams.ams.as_ref().unwrap();
    assert_eq!(units.len(), 2);
    assert_eq!((units[0].id, units[1].id), (0, 1));
    assert_eq!(units[0].info, Some(0x1003));
    assert_eq!(units[1].info, None);
    assert_eq!(units[0].tray.len(), 3);
    let first = &units[0].tray[0];
    assert_eq!(first.id, Some(0));
    assert_eq!(first.k, Some(0.02f32.to_bits()));
    assert_eq!(first.cali_idx, Some(-1));
    assert_eq!((first.nozzle_temp_max, first.nozzle_temp_min), (Some(240), Some(190)));
    assert_eq!(units[0].tray[1].id, Some(1));
    assert_eq!(units[0].tray[2], PrintTray::default());
    let external = data.vt_tray.as_ref().unwrap();
    assert_eq!(external.id, Some(254));
    assert_eq!(external.k, Some(1.0f32.to_bits()));

    let state = spoolbuddy::session::state_from_report(&data);
    let listed: Vec<(u32, u32)> = state.ams_trays.iter().map(|t| (t.ams_id, t.tray_id)).collect();
    assert_eq!(listed, vec![(0, 0), (0, 1)]);
    assert_eq!(state.vt_tray.unwrap().tray_id, 254);
}

#[test]
fn null_is_absence() {
    let data = report(r#"{"print":{"layer_num":null,"subtask_name":null,"ams":null,"gcode_state":null}}"#)
        .unwrap()
        .print;
    assert_eq!(data.layer_num, None);
    assert_eq!(data.subtask_name, None);
    assert!(data.ams.is_none());
    assert!(data.gcode_state.is_none());
    assert!(report(r#"{"print":{}}"#).is_some());
}

#[test]
fn phase_words_of_a_payload() {
    let phase = |word: &str| {
        report(&format!("{{\"print\":{{\"gcode_state\":\"{}\"}}}}", word)).unwrap().print.gcode_state
    };
    assert_eq!(phase("IDLE"), Some(GcodeState::IDLE));
    assert_eq!(phase("FINISH"), Some(GcodeState::FINISH));
    assert_eq!(phase("Unknown"), Some(GcodeState::Unknown));
    assert_eq!(phase("OFFLINE"), Some(GcodeState::Unsupported));
    assert!(report(r#"{"print":{"gcode_state":7}}"#).is_none());
}

#[test]
fn malformed_reports_are_no_reports() {
    let malformed = [
        r#"{"print":{"layer_num":"10"}}"#,
        r#"{"print":{"layer_num":10.5}}"#,
        r#"{"print":{"layer_num":2147483648}}"#,
        r#"{"print":{"nozzle_temp_max":-1}}"#,
        r#"{"print":{"subtask_name":5}}"#,
        r#"{"print":{"use_ams":"yes"}}"#,
        r#"{"print":{"gcode_file_prepare_percent":42}}"#,
        r#"{"print":{"gcode_file_prepare_percent":"4x"}}"#,
        r#"{"print":{"ams":{"ams":[{"id":"0","tray":[]}]}}}"#,
        r#"{"print":{"ams":{"ams":[{"id":0,"humidity":"3","tray":[]}]}}}"#,
        r#"{"print":{"ams":{"ams":[{"id":"0","humidity":"3","tray":[{"id":"one"}]}]}}}"#,
        r#"{"print":{"ams":{"ams":[{"id":"0","humidity":"3","tray":[],"info":"xyz"}]}}}"#,
        r#"{"print":{"ams":{"tray_tar":"1.5"}}}"#,
        r#"{"print":{"ams_mapping":[1,"2"]}}"#,
        r#"{"print":{"filaments":[{"name":"x"}]}}"#,
        r#"{"print":{"device":{"extruder":{"state":1}}}}"#,
        r#"{"print":[1,2]}"#,
        r#"{"print":null}"#,
        r#"{"printing":{}}"#,
        r#"{"system":{"command":"ledctrl"}}"#,
        r#"[]"#,
        r#""print""#,
        r#"17"#,
    ];
    let session = client();
    for text in malformed {
        let payload = parse(text);
        assert!(Print::decode(&payload).is_err(), "{}", text);
        assert!(decode_message(&payload).is_none(), "{}", text);
        assert!(session.handle_payload(Some(&payload)).is_none(), "{}", text);
    }
    assert!(session.handle_payload(None).is_none());
}

#[test]
fn malformed_payload_leaves_the_manager_alone() {
    let mut manager = PrinterManager::new();
    manager
        .connect("S1".to_string(), "10.0.0.9".to_string(), "secret".to_string(), None)
        .unwrap();
    manager.handle_event(PrinterEvent::Connected { serial: "S1".to_string() });
    let session = client();
    for text in [r#"{"print":{"layer_num":"ten"}}"#, r#"{"event":{"x":1}}"#] {
        if let Some(event) = session.handle_payload(Some(&parse(text))) {
            manager.handle_event(event);
        }
    }
    assert!(manager.is_connected("S1"));
    assert!(manager.get_state("S1").is_none());
    if let Some(event) = session.handle_payload(Some(&parse(r#"{"print":{"layer_num":3}}"#))) {
        manager.handle_event(event);
    }
    assert_eq!(manager.get_state("S1").unwrap().layer_num, Some(3));
}

#[test]
fn nozzle_table_that_cannot_be_read_is_left_out() {
    let data = report(
        r#"{"print":{"device":{"extruder":{"info":[{"id":0,"snow":1,"spre":2,"star":3}],"state":2},"nozzle":{"info":"broken"}}}}"#,
    )
    .unwrap()
    .print;
    let device = data.device.unwrap();
    assert!(device.nozzle.is_none());
    let extruder = device.extruder.unwrap();
    assert_eq!(extruder.state, Some(2));
    assert_eq!(extruder.info[0].star, 3);
    let data = report(
        r#"{"print":{"device":{"nozzle":{"info":[{"id":0,"diameter":0.4,"type":"HS00"}],"exist":1}}}}"#,
    )
    .unwrap()
    .print;
    let nozzle = data.device.unwrap().nozzle.unwrap();
    assert_eq!(nozzle.info[0].diameter, 0.4f32.to_bits());
    assert_eq!(nozzle.info[0].nozzle_type, "HS00");
    assert_eq!(nozzle.exist, Some(1));
    let data = report(r#"{"print":{"device":{"nozzle":null}}}"#).unwrap().print;
    assert!(data.device.unwrap().nozzle.is_none());
}

#[test]
fn version_answer_is_recognised_after_the_report() {
    let answer = r#"{"info":{"command":"get_version","sequence_id":"1","module":[
        {"name":"ota","sw_ver":"01.07.00.00","hw_ver":"OTA","sn":"00M09A1","flag":3,"project_name":"C11"}
    ],"result":"success"}}"#;
    match decode_message(&parse(answer)) {
        Some(Message::Info(info)) => {
            assert_eq!(info.info.command, "get_version");
            assert_eq!(info.info.module.len(), 1);
            assert_eq!(info.info.module[0].sn, "00M09A1");
            assert_eq!(info.info.module[0].flag, Some(3));
            assert_eq!(info.info.module[0].project_name, Some("C11".to_string()));
            assert_eq!(info.info.module[0].loader_ver, None);
            assert_eq!(info.info.result, Some("success".to_string()));
        }
        other => panic!("{:?}", other),
    }
    assert!(client().handle_payload(Some(&parse(answer))).is_none());
    assert!(Info::decode(&parse(r#"{"info":{"command":"get_version","sequence_id":"1"}}"#)).is_err());
    assert!(Info::decode(&parse(r#"{"info":{"command":"x","sequence_id":1,"module":[]}}"#)).is_err());
    let both = parse(r#"{"info":{"command":"c","sequence_id":"1","module":[]},"print":{"layer_num":1}}"#);
    assert!(matches!(decode_message(&both), Some(Message::Print(_))));
    let second = parse(r#"{"info":{"command":"c","sequence_id":"1","module":[]},"print":{"layer_num":"x"}}"#);
    assert!(matches!(decode_message(&second), Some(Message::Info(_))));
}

#[test]
fn first_member_of_a_name_counts() {
    let members = vec![
        ("a".to_string(), Json::Bool(true)),
        ("b".to_string(), Json::Null),
        ("a".to_string(), Json::Bool(false)),
    ];
    assert_eq!(member(&members, "a"), Some(&Json::Bool(true)));
    assert_eq!(member(&members, "b"), Some(&Json::Null));
    assert_eq!(member(&members, "c"), None);
    assert_eq!(spoolbuddy::json::present(&members, "b"), None);
}

fn filament(ams_id: i32, slot_id: i32, idx: &str, kind: &str, color: &str, min: u32, max: u32) -> PrinterCommand {
    PrinterCommand::SetFilament {
        ams_id,
        tray_id: 3,
        slot_id,
        tray_info_idx: idx.to_string(),
        tray_type: kind.to_string(),
        tray_color: color.to_string(),
        nozzle_temp_min: min,
        nozzle_temp_max: max,
    }
}

#[test]
fn commands_survive_the_wire() {
    let commands = vec![
        PrinterCommand::PushAll,
        PrinterCommand::GetVersion,
        filament(0, 3, "GFL99", "PLA", "FF0000FF", 190, 250),
        filament(-2147483648, 2147483647, "", "", "", 0, 4294967295),
        filament(1, -1, "quote\"inside", "back\\slash\n\ttab", "\u{1}\u{7f}\u{fc}\u{1f5a8}", 1, 2),
    ];
    for command in commands {
        let text = request_payload(&encode_command(&command)).unwrap();
        let tree = parse(&text);
        let request = decode_wire_request(&tree).unwrap();
        let back = decode_request(&request).unwrap();
        assert_eq!(format!("{:?}", back), format!("{:?}", command), "{}", text);
    }
}

#[test]
fn requests_are_told_apart_by_their_shape() {
    assert!(matches!(
        decode_wire_request(&parse(r#"{"pushing":{"command":"pushall","sequence_id":"1"}}"#)),
        Some(WireRequest::PushAll(_))
    ));
    assert!(matches!(
        decode_wire_request(&parse(r#"{"pushing":{"command":"pushall"}}"#)),
        Some(WireRequest::PushAll(_))
    ));
    assert!(matches!(
        decode_wire_request(&parse(r#"{"info":{"command":"get_version","sequence_id":"1"}}"#)),
        Some(WireRequest::GetVersion(_))
    ));
    assert!(decode_wire_request(&parse(r#"{"print":{"command":"ams_filament_setting"}}"#)).is_none());
    assert!(decode_wire_request(&parse(r#"{"pushing":{"sequence_id":"1"}}"#)).is_none());
    assert!(decode_wire_request(&parse(r#"{"pushing":{"command":7}}"#)).is_none());
    assert!(decode_wire_request(&parse(r#"{}"#)).is_none());
    let full = r#"{"print":{"command":"ams_filament_setting","ams_id":1,"tray_id":2,"slot_id":6,"tray_info_idx":"GFL99","setting_id":"S","tray_color":"FF0000FF","nozzle_temp_min":190,"nozzle_temp_max":250,"tray_type":"PLA","sequence_id":"1"}}"#;
    match decode_wire_request(&parse(full)) {
        Some(WireRequest::AmsFilamentSetting(cmd)) => {
            assert_eq!(cmd.print.setting_id, Some("S".to_string()));
            assert_eq!(cmd.print.slot_id, 6);
            assert_eq!(request_payload(&WireRequest::AmsFilamentSetting(cmd)).unwrap(), full);
        }
        other => panic!("{:?}", other),
    }
    let negative = full.replace("\"nozzle_temp_min\":190", "\"nozzle_temp_min\":-190");
    assert!(decode_wire_request(&parse(&negative)).is_none());
}
