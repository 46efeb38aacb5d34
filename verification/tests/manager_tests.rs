use spoolbuddy::manager::slot_fits;
use spoolbuddy::indicators::{battery_bars, wifi_signal_bars, ThemeMode};
use spoolbuddy::manager::{ManagerError, PrinterManager};
use spoolbuddy::messages::{GcodeState, PrintData};
use spoolbuddy::session::{
    state_from_report, BambuMqttClient, PrinterCommand, PrinterEvent, PrinterState, SessionInput,
};

fn connect(manager: &mut PrinterManager, serial: &str) -> Result<(), ManagerError> {
    manager
        .connect(serial.to_string(), "10.0.0.9".to_string(), "secret".to_string(), None)
        .map(|_| ())
}

fn state_at_layer(layer: i32) -> PrinterState {
    state_from_report(&PrintData {
        gcode_state: Some(GcodeState::RUNNING),
        layer_num: Some(layer),
        ..Default::default()
    })
}

fn update(serial: &str, layer: i32) -> PrinterEvent {
    PrinterEvent::StateUpdate { serial: serial.to_string(), state: state_at_layer(layer) }
}

#[test]
fn connect_then_active_then_disconnect() {
    let mut manager = PrinterManager::new();
    let config = manager
        .connect("S1".to_string(), "10.0.0.9".to_string(), "secret".to_string(), None)
        .unwrap();
    assert_eq!(config.serial, "S1");
    assert_eq!(config.ip_address, "10.0.0.9");
    assert_eq!(config.access_code, "secret");
    assert!(manager.has_session("S1"));
    assert!(!manager.is_connected("S1"));

    let mut client = BambuMqttClient::new(config);
    client.step(SessionInput::TransportOpened);
    client.step(SessionInput::ConnAck);
    let action = client.step(SessionInput::Ready);
    manager.handle_event(client.announcement(action).unwrap());
    assert!(manager.is_connected("S1"));
    manager.handle_event(update("S1", 3));
    assert_eq!(manager.get_state("S1").unwrap().layer_num, Some(3));

    assert!(manager.disconnect("S1"));
    assert!(!manager.is_connected("S1"));
    assert!(manager.get_state("S1").is_none());
    assert!(!manager.has_session("S1"));
    assert!(manager.get_connection_statuses().is_empty());
}

#[test]
fn second_connect_is_refused_and_changes_nothing() {
    let mut manager = PrinterManager::new();
    assert!(connect(&mut manager, "S1").is_ok());
    manager.handle_event(PrinterEvent::Connected { serial: "S1".to_string() });
    manager.handle_event(update("S1", 8));
    match connect(&mut manager, "S1") {
        Err(ManagerError::AlreadyConnected { serial }) => assert_eq!(serial, "S1"),
        other => panic!("{:?}", other),
    }
    assert!(manager.is_connected("S1"));
    assert_eq!(manager.get_state("S1").unwrap().layer_num, Some(8));
    assert_eq!(manager.get_connection_statuses(), vec![("S1".to_string(), true)]);
    manager.handle_event(PrinterEvent::Disconnected { serial: "S1".to_string() });
    assert!(matches!(connect(&mut manager, "S1"), Err(ManagerError::AlreadyConnected { .. })));
    assert!(manager.disconnect("S1"));
    assert!(connect(&mut manager, "S1").is_ok());
}

#[test]
fn disconnect_of_an_unknown_serial_is_a_no_op() {
    let mut manager = PrinterManager::new();
    assert!(!manager.disconnect("nobody"));
    assert!(manager.get_connection_statuses().is_empty());
    connect(&mut manager, "S1").unwrap();
    manager.handle_event(PrinterEvent::Connected { serial: "S1".to_string() });
    assert!(!manager.disconnect("S2"));
    assert!(manager.is_connected("S1"));
    assert_eq!(manager.get_connection_statuses(), vec![("S1".to_string(), true)]);
}

#[test]
fn state_is_the_one_reported_last() {
    let mut manager = PrinterManager::new();
    connect(&mut manager, "S").unwrap();
    connect(&mut manager, "T").unwrap();
    assert!(manager.get_state("S").is_none());
    for layer in [1, 5, 2, 9] {
        manager.handle_event(update("S", layer));
        assert_eq!(manager.get_state("S").unwrap().layer_num, Some(layer));
        assert!(manager.get_state("T").is_none());
    }
    manager.handle_event(update("T", 77));
    manager.handle_event(PrinterEvent::Error { serial: "S".to_string(), message: "x".to_string() });
    manager.handle_event(PrinterEvent::Connected { serial: "S".to_string() });
    assert_eq!(manager.get_state("S").unwrap().layer_num, Some(9));
    assert_eq!(manager.get_state("T").unwrap().layer_num, Some(77));
}

#[test]
fn state_update_replaces_the_tray_table_whole() {
    let mut manager = PrinterManager::new();
    connect(&mut manager, "S").unwrap();
    let mut first = state_at_layer(1);
    first.subtask_name = Some("job".to_string());
    manager.handle_event(PrinterEvent::StateUpdate { serial: "S".to_string(), state: first });
    manager.handle_event(update("S", 2));
    let state = manager.get_state("S").unwrap();
    assert_eq!(state.layer_num, Some(2));
    assert_eq!(state.subtask_name, None);
}

#[test]
fn malformed_report_changes_no_connection() {
    let mut manager = PrinterManager::new();
    let config = manager
        .connect("S1".to_string(), "10.0.0.9".to_string(), "secret".to_string(), None)
        .unwrap();
    manager.handle_event(PrinterEvent::Connected { serial: "S1".to_string() });
    let mut client = BambuMqttClient::new(config);
    client.step(SessionInput::TransportOpened);
    client.step(SessionInput::ConnAck);
    client.step(SessionInput::Ready);
    client.step(SessionInput::Report);
    if let Some(event) = client.handle_message(None) {
        manager.handle_event(event);
    }
    assert_eq!(client.phase(), spoolbuddy::session::SessionPhase::Active);
    assert!(manager.is_connected("S1"));
    assert!(manager.get_state("S1").is_none());
    manager.handle_event(PrinterEvent::Error { serial: "S1".to_string(), message: "bad".to_string() });
    assert!(manager.is_connected("S1"));
}

#[test]
fn command_for_a_printer_without_session_is_refused() {
    let mut manager = PrinterManager::new();
    let command = PrinterCommand::SetFilament {
        ams_id: 0,
        tray_id: 0,
        slot_id: 0,
        tray_info_idx: "GFL99".to_string(),
        tray_type: "PLA".to_string(),
        tray_color: "FF0000FF".to_string(),
        nozzle_temp_min: 190,
        nozzle_temp_max: 250,
    };
    match manager.send_command("S1", command.clone()) {
        Err(ManagerError::NotConnected { serial }) => assert_eq!(serial, "S1"),
        other => panic!("{:?}", other),
    }
    connect(&mut manager, "S1").unwrap();
    match manager.send_command("S1", command) {
        Ok(PrinterCommand::SetFilament { tray_info_idx, .. }) => assert_eq!(tray_info_idx, "GFL99"),
        other => panic!("{:?}", other),
    }
    manager.disconnect("S1");
    assert!(matches!(
        manager.send_command("S1", PrinterCommand::PushAll),
        Err(ManagerError::NotConnected { .. })
    ));
}

#[test]
fn events_of_printers_without_session_are_dropped() {
    let mut manager = PrinterManager::new();
    manager.handle_event(PrinterEvent::Connected { serial: "ghost".to_string() });
    manager.handle_event(update("ghost", 1));
    assert!(!manager.is_connected("ghost"));
    assert!(manager.get_state("ghost").is_none());
    assert!(manager.get_connection_statuses().is_empty());
    connect(&mut manager, "S1").unwrap();
    manager.disconnect("S1");
    manager.handle_event(PrinterEvent::Disconnected { serial: "S1".to_string() });
    assert!(manager.get_connection_statuses().is_empty());
}

#[test]
fn statuses_list_every_session_once() {
    let mut manager = PrinterManager::new();
    for serial in ["A", "B", "C"] {
        connect(&mut manager, serial).unwrap();
    }
    manager.handle_event(PrinterEvent::Connected { serial: "B".to_string() });
    manager.handle_event(PrinterEvent::Connected { serial: "C".to_string() });
    manager.handle_event(PrinterEvent::Disconnected { serial: "C".to_string() });
    let mut listing = manager.get_connection_statuses();
    listing.sort();
    assert_eq!(
        listing,
        vec![("A".to_string(), false), ("B".to_string(), true), ("C".to_string(), false)]
    );
}

#[test]
fn signal_and_battery_bars() {
    assert_eq!(wifi_signal_bars(0), 4);
    assert_eq!(wifi_signal_bars(-50), 4);
    assert_eq!(wifi_signal_bars(-51), 3);
    assert_eq!(wifi_signal_bars(-60), 3);
    assert_eq!(wifi_signal_bars(-61), 2);
    assert_eq!(wifi_signal_bars(-70), 2);
    assert_eq!(wifi_signal_bars(-71), 1);
    assert_eq!(wifi_signal_bars(-80), 1);
    assert_eq!(wifi_signal_bars(-81), 0);
    assert_eq!(wifi_signal_bars(-128), 0);
    assert_eq!(wifi_signal_bars(1), 0);
    assert_eq!(battery_bars(100), 4);
    assert_eq!(battery_bars(80), 4);
    assert_eq!(battery_bars(79), 3);
    assert_eq!(battery_bars(60), 3);
    assert_eq!(battery_bars(59), 2);
    assert_eq!(battery_bars(40), 2);
    assert_eq!(battery_bars(39), 1);
    assert_eq!(battery_bars(20), 1);
    assert_eq!(battery_bars(19), 0);
    assert_eq!(battery_bars(0), 0);
    assert_eq!(battery_bars(101), 0);
    assert_eq!(ThemeMode::default(), ThemeMode::Dark);
}

#[test]
fn record_of_a_printer() {
    let mut manager = PrinterManager::new();
    assert!(manager.get_connection("S1").is_none());
    connect(&mut manager, "S1").unwrap();
    let record = manager.get_connection("S1").unwrap();
    assert_eq!(record.serial, "S1");
    assert!(!record.connected);
    assert!(record.state.is_none());
    manager.handle_event(PrinterEvent::Connected { serial: "S1".to_string() });
    manager.handle_event(update("S1", 4));
    let record = manager.get_connection("S1").unwrap();
    assert!(record.connected);
    assert_eq!(record.state.as_ref().unwrap().layer_num, Some(4));
}

#[test]
fn stored_configuration_must_be_complete() {
    let mut manager = PrinterManager::new();
    let address = Some("10.0.0.9".to_string());
    let code = Some("secret".to_string());
    match manager.connect_stored("S1".to_string(), None, code.clone(), None) {
        Err(e) => {
            assert!(matches!(e, ManagerError::MissingAddress { .. }));
            assert_eq!(e.message(), "Printer has no IP address");
        }
        Ok(_) => panic!("accepted"),
    }
    match manager.connect_stored("S1".to_string(), address.clone(), None, None) {
        Err(e) => {
            assert!(matches!(e, ManagerError::MissingAccessCode { .. }));
            assert_eq!(e.message(), "Printer has no access code");
        }
        Ok(_) => panic!("accepted"),
    }
    assert!(matches!(
        manager.connect_stored("S1".to_string(), None, None, None),
        Err(ManagerError::MissingAddress { .. })
    ));
    assert!(!manager.has_session("S1"));
    let config = manager
        .connect_stored("S1".to_string(), address.clone(), code.clone(), Some("Bench".to_string()))
        .unwrap();
    assert_eq!(config.name, Some("Bench".to_string()));
    match manager.connect_stored("S1".to_string(), address, code, None) {
        Err(e) => assert_eq!(e.message(), "Printer S1 is already connected"),
        Ok(_) => panic!("accepted"),
    }
    match manager.send_command("S9", PrinterCommand::GetVersion) {
        Err(e) => assert_eq!(e.message(), "Printer S9 is not connected"),
        Ok(_) => panic!("accepted"),
    }
}

#[test]
fn tray_setting_while_disconnected_is_refused() {
    let request = || spoolbuddy::manager::SetSlotFilamentRequest {
        ams_id: 0,
        tray_id: 0,
        tray_info_idx: "GFL99".to_string(),
        tray_type: "PLA".to_string(),
        tray_color: "FF0000FF".to_string(),
        nozzle_temp_min: 190,
        nozzle_temp_max: 250,
    };
    let mut manager = PrinterManager::new();
    match manager.set_slot_filament("S1", request()) {
        Err(ManagerError::NotConnected { serial }) => assert_eq!(serial, "S1"),
        other => panic!("{:?}", other),
    }
    connect(&mut manager, "S1").unwrap();
    assert!(matches!(
        manager.set_slot_filament("S1", request()),
        Err(ManagerError::NotConnected { .. })
    ));
    manager.handle_event(PrinterEvent::Connected { serial: "S1".to_string() });
    let mut wanted = request();
    wanted.ams_id = 2;
    wanted.tray_id = 3;
    match manager.set_slot_filament("S1", wanted) {
        Ok(PrinterCommand::SetFilament { ams_id, tray_id, slot_id, tray_type, .. }) => {
            assert_eq!((ams_id, tray_id, slot_id), (2, 3, 11));
            assert_eq!(tray_type, "PLA");
        }
        other => panic!("{:?}", other),
    }
    manager.handle_event(PrinterEvent::Disconnected { serial: "S1".to_string() });
    assert!(manager.set_slot_filament("S1", request()).is_err());
}

#[test]
fn slot_numbers_that_fit() {
    assert!(slot_fits(0, 0));
    assert!(slot_fits(536870911, 3));
    assert!(!slot_fits(536870911, 4));
    assert!(!slot_fits(536870912, -1));
    assert!(slot_fits(-536870912, 0));
    assert!(!slot_fits(-536870912, -1));
    assert!(!slot_fits(-536870913, 4));
}
