use spoolbuddy::manager::PrinterManager;
use spoolbuddy::messages::{GcodeState, PrintData};
use spoolbuddy::session::{state_from_report, PrinterEvent};
use tokio::sync::broadcast;

fn events() -> Vec<PrinterEvent> {
    let mut all = vec![PrinterEvent::Connected { serial: "S1".to_string() }];
    for layer in 1..=5 {
        let data = PrintData {
            gcode_state: Some(GcodeState::RUNNING),
            layer_num: Some(layer),
            ..Default::default()
        };
        all.push(PrinterEvent::StateUpdate {
            serial: "S1".to_string(),
            state: state_from_report(&data),
        });
    }
    all.push(PrinterEvent::Error { serial: "S1".to_string(), message: "hiccup".to_string() });
    all.push(PrinterEvent::Disconnected { serial: "S1".to_string() });
    all
}

#[test]
fn two_subscribers_receive_every_event_in_order() {
    let (tx, mut first) = broadcast::channel::<PrinterEvent>(100);
    let mut second = tx.subscribe();
    let emitted = events();
    for event in emitted.iter() {
        assert_eq!(tx.send(event.clone()).unwrap(), 2);
    }
    for receiver in [&mut first, &mut second] {
        let mut received = Vec::new();
        while let Ok(event) = receiver.try_recv() {
            received.push(event);
        }
        assert_eq!(format!("{:?}", received), format!("{:?}", emitted));
    }
}

#[test]
fn cache_and_subscriber_see_the_same_events() {
    let (tx, mut cache_rx) = broadcast::channel::<PrinterEvent>(100);
    let mut other = tx.subscribe();
    let mut manager = PrinterManager::new();
    manager
        .connect("S1".to_string(), "10.0.0.9".to_string(), "secret".to_string(), None)
        .unwrap();
    for event in events().into_iter().take(6) {
        tx.send(event).unwrap();
    }
    let mut seen = 0;
    while let Ok(event) = cache_rx.try_recv() {
        manager.handle_event(event);
        seen += 1;
    }
    assert_eq!(seen, 6);
    assert!(manager.is_connected("S1"));
    assert_eq!(manager.get_state("S1").unwrap().layer_num, Some(5));
    let mut layers = Vec::new();
    while let Ok(event) = other.try_recv() {
        if let PrinterEvent::StateUpdate { state, .. } = event {
            layers.push(state.layer_num);
        }
    }
    assert_eq!(layers, vec![Some(1), Some(2), Some(3), Some(4), Some(5)]);
}
