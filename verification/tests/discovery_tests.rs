use spoolbuddy::discovery::{
    multicast_group, parse_ipv4, parse_model, parse_ssdp_packet, parse_ssdp_text, DiscoveryError,
    SsdpDiscovery, SsdpInfo, StartDecision, BAMBU_NT, BAMBU_SSDP_PORT_A, BAMBU_SSDP_PORT_B,
};

#[test]
fn test_parse_model() {
    assert_eq!(parse_model("3DPrinter-X1-Carbon"), "X1 Carbon");
    assert_eq!(parse_model("C11"), "P1P");
    assert_eq!(parse_model("C12"), "P1S");
    assert_eq!(parse_model("N1"), "A1 Mini");
    assert_eq!(parse_model("N2"), "A1");
    assert_eq!(parse_model("unknown"), "Unknown");
}

#[test]
fn test_parse_ssdp_packet() {
    let packet = b"NOTIFY * HTTP/1.1\r\n\
        HOST: 239.255.255.250:1990\r\n\
        NT: urn:bambulab-com:device:3dprinter:1\r\n\
        USN: 00M09A123456789\r\n\
        Location: 192.168.1.100\r\n\
        DevName.bambu.com: My Printer\r\n\
        DevModel.bambu.com: 3DPrinter-X1-Carbon\r\n";

    let printer = parse_ssdp_packet(packet).unwrap();
    assert_eq!(printer.serial, "00M09A123456789");
    assert_eq!(printer.name, Some("My Printer".to_string()));
    assert_eq!(printer.ip_address, [192, 168, 1, 100]);
    assert_eq!(printer.model, Some("X1 Carbon".to_string()));
}

#[test]
fn parse_model_covers_the_whole_table() {
    assert_eq!(parse_model("3DPrinter-X1"), "X1");
    assert_eq!(parse_model("BL-P001"), "X1 Carbon");
    assert_eq!(parse_model("C13"), "X1E");
    assert_eq!(parse_model("N7"), "P2S");
    assert_eq!(parse_model("O1D"), "H2D");
    assert_eq!(parse_model("H2S"), "H2S");
    assert_eq!(parse_model("H2C"), "H2C");
    assert_eq!(parse_model(""), "Unknown");
    assert_eq!(parse_model("c12"), "Unknown");
    assert_eq!(parse_model("C12 "), "Unknown");
}

#[test]
fn announcement_with_model_code_c12_is_a_p1s() {
    let packet = b"NOTIFY * HTTP/1.1\r\nNT: urn:bambulab-com:device:3dprinter:1\r\nUSN: 01P00A000000001\r\nLocation: 10.0.0.7\r\nDevModel.bambu.com: C12\r\n";
    let printer = parse_ssdp_packet(packet).unwrap();
    assert_eq!(printer.model, Some("P1S".to_string()));
    assert_eq!(printer.model_code, Some("C12".to_string()));
    assert_eq!(printer.serial, "01P00A000000001");
    assert_eq!(printer.name, None);
    assert_eq!(printer.ip_address, [10, 0, 0, 7]);
}

#[test]
fn announcement_of_a_foreign_type_is_dropped() {
    let packet = b"NOTIFY * HTTP/1.1\r\nNT: upnp:rootdevice\r\nUSN: uuid:1234\r\nLocation: 10.0.0.7\r\nDevModel.bambu.com: C12\r\n";
    assert!(parse_ssdp_packet(packet).is_none());
}

#[test]
fn announcement_without_location_or_type_is_dropped() {
    assert!(parse_ssdp_text("NT: urn:bambulab-com:device:3dprinter\nUSN: X\n").is_none());
    assert!(parse_ssdp_text("USN: X\nLocation: 10.0.0.7\n").is_none());
    assert!(parse_ssdp_text("").is_none());
}

#[test]
fn announcement_with_unusable_location_is_dropped() {
    let head = "NT: urn:bambulab-com:device:3dprinter\nUSN: X\n";
    for location in ["http://10.0.0.7/", "10.0.0", "10.0.0.256", "10.0.0.07", "10.0.0.7.1", "10..0.7"] {
        let text = format!("{}Location: {}\n", head, location);
        assert!(parse_ssdp_text(&text).is_none(), "{}", location);
    }
}

#[test]
fn packet_that_is_no_text_is_dropped() {
    let mut packet = b"NT: urn:bambulab-com:device:3dprinter\nUSN: X\nLocation: 10.0.0.7\n".to_vec();
    assert!(parse_ssdp_packet(&packet).is_some());
    packet.push(0xff);
    assert!(parse_ssdp_packet(&packet).is_none());
}

#[test]
fn packet_text_keeps_characters_beyond_ascii() {
    let text = "NT: urn:bambulab-com:device:3dprinter\nUSN: X\nLocation: 10.0.0.7\nDevName.bambu.com: Dr\u{fc}cker \u{1f5a8}\n";
    let printer = parse_ssdp_packet(text.as_bytes()).unwrap();
    assert_eq!(printer.name, Some("Dr\u{fc}cker \u{1f5a8}".to_string()));
}

#[test]
fn last_line_of_a_header_decides() {
    let text = "NT: urn:bambulab-com:device:3dprinter\nUSN: first\nLocation: 10.0.0.7\nUSN: second\n";
    assert_eq!(parse_ssdp_text(text).unwrap().serial, "second");
}

#[test]
fn vendor_headers_are_read_without_colon_too() {
    let text = "NT: urn:bambulab-com:device:3dprinter\nUSN: X\nLocation: 10.0.0.7\nDevModel.bambu.com N2\nDevName.bambu.com  Bench \t\n";
    let printer = parse_ssdp_text(text).unwrap();
    assert_eq!(printer.model, Some("A1".to_string()));
    assert_eq!(printer.name, Some("Bench".to_string()));
    let both = "NT: urn:bambulab-com:device:3dprinter\nUSN: X\nLocation: 10.0.0.7\nDevModel.bambu.com N2\nDevModel.bambu.com: C11\n";
    assert_eq!(parse_ssdp_text(both).unwrap().model, Some("P1P".to_string()));
}

#[test]
fn unknown_model_code_is_reported_as_unknown() {
    let text = "NT: urn:bambulab-com:device:3dprinter\nUSN: X\nLocation: 10.0.0.7\nDevModel.bambu.com: Z99\n";
    let printer = parse_ssdp_text(text).unwrap();
    assert_eq!(printer.model, Some("Unknown".to_string()));
    assert_eq!(printer.model_code, Some("Z99".to_string()));
}

#[test]
fn headers_are_read_into_info() {
    let info = SsdpInfo::read("NT:  a b \r\nLocation:\t1.2.3.4\r\nHOST: h\r\nNT\r\n");
    assert_eq!(info.nt, "a b");
    assert_eq!(info.location, "");
    assert_eq!(info.usn, "");
    assert!(!info.is_valid());
    assert!(!info.is_bambu_printer());
    let info = SsdpInfo::read("NT: xx urn:bambulab-com:device:3dprinter\nLocation: here");
    assert!(info.is_valid());
    assert!(info.is_bambu_printer());
    assert!(info.into_printer().is_none());
    let short = SsdpInfo::read("NT: urn:bambulab-com:device:3dprinte\nLocation: 1.2.3.4");
    assert!(short.is_valid());
    assert!(!short.is_bambu_printer());
}

#[test]
fn dotted_addresses() {
    assert_eq!(parse_ipv4("0.0.0.0"), Some([0, 0, 0, 0]));
    assert_eq!(parse_ipv4("255.255.255.255"), Some([255, 255, 255, 255]));
    assert_eq!(parse_ipv4("192.168.1.100"), Some([192, 168, 1, 100]));
    assert_eq!(parse_ipv4("1.2.3"), None);
    assert_eq!(parse_ipv4("1.2.3.4.5"), None);
    assert_eq!(parse_ipv4("1.2.3.04"), None);
    assert_eq!(parse_ipv4("1.2.3.256"), None);
    assert_eq!(parse_ipv4("1.2.3.1000"), None);
    assert_eq!(parse_ipv4("1.2.3."), None);
    assert_eq!(parse_ipv4(" 1.2.3.4"), None);
    assert_eq!(parse_ipv4("+1.2.3.4"), None);
    assert_eq!(parse_ipv4(""), None);
}

#[test]
fn discovery_start_is_idempotent_and_stop_clears_the_flag() {
    let mut service = SsdpDiscovery::new();
    assert!(!service.is_running());
    assert!(service.handle_packet(b"NT: urn:bambulab-com:device:3dprinter\nLocation: 1.2.3.4\n").is_none());
    assert_eq!(service.start(), StartDecision::BindAndListen);
    assert!(service.is_running());
    assert_eq!(service.start(), StartDecision::AlreadyRunning);
    assert!(service.is_running());
    assert!(service.handle_packet(b"NT: urn:bambulab-com:device:3dprinter\nLocation: 1.2.3.4\n").is_some());
    service.stop();
    assert!(!service.is_running());
    assert_eq!(service.start(), StartDecision::BindAndListen);
    assert_eq!(service.check_sockets(0), Err(DiscoveryError::AddrNotAvailable));
    assert_eq!(service.check_sockets(2), Ok(()));
}

#[test]
fn discovery_constants() {
    assert_eq!(multicast_group(), [239, 255, 255, 250]);
    assert_eq!((BAMBU_SSDP_PORT_A, BAMBU_SSDP_PORT_B), (1990, 2021));
    assert_eq!(BAMBU_NT, "urn:bambulab-com:device:3dprinter");
}
