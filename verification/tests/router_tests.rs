use pos_kasir::diagnostics::PrintErrorKind;
use pos_kasir::network::{
    network_addr_error, network_addr_ok, network_connect_error, network_send_result, NetOutcome,
};
use pos_kasir::router::{route, TransportKind};

#[test]
fn route_cups_prefix() {
    let r = route("cups:EPSON-TM");
    assert_eq!(r.kind, TransportKind::UnixQueue);
    assert_eq!(r.address, "EPSON-TM");
}

#[test]
fn route_winprint_prefix() {
    let r = route("winprint:POS-58");
    assert_eq!(r.kind, TransportKind::Spooler);
    assert_eq!(r.address, "POS-58");
}

#[test]
fn route_network_prefix_trims_address() {
    let r = route("network: 192.168.1.50:9100 ");
    assert_eq!(r.kind, TransportKind::Network);
    assert_eq!(r.address, "192.168.1.50:9100");
}

#[test]
fn route_serial_prefix() {
    let r = route("serial:/dev/ttyUSB0");
    assert_eq!(r.kind, TransportKind::Serial);
    assert_eq!(r.address, "/dev/ttyUSB0");
}

#[test]
fn route_usb_lp_device_is_raw() {
    let r = route("/dev/usb/lp0");
    assert_eq!(r.kind, TransportKind::RawDevice);
    assert_eq!(r.address, "/dev/usb/lp0");
}

#[test]
fn route_legacy_host_port_is_network() {
    let r = route("192.168.1.100:9100");
    assert_eq!(r.kind, TransportKind::Network);
    assert_eq!(r.address, "192.168.1.100:9100");
}

#[test]
fn route_legacy_backslash_path_is_not_network() {
    let r = route("\\\\server\\queue:1");
    assert_ne!(r.kind, TransportKind::Network);
}

#[test]
fn route_legacy_serial_conventions() {
    assert_eq!(route("/dev/ttyUSB0").kind, TransportKind::Serial);
    assert_eq!(route("/dev/cu.usbserial").kind, TransportKind::Serial);
    assert_eq!(route("COM3").kind, TransportKind::Serial);
}

#[test]
fn route_fallback_is_raw_device() {
    let r = route("/dev/lp0");
    assert_eq!(r.kind, TransportKind::RawDevice);
    assert_eq!(r.address, "/dev/lp0");
}

#[test]
fn route_is_deterministic_across_calls() {
    for dest in [
        "cups:Q",
        "winprint:P",
        "network:1.2.3.4:9100",
        "serial:COM7",
        "/dev/usb/lp1",
        "10.0.0.2:9100",
        "/dev/ttyS0",
        "anything-else",
    ] {
        let a = route(dest);
        let b = route(dest);
        assert_eq!(a.kind, b.kind);
        assert_eq!(a.address, b.address);
    }
}

#[test]
fn network_address_needs_colon() {
    assert!(network_addr_ok("192.168.1.50:9100"));
    assert!(!network_addr_ok("192.168.1.50"));
    let e = network_addr_error("192.168.1.50");
    assert_eq!(e.kind, PrintErrorKind::ProtocolError);
    assert!(e.message.contains("192.168.1.50"));
    assert!(e.message.contains("IP:PORT"));
}

#[test]
fn network_connect_failure_names_address() {
    let e = network_connect_error("192.168.1.50:9100", "connection refused");
    assert_eq!(e.kind, PrintErrorKind::ConnectionFailed);
    assert!(e.message.contains("192.168.1.50:9100"));
    assert!(e.message.contains("connection refused"));
}

#[test]
fn network_send_result_classifies_outcomes() {
    assert!(network_send_result("1.2.3.4:9100", &NetOutcome::Sent).is_ok());
    let err = network_send_result(
        "192.168.1.50:9100",
        &NetOutcome::ConnectFailed(String::from("timed out")),
    )
    .unwrap_err();
    assert_eq!(err.kind, PrintErrorKind::ConnectionFailed);
    assert!(err.message.contains("192.168.1.50:9100"));
    let err = network_send_result(
        "1.2.3.4:9100",
        &NetOutcome::WriteFailed(String::from("broken pipe")),
    )
    .unwrap_err();
    assert_eq!(err.kind, PrintErrorKind::ConnectionFailed);
    assert_eq!(err.message, "Gagal kirim data ke printer: broken pipe");
    let err = network_send_result(
        "1.2.3.4:9100",
        &NetOutcome::FlushFailed(String::from("reset")),
    )
    .unwrap_err();
    assert_eq!(err.message, "Gagal flush data: reset");
}
