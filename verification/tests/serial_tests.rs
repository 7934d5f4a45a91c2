use pos_kasir::diagnostics::{
    classify_os_error, not_configured, unsupported_platform, OsErrorKind, PrintErrorKind,
};
use pos_kasir::serial::{
    baud_rates, classify_serial_error, serial_chunk_size, serial_open_error, serial_write_error,
    sweep_continues, SerialFailure,
};

#[test]
fn baud_rates_are_fixed_and_ordered() {
    assert_eq!(baud_rates(), vec![9600, 19200, 38400, 115200]);
}

#[test]
fn classify_permission_denied() {
    assert_eq!(
        classify_serial_error("Permission denied (os error 13)"),
        SerialFailure::PermissionDenied
    );
    assert_eq!(
        classify_serial_error("PERMISSION DENIED"),
        SerialFailure::PermissionDenied
    );
}

#[test]
fn classify_not_found() {
    assert_eq!(
        classify_serial_error("device not found"),
        SerialFailure::NotFound
    );
    assert_eq!(
        classify_serial_error("No such file or directory"),
        SerialFailure::NotFound
    );
}

#[test]
fn classify_other() {
    assert_eq!(classify_serial_error("resource busy"), SerialFailure::Other);
}

#[test]
fn sweep_stops_on_fatal_first_failure() {
    assert!(!sweep_continues(0, &SerialFailure::PermissionDenied));
    assert!(!sweep_continues(0, &SerialFailure::NotFound));
}

#[test]
fn sweep_tries_all_rates_on_other_failures() {
    assert!(sweep_continues(0, &SerialFailure::Other));
    assert!(sweep_continues(1, &SerialFailure::PermissionDenied));
    assert!(sweep_continues(2, &SerialFailure::NotFound));
    assert!(!sweep_continues(3, &SerialFailure::Other));
}

#[test]
fn serial_permission_error_has_remediation() {
    let e = serial_open_error(
        "/dev/ttyUSB0",
        &SerialFailure::PermissionDenied,
        "Permission denied",
        false,
    );
    assert_eq!(e.kind, PrintErrorKind::PermissionDenied);
    assert!(e.message.contains("/dev/ttyUSB0"));
    assert!(e.message.contains("sudo usermod -aG dialout,lp $USER"));
    let e = serial_open_error(
        "COM3",
        &SerialFailure::PermissionDenied,
        "Permission denied",
        true,
    );
    assert!(e.message.contains("Administrator"));
}

#[test]
fn serial_not_found_error_lists_checks() {
    let e = serial_open_error("/dev/ttyS9", &SerialFailure::NotFound, "not found", false);
    assert_eq!(e.kind, PrintErrorKind::NotFound);
    assert!(e.message.contains("/dev/ttyS9"));
    assert!(e.message.contains("tidak ditemukan"));
}

#[test]
fn serial_other_error_keeps_raw_text() {
    let e = serial_open_error("/dev/ttyS0", &SerialFailure::Other, "resource busy", false);
    assert_eq!(e.kind, PrintErrorKind::ProtocolError);
    assert_eq!(
        e.message,
        "Gagal koneksi serial ke /dev/ttyS0: resource busy"
    );
}

#[test]
fn serial_write_error_names_device() {
    let e = serial_write_error("/dev/ttyS0", "timed out");
    assert_eq!(e.message, "Gagal kirim data serial ke /dev/ttyS0: timed out");
}

#[test]
fn serial_chunks_are_one_kib() {
    assert_eq!(serial_chunk_size(), 1024);
}

#[test]
fn os_error_classification() {
    assert_eq!(
        classify_os_error(OsErrorKind::NotFound),
        PrintErrorKind::NotFound
    );
    assert_eq!(
        classify_os_error(OsErrorKind::PermissionDenied),
        PrintErrorKind::PermissionDenied
    );
    assert_eq!(
        classify_os_error(OsErrorKind::TimedOut),
        PrintErrorKind::ConnectionFailed
    );
    assert_eq!(
        classify_os_error(OsErrorKind::Other),
        PrintErrorKind::ProtocolError
    );
}

#[test]
fn not_configured_message_is_fixed() {
    let e = not_configured();
    assert_eq!(e.kind, PrintErrorKind::NotConfigured);
    assert_eq!(
        e.message,
        "Printer belum dikonfigurasi. Silakan atur di Settings → Hardware."
    );
}

#[test]
fn unsupported_platform_message() {
    let e = unsupported_platform("CUPS printing", "Linux/macOS");
    assert_eq!(e.kind, PrintErrorKind::UnsupportedPlatform);
    assert_eq!(e.message, "CUPS printing hanya didukung di Linux/macOS");
}

#[test]
fn kind_labels_are_stable() {
    assert_eq!(PrintErrorKind::NotConfigured.as_str(), "NOT_CONFIGURED");
    assert_eq!(PrintErrorKind::NotFound.as_str(), "NOT_FOUND");
    assert_eq!(
        PrintErrorKind::PermissionDenied.as_str(),
        "PERMISSION_DENIED"
    );
    assert_eq!(
        PrintErrorKind::ConnectionFailed.as_str(),
        "CONNECTION_FAILED"
    );
    assert_eq!(
        PrintErrorKind::UnsupportedPlatform.as_str(),
        "UNSUPPORTED_PLATFORM"
    );
    assert_eq!(PrintErrorKind::ProtocolError.as_str(), "PROTOCOL_ERROR");
}
