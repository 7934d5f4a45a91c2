use pos_kasir::discovery::{
    is_virtual_printer, list_destinations, parse_queue_line, parse_spooler_list, parse_wmic_line,
    second_token, serial_port_entry, usb_lp_entry, DetectedSerialPort, PortKindInfo,
    SpoolerPrinter, UsbLpDevice, WriteProbe,
};

#[test]
fn empty_discovery_still_offers_synthetic_entries() {
    let ports = list_destinations(&vec![], &vec![], &vec![], &vec![]);
    assert_eq!(ports.len(), 2);
    assert_eq!(ports[0].path, "network");
    assert_eq!(ports[1].path, "manual");
    assert!(ports[0].description.contains("IP:PORT"));
    assert!(ports[1].description.contains("Manual"));
}

#[test]
fn synthetic_entries_always_close_the_list() {
    let serial = vec![DetectedSerialPort {
        name: String::from("/dev/ttyUSB0"),
        kind: PortKindInfo::Unknown,
        probe: WriteProbe::NotChecked,
    }];
    let ports = list_destinations(&serial, &vec![], &vec![], &vec![]);
    assert_eq!(ports.len(), 3);
    assert_eq!(ports[ports.len() - 2].path, "network");
    assert_eq!(ports[ports.len() - 1].path, "manual");
}

#[test]
fn serial_entry_has_prefix_and_permission_note() {
    let p = DetectedSerialPort {
        name: String::from("/dev/ttyUSB0"),
        kind: PortKindInfo::Usb {
            product: Some(String::from("TM-T20")),
            manufacturer: Some(String::from("Epson")),
        },
        probe: WriteProbe::Writable,
    };
    let e = serial_port_entry(&p);
    assert_eq!(e.path, "serial:/dev/ttyUSB0");
    assert_eq!(e.description, "USB: TM-T20 (Epson) — /dev/ttyUSB0 ✓");
}

#[test]
fn serial_entry_defaults_unknown_product() {
    let p = DetectedSerialPort {
        name: String::from("/dev/ttyACM0"),
        kind: PortKindInfo::Usb {
            product: None,
            manufacturer: None,
        },
        probe: WriteProbe::NotWritable,
    };
    let e = serial_port_entry(&p);
    assert!(e.description.starts_with("USB: Unknown — /dev/ttyACM0"));
    assert!(e.description.contains("butuh: sudo usermod -aG dialout,lp $USER"));
}

#[test]
fn usb_lp_entry_keeps_bare_path() {
    let e = usb_lp_entry(&UsbLpDevice {
        path: String::from("/dev/usb/lp0"),
        writable: true,
    });
    assert_eq!(e.path, "/dev/usb/lp0");
    assert_eq!(e.description, "USB Printer Direct — /dev/usb/lp0 (✓ ready)");
}

#[test]
fn usb_lp_device_deduplicated_against_serial_names() {
    let serial = vec![DetectedSerialPort {
        name: String::from("/dev/usb/lp0"),
        kind: PortKindInfo::Unknown,
        probe: WriteProbe::NotChecked,
    }];
    let usb = vec![
        UsbLpDevice {
            path: String::from("/dev/usb/lp0"),
            writable: true,
        },
        UsbLpDevice {
            path: String::from("/dev/usb/lp1"),
            writable: false,
        },
    ];
    let ports = list_destinations(&serial, &usb, &vec![], &vec![]);
    assert_eq!(ports.len(), 4);
    assert_eq!(ports[0].path, "serial:/dev/usb/lp0");
    assert_eq!(ports[1].path, "/dev/usb/lp1");
}

#[test]
fn queue_line_parses_name_and_state() {
    let e = parse_queue_line("printer EPSON-TM is idle.  enabled since ...").unwrap();
    assert_eq!(e.path, "cups:EPSON-TM");
    assert_eq!(e.description, "CUPS: EPSON-TM (✓ idle)");
    let e = parse_queue_line("printer Foo disabled since ...").unwrap();
    assert_eq!(e.description, "CUPS: Foo (⚠ disabled)");
    let e = parse_queue_line("printer Bar now printing page 1").unwrap();
    assert_eq!(e.description, "CUPS: Bar (🖨 printing)");
    let e = parse_queue_line("printer Baz status strange").unwrap();
    assert_eq!(e.description, "CUPS: Baz (?)");
}

#[test]
fn queue_line_without_second_token_is_skipped() {
    assert!(parse_queue_line("").is_none());
    assert!(parse_queue_line("lonely").is_none());
    assert!(parse_queue_line("   spaced   ").is_none());
}

#[test]
fn second_token_finds_the_queue_name() {
    assert_eq!(second_token("printer EPSON-TM is idle"), Some(String::from("EPSON-TM")));
    assert_eq!(second_token("  a   b  "), Some(String::from("b")));
    assert_eq!(second_token("a"), None);
}

#[test]
fn spooler_listing_parses_entries() {
    let lines: Vec<String> = [
        "Name          : POS-58",
        "DriverName    : Generic / Text Only",
        "PortName      : USB001",
        "",
        "Name          : Microsoft Print to PDF",
        "DriverName    : Microsoft Print To PDF",
        "PortName      : PORTPROMPT:",
        "",
    ]
    .iter()
    .map(|s| s.to_string())
    .collect();
    let printers = parse_spooler_list(&lines);
    assert_eq!(printers.len(), 2);
    assert_eq!(printers[0].name, "POS-58");
    assert_eq!(printers[0].driver, "Generic / Text Only");
    assert_eq!(printers[0].port_name, "USB001");
    assert_eq!(printers[1].name, "Microsoft Print to PDF");
}

#[test]
fn spooler_listing_flushes_last_entry() {
    let lines: Vec<String> = ["Name : Solo", "PortName : LPT1"]
        .iter()
        .map(|s| s.to_string())
        .collect();
    let printers = parse_spooler_list(&lines);
    assert_eq!(printers.len(), 1);
    assert_eq!(printers[0].name, "Solo");
    assert_eq!(printers[0].driver, "");
    assert_eq!(printers[0].port_name, "LPT1");
}

#[test]
fn wmic_line_parses_fields() {
    let p = parse_wmic_line("NODE,Generic / Text Only,POS-58,USB001").unwrap();
    assert_eq!(p.name, "POS-58");
    assert_eq!(p.driver, "Generic / Text Only");
    assert_eq!(p.port_name, "USB001");
    assert!(parse_wmic_line("node,driver,name,port,extra").is_some());
    assert!(parse_wmic_line("too,few,fields").is_none());
}

#[test]
fn virtual_printers_are_hidden() {
    assert!(is_virtual_printer("Microsoft Print to PDF"));
    assert!(is_virtual_printer("Microsoft XPS Document Writer"));
    assert!(is_virtual_printer("OneNote for Windows 10"));
    assert!(is_virtual_printer("Fax"));
    assert!(!is_virtual_printer("POS-58"));
    let spooler = vec![
        SpoolerPrinter {
            name: String::from("POS-58"),
            driver: String::from("Generic / Text Only"),
            port_name: String::from("USB001"),
        },
        SpoolerPrinter {
            name: String::from("Microsoft Print to PDF"),
            driver: String::from("PDF"),
            port_name: String::from("PORTPROMPT:"),
        },
        SpoolerPrinter {
            name: String::from(""),
            driver: String::from("x"),
            port_name: String::from("y"),
        },
    ];
    let ports = list_destinations(&vec![], &vec![], &vec![], &spooler);
    assert_eq!(ports.len(), 3);
    assert_eq!(ports[0].path, "winprint:POS-58");
    assert!(ports[0].description.contains("Driver: Generic / Text Only"));
    assert!(ports[0].description.contains("Port: USB001"));
}

#[test]
fn queue_lines_merge_into_destination_list() {
    let lines: Vec<String> = vec![
        String::from("printer EPSON-TM is idle."),
        String::from("nonsense"),
    ];
    let ports = list_destinations(&vec![], &vec![], &lines, &vec![]);
    assert_eq!(ports.len(), 3);
    assert_eq!(ports[0].path, "cups:EPSON-TM");
}
