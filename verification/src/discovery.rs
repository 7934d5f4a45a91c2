//! Destination discovery: turning what the platform enumerators report
//! into the ordered list of printable destinations shown in settings.
//!
//! The enumeration itself (serial scan, device files, queue daemon,
//! spooler) is I/O and happens outside this crate; each source hands its
//! findings in as plain values. This module formats the descriptions with
//! the advisory write-permission notes, parses the queue and spooler
//! listings, deduplicates by path, and always appends the two synthetic
//! entries for a network printer and free-text entry — so discovery never
//! yields an empty choice even with no physical device present.

use vstd::prelude::*;
use crate::chars::char_whitespace;
use crate::strutil::{
    str_contains, str_contains_ci, spec_contains_seq, spec_lower, trim, spec_trim,
    str_starts_with, spec_starts_with, strip_leading, spec_strip_leading, split_char,
    spec_split, lemma_split_len,
};

verus! {

/// One printable destination: `path` encodes the transport and address,
/// `description` is the human-readable label with detected capability.
pub struct PrinterPort {
    pub path: String,
    pub description: String,
}

/// The (path, description) pair of an entry, as specs speak of it.
pub open spec fn pp_view(p: PrinterPort) -> (Seq<char>, Seq<char>) {
    (p.path@, p.description@)
}

/// The result of the best-effort write-permission probe on a device.
#[derive(Clone, Copy, Debug, PartialEq, Eq, Structural)]
pub enum WriteProbe {
    /// Permission bits grant write access.
    Writable,
    /// Permission bits deny write access.
    NotWritable,
    /// The metadata could not be read.
    Unknown,
    /// The platform exposes no permission bits to probe.
    NotChecked,
}

/// What kind of port the serial enumerator reported.
pub enum PortKindInfo {
    /// A USB serial adapter with its optional product and manufacturer.
    Usb { product: Option<String>, manufacturer: Option<String> },
    /// A PCI serial port.
    Pci,
    /// A Bluetooth serial port.
    Bluetooth,
    /// An unidentified serial port.
    Unknown,
}

/// One port found by the serial enumerator.
pub struct DetectedSerialPort {
    pub name: String,
    pub kind: PortKindInfo,
    pub probe: WriteProbe,
}

/// One USB printer-class device file found on disk.
pub struct UsbLpDevice {
    pub path: String,
    pub writable: bool,
}

/// One spooler printer: name, driver and port as the spooler lists them.
pub struct SpoolerPrinter {
    pub name: String,
    pub driver: String,
    pub port_name: String,
}

/// The human-readable port-type label: USB ports name their product and,
/// when known, manufacturer.
pub open spec fn spec_port_type_desc(k: PortKindInfo) -> Seq<char> {
    match k {
        PortKindInfo::Usb { product, manufacturer } => {
            let p = match product {
                Option::Some(p) => p@,
                Option::None => "Unknown"@,
            };
            match manufacturer {
                Option::Some(m) => if m@.len() == 0 {
                    "USB: "@ + p
                } else {
                    "USB: "@ + p + " ("@ + m@ + ")"@
                },
                Option::None => "USB: "@ + p,
            }
        },
        PortKindInfo::Pci => "PCI Serial"@,
        PortKindInfo::Bluetooth => "Bluetooth Serial"@,
        PortKindInfo::Unknown => "Serial Port"@,
    }
}

/// Builds the port-type label.
pub fn port_type_description(k: &PortKindInfo) -> (r: String)
    ensures
        r@ == spec_port_type_desc(*k),
{
    match k {
        PortKindInfo::Usb { product, manufacturer } => {
            let mut d = String::from_str("USB: ");
            match product {
                Option::Some(p) => d.append(p.as_str()),
                Option::None => d.append("Unknown"),
            }
            match manufacturer {
                Option::Some(m) => {
                    if m.as_str().unicode_len() > 0 {
                        d.append(" (");
                        d.append(m.as_str());
                        d.append(")");
                    }
                },
                Option::None => {},
            }
            d
        },
        PortKindInfo::Pci => String::from_str("PCI Serial"),
        PortKindInfo::Bluetooth => String::from_str("Bluetooth Serial"),
        PortKindInfo::Unknown => String::from_str("Serial Port"),
    }
}

/// The advisory suffix the permission probe adds to a serial entry.
pub open spec fn spec_probe_suffix(p: WriteProbe) -> Seq<char> {
    match p {
        WriteProbe::Writable => " \u{2713}"@,
        WriteProbe::NotWritable => " \u{2717} (butuh: sudo usermod -aG dialout,lp $USER)"@,
        WriteProbe::Unknown => " \u{26a0}"@,
        WriteProbe::NotChecked => ""@,
    }
}

/// The advisory suffix for a probe result.
pub fn probe_suffix(p: &WriteProbe) -> (r: &'static str)
    ensures
        r@ == spec_probe_suffix(*p),
{
    match p {
        WriteProbe::Writable => " \u{2713}",
        WriteProbe::NotWritable => " \u{2717} (butuh: sudo usermod -aG dialout,lp $USER)",
        WriteProbe::Unknown => " \u{26a0}",
        WriteProbe::NotChecked => "",
    }
}

/// The destination entry for a detected serial port: a `serial:` path and
/// a label naming type, device and write permission.
pub open spec fn spec_serial_entry(p: DetectedSerialPort) -> (Seq<char>, Seq<char>) {
    (
        "serial:"@ + p.name@,
        spec_port_type_desc(p.kind) + " \u{2014} "@ + p.name@ + spec_probe_suffix(p.probe),
    )
}

/// Builds the destination entry for one detected serial port.
pub fn serial_port_entry(p: &DetectedSerialPort) -> (r: PrinterPort)
    ensures
        pp_view(r) == spec_serial_entry(*p),
{
    let mut path = String::from_str("serial:");
    path.append(p.name.as_str());
    let mut d = port_type_description(&p.kind);
    d.append(" \u{2014} ");
    d.append(p.name.as_str());
    d.append(probe_suffix(&p.probe));
    PrinterPort { path, description: d }
}

/// The destination entry for a USB printer-class device file: the bare
/// device path, and a label with readiness advice.
pub open spec fn spec_usb_lp_entry(d: UsbLpDevice) -> (Seq<char>, Seq<char>) {
    (
        d.path@,
        "USB Printer Direct \u{2014} "@ + d.path@ + " ("@ + (if d.writable {
            "\u{2713} ready"@
        } else {
            "\u{2717} butuh: sudo usermod -aG lp $USER"@
        }) + ")"@,
    )
}

/// Builds the destination entry for one USB printer-class device file.
pub fn usb_lp_entry(d: &UsbLpDevice) -> (r: PrinterPort)
    ensures
        pp_view(r) == spec_usb_lp_entry(*d),
{
    let mut desc = String::from_str("USB Printer Direct \u{2014} ");
    desc.append(d.path.as_str());
    desc.append(" (");
    if d.writable {
        desc.append("\u{2713} ready");
    } else {
        desc.append("\u{2717} butuh: sudo usermod -aG lp $USER");
    }
    desc.append(")");
    PrinterPort { path: d.path.clone(), description: desc }
}

/// The first position at or after `from` holding a whitespace character,
/// or the length of `s`.
pub open spec fn spec_skip_token(s: Seq<char>, from: int) -> int
    decreases s.len() - from,
{
    if from < 0 || from >= s.len() {
        s.len() as int
    } else if !char_whitespace(s[from]) {
        spec_skip_token(s, from + 1)
    } else {
        from
    }
}

/// The first position at or after `from` holding a non-whitespace
/// character, or the length of `s`.
pub open spec fn spec_skip_ws(s: Seq<char>, from: int) -> int
    decreases s.len() - from,
{
    if from < 0 || from >= s.len() {
        s.len() as int
    } else if char_whitespace(s[from]) {
        spec_skip_ws(s, from + 1)
    } else {
        from
    }
}

/// The second whitespace-separated token of `s`, when there is one.
pub open spec fn spec_second_token(s: Seq<char>) -> Option<Seq<char>> {
    let a = spec_skip_ws(s, 0);
    let b = spec_skip_token(s, a);
    let c = spec_skip_ws(s, b);
    if c >= s.len() {
        Option::None
    } else {
        Option::Some(s.subrange(c, spec_skip_token(s, c)))
    }
}

/// The second whitespace-separated token of `s`, when there is one.
pub fn second_token(s: &str) -> (r: Option<String>)
    ensures
        r is Some <==> spec_second_token(s@) is Some,
        r is Some ==> (r->0)@ == spec_second_token(s@)->0,
{
    let len = s.unicode_len();
    let mut a: usize = 0;
    while a < len && s.get_char(a).is_whitespace()
        invariant
            a <= len,
            len == s@.len(),
            spec_skip_ws(s@, 0) == spec_skip_ws(s@, a as int),
        decreases len - a,
    {
        a += 1;
    }
    assert(spec_skip_ws(s@, 0) == a);
    let mut b: usize = a;
    while b < len && !s.get_char(b).is_whitespace()
        invariant
            a <= b <= len,
            len == s@.len(),
            spec_skip_token(s@, a as int) == spec_skip_token(s@, b as int),
        decreases len - b,
    {
        b += 1;
    }
    assert(spec_skip_token(s@, a as int) == b);
    let mut c: usize = b;
    while c < len && s.get_char(c).is_whitespace()
        invariant
            b <= c <= len,
            len == s@.len(),
            spec_skip_ws(s@, b as int) == spec_skip_ws(s@, c as int),
        decreases len - c,
    {
        c += 1;
    }
    assert(spec_skip_ws(s@, b as int) == c);
    if c >= len {
        return None;
    }
    let mut d: usize = c;
    while d < len && !s.get_char(d).is_whitespace()
        invariant
            c <= d <= len,
            len == s@.len(),
            spec_skip_token(s@, c as int) == spec_skip_token(s@, d as int),
        decreases len - d,
    {
        d += 1;
    }
    assert(spec_skip_token(s@, c as int) == d);
    Some(s.substring_char(c, d).to_owned())
}

/// The queue state shown for an `lpstat -p` line.
pub open spec fn spec_queue_status(line: Seq<char>) -> Seq<char> {
    if spec_contains_seq(line, "idle"@) {
        "\u{2713} idle"@
    } else if spec_contains_seq(line, "disabled"@) {
        "\u{26a0} disabled"@
    } else if spec_contains_seq(line, "printing"@) {
        "\u{1f5a8} printing"@
    } else {
        "?"@
    }
}

/// The destination entry an `lpstat -p` line yields: its second token is
/// the queue name; a line without one yields nothing.
pub open spec fn spec_queue_line_entry(line: Seq<char>) -> Option<(Seq<char>, Seq<char>)> {
    match spec_second_token(line) {
        Option::None => Option::None,
        Option::Some(name) => Option::Some(
            ("cups:"@ + name, "CUPS: "@ + name + " ("@ + spec_queue_status(line) + ")"@),
        ),
    }
}

/// Parses one line of the queue daemon's printer listing into a
/// destination entry, reporting the queue state in the label.
pub fn parse_queue_line(line: &str) -> (r: Option<PrinterPort>)
    ensures
        r is Some <==> spec_queue_line_entry(line@) is Some,
        r is Some ==> pp_view(r->0) == spec_queue_line_entry(line@)->0,
{
    let name = match second_token(line) {
        Some(n) => n,
        None => {
            return None;
        },
    };
    let status: &str = if str_contains(line, "idle") {
        "\u{2713} idle"
    } else if str_contains(line, "disabled") {
        "\u{26a0} disabled"
    } else if str_contains(line, "printing") {
        "\u{1f5a8} printing"
    } else {
        "?"
    };
    let mut path = String::from_str("cups:");
    path.append(name.as_str());
    let mut desc = String::from_str("CUPS: ");
    desc.append(name.as_str());
    desc.append(" (");
    desc.append(status);
    desc.append(")");
    Some(PrinterPort { path, description: desc })
}

/// Whether a spooler printer name denotes a virtual printer (PDF, XPS,
/// note-taking or fax targets) that discovery hides.
pub open spec fn spec_is_virtual_printer(name: Seq<char>) -> bool {
    spec_contains_seq(spec_lower(name), "pdf"@) || spec_contains_seq(spec_lower(name), "xps"@)
        || spec_contains_seq(spec_lower(name), "onenote"@) || spec_contains_seq(
        spec_lower(name),
        "fax"@,
    ) || spec_contains_seq(spec_lower(name), "microsoft print"@)
}

/// Whether the spooler printer name denotes a virtual printer.
pub fn is_virtual_printer(name: &str) -> (r: bool)
    ensures
        r == spec_is_virtual_printer(name@),
{
    str_contains_ci(name, "pdf") || str_contains_ci(name, "xps") || str_contains_ci(
        name,
        "onenote",
    ) || str_contains_ci(name, "fax") || str_contains_ci(name, "microsoft print")
}

/// The destination entry for a spooler printer: empty names and virtual
/// printers yield nothing.
pub open spec fn spec_spooler_entry(p: SpoolerPrinter) -> Option<(Seq<char>, Seq<char>)> {
    if p.name@.len() == 0 || spec_is_virtual_printer(p.name@) {
        Option::None
    } else {
        Option::Some(
            (
                "winprint:"@ + p.name@,
                "\u{1f5a8}\u{fe0f} "@ + p.name@ + " (Driver: "@ + p.driver@ + ", Port: "@
                    + p.port_name@ + ")"@,
            ),
        )
    }
}

/// Builds the destination entry for one spooler printer, hiding empty
/// names and virtual printers.
pub fn spooler_entry(p: &SpoolerPrinter) -> (r: Option<PrinterPort>)
    ensures
        r is Some <==> spec_spooler_entry(*p) is Some,
        r is Some ==> pp_view(r->0) == spec_spooler_entry(*p)->0,
{
    if p.name.as_str().unicode_len() == 0 {
        return None;
    }
    if is_virtual_printer(p.name.as_str()) {
        return None;
    }
    let mut path = String::from_str("winprint:");
    path.append(p.name.as_str());
    let mut desc = String::from_str("\u{1f5a8}\u{fe0f} ");
    desc.append(p.name.as_str());
    desc.append(" (Driver: ");
    desc.append(p.driver.as_str());
    desc.append(", Port: ");
    desc.append(p.port_name.as_str());
    desc.append(")");
    Some(PrinterPort { path, description: desc })
}

/// A field value of the spooler listing, cleaned: trimmed, the leading
/// colon run removed, and trimmed again.
pub open spec fn spec_clean_field(v: Seq<char>) -> Seq<char> {
    spec_trim(spec_strip_leading(spec_trim(v), ':'))
}

/// Cleans one field value of the spooler listing.
pub fn clean_field(v: &str) -> (r: String)
    ensures
        r@ == spec_clean_field(v@),
{
    let t1 = trim(v);
    let s = strip_leading(t1, ':');
    let t2 = trim(s);
    t2.to_owned()
}

/// The printers named by the spooler listing from line `i` on, given the
/// name, driver and port fields collected so far: `Name`, `DriverName`
/// and `PortName` lines fill the current entry, a blank line closes it,
/// and the last entry is closed at the end of the listing.
pub open spec fn spec_spooler_parse(
    lines: Seq<Seq<char>>,
    i: int,
    name: Seq<char>,
    driver: Seq<char>,
    port: Seq<char>,
) -> Seq<(Seq<char>, Seq<char>, Seq<char>)>
    decreases lines.len() - i,
{
    if i < 0 || i >= lines.len() {
        if name.len() > 0 {
            seq![(name, driver, port)]
        } else {
            seq![]
        }
    } else {
        let t = spec_trim(lines[i]);
        if spec_starts_with(t, "Name"@) {
            spec_spooler_parse(
                lines,
                i + 1,
                spec_clean_field(t.subrange(4, t.len() as int)),
                driver,
                port,
            )
        } else if spec_starts_with(t, "DriverName"@) {
            spec_spooler_parse(
                lines,
                i + 1,
                name,
                spec_clean_field(t.subrange(10, t.len() as int)),
                port,
            )
        } else if spec_starts_with(t, "PortName"@) {
            spec_spooler_parse(
                lines,
                i + 1,
                name,
                driver,
                spec_clean_field(t.subrange(8, t.len() as int)),
            )
        } else if t.len() == 0 && name.len() > 0 {
            seq![(name, driver, port)] + spec_spooler_parse(
                lines,
                i + 1,
                Seq::<char>::empty(),
                Seq::<char>::empty(),
                Seq::<char>::empty(),
            )
        } else {
            spec_spooler_parse(lines, i + 1, name, driver, port)
        }
    }
}

/// Parses the spooler's `Format-List` printer listing into printer
/// records.
pub fn parse_spooler_list(lines: &Vec<String>) -> (r: Vec<SpoolerPrinter>)
    ensures
        r@.map_values(|p: SpoolerPrinter| (p.name@, p.driver@, p.port_name@))
            == spec_spooler_parse(
            lines@.map_values(|l: String| l@),
            0,
            Seq::<char>::empty(),
            Seq::<char>::empty(),
            Seq::<char>::empty(),
        ),
{
    let ghost lv = lines@.map_values(|l: String| l@);
    let ghost whole = spec_spooler_parse(
        lv,
        0,
        Seq::<char>::empty(),
        Seq::<char>::empty(),
        Seq::<char>::empty(),
    );
    let mut r: Vec<SpoolerPrinter> = Vec::new();
    let mut name = String::new();
    let mut driver = String::new();
    let mut port = String::new();
    let mut i: usize = 0;
    while i < lines.len()
        invariant
            i <= lines@.len(),
            lv == lines@.map_values(|l: String| l@),
            whole == spec_spooler_parse(
                lv,
                0,
                Seq::<char>::empty(),
                Seq::<char>::empty(),
                Seq::<char>::empty(),
            ),
            whole =~~= r@.map_values(|p: SpoolerPrinter| (p.name@, p.driver@, p.port_name@))
                + spec_spooler_parse(lv, i as int, name@, driver@, port@),
        decreases lines@.len() - i,
    {
        let ghost pre = r@;
        let t = trim(lines[i].as_str());
        let t_len = t.unicode_len();
        if str_starts_with(t, "Name") {
            proof {
                reveal_strlit("Name");
            }
            name = clean_field(t.substring_char(4, t_len));
        } else if str_starts_with(t, "DriverName") {
            proof {
                reveal_strlit("DriverName");
            }
            driver = clean_field(t.substring_char(10, t_len));
        } else if str_starts_with(t, "PortName") {
            proof {
                reveal_strlit("PortName");
            }
            port = clean_field(t.substring_char(8, t_len));
        } else if t_len == 0 && name.as_str().unicode_len() > 0 {
            r.push(SpoolerPrinter { name, driver, port_name: port });
            name = String::new();
            driver = String::new();
            port = String::new();
            proof {
                assert(r@.map_values(|p: SpoolerPrinter| (p.name@, p.driver@, p.port_name@))
                    =~= pre.map_values(|p: SpoolerPrinter| (p.name@, p.driver@, p.port_name@))
                    + seq![(r@[pre.len() as int].name@, r@[pre.len() as int].driver@, r@[pre.len() as int].port_name@)]);
            }
        }
        i += 1;
    }
    if name.as_str().unicode_len() > 0 {
        let ghost pre = r@;
        r.push(SpoolerPrinter { name, driver, port_name: port });
        proof {
            assert(r@.map_values(|p: SpoolerPrinter| (p.name@, p.driver@, p.port_name@))
                =~= pre.map_values(|p: SpoolerPrinter| (p.name@, p.driver@, p.port_name@))
                + seq![(r@[pre.len() as int].name@, r@[pre.len() as int].driver@, r@[pre.len() as int].port_name@)]);
            assert(whole =~~= r@.map_values(|p: SpoolerPrinter| (p.name@, p.driver@, p.port_name@)));
        }
    } else {
        proof {
            assert(whole =~~= r@.map_values(|p: SpoolerPrinter| (p.name@, p.driver@, p.port_name@)));
        }
    }
    r
}

/// The printer record one comma-separated listing line yields: the
/// driver, name and port fields stand second to fourth, trimmed; lines
/// with fewer fields yield nothing.
pub open spec fn spec_wmic_line(line: Seq<char>) -> Option<(Seq<char>, Seq<char>, Seq<char>)> {
    let fields = spec_split(line, ',');
    if fields.len() >= 4 {
        Option::Some((spec_trim(fields[2]), spec_trim(fields[1]), spec_trim(fields[3])))
    } else {
        Option::None
    }
}

/// Parses one line of the legacy comma-separated spooler listing into a
/// printer record of name, driver and port.
pub fn parse_wmic_line(line: &str) -> (r: Option<SpoolerPrinter>)
    ensures
        r is Some <==> spec_wmic_line(line@) is Some,
        r is Some ==> ((r->0).name@, (r->0).driver@, (r->0).port_name@) == spec_wmic_line(
            line@,
        )->0,
{
    let fields = split_char(line, ',');
    if fields.len() >= 4 {
        let driver = trim(fields[1].as_str()).to_owned();
        let name = trim(fields[2].as_str()).to_owned();
        let port_name = trim(fields[3].as_str()).to_owned();
        Some(SpoolerPrinter { name, driver, port_name })
    } else {
        proof {
            lemma_split_len(line@, ',');
        }
        None
    }
}

/// The synthetic network entry that prompts for `host:port`.
pub open spec fn spec_network_placeholder() -> (Seq<char>, Seq<char>) {
    (
        "network"@,
        "\u{1f310} Network Printer (TCP/IP \u{2014} masukkan IP:PORT, contoh: 192.168.1.100:9100)"@,
    )
}

/// The synthetic free-text entry.
pub open spec fn spec_manual_placeholder() -> (Seq<char>, Seq<char>) {
    ("manual"@, "\u{270f}\u{fe0f} Manual \u{2014} Ketik nama printer / path device secara manual"@)
}

/// The entries of the first `k` detected serial ports, in order.
pub open spec fn spec_serial_entries(ps: Seq<DetectedSerialPort>, k: int) -> Seq<
    (Seq<char>, Seq<char>),
>
    decreases k,
{
    if k <= 0 {
        seq![]
    } else {
        spec_serial_entries(ps, k - 1) + seq![spec_serial_entry(ps[k - 1])]
    }
}

/// The raw device names of the first `k` detected serial ports.
pub open spec fn spec_serial_names(ps: Seq<DetectedSerialPort>, k: int) -> Seq<Seq<char>>
    decreases k,
{
    if k <= 0 {
        seq![]
    } else {
        spec_serial_names(ps, k - 1).push(ps[k - 1].name@)
    }
}

/// Whether `x` is among the paths already seen.
pub open spec fn spec_seq_has(seen: Seq<Seq<char>>, x: Seq<char>) -> bool {
    exists|i: int| 0 <= i < seen.len() && seen[i] == x
}

/// The entries of the USB printer-class devices from index `i` on, each
/// skipped when its path was already seen, and otherwise recorded as
/// seen.
pub open spec fn spec_usb_entries(
    usb: Seq<UsbLpDevice>,
    i: int,
    seen: Seq<Seq<char>>,
) -> Seq<(Seq<char>, Seq<char>)>
    decreases usb.len() - i,
{
    if i < 0 || i >= usb.len() {
        seq![]
    } else if spec_seq_has(seen, usb[i].path@) {
        spec_usb_entries(usb, i + 1, seen)
    } else {
        seq![spec_usb_lp_entry(usb[i])] + spec_usb_entries(usb, i + 1, seen.push(usb[i].path@))
    }
}

/// The entries the first `k` queue-listing lines yield.
pub open spec fn spec_queue_entries(lines: Seq<Seq<char>>, k: int) -> Seq<(Seq<char>, Seq<char>)>
    decreases k,
{
    if k <= 0 {
        seq![]
    } else {
        spec_queue_entries(lines, k - 1) + (match spec_queue_line_entry(lines[k - 1]) {
            Option::Some(e) => seq![e],
            Option::None => seq![],
        })
    }
}

/// The entries the first `k` spooler printers yield.
pub open spec fn spec_spooler_entries(ps: Seq<SpoolerPrinter>, k: int) -> Seq<
    (Seq<char>, Seq<char>),
>
    decreases k,
{
    if k <= 0 {
        seq![]
    } else {
        spec_spooler_entries(ps, k - 1) + (match spec_spooler_entry(ps[k - 1]) {
            Option::Some(e) => seq![e],
            Option::None => seq![],
        })
    }
}

/// The whole destination list: serial ports, then USB device files not
/// already seen, then queue printers, then spooler printers, and always
/// the two synthetic entries last.
pub open spec fn spec_list_destinations(
    serial: Seq<DetectedSerialPort>,
    usb: Seq<UsbLpDevice>,
    queue_lines: Seq<Seq<char>>,
    spooler: Seq<SpoolerPrinter>,
) -> Seq<(Seq<char>, Seq<char>)> {
    spec_serial_entries(serial, serial.len() as int) + spec_usb_entries(
        usb,
        0,
        spec_serial_names(serial, serial.len() as int),
    ) + spec_queue_entries(queue_lines, queue_lines.len() as int) + spec_spooler_entries(
        spooler,
        spooler.len() as int,
    ) + seq![spec_network_placeholder(), spec_manual_placeholder()]
}

/// Whether `x` is among the strings collected in `seen`.
fn seen_contains(seen: &Vec<String>, x: &String) -> (r: bool)
    ensures
        r == spec_seq_has(seen@.map_values(|s: String| s@), x@),
{
    let ghost sv = seen@.map_values(|s: String| s@);
    let mut j: usize = 0;
    while j < seen.len()
        invariant
            j <= seen@.len(),
            sv == seen@.map_values(|s: String| s@),
            forall|k: int| 0 <= k < j ==> sv[k] != x@,
        decreases seen@.len() - j,
    {
        if seen[j].eq(x) {
            assert(sv[j as int] == x@);
            return true;
        }
        j += 1;
    }
    false
}

/// Combines everything the platform enumerators found into the ordered
/// destination list: serial ports first, then USB device files whose
/// paths were not already reported as serial ports, then queue printers,
/// then spooler printers. Every source is optional, and the two synthetic
/// entries — the network prompt and the free-text entry — always close
/// the list, so even with no physical device the list holds at least
/// those two.
pub fn list_destinations(
    serial: &Vec<DetectedSerialPort>,
    usb: &Vec<UsbLpDevice>,
    queue_lines: &Vec<String>,
    spooler: &Vec<SpoolerPrinter>,
) -> (r: Vec<PrinterPort>)
    ensures
        r@.map_values(|p: PrinterPort| pp_view(p)) == spec_list_destinations(
            serial@,
            usb@,
            queue_lines@.map_values(|l: String| l@),
            spooler@,
        ),
        r@.len() >= 2,
        pp_view(r@[r@.len() - 2]) == spec_network_placeholder(),
        pp_view(r@[r@.len() - 1]) == spec_manual_placeholder(),
{
    let mut r: Vec<PrinterPort> = Vec::new();
    let mut seen: Vec<String> = Vec::new();

    let mut i: usize = 0;
    while i < serial.len()
        invariant
            i <= serial@.len(),
            r@.map_values(|p: PrinterPort| pp_view(p)) == spec_serial_entries(serial@, i as int),
            seen@.map_values(|s: String| s@) == spec_serial_names(serial@, i as int),
        decreases serial@.len() - i,
    {
        let ghost pre = r@;
        let ghost pre_seen = seen@;
        let entry = serial_port_entry(&serial[i]);
        r.push(entry);
        seen.push(serial[i].name.clone());
        proof {
            assert(r@.map_values(|p: PrinterPort| pp_view(p)) =~= pre.map_values(
                |p: PrinterPort| pp_view(p),
            ) + seq![pp_view(r@[pre.len() as int])]);
            assert(seen@.map_values(|s: String| s@) =~= pre_seen.map_values(|s: String| s@).push(
                seen@[pre_seen.len() as int]@,
            ));
        }
        i += 1;
    }

    let ghost base1 = r@.map_values(|p: PrinterPort| pp_view(p));
    let ghost names = seen@.map_values(|s: String| s@);
    let mut j: usize = 0;
    while j < usb.len()
        invariant
            j <= usb@.len(),
            base1 == spec_serial_entries(serial@, serial@.len() as int),
            base1 + spec_usb_entries(usb@, 0, names) =~~= r@.map_values(
                |p: PrinterPort| pp_view(p),
            ) + spec_usb_entries(usb@, j as int, seen@.map_values(|s: String| s@)),
        decreases usb@.len() - j,
    {
        let ghost pre = r@;
        let ghost pre_seen = seen@;
        if !seen_contains(&seen, &usb[j].path) {
            let entry = usb_lp_entry(&usb[j]);
            r.push(entry);
            seen.push(usb[j].path.clone());
            proof {
                assert(r@.map_values(|p: PrinterPort| pp_view(p)) =~= pre.map_values(
                    |p: PrinterPort| pp_view(p),
                ) + seq![pp_view(r@[pre.len() as int])]);
                assert(seen@.map_values(|s: String| s@) =~= pre_seen.map_values(
                    |s: String| s@,
                ).push(seen@[pre_seen.len() as int]@));
            }
        }
        j += 1;
    }
    proof {
        assert(r@.map_values(|p: PrinterPort| pp_view(p)) =~~= base1 + spec_usb_entries(
            usb@,
            0,
            names,
        ));
    }

    let ghost base2 = r@.map_values(|p: PrinterPort| pp_view(p));
    let ghost qlv = queue_lines@.map_values(|l: String| l@);
    let mut q: usize = 0;
    while q < queue_lines.len()
        invariant
            q <= queue_lines@.len(),
            qlv == queue_lines@.map_values(|l: String| l@),
            r@.map_values(|p: PrinterPort| pp_view(p)) == base2 + spec_queue_entries(
                qlv,
                q as int,
            ),
        decreases queue_lines@.len() - q,
    {
        let ghost pre = r@;
        match parse_queue_line(queue_lines[q].as_str()) {
            Some(entry) => {
                r.push(entry);
                proof {
                    assert(r@.map_values(|p: PrinterPort| pp_view(p)) =~= pre.map_values(
                        |p: PrinterPort| pp_view(p),
                    ) + seq![pp_view(r@[pre.len() as int])]);
                }
            },
            None => {
                proof {
                    assert(spec_queue_entries(qlv, q + 1) =~= spec_queue_entries(qlv, q as int));
                }
            },
        }
        q += 1;
    }

    let ghost base3 = r@.map_values(|p: PrinterPort| pp_view(p));
    let mut w: usize = 0;
    while w < spooler.len()
        invariant
            w <= spooler@.len(),
            r@.map_values(|p: PrinterPort| pp_view(p)) == base3 + spec_spooler_entries(
                spooler@,
                w as int,
            ),
        decreases spooler@.len() - w,
    {
        let ghost pre = r@;
        match spooler_entry(&spooler[w]) {
            Some(entry) => {
                r.push(entry);
                proof {
                    assert(r@.map_values(|p: PrinterPort| pp_view(p)) =~= pre.map_values(
                        |p: PrinterPort| pp_view(p),
                    ) + seq![pp_view(r@[pre.len() as int])]);
                }
            },
            None => {
                proof {
                    assert(spec_spooler_entries(spooler@, w + 1) =~= spec_spooler_entries(
                        spooler@,
                        w as int,
                    ));
                }
            },
        }
        w += 1;
    }

    let ghost pre_net = r@;
    r.push(
        PrinterPort {
            path: String::from_str("network"),
            description: String::from_str(
                "\u{1f310} Network Printer (TCP/IP \u{2014} masukkan IP:PORT, contoh: 192.168.1.100:9100)",
            ),
        },
    );
    proof {
        assert(r@.map_values(|p: PrinterPort| pp_view(p)) =~= pre_net.map_values(
            |p: PrinterPort| pp_view(p),
        ) + seq![pp_view(r@[pre_net.len() as int])]);
    }
    let ghost pre_man = r@;
    r.push(
        PrinterPort {
            path: String::from_str("manual"),
            description: String::from_str(
                "\u{270f}\u{fe0f} Manual \u{2014} Ketik nama printer / path device secara manual",
            ),
        },
    );
    proof {
        assert(r@.map_values(|p: PrinterPort| pp_view(p)) =~= pre_man.map_values(
            |p: PrinterPort| pp_view(p),
        ) + seq![pp_view(r@[pre_man.len() as int])]);
        assert(r@.map_values(|p: PrinterPort| pp_view(p)) =~~= spec_list_destinations(
            serial@,
            usb@,
            queue_lines@.map_values(|l: String| l@),
            spooler@,
        ));
    }
    r
}

} // verus!
