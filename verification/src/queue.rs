//! Print-queue, spooler and raw-device logic.
//!
//! Queue and spooler transports write the byte stream to a uniquely named
//! temporary file and hand it to an external utility; this module builds
//! the collision-resistant file name and the exact commands to run, and
//! classifies their failures. Running the commands and touching the file
//! system happen outside this crate.

use vstd::prelude::*;
use crate::format::{
    u64_to_string, spec_digits, lemma_digits_digit_chars, lemma_digits_nonempty,
    lemma_digits_injective,
};
use crate::diagnostics::{PrintError, PrintErrorKind, OsErrorKind};

verus! {

/// The temporary file name for one print job: process id and timestamp
/// keep two concurrent jobs from colliding.
pub open spec fn spec_temp_file_name(pid: int, millis: int, ext: Seq<char>) -> Seq<char> {
    "pos_print_"@ + spec_digits(pid as nat) + "_"@ + spec_digits(millis as nat) + "."@ + ext
}

/// Builds the unique temporary file name for a print job from the current
/// process id and a millisecond timestamp.
pub fn temp_file_name(pid: u32, millis: u64, ext: &str) -> (r: String)
    ensures
        r@ == spec_temp_file_name(pid as int, millis as int, ext@),
{
    let mut r = String::from_str("pos_print_");
    let p = u64_to_string(pid as u64);
    r.append(p.as_str());
    r.append("_");
    let m = u64_to_string(millis);
    r.append(m.as_str());
    r.append(".");
    r.append(ext);
    r
}

/// Uniqueness of job file names: two jobs share a name only when both
/// the process id and the millisecond stamp coincide, so names built
/// from distinct ids or distinct readings never collide — the sole
/// mechanism that keeps concurrent print jobs apart.
pub proof fn lemma_temp_file_name_unique(p1: int, m1: int, p2: int, m2: int, ext: Seq<char>)
    requires
        0 <= p1,
        0 <= m1,
        0 <= p2,
        0 <= m2,
        spec_temp_file_name(p1, m1, ext) == spec_temp_file_name(p2, m2, ext),
    ensures
        p1 == p2,
        m1 == m2,
{
    reveal_strlit("pos_print_");
    reveal_strlit("_");
    reveal_strlit(".");
    let pre = "pos_print_"@;
    let us = "_"@;
    let dot = "."@;
    let d1 = spec_digits(p1 as nat);
    let d2 = spec_digits(p2 as nat);
    let e1 = spec_digits(m1 as nat);
    let e2 = spec_digits(m2 as nat);
    let n1 = spec_temp_file_name(p1, m1, ext);
    let n2 = spec_temp_file_name(p2, m2, ext);
    lemma_digits_digit_chars(p1 as nat);
    lemma_digits_digit_chars(p2 as nat);
    lemma_digits_digit_chars(m1 as nat);
    lemma_digits_digit_chars(m2 as nat);
    lemma_digits_nonempty(p1 as nat);
    lemma_digits_nonempty(p2 as nat);
    lemma_digits_nonempty(m1 as nat);
    lemma_digits_nonempty(m2 as nat);
    assert(pre.len() == 10);
    assert(us[0] == '_');
    assert(dot[0] == '.');
    let l1 = d1.len() as int;
    let l2 = d2.len() as int;
    if l1 < l2 {
        assert(n1[10 + l1] == us[0]);
        assert(n2[10 + l1] == d2[l1]);
        assert('0' <= d2[l1] <= '9');
        assert(false);
    }
    if l2 < l1 {
        assert(n2[10 + l2] == us[0]);
        assert(n1[10 + l2] == d1[l2]);
        assert('0' <= d1[l2] <= '9');
        assert(false);
    }
    assert forall|i: int| 0 <= i < l1 implies d1[i] == d2[i] by {
        assert(n1[10 + i] == d1[i]);
        assert(n2[10 + i] == d2[i]);
    }
    assert(d1 =~= d2);
    lemma_digits_injective(p1 as nat, p2 as nat);
    let k1 = e1.len() as int;
    let k2 = e2.len() as int;
    let base = 11 + l1;
    if k1 < k2 {
        assert(n1[base + k1] == dot[0]);
        assert(n2[base + k1] == e2[k1]);
        assert('0' <= e2[k1] <= '9');
        assert(false);
    }
    if k2 < k1 {
        assert(n2[base + k2] == dot[0]);
        assert(n1[base + k2] == e1[k2]);
        assert('0' <= e1[k2] <= '9');
        assert(false);
    }
    assert forall|i: int| 0 <= i < k1 implies e1[i] == e2[i] by {
        assert(n1[base + i] == e1[i]);
        assert(n2[base + i] == e2[i]);
    }
    assert(e1 =~= e2);
    lemma_digits_injective(m1 as nat, m2 as nat);
}

/// Builds a temporary file name from the process id and the clock read
/// just now: for whatever millisecond reading the clock yielded, the
/// name is the one that reading determines.
pub fn temp_file_name_now(pid: u32, ext: &str) -> (r: String)
    ensures
        exists|m: int| r@ == spec_temp_file_name(pid as int, m, ext@),
{
    let millis = crate::timeclock::epoch_millis_now();
    let r = temp_file_name(pid, millis, ext);
    assert(r@ == spec_temp_file_name(pid as int, millis as int, ext@));
    r
}

/// One external command to run: a program name and its arguments, handed
/// to a process runner outside this crate.
pub struct CommandSpec {
    pub program: String,
    pub args: Vec<String>,
}

/// The raw-mode print command for the Unix queue daemon:
/// `lp -d <queue> -o raw <file>`.
pub fn queue_print_command(queue: &str, file: &str) -> (r: CommandSpec)
    ensures
        r.program@ == "lp"@,
        r.args@.len() == 5,
        r.args@[0]@ == "-d"@,
        r.args@[1]@ == queue@,
        r.args@[2]@ == "-o"@,
        r.args@[3]@ == "raw"@,
        r.args@[4]@ == file@,
{
    let mut args: Vec<String> = Vec::new();
    args.push(String::from_str("-d"));
    args.push(queue.to_owned());
    args.push(String::from_str("-o"));
    args.push(String::from_str("raw"));
    args.push(file.to_owned());
    CommandSpec { program: String::from_str("lp"), args }
}

/// The diagnostic when the queue daemon's print command cannot be run at
/// all.
pub fn queue_missing_error(raw: &str) -> (r: PrintError)
    ensures
        r.kind == PrintErrorKind::UnsupportedPlatform,
        r.message@ == "Gagal jalankan lp command: "@ + raw@ + ". Pastikan CUPS terinstall."@,
{
    let mut m = String::from_str("Gagal jalankan lp command: ");
    m.append(raw);
    m.append(". Pastikan CUPS terinstall.");
    PrintError { kind: PrintErrorKind::UnsupportedPlatform, message: m }
}

/// The diagnostic when the queue daemon ran but reported failure.
pub fn queue_failed_error(stderr: &str) -> (r: PrintError)
    ensures
        r.kind == PrintErrorKind::ProtocolError,
        r.message@ == "CUPS error: "@ + stderr@,
{
    let mut m = String::from_str("CUPS error: ");
    m.append(stderr);
    PrintError { kind: PrintErrorKind::ProtocolError, message: m }
}

/// The diagnostic when the temporary file cannot be created.
pub fn temp_create_error(raw: &str) -> (r: PrintError)
    ensures
        r.kind == PrintErrorKind::ProtocolError,
        r.message@ == "Gagal buat file temporary: "@ + raw@,
{
    let mut m = String::from_str("Gagal buat file temporary: ");
    m.append(raw);
    PrintError { kind: PrintErrorKind::ProtocolError, message: m }
}

/// The diagnostic when the byte stream cannot be written to the temporary
/// file.
pub fn temp_write_error(raw: &str) -> (r: PrintError)
    ensures
        r.kind == PrintErrorKind::ProtocolError,
        r.message@ == "Gagal tulis data: "@ + raw@,
{
    let mut m = String::from_str("Gagal tulis data: ");
    m.append(raw);
    PrintError { kind: PrintErrorKind::ProtocolError, message: m }
}

/// The spooler's three delivery methods, in the order they are attempted:
/// a byte-preserving pipeline to the named printer, a direct byte copy,
/// and the legacy print utility. The first to succeed wins.
pub fn spooler_commands(printer: &str, file: &str) -> (r: Vec<CommandSpec>)
    ensures
        r@.len() == 3,
        r@[0].program@ == "powershell"@,
        r@[0].args@.len() == 3,
        r@[0].args@[0]@ == "-NoProfile"@,
        r@[0].args@[1]@ == "-Command"@,
        r@[0].args@[2]@ == "Get-Content -Encoding Byte -Path '"@ + file@
            + "' | Out-Printer -Name '"@ + printer@ + "'"@,
        r@[1].program@ == "cmd"@,
        r@[1].args@.len() == 2,
        r@[1].args@[0]@ == "/C"@,
        r@[1].args@[1]@ == "copy /b \""@ + file@ + "\" \""@ + printer@ + "\""@,
        r@[2].program@ == "cmd"@,
        r@[2].args@.len() == 2,
        r@[2].args@[0]@ == "/C"@,
        r@[2].args@[1]@ == "print /d:\""@ + printer@ + "\" \""@ + file@ + "\""@,
{
    let mut ps_arg = String::from_str("Get-Content -Encoding Byte -Path '");
    ps_arg.append(file);
    ps_arg.append("' | Out-Printer -Name '");
    ps_arg.append(printer);
    ps_arg.append("'");
    let mut ps_args: Vec<String> = Vec::new();
    ps_args.push(String::from_str("-NoProfile"));
    ps_args.push(String::from_str("-Command"));
    ps_args.push(ps_arg);

    let mut copy_arg = String::from_str("copy /b \"");
    copy_arg.append(file);
    copy_arg.append("\" \"");
    copy_arg.append(printer);
    copy_arg.append("\"");
    let mut copy_args: Vec<String> = Vec::new();
    copy_args.push(String::from_str("/C"));
    copy_args.push(copy_arg);

    let mut print_arg = String::from_str("print /d:\"");
    print_arg.append(printer);
    print_arg.append("\" \"");
    print_arg.append(file);
    print_arg.append("\"");
    let mut print_args: Vec<String> = Vec::new();
    print_args.push(String::from_str("/C"));
    print_args.push(print_arg);

    let mut r: Vec<CommandSpec> = Vec::new();
    r.push(CommandSpec { program: String::from_str("powershell"), args: ps_args });
    r.push(CommandSpec { program: String::from_str("cmd"), args: copy_args });
    r.push(CommandSpec { program: String::from_str("cmd"), args: print_args });
    r
}

/// The diagnostic when every spooler method ran and the last one reported
/// failure, with the checklist the user can act on.
pub fn spooler_failed_error(printer: &str, stderr: &str) -> (r: PrintError)
    ensures
        r.kind == PrintErrorKind::ProtocolError,
        r.message@ == "Gagal cetak ke printer '"@ + printer@
            + "'!\n\nPastikan:\n1. Printer '"@ + printer@
            + "' terdaftar di Windows (Settings \u{2192} Printers & scanners)\n2. Nama printer sesuai (case-sensitive)\n3. Printer menyala dan terhubung\n4. Driver printer terinstall dengan benar\n\nError: "@
            + stderr@,
{
    let mut m = String::from_str("Gagal cetak ke printer '");
    m.append(printer);
    m.append("'!\n\nPastikan:\n1. Printer '");
    m.append(printer);
    m.append(
        "' terdaftar di Windows (Settings \u{2192} Printers & scanners)\n2. Nama printer sesuai (case-sensitive)\n3. Printer menyala dan terhubung\n4. Driver printer terinstall dengan benar\n\nError: ",
    );
    m.append(stderr);
    PrintError { kind: PrintErrorKind::ProtocolError, message: m }
}

/// The diagnostic when no spooler method could even be started.
pub fn spooler_unreachable_error(printer: &str) -> (r: PrintError)
    ensures
        r.kind == PrintErrorKind::ProtocolError,
        r.message@ == "Tidak dapat mengirim ke printer '"@ + printer@
            + "'. Pastikan printer terdaftar dan menyala."@,
{
    let mut m = String::from_str("Tidak dapat mengirim ke printer '");
    m.append(printer);
    m.append("'. Pastikan printer terdaftar dan menyala.");
    PrintError { kind: PrintErrorKind::ProtocolError, message: m }
}

/// The diagnostic for a raw device-file write that failed with the given
/// OS condition: missing devices and permission problems get their
/// remediation text, everything else the generic send failure.
pub fn raw_device_error(port: &str, k: OsErrorKind, raw: &str) -> (r: PrintError)
    ensures
        k == OsErrorKind::NotFound ==> r.kind == PrintErrorKind::NotFound && r.message@
            == "Device "@ + port@ + " tidak ditemukan. Pastikan printer terhubung."@,
        k == OsErrorKind::PermissionDenied ==> r.kind == PrintErrorKind::PermissionDenied
            && r.message@ == "Permission denied untuk "@ + port@
            + "!\n\nSolusi: sudo usermod -aG lp $USER (lalu logout/login)\nAtau sementara: sudo chmod 666 "@
            + port@,
        (k == OsErrorKind::TimedOut || k == OsErrorKind::Other) ==> r.kind
            == PrintErrorKind::ProtocolError && r.message@ == "Gagal kirim ke printer "@ + port@
            + ": "@ + raw@,
{
    match k {
        OsErrorKind::NotFound => {
            let mut m = String::from_str("Device ");
            m.append(port);
            m.append(" tidak ditemukan. Pastikan printer terhubung.");
            PrintError { kind: PrintErrorKind::NotFound, message: m }
        },
        OsErrorKind::PermissionDenied => {
            let mut m = String::from_str("Permission denied untuk ");
            m.append(port);
            m.append(
                "!\n\nSolusi: sudo usermod -aG lp $USER (lalu logout/login)\nAtau sementara: sudo chmod 666 ",
            );
            m.append(port);
            PrintError { kind: PrintErrorKind::PermissionDenied, message: m }
        },
        _ => {
            let mut m = String::from_str("Gagal kirim ke printer ");
            m.append(port);
            m.append(": ");
            m.append(raw);
            PrintError { kind: PrintErrorKind::ProtocolError, message: m }
        },
    }
}

/// Whether a Unix permission mode grants group or other write access:
/// the best-effort writability probe before a raw device write. Advisory
/// only; a stale or platform-inaccurate answer never gates the actual
/// write.
pub fn mode_looks_writable(mode: u32) -> (r: bool)
    ensures
        r == (mode & 0o002 != 0 || mode & 0o020 != 0),
{
    (mode & 0o002) != 0 || (mode & 0o020) != 0
}

} // verus!
