//! Serial transport logic: the baud-rate sweep and the classification of
//! serial open failures.
//!
//! The device open itself is I/O and happens outside this crate; the
//! decisions are here. A fixed list of baud rates is tried in order. When
//! the very first attempt fails because of a permission or missing-device
//! condition, the sweep stops at once: further rates cannot fix that.
//! Any other failure lets the sweep try every rate before giving up.

use vstd::prelude::*;
use crate::strutil::{str_contains_ci, spec_contains_seq, spec_lower};
use crate::diagnostics::{PrintError, PrintErrorKind};

verus! {

/// Why a serial open failed, as far as the sweep cares.
#[derive(Clone, Copy, Debug, PartialEq, Eq, Structural)]
pub enum SerialFailure {
    /// The error text speaks of a permission problem.
    PermissionDenied,
    /// The error text speaks of a missing device.
    NotFound,
    /// Anything else (treated as a connection or speed issue).
    Other,
}

/// The classification of a serial error description: permission problems
/// first, then missing devices, else unspecified.
pub open spec fn spec_classify_serial_error(desc: Seq<char>) -> SerialFailure {
    if spec_contains_seq(spec_lower(desc), "permission"@) {
        SerialFailure::PermissionDenied
    } else if spec_contains_seq(spec_lower(desc), "not found"@) || spec_contains_seq(
        spec_lower(desc),
        "no such"@,
    ) {
        SerialFailure::NotFound
    } else {
        SerialFailure::Other
    }
}

/// Classifies the error text of a failed serial open.
pub fn classify_serial_error(desc: &str) -> (r: SerialFailure)
    ensures
        r == spec_classify_serial_error(desc@),
{
    if str_contains_ci(desc, "permission") {
        SerialFailure::PermissionDenied
    } else if str_contains_ci(desc, "not found") || str_contains_ci(desc, "no such") {
        SerialFailure::NotFound
    } else {
        SerialFailure::Other
    }
}

/// How many baud rates the sweep may try.
pub open spec fn spec_baud_count() -> int {
    4
}

/// The fixed baud-rate order: the most common thermal-printer rate first.
pub open spec fn spec_baud_rates() -> Seq<u32> {
    seq![9600u32, 19200u32, 38400u32, 115200u32]
}

/// The ordered baud rates the sweep tries.
pub fn baud_rates() -> (r: Vec<u32>)
    ensures
        r@ == spec_baud_rates(),
{
    let mut v: Vec<u32> = Vec::new();
    v.push(9600);
    v.push(19200);
    v.push(38400);
    v.push(115200);
    assert(v@ =~= spec_baud_rates());
    v
}

/// Whether the sweep goes on to the next rate after attempt `index`
/// (counted from zero) failed as `f`: only while rates remain, and never
/// past a first attempt that failed for a permission or missing-device
/// reason.
pub open spec fn spec_sweep_continues(index: int, f: SerialFailure) -> bool {
    index + 1 < spec_baud_count() && !(index == 0 && f != SerialFailure::Other)
}

/// Decides whether the baud sweep continues after a failed attempt.
pub fn sweep_continues(index: usize, f: &SerialFailure) -> (r: bool)
    ensures
        r == spec_sweep_continues(index as int, *f),
{
    index < 3 && !(index == 0 && !matches!(f, SerialFailure::Other))
}

/// The number of attempts the sweep makes from attempt `i` on, when every
/// attempt fails and attempt `j` fails as `fs[j]`.
pub open spec fn spec_attempts_from(fs: Seq<SerialFailure>, i: int) -> int
    decreases spec_baud_count() - i,
{
    if 0 <= i < spec_baud_count() {
        if spec_sweep_continues(i, fs[i]) {
            spec_attempts_from(fs, i + 1)
        } else {
            i + 1
        }
    } else {
        0
    }
}

/// When every open fails, a fatal first failure (permission or missing
/// device) stops the sweep after one attempt, and any other first failure
/// lets it try all four rates.
pub proof fn lemma_baud_sweep_attempts(fs: Seq<SerialFailure>)
    requires
        fs.len() >= spec_baud_count(),
    ensures
        fs[0] != SerialFailure::Other ==> spec_attempts_from(fs, 0) == 1,
        fs[0] == SerialFailure::Other ==> spec_attempts_from(fs, 0) == spec_baud_count(),
{
    if fs[0] != SerialFailure::Other {
        assert(!spec_sweep_continues(0, fs[0]));
        assert(spec_attempts_from(fs, 0) == 1);
    } else {
        assert(spec_attempts_from(fs, 3) == 4);
        assert(spec_attempts_from(fs, 2) == 4);
        assert(spec_attempts_from(fs, 1) == 4);
        assert(spec_attempts_from(fs, 0) == 4);
    }
}

/// The diagnostic for a serial send whose every open attempt failed,
/// built from the device path, the classified reason of the last error
/// and its raw text. `on_windows` selects the platform remediation for
/// permission problems.
pub fn serial_open_error(
    device: &str,
    f: &SerialFailure,
    raw: &str,
    on_windows: bool,
) -> (r: PrintError)
    ensures
        f == SerialFailure::PermissionDenied ==> r.kind == PrintErrorKind::PermissionDenied,
        f == SerialFailure::NotFound ==> r.kind == PrintErrorKind::NotFound,
        f == SerialFailure::Other ==> r.kind == PrintErrorKind::ProtocolError,
        (f == SerialFailure::PermissionDenied && !on_windows) ==> r.message@
            == "Permission denied untuk "@ + device@
            + "!\n\nSolusi:\n1. sudo usermod -aG dialout,lp $USER\n2. Logout dan login ulang\n3. Atau sementara: sudo chmod 666 "@
            + device@,
        (f == SerialFailure::PermissionDenied && on_windows) ==> r.message@
            == "Permission denied untuk "@ + device@
            + "! Jalankan aplikasi sebagai Administrator."@,
        f == SerialFailure::NotFound ==> r.message@ == "Device "@ + device@
            + " tidak ditemukan.\n\nPastikan:\n1. Printer terhubung via USB/Serial\n2. Driver printer terinstall\n3. Kabel USB tidak longgar\n4. Cek port yang benar di Settings \u{2192} Hardware \u{2192} Scan Port"@,
        f == SerialFailure::Other ==> r.message@ == "Gagal koneksi serial ke "@ + device@ + ": "@
            + raw@,
{
    match f {
        SerialFailure::PermissionDenied => {
            let mut m = String::from_str("Permission denied untuk ");
            m.append(device);
            if on_windows {
                m.append("! Jalankan aplikasi sebagai Administrator.");
            } else {
                m.append(
                    "!\n\nSolusi:\n1. sudo usermod -aG dialout,lp $USER\n2. Logout dan login ulang\n3. Atau sementara: sudo chmod 666 ",
                );
                m.append(device);
            }
            PrintError { kind: PrintErrorKind::PermissionDenied, message: m }
        },
        SerialFailure::NotFound => {
            let mut m = String::from_str("Device ");
            m.append(device);
            m.append(
                " tidak ditemukan.\n\nPastikan:\n1. Printer terhubung via USB/Serial\n2. Driver printer terinstall\n3. Kabel USB tidak longgar\n4. Cek port yang benar di Settings \u{2192} Hardware \u{2192} Scan Port",
            );
            PrintError { kind: PrintErrorKind::NotFound, message: m }
        },
        SerialFailure::Other => {
            let mut m = String::from_str("Gagal koneksi serial ke ");
            m.append(device);
            m.append(": ");
            m.append(raw);
            PrintError { kind: PrintErrorKind::ProtocolError, message: m }
        },
    }
}

/// The diagnostic for a write or flush that failed after the port had
/// opened.
pub fn serial_write_error(device: &str, raw: &str) -> (r: PrintError)
    ensures
        r.kind == PrintErrorKind::ProtocolError,
        r.message@ == "Gagal kirim data serial ke "@ + device@ + ": "@ + raw@,
{
    let mut m = String::from_str("Gagal kirim data serial ke ");
    m.append(device);
    m.append(": ");
    m.append(raw);
    PrintError { kind: PrintErrorKind::ProtocolError, message: m }
}

/// The size of the bounded chunks a serial send writes, in bytes.
pub fn serial_chunk_size() -> (r: usize)
    ensures
        r == 1024,
{
    1024
}

} // verus!
