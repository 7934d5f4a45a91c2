//! Network transport logic: address validation and the classification of
//! TCP failures.
//!
//! The connection itself is I/O and happens outside this crate with a
//! bounded connect timeout; the address check and the diagnostics are
//! here, and every connect failure carries the destination address in its
//! message.

use vstd::prelude::*;
use crate::strutil::{str_contains_char, spec_contains_char, spec_contains_seq, occurs_at};
use crate::diagnostics::{PrintError, PrintErrorKind};

verus! {

/// A network address is acceptable only in the `IP:PORT` shape, so it must
/// contain a colon.
pub open spec fn spec_network_addr_ok(addr: Seq<char>) -> bool {
    spec_contains_char(addr, ':')
}

/// Whether `addr` has the `IP:PORT` shape the network transport needs.
pub fn network_addr_ok(addr: &str) -> (r: bool)
    ensures
        r == spec_network_addr_ok(addr@),
{
    str_contains_char(addr, ':')
}

/// The diagnostic for an address without the `IP:PORT` shape.
pub fn network_addr_error(addr: &str) -> (r: PrintError)
    ensures
        r.kind == PrintErrorKind::ProtocolError,
        r.message@ == "Format alamat network salah: '"@ + addr@
            + "'. Gunakan IP:PORT (contoh: 192.168.1.100:9100)"@,
{
    let mut m = String::from_str("Format alamat network salah: '");
    m.append(addr);
    m.append("'. Gunakan IP:PORT (contoh: 192.168.1.100:9100)");
    PrintError { kind: PrintErrorKind::ProtocolError, message: m }
}

/// The diagnostic for a TCP connection that could not be established:
/// always `ConnectionFailed`, and the message always names the address.
pub fn network_connect_error(addr: &str, raw: &str) -> (r: PrintError)
    ensures
        r.kind == PrintErrorKind::ConnectionFailed,
        r.message@ == "Gagal koneksi ke printer network "@ + addr@
            + "!\n\nPastikan:\n1. IP dan Port benar\n2. Printer menyala dan terhubung ke jaringan\n3. Port tidak diblokir firewall\n\nError: "@
            + raw@,
        spec_contains_seq(r.message@, addr@),
{
    let mut m = String::from_str("Gagal koneksi ke printer network ");
    m.append(addr);
    m.append(
        "!\n\nPastikan:\n1. IP dan Port benar\n2. Printer menyala dan terhubung ke jaringan\n3. Port tidak diblokir firewall\n\nError: ",
    );
    m.append(raw);
    proof {
        let head = "Gagal koneksi ke printer network "@;
        assert(m@.subrange(head.len() as int, head.len() as int + addr@.len() as int) =~= addr@);
        assert(occurs_at(m@, addr@, head.len() as int));
    }
    PrintError { kind: PrintErrorKind::ConnectionFailed, message: m }
}

/// The diagnostic for a write that failed after the connection opened.
pub fn network_write_error(raw: &str) -> (r: PrintError)
    ensures
        r.kind == PrintErrorKind::ConnectionFailed,
        r.message@ == "Gagal kirim data ke printer: "@ + raw@,
{
    let mut m = String::from_str("Gagal kirim data ke printer: ");
    m.append(raw);
    PrintError { kind: PrintErrorKind::ConnectionFailed, message: m }
}

/// The diagnostic for a flush that failed at the end of a network send.
pub fn network_flush_error(raw: &str) -> (r: PrintError)
    ensures
        r.kind == PrintErrorKind::ConnectionFailed,
        r.message@ == "Gagal flush data: "@ + raw@,
{
    let mut m = String::from_str("Gagal flush data: ");
    m.append(raw);
    PrintError { kind: PrintErrorKind::ConnectionFailed, message: m }
}

/// What the network I/O outside this crate reports back for one send.
pub enum NetOutcome {
    /// Connected, wrote everything, flushed.
    Sent,
    /// The connection could not be established; the raw OS text.
    ConnectFailed(String),
    /// The write failed mid-stream; the raw OS text.
    WriteFailed(String),
    /// The final flush failed; the raw OS text.
    FlushFailed(String),
}

/// Turns the outcome of one network send into the result the caller sees:
/// success exactly when everything was sent, and otherwise a
/// `ConnectionFailed` diagnostic that names the address on connect
/// failures.
pub fn network_send_result(addr: &str, outcome: &NetOutcome) -> (r: Result<(), PrintError>)
    ensures
        r.is_ok() <==> outcome is Sent,
        forall|raw: String|
            *outcome == NetOutcome::ConnectFailed(raw) ==> (r->Err_0).kind
                == PrintErrorKind::ConnectionFailed && spec_contains_seq(
                (r->Err_0).message@,
                addr@,
            ),
        forall|raw: String|
            *outcome == NetOutcome::WriteFailed(raw) ==> (r->Err_0).kind
                == PrintErrorKind::ConnectionFailed && (r->Err_0).message@
                == "Gagal kirim data ke printer: "@ + raw@,
        forall|raw: String|
            *outcome == NetOutcome::FlushFailed(raw) ==> (r->Err_0).kind
                == PrintErrorKind::ConnectionFailed && (r->Err_0).message@
                == "Gagal flush data: "@ + raw@,
{
    match outcome {
        NetOutcome::Sent => Ok(()),
        NetOutcome::ConnectFailed(raw) => Err(network_connect_error(addr, raw.as_str())),
        NetOutcome::WriteFailed(raw) => Err(network_write_error(raw.as_str())),
        NetOutcome::FlushFailed(raw) => Err(network_flush_error(raw.as_str())),
    }
}

} // verus!
