//! Transport router: maps a destination descriptor string to exactly one
//! transport.
//!
//! The dispatch ladder checks the explicit prefixes first (`cups:`,
//! `winprint:`, `network:`, `serial:`), then the known direct USB printer
//! device pattern, then two legacy heuristics kept for destination strings
//! saved before the prefix convention existed, and finally falls back to a
//! raw device-file write. The decision is pure: it performs no I/O.

use vstd::prelude::*;
use crate::strutil::{
    str_starts_with, str_contains_char, trim, spec_starts_with, spec_contains_char, spec_trim,
};

verus! {

/// The five ways a byte stream can leave the system.
#[derive(Clone, Copy, Debug, PartialEq, Eq, Structural)]
pub enum TransportKind {
    /// Unix print queue daemon, addressed by queue name.
    UnixQueue,
    /// Platform print spooler, addressed by printer name.
    Spooler,
    /// TCP network printer, addressed as `host:port`.
    Network,
    /// Serial device, addressed by device path.
    Serial,
    /// Raw device file, addressed by filesystem path.
    RawDevice,
}

/// A routing decision: the transport to use and the address handed to it.
pub struct Route {
    pub kind: TransportKind,
    pub address: String,
}

/// The transport the dispatch ladder picks for the descriptor `s`. Total:
/// every string reaches exactly one arm.
pub open spec fn spec_route_kind(s: Seq<char>) -> TransportKind {
    if spec_starts_with(s, "cups:"@) {
        TransportKind::UnixQueue
    } else if spec_starts_with(s, "winprint:"@) {
        TransportKind::Spooler
    } else if spec_starts_with(s, "network:"@) {
        TransportKind::Network
    } else if spec_starts_with(s, "serial:"@) {
        TransportKind::Serial
    } else if spec_starts_with(s, "/dev/usb/lp"@) {
        TransportKind::RawDevice
    } else if spec_contains_char(s, ':') && !spec_starts_with(s, "/"@) && !spec_starts_with(
        s,
        "\\"@,
    ) {
        TransportKind::Network
    } else if spec_starts_with(s, "/dev/tty"@) || spec_starts_with(s, "/dev/cu."@)
        || spec_starts_with(s, "COM"@) {
        TransportKind::Serial
    } else {
        TransportKind::RawDevice
    }
}

/// The address handed to the chosen transport: the descriptor with its
/// recognized prefix removed (and trimmed, for `network:`), or the whole
/// descriptor where no prefix matched.
pub open spec fn spec_route_address(s: Seq<char>) -> Seq<char> {
    if spec_starts_with(s, "cups:"@) {
        s.subrange(5, s.len() as int)
    } else if spec_starts_with(s, "winprint:"@) {
        s.subrange(9, s.len() as int)
    } else if spec_starts_with(s, "network:"@) {
        spec_trim(s.subrange(8, s.len() as int))
    } else if spec_starts_with(s, "serial:"@) {
        s.subrange(7, s.len() as int)
    } else {
        s
    }
}

/// Decides which transport the destination descriptor names and what
/// address that transport receives. Pure: the decision itself never
/// performs I/O.
pub fn route(dest: &str) -> (r: Route)
    ensures
        r.kind == spec_route_kind(dest@),
        r.address@ == spec_route_address(dest@),
{
    let len = dest.unicode_len();
    if str_starts_with(dest, "cups:") {
        proof {
            reveal_strlit("cups:");
        }
        Route { kind: TransportKind::UnixQueue, address: dest.substring_char(5, len).to_owned() }
    } else if str_starts_with(dest, "winprint:") {
        proof {
            reveal_strlit("winprint:");
        }
        Route { kind: TransportKind::Spooler, address: dest.substring_char(9, len).to_owned() }
    } else if str_starts_with(dest, "network:") {
        proof {
            reveal_strlit("network:");
        }
        let addr = trim(dest.substring_char(8, len));
        Route { kind: TransportKind::Network, address: addr.to_owned() }
    } else if str_starts_with(dest, "serial:") {
        proof {
            reveal_strlit("serial:");
        }
        Route { kind: TransportKind::Serial, address: dest.substring_char(7, len).to_owned() }
    } else if str_starts_with(dest, "/dev/usb/lp") {
        Route { kind: TransportKind::RawDevice, address: dest.to_owned() }
    } else if str_contains_char(dest, ':') && !str_starts_with(dest, "/") && !str_starts_with(
        dest,
        "\\",
    ) {
        Route { kind: TransportKind::Network, address: dest.to_owned() }
    } else if str_starts_with(dest, "/dev/tty") || str_starts_with(dest, "/dev/cu.")
        || str_starts_with(dest, "COM") {
        Route { kind: TransportKind::Serial, address: dest.to_owned() }
    } else {
        Route { kind: TransportKind::RawDevice, address: dest.to_owned() }
    }
}

/// The dispatch ladder is total and deterministic: any destination string
/// is routed, and repeated calls on the same string pick the same
/// transport and the same address.
pub proof fn lemma_route_deterministic(s1: Seq<char>, s2: Seq<char>)
    requires
        s1 == s2,
    ensures
        spec_route_kind(s1) == spec_route_kind(s2),
        spec_route_address(s1) == spec_route_address(s2),
{
}

} // verus!
