//! Failure taxonomy for print calls.
//!
//! Every transport failure is classified into one of six kinds, each with a
//! fixed human-readable message template; raw OS error text is appended for
//! support diagnosis, never substituted for the message.

use vstd::prelude::*;

verus! {

/// The classification of a print failure.
#[derive(Clone, Copy, Debug, PartialEq, Eq, Structural)]
pub enum PrintErrorKind {
    /// No destination is configured.
    NotConfigured,
    /// The device or printer is absent.
    NotFound,
    /// Ownership or ACL problem on the device.
    PermissionDenied,
    /// Network connect or handshake failure.
    ConnectionFailed,
    /// The transport is not available on the current platform.
    UnsupportedPlatform,
    /// Generic catch-all.
    ProtocolError,
}

/// A classified, user-actionable print failure.
#[derive(Debug)]
pub struct PrintError {
    pub kind: PrintErrorKind,
    pub message: String,
}

/// A short stable label for each failure kind.
pub open spec fn spec_kind_label(k: PrintErrorKind) -> Seq<char> {
    match k {
        PrintErrorKind::NotConfigured => "NOT_CONFIGURED"@,
        PrintErrorKind::NotFound => "NOT_FOUND"@,
        PrintErrorKind::PermissionDenied => "PERMISSION_DENIED"@,
        PrintErrorKind::ConnectionFailed => "CONNECTION_FAILED"@,
        PrintErrorKind::UnsupportedPlatform => "UNSUPPORTED_PLATFORM"@,
        PrintErrorKind::ProtocolError => "PROTOCOL_ERROR"@,
    }
}

impl PrintErrorKind {
    /// The short stable label of this kind.
    pub fn as_str(&self) -> (r: &'static str)
        ensures
            r@ == spec_kind_label(*self),
    {
        match self {
            PrintErrorKind::NotConfigured => "NOT_CONFIGURED",
            PrintErrorKind::NotFound => "NOT_FOUND",
            PrintErrorKind::PermissionDenied => "PERMISSION_DENIED",
            PrintErrorKind::ConnectionFailed => "CONNECTION_FAILED",
            PrintErrorKind::UnsupportedPlatform => "UNSUPPORTED_PLATFORM",
            PrintErrorKind::ProtocolError => "PROTOCOL_ERROR",
        }
    }
}

/// An OS-level error condition as the transports observe it, reduced to
/// the cases the diagnostics distinguish.
#[derive(Clone, Copy, Debug, PartialEq, Eq, Structural)]
pub enum OsErrorKind {
    NotFound,
    PermissionDenied,
    TimedOut,
    Other,
}

/// The print-failure kind an OS error condition maps to.
pub open spec fn spec_classify_os_error(k: OsErrorKind) -> PrintErrorKind {
    match k {
        OsErrorKind::NotFound => PrintErrorKind::NotFound,
        OsErrorKind::PermissionDenied => PrintErrorKind::PermissionDenied,
        OsErrorKind::TimedOut => PrintErrorKind::ConnectionFailed,
        OsErrorKind::Other => PrintErrorKind::ProtocolError,
    }
}

/// Maps an OS error condition to its failure kind.
pub fn classify_os_error(k: OsErrorKind) -> (r: PrintErrorKind)
    ensures
        r == spec_classify_os_error(k),
{
    match k {
        OsErrorKind::NotFound => PrintErrorKind::NotFound,
        OsErrorKind::PermissionDenied => PrintErrorKind::PermissionDenied,
        OsErrorKind::TimedOut => PrintErrorKind::ConnectionFailed,
        OsErrorKind::Other => PrintErrorKind::ProtocolError,
    }
}

/// The message of the "no destination configured" failure.
pub open spec fn spec_not_configured_message() -> Seq<char> {
    "Printer belum dikonfigurasi. Silakan atur di Settings \u{2192} Hardware."@
}

/// The failure reported when no printer destination is on file.
pub fn not_configured() -> (r: PrintError)
    ensures
        r.kind == PrintErrorKind::NotConfigured,
        r.message@ == spec_not_configured_message(),
{
    PrintError {
        kind: PrintErrorKind::NotConfigured,
        message: String::from_str(
            "Printer belum dikonfigurasi. Silakan atur di Settings \u{2192} Hardware.",
        ),
    }
}

/// The failure reported where a transport exists only on another platform:
/// `what` names the transport, `hint` the platforms that have it.
pub fn unsupported_platform(what: &str, hint: &str) -> (r: PrintError)
    ensures
        r.kind == PrintErrorKind::UnsupportedPlatform,
        r.message@ == what@ + " hanya didukung di "@ + hint@,
{
    let mut m = String::from_str(what);
    m.append(" hanya didukung di ");
    m.append(hint);
    PrintError { kind: PrintErrorKind::UnsupportedPlatform, message: m }
}

} // verus!
