//! Audit actions for payment operations, and the sanitization of payment
//! errors before they reach the user: internal detail is replaced by a
//! fixed actionable message chosen by what the raw error speaks of.

use vstd::prelude::*;
use crate::strutil::{str_contains_ci, spec_contains_seq, spec_lower};

verus! {

/// The payment operations the audit log records.
#[derive(Clone, Copy, Debug, PartialEq, Eq, Structural)]
pub enum PaymentAuditAction {
    SaveConfig,
    GenerateQR,
    CheckStatus,
    CancelPayment,
    TestConnection,
}

impl PaymentAuditAction {
    /// The stable action name written to the audit log.
    pub fn as_str(&self) -> (r: &'static str)
        ensures
            *self == PaymentAuditAction::SaveConfig ==> r@ == "PAYMENT_CONFIG_SAVE"@,
            *self == PaymentAuditAction::GenerateQR ==> r@ == "PAYMENT_QR_GENERATE"@,
            *self == PaymentAuditAction::CheckStatus ==> r@ == "PAYMENT_STATUS_CHECK"@,
            *self == PaymentAuditAction::CancelPayment ==> r@ == "PAYMENT_CANCEL"@,
            *self == PaymentAuditAction::TestConnection ==> r@ == "PAYMENT_CONNECTION_TEST"@,
    {
        match self {
            PaymentAuditAction::SaveConfig => "PAYMENT_CONFIG_SAVE",
            PaymentAuditAction::GenerateQR => "PAYMENT_QR_GENERATE",
            PaymentAuditAction::CheckStatus => "PAYMENT_STATUS_CHECK",
            PaymentAuditAction::CancelPayment => "PAYMENT_CANCEL",
            PaymentAuditAction::TestConnection => "PAYMENT_CONNECTION_TEST",
        }
    }
}

/// The categories a raw payment error is reduced to, in the order they
/// are tried.
pub open spec fn spec_sanitized_error(e: Seq<char>) -> Seq<char> {
    let low = spec_lower(e);
    if spec_contains_seq(low, "server key"@) || spec_contains_seq(low, "credential"@)
        || spec_contains_seq(low, "auth"@) {
        "Koneksi ke payment gateway gagal. Periksa konfigurasi Server Key di Settings."@
    } else if spec_contains_seq(low, "rate limit"@) {
        e
    } else if spec_contains_seq(low, "amount"@) || spec_contains_seq(low, "invalid"@) {
        "Jumlah pembayaran tidak valid."@
    } else if spec_contains_seq(low, "connection"@) || spec_contains_seq(low, "network"@)
        || spec_contains_seq(low, "timeout"@) {
        "Gagal koneksi ke server pembayaran. Periksa koneksi internet Anda."@
    } else if spec_contains_seq(low, "qr"@) || spec_contains_seq(low, "qris"@) {
        "Gagal generate QR code. Silakan coba lagi."@
    } else if spec_contains_seq(low, "database"@) || spec_contains_seq(low, "sql"@) {
        "Terjadi kesalahan internal. Silakan hubungi administrator."@
    } else {
        "Terjadi kesalahan. Silakan coba lagi atau hubungi administrator jika masalah berlanjut."@
    }
}

/// Replaces a raw payment error with the user-facing message its
/// category calls for; only rate-limit messages pass through unchanged.
pub fn sanitize_error(error: &str) -> (r: String)
    ensures
        r@ == spec_sanitized_error(error@),
{
    if str_contains_ci(error, "server key") || str_contains_ci(error, "credential")
        || str_contains_ci(error, "auth") {
        String::from_str(
            "Koneksi ke payment gateway gagal. Periksa konfigurasi Server Key di Settings.",
        )
    } else if str_contains_ci(error, "rate limit") {
        error.to_owned()
    } else if str_contains_ci(error, "amount") || str_contains_ci(error, "invalid") {
        String::from_str("Jumlah pembayaran tidak valid.")
    } else if str_contains_ci(error, "connection") || str_contains_ci(error, "network")
        || str_contains_ci(error, "timeout") {
        String::from_str("Gagal koneksi ke server pembayaran. Periksa koneksi internet Anda.")
    } else if str_contains_ci(error, "qr") || str_contains_ci(error, "qris") {
        String::from_str("Gagal generate QR code. Silakan coba lagi.")
    } else if str_contains_ci(error, "database") || str_contains_ci(error, "sql") {
        String::from_str("Terjadi kesalahan internal. Silakan hubungi administrator.")
    } else {
        String::from_str(
            "Terjadi kesalahan. Silakan coba lagi atau hubungi administrator jika masalah berlanjut.",
        )
    }
}

} // verus!
