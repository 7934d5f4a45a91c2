use pos_kasir::audit::{sanitize_error, PaymentAuditAction};
use pos_kasir::barcode::{ean13_check_digit, generated_barcode, rand_digits};
use pos_kasir::config::{parse_env_line, AppConfig, EnvOverrides, Environment};
use pos_kasir::logging::{LogLevel, LoggerConfig};
use pos_kasir::numparse::{parse_u32, parse_u64};
use pos_kasir::queue::{
    mode_looks_writable, queue_print_command, spooler_commands, temp_file_name,
};

#[test]
fn environment_modes() {
    assert_eq!(Environment::Development.as_str(), "development");
    assert_eq!(Environment::Production.as_str(), "production");
    assert!(Environment::Production.is_production());
    assert!(Environment::Development.is_development());
    assert_eq!(
        Environment::from_env_value(&Some(String::from("production"))),
        Environment::Production
    );
    assert_eq!(
        Environment::from_env_value(&Some(String::from("staging"))),
        Environment::Development
    );
    assert_eq!(Environment::from_env_value(&None), Environment::Development);
}

#[test]
fn config_defaults_without_overrides() {
    let c = AppConfig::load(&EnvOverrides::none(), "1.2.3");
    assert_eq!(c.environment, Environment::Development);
    assert_eq!(c.app_name, "POS Kasir Alpiant");
    assert_eq!(c.version, "1.2.3");
    assert_eq!(c.database.path, "pos.db");
    assert_eq!(c.database.max_connections, 10);
    assert_eq!(c.database.min_connections, 2);
    assert_eq!(c.payment.provider, "midtrans");
    assert_eq!(c.payment.midtrans_base_url, "https://api.sandbox.midtrans.com");
    assert!(c.payment.qris_enabled);
    assert_eq!(c.security.session_timeout_mins, 480);
    assert_eq!(c.logging.level, "debug");
    assert!(!c.logging.json_format);
    assert_eq!(c.printer.default_port, "cups");
    assert_eq!(c.printer.paper_width, "80mm");
    assert_eq!(c.printer.copies, 1);
    assert!(!c.printer.auto_print);
}

#[test]
fn config_production_switches_logging() {
    let mut env = EnvOverrides::none();
    env.app_env = Some(String::from("production"));
    let c = AppConfig::load(&env, "1.0.0");
    assert!(c.is_production());
    assert_eq!(c.logging.level, "warn");
    assert!(c.logging.json_format);
    assert_eq!(c.get_payment_base_url(), "https://api.midtrans.com");
    let d = AppConfig::load(&EnvOverrides::none(), "1.0.0");
    assert_eq!(d.get_payment_base_url(), "https://api.sandbox.midtrans.com");
}

#[test]
fn config_reads_numeric_overrides() {
    let mut env = EnvOverrides::none();
    env.db_max_connections = Some(String::from("25"));
    env.db_min_connections = Some(String::from("junk"));
    env.printer_copies = Some(String::from("3"));
    env.session_timeout_mins = Some(String::from("60"));
    let c = AppConfig::load(&env, "1.0.0");
    assert_eq!(c.database.max_connections, 25);
    assert_eq!(c.database.min_connections, 2);
    assert_eq!(c.printer.copies, 3);
    assert_eq!(c.security.session_timeout_mins, 60);
}

#[test]
fn config_validation_demands_key_in_production() {
    let mut env = EnvOverrides::none();
    env.app_env = Some(String::from("production"));
    env.midtrans_server_key = Some(String::from("SECRET-REDACTED"));
    let c = AppConfig::load(&env, "1.0.0");
    assert!(c.validate().is_err());
    env.encryption_key = Some(String::from("SECRET-REDACTED"));
    let c = AppConfig::load(&env, "1.0.0");
    assert!(c.validate().is_ok());
    let c = AppConfig::load(&EnvOverrides::none(), "1.0.0");
    assert!(c.validate().is_ok());
}

#[test]
fn config_paths_join_data_dir() {
    let c = AppConfig::load(&EnvOverrides::none(), "1.0.0");
    assert_eq!(c.get_log_dir("/data/app"), "/data/app/logs");
    assert_eq!(c.get_database_path("/data/app"), "/data/app/pos.db");
}

#[test]
fn env_line_parsing() {
    assert_eq!(
        parse_env_line("APP_ENV=production"),
        Some((String::from("APP_ENV"), String::from("production")))
    );
    assert_eq!(
        parse_env_line("  KEY = \"quoted value\"  "),
        Some((String::from("KEY"), String::from("quoted value")))
    );
    assert_eq!(
        parse_env_line("KEY='single'"),
        Some((String::from("KEY"), String::from("single")))
    );
    assert_eq!(parse_env_line(""), None);
    assert_eq!(parse_env_line("   "), None);
    assert_eq!(parse_env_line("# comment"), None);
    assert_eq!(parse_env_line("no equals sign"), None);
}

#[test]
fn number_parsing_matches_std() {
    assert_eq!(parse_u32("25"), Some(25));
    assert_eq!(parse_u32("+7"), Some(7));
    assert_eq!(parse_u32(""), None);
    assert_eq!(parse_u32("+"), None);
    assert_eq!(parse_u32("12x"), None);
    assert_eq!(parse_u32("4294967295"), Some(u32::MAX));
    assert_eq!(parse_u32("4294967296"), None);
    assert_eq!(parse_u64("18446744073709551615"), Some(u64::MAX));
    assert_eq!(parse_u64("18446744073709551616"), None);
    for s in ["0", "42", "+99", "junk", "", "999999999999"] {
        assert_eq!(parse_u32(s), s.parse::<u32>().ok(), "u32 {s}");
        assert_eq!(parse_u64(s), s.parse::<u64>().ok(), "u64 {s}");
    }
}

#[test]
fn log_levels() {
    assert_eq!(LogLevel::Error.as_str(), "ERROR");
    assert_eq!(LogLevel::Trace.as_str(), "TRACE");
    assert_eq!(
        LogLevel::from_env_value(&Some(String::from("DEBUG"))),
        LogLevel::Debug
    );
    assert_eq!(
        LogLevel::from_env_value(&Some(String::from("warn"))),
        LogLevel::Warn
    );
    assert_eq!(
        LogLevel::from_env_value(&Some(String::from("mystery"))),
        LogLevel::Error
    );
    assert_eq!(LogLevel::from_env_value(&None), LogLevel::Info);
    assert!(LogLevel::Error < LogLevel::Trace);
}

#[test]
fn logger_config_defaults() {
    let c = LoggerConfig::default();
    assert_eq!(c.level, LogLevel::Info);
    assert!(c.log_to_file);
    assert!(c.log_to_stdout);
    assert!(!c.json_format);
    assert_eq!(c.max_file_size_mb, 10);
    assert_eq!(c.max_log_files, 5);
    let c = LoggerConfig::from_env_values(&Some(String::from("trace")), true);
    assert_eq!(c.level, LogLevel::Trace);
    assert!(c.json_format);
}

#[test]
fn audit_action_names() {
    assert_eq!(PaymentAuditAction::SaveConfig.as_str(), "PAYMENT_CONFIG_SAVE");
    assert_eq!(PaymentAuditAction::GenerateQR.as_str(), "PAYMENT_QR_GENERATE");
    assert_eq!(PaymentAuditAction::CheckStatus.as_str(), "PAYMENT_STATUS_CHECK");
    assert_eq!(PaymentAuditAction::CancelPayment.as_str(), "PAYMENT_CANCEL");
    assert_eq!(
        PaymentAuditAction::TestConnection.as_str(),
        "PAYMENT_CONNECTION_TEST"
    );
}

#[test]
fn payment_errors_are_sanitized() {
    assert_eq!(
        sanitize_error("401 Unauthorized: bad server key"),
        "Koneksi ke payment gateway gagal. Periksa konfigurasi Server Key di Settings."
    );
    assert_eq!(
        sanitize_error("Rate limit tercapai, tunggu sebentar"),
        "Rate limit tercapai, tunggu sebentar"
    );
    assert_eq!(
        sanitize_error("invalid amount"),
        "Jumlah pembayaran tidak valid."
    );
    assert_eq!(
        sanitize_error("Connection timed out"),
        "Gagal koneksi ke server pembayaran. Periksa koneksi internet Anda."
    );
    assert_eq!(
        sanitize_error("QR generation failed"),
        "Gagal generate QR code. Silakan coba lagi."
    );
    assert_eq!(
        sanitize_error("database is locked"),
        "Terjadi kesalahan internal. Silakan hubungi administrator."
    );
    assert_eq!(
        sanitize_error("something odd"),
        "Terjadi kesalahan. Silakan coba lagi atau hubungi administrator jika masalah berlanjut."
    );
}

#[test]
fn ean13_check_digit_known_values() {
    assert_eq!(ean13_check_digit("400638133393"), 1);
    assert_eq!(ean13_check_digit("899123456789"), 1);
    assert_eq!(ean13_check_digit("000000000000"), 0);
}

#[test]
fn generated_barcode_is_ean13_shaped() {
    let b = generated_barcode(42, 7);
    assert_eq!(b.len(), 13);
    assert!(b.starts_with("200"));
    assert_eq!(b, "2000000042077");
    let check = ean13_check_digit(&b[..12]);
    assert_eq!(b.as_bytes()[12] - b'0', check as u8);
}

#[test]
fn rand_digits_stay_below_one_hundred() {
    for _ in 0..50 {
        assert!(rand_digits() < 100);
    }
}

#[test]
fn clocked_helpers_have_fixed_shape() {
    let name = pos_kasir::queue::temp_file_name_now(77, "bin");
    assert!(name.starts_with("pos_print_77_"));
    assert!(name.ends_with(".bin"));
    let page = pos_kasir::escpos::build_test_page_now();
    let text = String::from_utf8_lossy(&page).to_string();
    assert!(text.contains("TEST PRINT"));
    assert!(text.contains("Printer berhasil terhubung!"));
}

#[test]
fn temp_file_names_embed_pid_and_time() {
    assert_eq!(temp_file_name(123, 456789, "bin"), "pos_print_123_456789.bin");
    assert_ne!(
        temp_file_name(123, 456789, "bin"),
        temp_file_name(123, 456790, "bin")
    );
}

#[test]
fn queue_command_is_raw_lp() {
    let c = queue_print_command("EPSON-TM", "/tmp/pos_print_1_2.bin");
    assert_eq!(c.program, "lp");
    assert_eq!(
        c.args,
        vec!["-d", "EPSON-TM", "-o", "raw", "/tmp/pos_print_1_2.bin"]
    );
}

#[test]
fn spooler_methods_in_order() {
    let cmds = spooler_commands("POS-58", "C:/tmp/job.bin");
    assert_eq!(cmds.len(), 3);
    assert_eq!(cmds[0].program, "powershell");
    assert_eq!(cmds[0].args[0], "-NoProfile");
    assert_eq!(cmds[0].args[1], "-Command");
    assert!(cmds[0].args[2].contains("Out-Printer -Name 'POS-58'"));
    assert_eq!(cmds[1].program, "cmd");
    assert_eq!(cmds[1].args[1], "copy /b \"C:/tmp/job.bin\" \"POS-58\"");
    assert_eq!(cmds[2].program, "cmd");
    assert_eq!(cmds[2].args[1], "print /d:\"POS-58\" \"C:/tmp/job.bin\"");
}

#[test]
fn unix_mode_writability() {
    assert!(mode_looks_writable(0o666));
    assert!(mode_looks_writable(0o620));
    assert!(!mode_looks_writable(0o600));
    assert!(!mode_looks_writable(0o644));
}
