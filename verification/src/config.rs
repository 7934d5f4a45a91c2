//! Environment-based configuration: the environment mode and the settings
//! each subsystem starts from.
//!
//! Reading the process environment is I/O and happens outside this crate;
//! what was read is handed in as optional strings, and every default and
//! override rule is applied here.

use vstd::prelude::*;
use crate::strutil::{
    str_eq, trim, spec_trim, strip_edges, spec_strip_leading, spec_strip_trailing,
    spec_first_index,
};

verus! {

/// What one quoting layer strips from an edge-quoted value.
pub open spec fn spec_unquote(v: Seq<char>, c: char) -> Seq<char> {
    spec_strip_trailing(spec_strip_leading(v, c), c)
}

/// The key and value one line of a dotenv file yields: nothing for blank
/// lines, comments and lines without `'='`; otherwise the text before the
/// first `'='` trimmed, and the text after it trimmed and stripped of
/// surrounding double quotes, then single quotes.
pub open spec fn spec_env_line(line: Seq<char>) -> Option<(Seq<char>, Seq<char>)> {
    let t = spec_trim(line);
    if t.len() == 0 || t[0] == '#' {
        Option::None
    } else {
        let i = spec_first_index(t, '=', 0);
        if i >= t.len() {
            Option::None
        } else {
            Option::Some(
                (
                    spec_trim(t.subrange(0, i)),
                    spec_unquote(
                        spec_unquote(spec_trim(t.subrange(i + 1, t.len() as int)), '"'),
                        '\'',
                    ),
                ),
            )
        }
    }
}

/// Parses one line of a dotenv file into the variable it sets, skipping
/// blank lines and comments.
pub fn parse_env_line(line: &str) -> (r: Option<(String, String)>)
    ensures
        r is Some <==> spec_env_line(line@) is Some,
        r is Some ==> ((r->0).0@, (r->0).1@) == spec_env_line(line@)->0,
{
    let t = trim(line);
    let len = t.unicode_len();
    if len == 0 {
        return None;
    }
    if t.get_char(0) == '#' {
        return None;
    }
    let mut j: usize = 0;
    while j < len && t.get_char(j) != '='
        invariant
            j <= len,
            len == t@.len(),
            spec_first_index(t@, '=', 0) == spec_first_index(t@, '=', j as int),
        decreases len - j,
    {
        j += 1;
    }
    assert(spec_first_index(t@, '=', 0) == j);
    if j >= len {
        return None;
    }
    let key = trim(t.substring_char(0, j)).to_owned();
    let v1 = trim(t.substring_char(j + 1, len));
    let v2 = strip_edges(v1, '"');
    let v3 = strip_edges(v2, '\'');
    Some((key, v3.to_owned()))
}

/// The application environment mode.
#[derive(Clone, Copy, Debug, PartialEq, Eq, Structural)]
pub enum Environment {
    Development,
    Production,
}

impl Environment {
    /// The lowercase name of the mode.
    pub fn as_str(&self) -> (r: &'static str)
        ensures
            *self == Environment::Development ==> r@ == "development"@,
            *self == Environment::Production ==> r@ == "production"@,
    {
        match self {
            Environment::Development => "development",
            Environment::Production => "production",
        }
    }

    /// The mode a configured value selects: `production` exactly, and
    /// anything else, or nothing, is development.
    pub fn from_env_value(value: &Option<String>) -> (r: Environment)
        ensures
            r == Environment::Production <==> (value is Some && (value->0)@ == "production"@),
    {
        match value {
            Some(s) => {
                if str_eq(s.as_str(), "production") {
                    Environment::Production
                } else {
                    Environment::Development
                }
            },
            None => Environment::Development,
        }
    }

    /// Whether this is the production mode.
    pub fn is_production(&self) -> (r: bool)
        ensures
            r == (*self == Environment::Production),
    {
        matches!(self, Environment::Production)
    }

    /// Whether this is the development mode.
    pub fn is_development(&self) -> (r: bool)
        ensures
            r == (*self == Environment::Development),
    {
        matches!(self, Environment::Development)
    }
}

/// Database pool settings.
#[derive(Clone, Debug)]
pub struct DatabaseConfig {
    pub path: String,
    pub max_connections: u32,
    pub min_connections: u32,
    pub connect_timeout_secs: u64,
    pub idle_timeout_secs: u64,
}

/// Payment gateway settings.
#[derive(Clone, Debug)]
pub struct PaymentConfig {
    pub provider: String,
    pub midtrans_server_key: Option<String>,
    pub midtrans_base_url: String,
    pub qris_enabled: bool,
    pub payment_timeout_secs: u64,
}

/// Security settings.
#[derive(Clone, Debug)]
pub struct SecurityConfig {
    pub encryption_key: Option<String>,
    pub session_timeout_mins: u64,
    pub max_login_attempts: u32,
    pub lockout_duration_mins: u64,
    pub require_password_change: bool,
    pub min_password_length: usize,
    pub enable_audit_log: bool,
}

/// Logging settings.
#[derive(Clone, Debug)]
pub struct LoggingConfig {
    pub level: String,
    pub log_to_file: bool,
    pub log_to_stdout: bool,
    pub json_format: bool,
    pub max_file_size_mb: u64,
    pub max_log_files: u32,
}

/// Printer settings.
#[derive(Clone, Debug)]
pub struct PrinterConfig {
    pub default_port: String,
    pub paper_width: String,
    pub copies: u32,
    pub auto_print: bool,
}

/// The whole application configuration.
#[derive(Clone, Debug)]
pub struct AppConfig {
    pub environment: Environment,
    pub app_name: String,
    pub version: String,
    pub database: DatabaseConfig,
    pub payment: PaymentConfig,
    pub security: SecurityConfig,
    pub logging: LoggingConfig,
    pub printer: PrinterConfig,
}

/// What was read from the process environment: one optional string per
/// recognized variable.
#[derive(Clone, Debug)]
pub struct EnvOverrides {
    pub app_env: Option<String>,
    pub app_name: Option<String>,
    pub db_path: Option<String>,
    pub db_max_connections: Option<String>,
    pub db_min_connections: Option<String>,
    pub payment_provider: Option<String>,
    pub midtrans_server_key: Option<String>,
    pub midtrans_base_url: Option<String>,
    pub qris_enabled: Option<String>,
    pub encryption_key: Option<String>,
    pub session_timeout_mins: Option<String>,
    pub rust_log: Option<String>,
    pub log_to_stdout: Option<String>,
    pub printer_default_port: Option<String>,
    pub printer_paper_width: Option<String>,
    pub printer_copies: Option<String>,
    pub printer_auto_print: Option<String>,
}

impl EnvOverrides {
    /// No variable set: pure defaults.
    pub fn none() -> (r: EnvOverrides)
        ensures
            r.app_env is None,
            r.app_name is None,
            r.db_path is None,
            r.db_max_connections is None,
            r.db_min_connections is None,
            r.payment_provider is None,
            r.midtrans_server_key is None,
            r.midtrans_base_url is None,
            r.qris_enabled is None,
            r.encryption_key is None,
            r.session_timeout_mins is None,
            r.rust_log is None,
            r.log_to_stdout is None,
            r.printer_default_port is None,
            r.printer_paper_width is None,
            r.printer_copies is None,
            r.printer_auto_print is None,
    {
        EnvOverrides {
            app_env: None,
            app_name: None,
            db_path: None,
            db_max_connections: None,
            db_min_connections: None,
            payment_provider: None,
            midtrans_server_key: None,
            midtrans_base_url: None,
            qris_enabled: None,
            encryption_key: None,
            session_timeout_mins: None,
            rust_log: None,
            log_to_stdout: None,
            printer_default_port: None,
            printer_paper_width: None,
            printer_copies: None,
            printer_auto_print: None,
        }
    }
}

/// The value an optional override selects over its default text.
pub open spec fn spec_text_or(v: Option<String>, dflt: Seq<char>) -> Seq<char> {
    match v {
        Option::Some(s) => s@,
        Option::None => dflt,
    }
}

/// Picks the override where one is set, else the default text.
fn text_or(v: &Option<String>, dflt: &str) -> (r: String)
    ensures
        r@ == spec_text_or(*v, dflt@),
{
    match v {
        Some(s) => s.clone(),
        None => dflt.to_owned(),
    }
}

/// The flag an optional override selects: set and exactly `true` means
/// true; unset means the given default.
pub open spec fn spec_flag_or(v: Option<String>, dflt: bool) -> bool {
    match v {
        Option::Some(s) => s@ == "true"@,
        Option::None => dflt,
    }
}

/// Picks a boolean override: only the exact text `true` enables it.
fn flag_or(v: &Option<String>, dflt: bool) -> (r: bool)
    ensures
        r == spec_flag_or(*v, dflt),
{
    match v {
        Some(s) => str_eq(s.as_str(), "true"),
        None => dflt,
    }
}

/// The number an optional override selects: a parsable value wins, and
/// anything else, or nothing, falls back to the default.
pub open spec fn spec_u32_or(v: Option<String>, dflt: u32) -> u32 {
    match v {
        Option::Some(s) => match crate::numparse::spec_parse_u32(s@) {
            Option::Some(n) => n,
            Option::None => dflt,
        },
        Option::None => dflt,
    }
}

fn u32_or(v: &Option<String>, dflt: u32) -> (r: u32)
    ensures
        r == spec_u32_or(*v, dflt),
{
    match v {
        Some(s) => match crate::numparse::parse_u32(s.as_str()) {
            Some(n) => n,
            None => dflt,
        },
        None => dflt,
    }
}

/// The number an optional override selects, in sixty-four bits.
pub open spec fn spec_u64_or(v: Option<String>, dflt: u64) -> u64 {
    match v {
        Option::Some(s) => match crate::numparse::spec_parse_u64(s@) {
            Option::Some(n) => n,
            Option::None => dflt,
        },
        Option::None => dflt,
    }
}

fn u64_or(v: &Option<String>, dflt: u64) -> (r: u64)
    ensures
        r == spec_u64_or(*v, dflt),
{
    match v {
        Some(s) => match crate::numparse::parse_u64(s.as_str()) {
            Some(n) => n,
            None => dflt,
        },
        None => dflt,
    }
}

impl AppConfig {
    /// Builds the configuration from what the environment supplied and
    /// the application version, applying every default: development mode
    /// unless `production` is named, the sandbox gateway, verbose logs in
    /// development and quiet JSON logs in production.
    pub fn load(env: &EnvOverrides, version: &str) -> (r: AppConfig)
        ensures
            r.environment == Environment::Production <==> (env.app_env is Some
                && (env.app_env->0)@ == "production"@),
            r.app_name@ == spec_text_or(env.app_name, "POS Kasir Alpiant"@),
            r.version@ == version@,
            r.database.path@ == spec_text_or(env.db_path, "pos.db"@),
            r.database.max_connections == spec_u32_or(env.db_max_connections, 10),
            r.database.min_connections == spec_u32_or(env.db_min_connections, 2),
            r.database.connect_timeout_secs == 30,
            r.database.idle_timeout_secs == 600,
            r.payment.provider@ == spec_text_or(env.payment_provider, "midtrans"@),
            r.payment.midtrans_server_key == env.midtrans_server_key,
            r.payment.midtrans_base_url@ == spec_text_or(
                env.midtrans_base_url,
                "https://api.sandbox.midtrans.com"@,
            ),
            r.payment.qris_enabled == spec_flag_or(env.qris_enabled, true),
            r.payment.payment_timeout_secs == 900,
            r.security.encryption_key == env.encryption_key,
            r.security.session_timeout_mins == spec_u64_or(env.session_timeout_mins, 480),
            r.security.max_login_attempts == 5,
            r.security.lockout_duration_mins == 15,
            !r.security.require_password_change,
            r.security.min_password_length == 8,
            r.security.enable_audit_log,
            r.logging.level@ == spec_text_or(
                env.rust_log,
                if r.environment == Environment::Production {
                    "warn"@
                } else {
                    "debug"@
                },
            ),
            r.logging.log_to_file,
            r.logging.log_to_stdout == spec_flag_or(env.log_to_stdout, true),
            r.logging.json_format == (r.environment == Environment::Production),
            r.logging.max_file_size_mb == 10,
            r.logging.max_log_files == 5,
            r.printer.default_port@ == spec_text_or(env.printer_default_port, "cups"@),
            r.printer.paper_width@ == spec_text_or(env.printer_paper_width, "80mm"@),
            r.printer.copies == spec_u32_or(env.printer_copies, 1),
            r.printer.auto_print == spec_flag_or(env.printer_auto_print, false),
    {
        let environment = Environment::from_env_value(&env.app_env);
        let is_prod = environment.is_production();
        AppConfig {
            environment,
            app_name: text_or(&env.app_name, "POS Kasir Alpiant"),
            version: version.to_owned(),
            database: DatabaseConfig {
                path: text_or(&env.db_path, "pos.db"),
                max_connections: u32_or(&env.db_max_connections, 10),
                min_connections: u32_or(&env.db_min_connections, 2),
                connect_timeout_secs: 30,
                idle_timeout_secs: 600,
            },
            payment: PaymentConfig {
                provider: text_or(&env.payment_provider, "midtrans"),
                midtrans_server_key: env.midtrans_server_key.clone(),
                midtrans_base_url: text_or(
                    &env.midtrans_base_url,
                    "https://api.sandbox.midtrans.com",
                ),
                qris_enabled: flag_or(&env.qris_enabled, true),
                payment_timeout_secs: 900,
            },
            security: SecurityConfig {
                encryption_key: env.encryption_key.clone(),
                session_timeout_mins: u64_or(&env.session_timeout_mins, 480),
                max_login_attempts: 5,
                lockout_duration_mins: 15,
                require_password_change: false,
                min_password_length: 8,
                enable_audit_log: true,
            },
            logging: LoggingConfig {
                level: text_or(
                    &env.rust_log,
                    if is_prod {
                        "warn"
                    } else {
                        "debug"
                    },
                ),
                log_to_file: true,
                log_to_stdout: flag_or(&env.log_to_stdout, true),
                json_format: is_prod,
                max_file_size_mb: 10,
                max_log_files: 5,
            },
            printer: PrinterConfig {
                default_port: text_or(&env.printer_default_port, "cups"),
                paper_width: text_or(&env.printer_paper_width, "80mm"),
                copies: u32_or(&env.printer_copies, 1),
                auto_print: flag_or(&env.printer_auto_print, false),
            },
        }
    }

    /// The log directory under the application data directory.
    pub fn get_log_dir(&self, app_data_dir: &str) -> (r: String)
        ensures
            r@ == app_data_dir@ + "/logs"@,
    {
        let mut r = app_data_dir.to_owned();
        r.append("/logs");
        r
    }

    /// The database file under the application data directory.
    pub fn get_database_path(&self, app_data_dir: &str) -> (r: String)
        ensures
            r@ == app_data_dir@ + "/"@ + self.database.path@,
    {
        let mut r = app_data_dir.to_owned();
        r.append("/");
        r.append(self.database.path.as_str());
        r
    }

    /// Whether this configuration is for production.
    pub fn is_production(&self) -> (r: bool)
        ensures
            r == (self.environment == Environment::Production),
    {
        self.environment.is_production()
    }

    /// Whether this configuration is for development.
    pub fn is_development(&self) -> (r: bool)
        ensures
            r == (self.environment == Environment::Development),
    {
        self.environment.is_development()
    }

    /// The payment gateway base address the environment mode selects.
    pub fn get_payment_base_url(&self) -> (r: String)
        ensures
            self.environment == Environment::Production ==> r@ == "https://api.midtrans.com"@,
            self.environment != Environment::Production ==> r@
                == "https://api.sandbox.midtrans.com"@,
    {
        if self.is_production() {
            String::from_str("https://api.midtrans.com")
        } else {
            String::from_str("https://api.sandbox.midtrans.com")
        }
    }

    /// Checks the configuration for production use: with a payment
    /// gateway key on file, production demands an explicit encryption
    /// key.
    pub fn validate(&self) -> (r: Result<(), String>)
        ensures
            r.is_ok() <==> !(self.environment == Environment::Production
                && self.security.encryption_key is None
                && self.payment.midtrans_server_key is Some),
    {
        if self.is_production() {
            if matches!(&self.security.encryption_key, None) && matches!(
                &self.payment.midtrans_server_key,
                Some(_),
            ) {
                return Err(
                    String::from_str(
                        "ENCRYPTION_KEY must be set in production when using payment gateway. Set it via environment variable for security.",
                    ),
                );
            }
        }
        Ok(())
    }
}

} // verus!
