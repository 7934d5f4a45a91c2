//! Plain data carried between the subsystems: users, activity records,
//! products, payment responses, settings profiles and system reports.
//! Serialization at the application boundary happens outside this crate
//! on mirror types.

use vstd::prelude::*;

verus! {

/// A user row as the database stores it, password hash included.
#[derive(Clone, Debug)]
pub struct DbUser {
    pub id: i64,
    pub name: String,
    pub username: String,
    pub password_hash: String,
    pub role: String,
    pub is_active: bool,
    pub created_at: Option<String>,
    pub created_by: Option<i64>,
    pub last_login_at: Option<String>,
}

/// A user as shown outside: the same row without the password hash.
#[derive(Clone, Debug)]
pub struct User {
    pub id: i64,
    pub name: String,
    pub username: String,
    pub role: String,
    pub is_active: bool,
    pub created_at: Option<String>,
    pub last_login_at: Option<String>,
}

impl From<DbUser> for User {
    /// Drops the password hash and keeps every shown field.
    fn from(u: DbUser) -> (r: User) {
        User {
            id: u.id,
            name: u.name,
            username: u.username,
            role: u.role,
            is_active: u.is_active,
            created_at: u.created_at,
            last_login_at: u.last_login_at,
        }
    }
}

impl vstd::std_specs::convert::FromSpecImpl<DbUser> for User {
    open spec fn obeys_from_spec() -> bool {
        true
    }

    open spec fn from_spec(u: DbUser) -> User {
        User {
            id: u.id,
            name: u.name,
            username: u.username,
            role: u.role,
            is_active: u.is_active,
            created_at: u.created_at,
            last_login_at: u.last_login_at,
        }
    }
}

/// What a successful login returns.
#[derive(Clone, Debug)]
pub struct LoginResult {
    pub user: AuthUserData,
    pub session_token: String,
    pub login_at: String,
}

/// The user fields inside a login result.
#[derive(Clone, Debug)]
pub struct AuthUserData {
    pub id: i64,
    pub name: String,
    pub username: String,
    pub role: String,
}

/// The fields a new user is created from.
#[derive(Clone, Debug)]
pub struct CreateUserPayload {
    pub name: String,
    pub username: String,
    pub password: String,
}

/// The fields a user update carries.
#[derive(Clone, Debug)]
pub struct UpdateUserPayload {
    pub name: String,
    pub username: String,
}

/// One activity-log row.
#[derive(Clone, Debug)]
pub struct ActivityLog {
    pub id: i64,
    pub user_id: Option<i64>,
    pub action: String,
    pub description: String,
    pub metadata: Option<String>,
    pub created_at: Option<String>,
}

/// An activity-log row joined with the acting user's name.
#[derive(Clone, Debug)]
pub struct ActivityLogWithUser {
    pub id: i64,
    pub user_id: Option<i64>,
    pub user_name: Option<String>,
    pub action: String,
    pub description: String,
    pub metadata: Option<String>,
    pub created_at: Option<String>,
}

/// One stock adjustment: quantity in or out with its reason.
#[derive(Clone, Debug)]
pub struct StockAdjustment {
    pub id: i64,
    pub product_id: i64,
    pub user_id: i64,
    pub direction: String,
    pub quantity: i64,
    pub reason: String,
    pub notes: Option<String>,
    pub created_at: Option<String>,
}

/// A stock adjustment joined with product and user names.
#[derive(Clone, Debug)]
pub struct StockAdjustmentWithDetail {
    pub id: i64,
    pub product_id: i64,
    pub product_name: String,
    pub user_id: i64,
    pub user_name: String,
    pub direction: String,
    pub quantity: i64,
    pub reason: String,
    pub notes: Option<String>,
    pub created_at: Option<String>,
}

/// One product category.
#[derive(Clone, Debug)]
pub struct Category {
    pub id: i64,
    pub name: String,
}

/// A category with how many products it holds.
#[derive(Clone, Debug)]
pub struct CategoryWithCount {
    pub id: i64,
    pub name: String,
    pub product_count: i64,
}

/// The store's public identity on receipts and reports.
#[derive(Clone, Debug)]
pub struct CompanyProfile {
    pub store_name: String,
    pub address: String,
    pub phone: String,
    pub email: String,
    pub website: String,
    pub logo_path: String,
    pub tax_number: String,
}

/// How receipts are rendered and how many copies are printed.
#[derive(Clone, Debug)]
pub struct ReceiptSettings {
    pub show_logo: bool,
    pub header_text: String,
    pub footer_text: String,
    pub show_cashier_name: bool,
    pub show_tax_detail: bool,
    pub show_discount_detail: bool,
    pub paper_width: String,
    pub copies: i32,
}

/// What generating a QRIS payment returns.
#[derive(Clone, Debug)]
pub struct QrisPaymentResponse {
    pub qr_string: String,
    pub order_id: String,
    pub expires_at: String,
}

/// The status of a QRIS payment.
#[derive(Clone, Debug)]
pub struct QrisStatusResponse {
    pub status: String,
    pub transaction_status: String,
    pub order_id: String,
}

/// The gateway's raw charge response.
#[derive(Clone, Debug)]
pub struct MidtransChargeResponse {
    pub status_code: String,
    pub status_message: Option<String>,
    pub transaction_id: Option<String>,
    pub order_id: Option<String>,
    pub gross_amount: Option<String>,
    pub payment_type: Option<String>,
    pub transaction_time: Option<String>,
    pub transaction_status: Option<String>,
    pub actions: Option<Vec<MidtransAction>>,
    pub expiry_time: Option<String>,
    pub qr_string: Option<String>,
}

/// One action link of a charge response.
#[derive(Clone, Debug)]
pub struct MidtransAction {
    pub name: String,
    pub method: String,
    pub url: String,
}

/// The gateway's raw status response.
#[derive(Clone, Debug)]
pub struct MidtransStatusResponse {
    pub status_code: String,
    pub transaction_status: String,
    pub order_id: String,
    pub gross_amount: Option<String>,
    pub payment_type: Option<String>,
    pub settlement_time: Option<String>,
}

/// What a bulk product import reports back.
#[derive(Clone, Debug)]
pub struct BulkImportResult {
    pub success_count: i64,
    pub error_count: i64,
    pub errors: Vec<String>,
}

/// What a database backup reports back.
#[derive(Clone, Debug)]
pub struct BackupResult {
    pub success: bool,
    pub backup_path: String,
    pub backup_size_bytes: u64,
    pub timestamp: String,
    pub message: String,
}

/// A report of the running system.
#[derive(Clone, Debug)]
pub struct SystemInfo {
    pub os: String,
    pub arch: String,
    pub app_version: String,
    pub database_path: String,
    pub log_dir: String,
    pub config: ConfigInfo,
}

/// The configuration fields shown in a system report.
#[derive(Clone, Debug)]
pub struct ConfigInfo {
    pub environment: String,
    pub payment_provider: String,
    pub qris_enabled: bool,
    pub logging_level: String,
}

/// One backup on disk.
#[derive(Clone, Debug)]
pub struct BackupInfo {
    pub filename: String,
    pub path: String,
    pub size_bytes: u64,
    pub created_at: String,
}

/// What a backup cleanup reports back.
#[derive(Clone, Debug)]
pub struct CleanupResult {
    pub deleted_count: u32,
    pub freed_bytes: u64,
    pub message: String,
}

} // verus!
