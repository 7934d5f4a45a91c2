use pos_kasir::validation::{
    sanitize_file_path, sanitize_string, validate_barcode, validate_email, validate_file_path,
    validate_name, validate_notes, validate_order_id, validate_password, validate_phone,
    validate_product_name, validate_quantity, validate_sku, validate_username,
};

#[test]
fn username_rules() {
    assert!(validate_username("budi_01").is_ok());
    assert!(validate_username("  budi  ").is_ok());
    assert_eq!(
        validate_username("").unwrap_err(),
        "Username tidak boleh kosong"
    );
    assert_eq!(
        validate_username("ab").unwrap_err(),
        "Username harus 3-50 karakter"
    );
    assert_eq!(
        validate_username(&"a".repeat(51)).unwrap_err(),
        "Username harus 3-50 karakter"
    );
    assert_eq!(
        validate_username("1abc").unwrap_err(),
        "Username harus dimulai dengan huruf"
    );
    assert_eq!(
        validate_username("abc!").unwrap_err(),
        "Username hanya boleh berisi huruf, angka, underscore, dan hyphen"
    );
}

#[test]
fn name_rules() {
    assert!(validate_name("Budi Santoso").is_ok());
    assert!(validate_name("O'Neil Jr.").is_ok());
    assert_eq!(validate_name("   ").unwrap_err(), "Nama tidak boleh kosong");
    assert_eq!(validate_name("B").unwrap_err(), "Nama harus 2-100 karakter");
    assert_eq!(
        validate_name("Budi99").unwrap_err(),
        "Nama hanya boleh berisi huruf, spasi, dan karakter .-'"
    );
}

#[test]
fn email_rules() {
    assert!(validate_email("budi@toko.id").is_ok());
    assert!(validate_email("  budi@toko.id  ").is_ok());
    assert_eq!(
        validate_email("").unwrap_err(),
        "Email tidak boleh kosong"
    );
    assert_eq!(
        validate_email("buditoko.id").unwrap_err(),
        "Email harus berisi '@'"
    );
    assert_eq!(
        validate_email("a@b@c.id").unwrap_err(),
        "Format email tidak valid"
    );
    assert_eq!(
        validate_email("@toko.id").unwrap_err(),
        "Bagian lokal email tidak valid"
    );
    assert_eq!(
        validate_email("budi@tokoid").unwrap_err(),
        "Domain email tidak valid"
    );
    let long_local = format!("{}@toko.id", "a".repeat(65));
    assert_eq!(
        validate_email(&long_local).unwrap_err(),
        "Bagian lokal email tidak valid"
    );
}

#[test]
fn phone_rules() {
    assert!(validate_phone("0812-3456-789").is_ok());
    assert!(validate_phone("+62 812 3456 7890").is_ok());
    assert_eq!(
        validate_phone("   ").unwrap_err(),
        "Nomor telepon tidak boleh kosong"
    );
    assert_eq!(
        validate_phone("12345").unwrap_err(),
        "Nomor telepon harus 8-15 digit"
    );
    assert_eq!(
        validate_phone("1234567890123456").unwrap_err(),
        "Nomor telepon harus 8-15 digit"
    );
}

#[test]
fn password_rules() {
    assert!(validate_password("Secret123").is_ok());
    assert_eq!(
        validate_password("").unwrap_err(),
        "Password tidak boleh kosong"
    );
    assert_eq!(
        validate_password("Ab1").unwrap_err(),
        "Password minimal 8 karakter"
    );
    assert_eq!(
        validate_password(&format!("Aa1{}", "x".repeat(126))).unwrap_err(),
        "Password maksimal 128 karakter"
    );
    assert_eq!(
        validate_password("alllowercase1").unwrap_err(),
        "Password harus mengandung huruf kapital, huruf kecil, dan angka"
    );
}

#[test]
fn quantity_rules() {
    assert!(validate_quantity(5, None, None).is_ok());
    assert!(validate_quantity(0, None, None).is_ok());
    assert_eq!(
        validate_quantity(-1, None, None).unwrap_err(),
        "Jumlah tidak boleh negatif"
    );
    assert_eq!(
        validate_quantity(1, Some(2), None).unwrap_err(),
        "Jumlah minimal 2"
    );
    assert_eq!(
        validate_quantity(1_000_001, None, None).unwrap_err(),
        "Jumlah maksimal 1000000"
    );
    assert_eq!(
        validate_quantity(11, None, Some(10)).unwrap_err(),
        "Jumlah maksimal 10"
    );
}

#[test]
fn product_name_rules() {
    assert!(validate_product_name("Gula 1kg").is_ok());
    assert_eq!(
        validate_product_name(" ").unwrap_err(),
        "Nama produk tidak boleh kosong"
    );
    assert_eq!(
        validate_product_name("G").unwrap_err(),
        "Nama produk harus 2-200 karakter"
    );
}

#[test]
fn sku_rules() {
    assert!(validate_sku("").is_ok());
    assert!(validate_sku("SKU-001.A_b").is_ok());
    assert_eq!(
        validate_sku(&"a".repeat(51)).unwrap_err(),
        "SKU maksimal 50 karakter"
    );
    assert_eq!(
        validate_sku("SKU 1").unwrap_err(),
        "SKU hanya boleh berisi huruf, angka, dan karakter -_."
    );
}

#[test]
fn barcode_rules() {
    assert!(validate_barcode("").is_ok());
    assert!(validate_barcode("8991234567890").is_ok());
    assert_eq!(
        validate_barcode(&"1".repeat(51)).unwrap_err(),
        "Barcode terlalu panjang (max 50 karakter)"
    );
    assert_eq!(
        validate_barcode("899-123").unwrap_err(),
        "Barcode hanya boleh berisi huruf dan angka"
    );
}

#[test]
fn file_path_rules() {
    assert!(validate_file_path("/tmp/logo.png").is_ok());
    assert_eq!(
        validate_file_path("").unwrap_err(),
        "Path file tidak boleh kosong"
    );
    assert_eq!(
        validate_file_path("/tmp/../etc/passwd").unwrap_err(),
        "Path file tidak valid"
    );
    assert_eq!(
        validate_file_path("/tmp/x\0y").unwrap_err(),
        "Path file tidak valid"
    );
}

#[test]
fn file_path_sanitization() {
    assert_eq!(sanitize_file_path(" /tmp/a.png "), "/tmp/a.png");
    assert_eq!(sanitize_file_path("/tmp/../x"), "/tmp//x");
    assert_eq!(sanitize_file_path("a\0b"), "ab");
    assert_eq!(sanitize_file_path("..."), ".");
}

#[test]
fn string_sanitization_removes_control_chars() {
    assert_eq!(sanitize_string("abc\u{7}\u{1b}def"), "abcdef");
    assert_eq!(sanitize_string("tab\tand\nnewline"), "tabandnewline");
    assert_eq!(sanitize_string("plain"), "plain");
}

#[test]
fn order_id_rules() {
    assert!(validate_order_id("QRIS-1714555555-42").is_ok());
    assert_eq!(
        validate_order_id("").unwrap_err(),
        "Order ID tidak boleh kosong"
    );
    assert_eq!(
        validate_order_id(&"a".repeat(101)).unwrap_err(),
        "Order ID terlalu panjang"
    );
    assert_eq!(
        validate_order_id("order_1").unwrap_err(),
        "Order ID hanya boleh berisi huruf, angka, dan hyphen"
    );
}

#[test]
fn notes_rules() {
    assert!(validate_notes("").is_ok());
    assert!(validate_notes("catatan singkat").is_ok());
    assert_eq!(
        validate_notes(&"x".repeat(501)).unwrap_err(),
        "Catatan terlalu panjang (max 500 karakter)"
    );
}
