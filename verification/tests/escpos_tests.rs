use pos_kasir::escpos::{
    build_labels, build_receipt, build_test_page, labels_document, BarcodeLabelItem,
    ReceiptItem, ReceiptTransaction, StoreInfo,
};
use pos_kasir::format::{format_number, int_to_string, pad_left, take_chars};

fn contains_bytes(hay: &[u8], needle: &[u8]) -> bool {
    if needle.is_empty() {
        return true;
    }
    hay.windows(needle.len()).any(|w| w == needle)
}

fn find_bytes(hay: &[u8], needle: &[u8]) -> Option<usize> {
    hay.windows(needle.len()).position(|w| w == needle)
}

fn sample_store() -> StoreInfo {
    StoreInfo {
        name: String::from("Toko Sembako"),
        address: String::from("Jl. Melati 1"),
        footer: String::from("Terima Kasih!"),
    }
}

fn sample_tx() -> ReceiptTransaction {
    ReceiptTransaction {
        id: String::from("abc12345-xxxx"),
        timestamp: String::from("2024-05-01 10:00:00"),
        total: 15000,
        discount: 0,
        tax: 0,
        payment_method: String::from("CASH"),
        amount_paid: 15000,
    }
}

fn sample_items() -> Vec<ReceiptItem> {
    vec![ReceiptItem {
        name: String::from("Kopi"),
        qty: 2,
        price: 7500,
        subtotal: 15000,
    }]
}

#[test]
fn receipt_contains_item_line() {
    let bytes = build_receipt(&sample_store(), &sample_tx(), &sample_items());
    assert!(contains_bytes(&bytes, b"Kopi x2"));
}

#[test]
fn receipt_total_is_bold() {
    let bytes = build_receipt(&sample_store(), &sample_tx(), &sample_items());
    let at = find_bytes(&bytes, b"TOTAL:").expect("TOTAL: line missing");
    assert!(at >= 3);
    assert_eq!(&bytes[at - 3..at], &[0x1B, 0x45, 0x01]);
}

#[test]
fn receipt_ends_with_partial_cut() {
    let bytes = build_receipt(&sample_store(), &sample_tx(), &sample_items());
    let tail: &[u8] = &[0x1D, 0x56, 0x41, 0x03];
    assert!(bytes.len() >= tail.len());
    assert_eq!(&bytes[bytes.len() - tail.len()..], tail);
}

#[test]
fn receipt_starts_with_init_and_center() {
    let bytes = build_receipt(&sample_store(), &sample_tx(), &sample_items());
    assert_eq!(&bytes[..5], &[0x1B, 0x40, 0x1B, 0x61, 0x01]);
}

#[test]
fn receipt_shows_first_eight_id_chars() {
    let bytes = build_receipt(&sample_store(), &sample_tx(), &sample_items());
    assert!(contains_bytes(&bytes, b"No: abc12345\n"));
    assert!(!contains_bytes(&bytes, b"abc12345-"));
}

#[test]
fn receipt_is_deterministic() {
    let a = build_receipt(&sample_store(), &sample_tx(), &sample_items());
    let b = build_receipt(&sample_store(), &sample_tx(), &sample_items());
    assert_eq!(a, b);
}

#[test]
fn receipt_skips_zero_discount_and_tax() {
    let bytes = build_receipt(&sample_store(), &sample_tx(), &sample_items());
    assert!(!contains_bytes(&bytes, b"Diskon:"));
    assert!(!contains_bytes(&bytes, b"Pajak:"));
    let mut tx = sample_tx();
    tx.discount = 500;
    tx.tax = 1650;
    let bytes = build_receipt(&sample_store(), &tx, &sample_items());
    assert!(contains_bytes(&bytes, b"Diskon:            500\n"));
    assert!(contains_bytes(&bytes, b"Pajak:           1.650\n"));
}

#[test]
fn receipt_pays_line_shows_method_and_amount_paid() {
    let bytes = build_receipt(&sample_store(), &sample_tx(), &sample_items());
    assert!(contains_bytes(&bytes, b"Bayar (CASH):     15.000\n"));
    let mut tx = sample_tx();
    tx.amount_paid = 20000;
    let bytes = build_receipt(&sample_store(), &tx, &sample_items());
    assert!(contains_bytes(&bytes, b"TOTAL:          15.000\n"));
    assert!(contains_bytes(&bytes, b"Bayar (CASH):     20.000\n"));
}

#[test]
fn receipt_bytes_are_exact() {
    let bytes = build_receipt(&sample_store(), &sample_tx(), &sample_items());
    let expected: Vec<u8> = vec![
        27, 64, 27, 97, 1, 27, 69, 1, 29, 33, 17, 84, 111, 107, 111, 32, 83, 101, 109, 98, 97,
        107, 111, 10, 29, 33, 0, 27, 69, 0, 74, 108, 46, 32, 77, 101, 108, 97, 116, 105, 32, 49,
        10, 61, 61, 61, 61, 61, 61, 61, 61, 61, 61, 61, 61, 61, 61, 61, 61, 61, 61, 61, 61, 61,
        61, 61, 61, 61, 61, 61, 61, 61, 61, 61, 61, 10, 27, 97, 0, 78, 111, 58, 32, 97, 98, 99,
        49, 50, 51, 52, 53, 10, 84, 103, 108, 58, 32, 50, 48, 50, 52, 45, 48, 53, 45, 48, 49,
        32, 49, 48, 58, 48, 48, 58, 48, 48, 10, 45, 45, 45, 45, 45, 45, 45, 45, 45, 45, 45, 45,
        45, 45, 45, 45, 45, 45, 45, 45, 45, 45, 45, 45, 45, 45, 45, 45, 45, 45, 45, 45, 10, 75,
        111, 112, 105, 32, 120, 50, 10, 32, 32, 64, 32, 32, 32, 32, 32, 55, 46, 53, 48, 48, 32,
        61, 32, 32, 32, 32, 32, 49, 53, 46, 48, 48, 48, 10, 45, 45, 45, 45, 45, 45, 45, 45, 45,
        45, 45, 45, 45, 45, 45, 45, 45, 45, 45, 45, 45, 45, 45, 45, 45, 45, 45, 45, 45, 45, 45,
        45, 10, 27, 69, 1, 84, 79, 84, 65, 76, 58, 32, 32, 32, 32, 32, 32, 32, 32, 32, 32, 49,
        53, 46, 48, 48, 48, 10, 27, 69, 0, 66, 97, 121, 97, 114, 32, 40, 67, 65, 83, 72, 41, 58,
        32, 32, 32, 32, 32, 49, 53, 46, 48, 48, 48, 10, 61, 61, 61, 61, 61, 61, 61, 61, 61, 61,
        61, 61, 61, 61, 61, 61, 61, 61, 61, 61, 61, 61, 61, 61, 61, 61, 61, 61, 61, 61, 61, 61,
        10, 27, 97, 1, 84, 101, 114, 105, 109, 97, 32, 75, 97, 115, 105, 104, 33, 10, 10, 10,
        29, 86, 65, 3,
    ];
    assert_eq!(bytes, expected);
}

#[test]
fn test_page_announces_connection() {
    let bytes = build_test_page("2024-05-01 10:00:00");
    assert!(contains_bytes(&bytes, b"TEST PRINT\n"));
    assert!(contains_bytes(&bytes, b"Printer berhasil terhubung!\n"));
    assert!(contains_bytes(&bytes, b"2024-05-01 10:00:00\n"));
    let tail: &[u8] = &[0x1D, 0x56, 0x41, 0x03];
    assert_eq!(&bytes[bytes.len() - tail.len()..], tail);
}

fn sample_label() -> BarcodeLabelItem {
    BarcodeLabelItem {
        name: String::from("Gula 1kg"),
        price: 15000,
        barcode: String::from("8991234567890"),
        qty: 2,
    }
}

#[test]
fn label_thirteen_digits_use_ean13() {
    let bytes = build_labels(&vec![sample_label()]);
    assert!(contains_bytes(&bytes, &[0x1D, 0x6B, 0x43, 13]));
    assert!(!contains_bytes(&bytes, &[0x1D, 0x6B, 0x49]));
}

#[test]
fn label_other_lengths_use_code128() {
    let mut item = sample_label();
    item.barcode = String::from("ABC-001");
    item.qty = 1;
    let bytes = build_labels(&vec![item]);
    assert!(contains_bytes(&bytes, &[0x1D, 0x6B, 0x49, 7]));
    assert!(!contains_bytes(&bytes, &[0x1D, 0x6B, 0x43]));
}

#[test]
fn label_repeats_per_quantity() {
    let bytes = build_labels(&vec![sample_label()]);
    let payload = b"8991234567890";
    let first = find_bytes(&bytes, payload).expect("barcode payload missing");
    let rest = &bytes[first + payload.len()..];
    assert!(
        contains_bytes(rest, payload),
        "second repeated label block missing"
    );
    let names: Vec<usize> = bytes
        .windows(b"Gula 1kg".len())
        .enumerate()
        .filter(|(_, w)| *w == b"Gula 1kg")
        .map(|(i, _)| i)
        .collect();
    assert_eq!(names.len(), 2);
}

#[test]
fn label_has_price_and_setup_codes() {
    let bytes = build_labels(&vec![sample_label()]);
    assert!(contains_bytes(&bytes, b"Rp 15.000\n"));
    assert!(contains_bytes(
        &bytes,
        &[0x1D, 0x48, 0x02, 0x1D, 0x68, 0x50, 0x1D, 0x77, 0x02]
    ));
}

#[test]
fn label_name_truncated_to_24_chars() {
    let mut item = sample_label();
    item.name = String::from("Nama Produk Yang Sangat Panjang Sekali");
    item.qty = 1;
    let bytes = build_labels(&vec![item]);
    assert!(contains_bytes(&bytes, b"Nama Produk Yang Sangat \n"));
    assert!(!contains_bytes(&bytes, b"Panjang"));
}

#[test]
fn label_bytes_are_exact() {
    let bytes = build_labels(&vec![sample_label()]);
    let expected: Vec<u8> = vec![
        27, 64, 27, 97, 1, 27, 69, 1, 71, 117, 108, 97, 32, 49, 107, 103, 10, 27, 69, 0, 82,
        112, 32, 49, 53, 46, 48, 48, 48, 10, 29, 72, 2, 29, 104, 80, 29, 119, 2, 29, 107, 67,
        13, 56, 57, 57, 49, 50, 51, 52, 53, 54, 55, 56, 57, 48, 10, 45, 45, 45, 45, 45, 45, 45,
        45, 45, 45, 45, 45, 45, 45, 45, 45, 45, 45, 45, 45, 45, 45, 45, 45, 45, 45, 45, 45, 45,
        45, 45, 45, 10, 27, 97, 1, 27, 69, 1, 71, 117, 108, 97, 32, 49, 107, 103, 10, 27, 69, 0,
        82, 112, 32, 49, 53, 46, 48, 48, 48, 10, 29, 72, 2, 29, 104, 80, 29, 119, 2, 29, 107,
        67, 13, 56, 57, 57, 49, 50, 51, 52, 53, 54, 55, 56, 57, 48, 10, 45, 45, 45, 45, 45, 45,
        45, 45, 45, 45, 45, 45, 45, 45, 45, 45, 45, 45, 45, 45, 45, 45, 45, 45, 45, 45, 45, 45,
        45, 45, 45, 45, 10, 10, 10, 29, 86, 65, 3,
    ];
    assert_eq!(bytes, expected);
}

#[test]
fn label_symbology_follows_character_count() {
    let mut item = sample_label();
    item.barcode = String::from("\u{e9}991234567890");
    item.qty = 1;
    assert_eq!(item.barcode.chars().count(), 13);
    assert_eq!(item.barcode.len(), 14);
    let bytes = build_labels(&vec![item]);
    assert!(contains_bytes(&bytes, &[0x1D, 0x6B, 0x43, 14]));
    assert!(!contains_bytes(&bytes, &[0x1D, 0x6B, 0x49]));
}

#[test]
fn label_stream_ends_with_partial_cut() {
    let bytes = build_labels(&vec![sample_label()]);
    let tail: &[u8] = &[b'\n', b'\n', 0x1D, 0x56, 0x41, 0x03];
    assert_eq!(&bytes[bytes.len() - tail.len()..], tail);
}

#[test]
fn empty_label_batch_is_rejected() {
    let err = labels_document(&vec![]).unwrap_err();
    assert_eq!(err.kind, pos_kasir::diagnostics::PrintErrorKind::ProtocolError);
    assert_eq!(err.message, "Tidak ada label untuk dicetak.");
    let batch = vec![sample_label()];
    let doc = labels_document(&batch).unwrap();
    assert_eq!(doc, build_labels(&batch));
}

#[test]
fn format_number_groups_thousands() {
    assert_eq!(format_number(1234567), "1.234.567");
}

#[test]
fn format_number_keeps_short_negatives() {
    assert_eq!(format_number(-500), "-500");
}

#[test]
fn format_number_more_cases() {
    assert_eq!(format_number(0), "0");
    assert_eq!(format_number(999), "999");
    assert_eq!(format_number(1000), "1.000");
    assert_eq!(format_number(-1234567), "-1.234.567");
    assert_eq!(format_number(15000), "15.000");
}

#[test]
fn format_number_handles_extremes() {
    assert_eq!(format_number(i64::MAX), "9.223.372.036.854.775.807");
    assert_eq!(format_number(i64::MIN), "-9.223.372.036.854.775.808");
}

#[test]
fn int_to_string_plain() {
    assert_eq!(int_to_string(0), "0");
    assert_eq!(int_to_string(42), "42");
    assert_eq!(int_to_string(-7), "-7");
    assert_eq!(int_to_string(1234567), "1234567");
}

#[test]
fn pad_left_right_aligns() {
    assert_eq!(pad_left("500", 10), "       500");
    assert_eq!(pad_left("CASH", 4), "CASH");
    assert_eq!(pad_left("TOOLONGVALUE", 4), "TOOLONGVALUE");
}

#[test]
fn take_chars_truncates() {
    assert_eq!(take_chars("Kopi Susu Gula Aren Besar", 20), "Kopi Susu Gula Aren ");
    assert_eq!(take_chars("Kopi", 20), "Kopi");
}
