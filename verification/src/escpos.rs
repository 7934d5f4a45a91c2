//! ESC/POS document builder.
//!
//! Pure construction of the byte streams sent to receipt printers: a sales
//! receipt, a connectivity test page, and barcode labels. Control codes are
//! embedded as literal bytes, text as its UTF-8 encoding; every builder's
//! result is pinned byte for byte by a spec function, so the output is
//! deterministic and reproducible against real thermal hardware.

use vstd::prelude::*;
use vstd::utf8::encode_utf8;
use crate::format::{format_number, pad_left, take_chars, int_to_string};
use crate::format::{spec_format_number, spec_pad_left, spec_take_chars, spec_plain_int};
use crate::diagnostics::{PrintError, PrintErrorKind};

verus! {

/// Store identity shown on a receipt.
pub struct StoreInfo {
    pub name: String,
    pub address: String,
    pub footer: String,
}

/// The transaction fields a receipt renders. Monetary amounts are in whole
/// currency units.
pub struct ReceiptTransaction {
    pub id: String,
    pub timestamp: String,
    pub total: i64,
    pub discount: i64,
    pub tax: i64,
    pub payment_method: String,
    pub amount_paid: i64,
}

/// One sold line item on a receipt. Monetary amounts are in whole currency
/// units.
pub struct ReceiptItem {
    pub name: String,
    pub qty: i64,
    pub price: i64,
    pub subtotal: i64,
}

/// One barcode label request; `qty` repeats the label that many times.
/// The price is in whole currency units.
pub struct BarcodeLabelItem {
    pub name: String,
    pub price: i64,
    pub barcode: String,
    pub qty: u32,
}

/// Initialize/reset the printer.
pub open spec fn esc_init() -> Seq<u8> {
    seq![0x1Bu8, 0x40u8]
}

/// Center alignment.
pub open spec fn esc_center() -> Seq<u8> {
    seq![0x1Bu8, 0x61u8, 0x01u8]
}

/// Left alignment.
pub open spec fn esc_left() -> Seq<u8> {
    seq![0x1Bu8, 0x61u8, 0x00u8]
}

/// Bold on.
pub open spec fn esc_bold_on() -> Seq<u8> {
    seq![0x1Bu8, 0x45u8, 0x01u8]
}

/// Bold off.
pub open spec fn esc_bold_off() -> Seq<u8> {
    seq![0x1Bu8, 0x45u8, 0x00u8]
}

/// Double width and height.
pub open spec fn esc_double() -> Seq<u8> {
    seq![0x1Du8, 0x21u8, 0x11u8]
}

/// Normal character size.
pub open spec fn esc_normal() -> Seq<u8> {
    seq![0x1Du8, 0x21u8, 0x00u8]
}

/// Partial cut: `GS V A` followed by `0x03`.
pub open spec fn esc_cut() -> Seq<u8> {
    seq![0x1Du8, 0x56u8, 0x41u8, 0x03u8]
}

/// HRI digits below the barcode, barcode height 80 dots, width multiplier 2.
pub open spec fn esc_barcode_setup() -> Seq<u8> {
    seq![0x1Du8, 0x48u8, 0x02u8, 0x1Du8, 0x68u8, 0x50u8, 0x1Du8, 0x77u8, 0x02u8]
}

/// EAN-13 barcode opcode `GS k C`.
pub open spec fn esc_ean13() -> Seq<u8> {
    seq![0x1Du8, 0x6Bu8, 0x43u8]
}

/// CODE128 barcode opcode `GS k I`.
pub open spec fn esc_code128() -> Seq<u8> {
    seq![0x1Du8, 0x6Bu8, 0x49u8]
}

/// Appends two raw bytes.
fn put2(out: &mut Vec<u8>, a: u8, b: u8)
    ensures
        final(out)@ == old(out)@ + seq![a, b],
{
    out.push(a);
    out.push(b);
    assert(out@ =~= old(out)@ + seq![a, b]);
}

/// Appends three raw bytes.
fn put3(out: &mut Vec<u8>, a: u8, b: u8, c: u8)
    ensures
        final(out)@ == old(out)@ + seq![a, b, c],
{
    out.push(a);
    out.push(b);
    out.push(c);
    assert(out@ =~= old(out)@ + seq![a, b, c]);
}

/// Appends the UTF-8 bytes of `s`.
fn put_str(out: &mut Vec<u8>, s: &str)
    ensures
        final(out)@ == old(out)@ + encode_utf8(s@),
{
    let mut bs = s.as_bytes_vec();
    out.append(&mut bs);
}

/// The amount `n` in a right-aligned ten-character column, thousands
/// separated.
pub open spec fn spec_amount_col(n: int) -> Seq<u8> {
    encode_utf8(spec_pad_left(spec_format_number(n), 10))
}

/// Appends a ten-wide right-aligned thousands-separated amount.
fn put_amount_col(out: &mut Vec<u8>, n: i64)
    ensures
        final(out)@ == old(out)@ + spec_amount_col(n as int),
{
    let s = format_number(n);
    let p = pad_left(s.as_str(), 10);
    put_str(out, p.as_str());
}

/// The receipt heading: centered bold double-size store name, then the
/// optional address line, then the heavy separator.
pub open spec fn spec_receipt_header(store: StoreInfo) -> Seq<u8> {
    esc_init() + esc_center() + esc_bold_on() + esc_double()
        + encode_utf8(store.name@) + encode_utf8("\n"@)
        + esc_normal() + esc_bold_off()
        + (if store.address@.len() > 0 {
            encode_utf8(store.address@) + encode_utf8("\n"@)
        } else {
            Seq::<u8>::empty()
        })
        + encode_utf8("================================\n"@)
}

fn put_receipt_header(out: &mut Vec<u8>, store: &StoreInfo)
    ensures
        final(out)@ == old(out)@ + spec_receipt_header(*store),
{
    put2(out, 0x1B, 0x40);
    put3(out, 0x1B, 0x61, 0x01);
    put3(out, 0x1B, 0x45, 0x01);
    put3(out, 0x1D, 0x21, 0x11);
    put_str(out, store.name.as_str());
    put_str(out, "\n");
    put3(out, 0x1D, 0x21, 0x00);
    put3(out, 0x1B, 0x45, 0x00);
    if store.address.as_str().unicode_len() > 0 {
        put_str(out, store.address.as_str());
        put_str(out, "\n");
    }
    put_str(out, "================================\n");
    assert(out@ =~= old(out)@ + spec_receipt_header(*store));
}

/// The left-aligned transaction block: `No:` with the first eight
/// characters of the id, and `Tgl:` with the timestamp, then the light
/// separator.
pub open spec fn spec_receipt_tx_info(tx: ReceiptTransaction) -> Seq<u8> {
    esc_left()
        + encode_utf8("No: "@) + encode_utf8(spec_take_chars(tx.id@, 8)) + encode_utf8("\n"@)
        + encode_utf8("Tgl: "@) + encode_utf8(tx.timestamp@) + encode_utf8("\n"@)
        + encode_utf8("--------------------------------\n"@)
}

fn put_receipt_tx_info(out: &mut Vec<u8>, tx: &ReceiptTransaction)
    ensures
        final(out)@ == old(out)@ + spec_receipt_tx_info(*tx),
{
    put3(out, 0x1B, 0x61, 0x00);
    put_str(out, "No: ");
    put_str(out, take_chars(tx.id.as_str(), 8));
    put_str(out, "\n");
    put_str(out, "Tgl: ");
    put_str(out, tx.timestamp.as_str());
    put_str(out, "\n");
    put_str(out, "--------------------------------\n");
    assert(out@ =~= old(out)@ + spec_receipt_tx_info(*tx));
}

/// One item as printed: the name truncated to twenty characters with the
/// quantity, then unit price and subtotal in aligned columns.
pub open spec fn spec_item_line(it: ReceiptItem) -> Seq<u8> {
    encode_utf8(spec_take_chars(it.name@, 20))
        + encode_utf8(" x"@) + encode_utf8(spec_plain_int(it.qty as int)) + encode_utf8("\n"@)
        + encode_utf8("  @"@) + spec_amount_col(it.price as int)
        + encode_utf8(" = "@) + spec_amount_col(it.subtotal as int) + encode_utf8("\n"@)
}

fn put_item_line(out: &mut Vec<u8>, it: &ReceiptItem)
    ensures
        final(out)@ == old(out)@ + spec_item_line(*it),
{
    put_str(out, take_chars(it.name.as_str(), 20));
    put_str(out, " x");
    let q = int_to_string(it.qty);
    put_str(out, q.as_str());
    put_str(out, "\n");
    put_str(out, "  @");
    put_amount_col(out, it.price);
    put_str(out, " = ");
    put_amount_col(out, it.subtotal);
    put_str(out, "\n");
    assert(out@ =~= old(out)@ + spec_item_line(*it));
}

/// The first `k` item lines, in order.
pub open spec fn spec_item_lines(items: Seq<ReceiptItem>, k: int) -> Seq<u8>
    decreases k,
{
    if k <= 0 {
        seq![]
    } else {
        spec_item_lines(items, k - 1) + spec_item_line(items[k - 1])
    }
}

/// The adjustment lines of the totals block: the light separator, then a
/// discount line when a discount was given and a tax line when tax was
/// charged.
pub open spec fn spec_totals_adjust(tx: ReceiptTransaction) -> Seq<u8> {
    encode_utf8("--------------------------------\n"@)
        + (if tx.discount > 0 {
            encode_utf8("Diskon:     "@) + spec_amount_col(tx.discount as int) + encode_utf8("\n"@)
        } else {
            Seq::<u8>::empty()
        })
        + (if tx.tax > 0 {
            encode_utf8("Pajak:      "@) + spec_amount_col(tx.tax as int) + encode_utf8("\n"@)
        } else {
            Seq::<u8>::empty()
        })
}

/// The closing lines of the totals block: the bold total, the payment
/// line with the method and the amount paid, and the heavy separator.
pub open spec fn spec_totals_pay(tx: ReceiptTransaction) -> Seq<u8> {
    esc_bold_on()
        + encode_utf8("TOTAL:      "@) + spec_amount_col(tx.total as int) + encode_utf8("\n"@)
        + esc_bold_off()
        + encode_utf8("Bayar ("@) + encode_utf8(spec_pad_left(tx.payment_method@, 4))
        + encode_utf8("): "@) + spec_amount_col(tx.amount_paid as int) + encode_utf8("\n"@)
        + encode_utf8("================================\n"@)
}

/// The totals block: optional discount and tax lines, the bold total line,
/// and the payment line, closed by the heavy separator.
pub open spec fn spec_receipt_totals(tx: ReceiptTransaction) -> Seq<u8> {
    spec_totals_adjust(tx) + spec_totals_pay(tx)
}

fn put_totals_adjust(out: &mut Vec<u8>, tx: &ReceiptTransaction)
    ensures
        final(out)@ == old(out)@ + spec_totals_adjust(*tx),
{
    put_str(out, "--------------------------------\n");
    if tx.discount > 0 {
        put_str(out, "Diskon:     ");
        put_amount_col(out, tx.discount);
        put_str(out, "\n");
    }
    if tx.tax > 0 {
        put_str(out, "Pajak:      ");
        put_amount_col(out, tx.tax);
        put_str(out, "\n");
    }
    assert(out@ =~= old(out)@ + spec_totals_adjust(*tx));
}

fn put_totals_pay(out: &mut Vec<u8>, tx: &ReceiptTransaction)
    ensures
        final(out)@ == old(out)@ + spec_totals_pay(*tx),
{
    put3(out, 0x1B, 0x45, 0x01);
    put_str(out, "TOTAL:      ");
    put_amount_col(out, tx.total);
    put_str(out, "\n");
    put3(out, 0x1B, 0x45, 0x00);
    put_str(out, "Bayar (");
    let pm = pad_left(tx.payment_method.as_str(), 4);
    put_str(out, pm.as_str());
    put_str(out, "): ");
    put_amount_col(out, tx.amount_paid);
    put_str(out, "\n");
    put_str(out, "================================\n");
    assert(out@ =~= old(out)@ + spec_totals_pay(*tx));
}

fn put_receipt_totals(out: &mut Vec<u8>, tx: &ReceiptTransaction)
    ensures
        final(out)@ == old(out)@ + spec_receipt_totals(*tx),
{
    put_totals_adjust(out, tx);
    put_totals_pay(out, tx);
    assert(out@ =~= old(out)@ + spec_receipt_totals(*tx));
}

/// The receipt tail: the centered footer line, two blank lines, and the
/// partial cut closing the stream.
pub open spec fn spec_receipt_tail(store: StoreInfo) -> Seq<u8> {
    esc_center() + encode_utf8(store.footer@) + encode_utf8("\n"@) + encode_utf8("\n"@)
        + encode_utf8("\n"@) + esc_cut()
}

fn put_receipt_tail(out: &mut Vec<u8>, store: &StoreInfo)
    ensures
        final(out)@ == old(out)@ + spec_receipt_tail(*store),
{
    put3(out, 0x1B, 0x61, 0x01);
    put_str(out, store.footer.as_str());
    put_str(out, "\n");
    put_str(out, "\n");
    put_str(out, "\n");
    put3(out, 0x1D, 0x56, 0x41);
    out.push(0x03);
    assert(out@ =~= old(out)@ + spec_receipt_tail(*store));
}

/// The whole receipt byte stream for the given store, transaction and
/// items.
pub open spec fn spec_receipt_bytes(
    store: StoreInfo,
    tx: ReceiptTransaction,
    items: Seq<ReceiptItem>,
) -> Seq<u8> {
    spec_receipt_header(store) + spec_receipt_tx_info(tx)
        + spec_item_lines(items, items.len() as int) + spec_receipt_totals(tx)
        + spec_receipt_tail(store)
}

/// Builds the ESC/POS receipt for one transaction. The output is a pure
/// function of the arguments, so repeated calls on the same inputs yield
/// byte-identical streams.
pub fn build_receipt(
    store: &StoreInfo,
    tx: &ReceiptTransaction,
    items: &Vec<ReceiptItem>,
) -> (r: Vec<u8>)
    ensures
        r@ == spec_receipt_bytes(*store, *tx, items@),
{
    let mut out: Vec<u8> = Vec::new();
    put_receipt_header(&mut out, store);
    put_receipt_tx_info(&mut out, tx);
    let ghost base = out@;
    let mut i: usize = 0;
    while i < items.len()
        invariant
            i <= items@.len(),
            out@ == base + spec_item_lines(items@, i as int),
        decreases items@.len() - i,
    {
        put_item_line(&mut out, &items[i]);
        assert(out@ =~= base + spec_item_lines(items@, i + 1));
        i += 1;
    }
    put_receipt_totals(&mut out, tx);
    put_receipt_tail(&mut out, store);
    assert(out@ =~= spec_receipt_bytes(*store, *tx, items@));
    out
}

/// The connectivity test page for a given timestamp line.
pub open spec fn spec_test_page(now: Seq<char>) -> Seq<u8> {
    esc_init() + esc_center() + esc_bold_on() + esc_double()
        + encode_utf8("TEST PRINT\n"@)
        + esc_normal() + esc_bold_off()
        + encode_utf8("================================\n"@)
        + encode_utf8("Printer berhasil terhubung!\n"@)
        + encode_utf8("POS Kasir Alpiant\n"@)
        + encode_utf8(now) + encode_utf8("\n"@)
        + encode_utf8("================================\n\n\n"@)
        + esc_cut()
}

/// Builds the test page that reports the printer as reachable, stamped
/// with the given local time text.
pub fn build_test_page(now: &str) -> (r: Vec<u8>)
    ensures
        r@ == spec_test_page(now@),
{
    let mut out: Vec<u8> = Vec::new();
    put2(&mut out, 0x1B, 0x40);
    put3(&mut out, 0x1B, 0x61, 0x01);
    put3(&mut out, 0x1B, 0x45, 0x01);
    put3(&mut out, 0x1D, 0x21, 0x11);
    put_str(&mut out, "TEST PRINT\n");
    put3(&mut out, 0x1D, 0x21, 0x00);
    put3(&mut out, 0x1B, 0x45, 0x00);
    put_str(&mut out, "================================\n");
    put_str(&mut out, "Printer berhasil terhubung!\n");
    put_str(&mut out, "POS Kasir Alpiant\n");
    put_str(&mut out, now);
    put_str(&mut out, "\n");
    put_str(&mut out, "================================\n\n\n");
    put3(&mut out, 0x1D, 0x56, 0x41);
    out.push(0x03);
    assert(out@ =~= spec_test_page(now@));
    out
}

/// Builds the test page stamped with the local time read just now: for
/// whatever text the clock yielded, the page is the one that timestamp
/// determines.
pub fn build_test_page_now() -> (r: Vec<u8>)
    ensures
        exists|ts: Seq<char>| r@ == spec_test_page(ts),
{
    let now = crate::timeclock::now_timestamp();
    let r = build_test_page(now.as_str());
    assert(r@ == spec_test_page(now@));
    r
}

/// The barcode section for a payload: symbology opcode chosen by
/// character count (exactly thirteen characters is EAN-13, anything else
/// CODE128), the byte count of the payload, and the payload bytes.
pub open spec fn spec_barcode_section(b: Seq<char>) -> Seq<u8> {
    (if b.len() == 13 {
        esc_ean13()
    } else {
        esc_code128()
    }) + seq![(encode_utf8(b).len() % 256) as u8] + encode_utf8(b)
}

fn put_barcode_section(out: &mut Vec<u8>, barcode: &str)
    ensures
        final(out)@ == old(out)@ + spec_barcode_section(barcode@),
{
    let char_len = barcode.unicode_len();
    if char_len == 13 {
        put3(out, 0x1D, 0x6B, 0x43);
    } else {
        put3(out, 0x1D, 0x6B, 0x49);
    }
    let mut bs = barcode.as_bytes_vec();
    let byte_len = bs.len();
    out.push((byte_len % 256) as u8);
    out.append(&mut bs);
    assert(out@ =~= old(out)@ + spec_barcode_section(barcode@));
}

/// One printed label: centered bold name truncated to twenty-four
/// characters, the price line, barcode setup codes, the barcode itself and
/// the separator.
pub open spec fn spec_label_block(it: BarcodeLabelItem) -> Seq<u8> {
    esc_center() + esc_bold_on()
        + encode_utf8(spec_take_chars(it.name@, 24)) + encode_utf8("\n"@)
        + esc_bold_off()
        + encode_utf8("Rp "@) + encode_utf8(spec_format_number(it.price as int)) + encode_utf8("\n"@)
        + esc_barcode_setup()
        + spec_barcode_section(it.barcode@)
        + encode_utf8("\n"@)
        + encode_utf8("--------------------------------\n"@)
}

fn put_label_block(out: &mut Vec<u8>, it: &BarcodeLabelItem)
    ensures
        final(out)@ == old(out)@ + spec_label_block(*it),
{
    put3(out, 0x1B, 0x61, 0x01);
    put3(out, 0x1B, 0x45, 0x01);
    put_str(out, take_chars(it.name.as_str(), 24));
    put_str(out, "\n");
    put3(out, 0x1B, 0x45, 0x00);
    put_str(out, "Rp ");
    let p = format_number(it.price);
    put_str(out, p.as_str());
    put_str(out, "\n");
    put3(out, 0x1D, 0x48, 0x02);
    put3(out, 0x1D, 0x68, 0x50);
    put3(out, 0x1D, 0x77, 0x02);
    put_barcode_section(out, it.barcode.as_str());
    put_str(out, "\n");
    put_str(out, "--------------------------------\n");
    assert(out@ =~= old(out)@ + spec_label_block(*it));
}

/// The label block for `it` repeated `q` times.
pub open spec fn spec_label_repeat(it: BarcodeLabelItem, q: int) -> Seq<u8>
    decreases q,
{
    if q <= 0 {
        seq![]
    } else {
        spec_label_repeat(it, q - 1) + spec_label_block(it)
    }
}

/// The label blocks of the first `k` requests, each repeated its own
/// quantity.
pub open spec fn spec_label_blocks(items: Seq<BarcodeLabelItem>, k: int) -> Seq<u8>
    decreases k,
{
    if k <= 0 {
        seq![]
    } else {
        spec_label_blocks(items, k - 1) + spec_label_repeat(items[k - 1], items[k - 1].qty as int)
    }
}

/// The whole label byte stream for the given requests.
pub open spec fn spec_labels_bytes(items: Seq<BarcodeLabelItem>) -> Seq<u8> {
    esc_init() + spec_label_blocks(items, items.len() as int)
        + encode_utf8("\n\n"@) + esc_cut()
}

/// Builds the ESC/POS stream for a batch of barcode labels; each request
/// repeats its block `qty` times.
pub fn build_labels(items: &Vec<BarcodeLabelItem>) -> (r: Vec<u8>)
    ensures
        r@ == spec_labels_bytes(items@),
{
    let mut out: Vec<u8> = Vec::new();
    put2(&mut out, 0x1B, 0x40);
    let ghost base = out@;
    let mut i: usize = 0;
    while i < items.len()
        invariant
            i <= items@.len(),
            out@ == base + spec_label_blocks(items@, i as int),
        decreases items@.len() - i,
    {
        let ghost inner_base = out@;
        let it = &items[i];
        let mut n: u32 = 0;
        while n < it.qty
            invariant
                n <= it.qty,
                *it == items@[i as int],
                out@ == inner_base + spec_label_repeat(*it, n as int),
            decreases it.qty - n,
        {
            put_label_block(&mut out, it);
            assert(out@ =~= inner_base + spec_label_repeat(*it, n + 1));
            n += 1;
        }
        assert(out@ =~= base + spec_label_blocks(items@, i + 1));
        i += 1;
    }
    put_str(&mut out, "\n\n");
    put3(&mut out, 0x1D, 0x56, 0x41);
    out.push(0x03);
    assert(out@ =~= spec_labels_bytes(items@));
    out
}

/// The message rejecting an empty label batch.
pub open spec fn spec_no_labels_message() -> Seq<char> {
    "Tidak ada label untuk dicetak."@
}

/// The label print call's document: an empty batch is rejected with its
/// fixed diagnostic and nothing is built; a nonempty batch yields exactly
/// the label byte stream.
pub fn labels_document(items: &Vec<BarcodeLabelItem>) -> (r: Result<Vec<u8>, PrintError>)
    ensures
        r.is_ok() <==> items@.len() > 0,
        items@.len() > 0 ==> (r->Ok_0)@ == spec_labels_bytes(items@),
        items@.len() == 0 ==> (r->Err_0).kind == PrintErrorKind::ProtocolError
            && (r->Err_0).message@ == spec_no_labels_message(),
{
    if items.len() == 0 {
        Err(
            PrintError {
                kind: PrintErrorKind::ProtocolError,
                message: String::from_str("Tidak ada label untuk dicetak."),
            },
        )
    } else {
        Ok(build_labels(items))
    }
}

/// Receipt building is deterministic: equal store, transaction and item
/// inputs render to byte-identical streams, on this call and on every
/// later one.
pub proof fn lemma_receipt_deterministic(
    s1: StoreInfo,
    t1: ReceiptTransaction,
    i1: Seq<ReceiptItem>,
    s2: StoreInfo,
    t2: ReceiptTransaction,
    i2: Seq<ReceiptItem>,
)
    requires
        s1 == s2,
        t1 == t2,
        i1 == i2,
    ensures
        spec_receipt_bytes(s1, t1, i1) == spec_receipt_bytes(s2, t2, i2),
{
}

/// Symbology selection: a payload of exactly thirteen characters is
/// always emitted under the EAN-13 opcode, and any other length under
/// the CODE128 opcode.
pub proof fn lemma_barcode_symbology(b: Seq<char>)
    ensures
        b.len() == 13 ==> spec_barcode_section(b).subrange(0, 3) == esc_ean13(),
        b.len() != 13 ==> spec_barcode_section(b).subrange(0, 3) == esc_code128(),
{
    if b.len() == 13 {
        assert(spec_barcode_section(b).subrange(0, 3) =~= esc_ean13());
    } else {
        assert(spec_barcode_section(b).subrange(0, 3) =~= esc_code128());
    }
}

} // verus!
