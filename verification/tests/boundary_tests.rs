use rust_erp::accounting::PostingSide;
use rust_erp::inventory::{Product, Sku};
use rust_erp::invoicing::{Invoice, InvoiceLine, InvoiceNumber, InvoiceStatus};
use rust_erp::presentation::{
    AdjustStockRequest, InvoiceView, IssueInvoiceRequest, PostJournalEntryRequest, ProductView,
};
use rust_erp::records::{
    invoice_from_record, invoice_line_from_record, posting_from_record, product_from_record,
};
use rust_erp::shared::{Amount, Currency, CustomerId, DomainError, Money, Timestamp};

const DEBIT_ID: &str = "67e55044-10b1-426f-9247-bb680e5fe0c8";
const CREDIT_ID: &str = "a1a2a3a4-b1b2-c1c2-d1d2-d3d4d5d6d7d8";

#[test]
fn stored_posting_is_validated() {
    let amount = Amount::new(500, 2);
    let posting = posting_from_record(7, "debit", amount, "USD").expect("partida");
    assert_eq!(posting.side(), PostingSide::Debit);
    assert_eq!(posting.account_id().value(), 7);
    assert_eq!(posting.amount(), Money::new(amount, Currency::Usd));
    assert!(matches!(posting_from_record(7, "debe", amount, "USD"), Err(DomainError::Validation(_))));
    assert!(matches!(posting_from_record(7, "credit", amount, "ARS"), Err(DomainError::Validation(_))));
    assert!(posting_from_record(7, "credit", Amount::zero(), "USD").is_err());
}

#[test]
fn stored_product_is_validated() {
    let product = product_from_record(9, "ERP-040", "Lámpara".to_string(), 12, false).expect("producto");
    assert_eq!(product.id().value(), 9);
    assert_eq!(product.stock().value(), 12);
    assert!(!product.is_active());
    assert!(product_from_record(9, "E", "Lámpara".to_string(), 12, true).is_err());
    assert!(product_from_record(9, "ERP-040", "Lámpara".to_string(), -3, true).is_err());
}

#[test]
fn stored_invoice_line_reinterprets_the_quantity() {
    let price = Amount::new(250, 2);
    let l = invoice_line_from_record("Tornillos", 4, price, "MXN").expect("línea");
    assert_eq!(l.quantity(), 4);
    assert_eq!(l.unit_price(), Money::new(price, Currency::Mxn));
    let wrapped = invoice_line_from_record("Tornillos", -1, price, "MXN").expect("línea");
    assert_eq!(wrapped.quantity(), u32::MAX);
    assert!(invoice_line_from_record("Tornillos", 0, price, "MXN").is_err());
    assert!(invoice_line_from_record("Tornillos", 1, price, "mxn").is_err());
}

#[test]
fn stored_invoice_is_validated() {
    let lines = vec![InvoiceLine::new("Servicio", 1, Money::new(Amount::new(100, 2), Currency::Usd)).expect("línea")];
    let issued_at = Some(Timestamp::from_parts(1_700_000_000, 0));
    let invoice = invoice_from_record(3, "F-500", 4, lines.clone(), "issued", issued_at).expect("factura");
    assert_eq!(invoice.id().value(), 3);
    assert_eq!(invoice.customer_id().value(), 4);
    assert_eq!(invoice.status(), InvoiceStatus::Issued);
    assert_eq!(invoice.issued_at().copied(), issued_at);
    assert!(invoice_from_record(3, "F-500", 4, lines.clone(), "void", None).is_err());
    assert!(invoice_from_record(3, "F", 4, lines, "draft", None).is_err());
}

#[test]
fn product_view_copies_the_product() {
    let mut product = Product::new(Sku::new("ERP-050").expect("sku"), "Teclado").expect("producto");
    product.adjust_stock(8).expect("ajuste");
    let view = ProductView::from_product(&product);
    assert_eq!(view.sku, "ERP-050");
    assert_eq!(view.name, "Teclado");
    assert_eq!(view.stock, 8);
}

#[test]
fn invoice_view_shows_the_total() {
    let mut invoice = Invoice::draft(InvoiceNumber::new("F-600").expect("número"), CustomerId::new());
    invoice
        .add_line(InvoiceLine::new("Servicio", 3, Money::new(Amount::new(1050, 2), Currency::Eur)).expect("línea"))
        .expect("agregar");
    let view = InvoiceView::from_invoice(&invoice).expect("vista");
    assert_eq!(view.number, "F-600");
    assert_eq!(view.status, "draft");
    assert_eq!(view.total, "31.50 EUR");
}

fn journal_request(amount: &str, currency: &str, debit: &str) -> PostJournalEntryRequest {
    PostJournalEntryRequest {
        description: "Cobro".to_string(),
        debit_account_id: debit.to_string(),
        credit_account_id: CREDIT_ID.to_string(),
        amount: amount.to_string(),
        currency: currency.to_string(),
    }
}

#[test]
fn journal_form_becomes_a_transfer() {
    let command = journal_request("12.34", "USD", DEBIT_ID).to_command().expect("comando");
    assert_eq!(command.description, "Cobro");
    assert_eq!(command.lines.len(), 2);
    assert_eq!(command.lines[0].side, PostingSide::Debit);
    assert_eq!(command.lines[0].account_id.value(), 0x67e5_5044_10b1_426f_9247_bb68_0e5f_e0c8);
    assert_eq!(command.lines[1].side, PostingSide::Credit);
    assert_eq!(command.lines[1].account_id.value(), 0xa1a2_a3a4_b1b2_c1c2_d1d2_d3d4_d5d6_d7d8);
    assert_eq!(command.lines[0].amount, Money::new(Amount::new(1234, 2), Currency::Usd));
    assert_eq!(command.lines[1].amount, command.lines[0].amount);
}

#[test]
fn journal_form_reports_the_first_error() {
    assert_eq!(
        journal_request("abc", "XYZ", "x").to_command().expect_err("moneda"),
        "Validación de dominio fallida: Moneda no soportada: XYZ"
    );
    let amount_error = journal_request("abc", "USD", "x").to_command().expect_err("monto");
    assert_eq!(amount_error, Amount::parse("abc").expect_err("monto"));
    assert!(journal_request("1", "USD", "x").to_command().is_err());
}

#[test]
fn stock_form_parses_the_product() {
    let request = AdjustStockRequest { product_id: DEBIT_ID.to_string(), delta: -2 };
    let command = request.to_command().expect("comando");
    assert_eq!(command.product_id.value(), 0x67e5_5044_10b1_426f_9247_bb68_0e5f_e0c8);
    assert_eq!(command.delta, -2);
    let bad = AdjustStockRequest { product_id: "producto".to_string(), delta: 1 };
    assert!(bad.to_command().is_err());
}

fn invoice_request(number: &str, customer: &str, price: &str, currency: &str) -> IssueInvoiceRequest {
    IssueInvoiceRequest {
        number: number.to_string(),
        customer_id: customer.to_string(),
        description: "Consultoría".to_string(),
        quantity: 2,
        unit_price: price.to_string(),
        currency: currency.to_string(),
    }
}

#[test]
fn invoice_form_becomes_a_single_line() {
    let command = invoice_request("F-700", DEBIT_ID, "99.5", "MXN").to_command().expect("comando");
    assert_eq!(command.number.value(), "F-700");
    assert_eq!(command.customer_id.value(), 0x67e5_5044_10b1_426f_9247_bb68_0e5f_e0c8);
    assert_eq!(command.lines.len(), 1);
    assert_eq!(command.lines[0].description, "Consultoría");
    assert_eq!(command.lines[0].quantity, 2);
    assert_eq!(command.lines[0].unit_price, Money::new(Amount::new(995, 1), Currency::Mxn));
}

#[test]
fn invoice_form_reports_the_first_error() {
    assert!(invoice_request("F-701", "cliente", "1", "XYZ").to_command().is_err());
    assert_eq!(
        invoice_request("F-701", DEBIT_ID, "1", "ARS").to_command().expect_err("moneda"),
        "Validación de dominio fallida: Moneda no soportada: ARS"
    );
    assert_eq!(
        invoice_request("F", DEBIT_ID, "1", "USD").to_command().expect_err("número"),
        "Validación de dominio fallida: El número de factura debe tener 3 a 40 caracteres válidos"
    );
}
