use rust_erp::inventory::{Product, Quantity, Sku};
use rust_erp::invoicing::{
    Customer, Invoice, InvoiceLine, InvoiceNumber, InvoiceStatus, TaxId,
};
use rust_erp::shared::{Amount, Currency, CustomerId, DomainError, InvoiceId, Money};

fn usd(cents: i64) -> Money {
    Money::new(Amount::new(cents, 2), Currency::Usd)
}

fn line(description: &str, quantity: u32, price: Money) -> InvoiceLine {
    InvoiceLine::new(description, quantity, price).expect("línea")
}

#[test]
fn quantity_is_never_negative() {
    assert!(matches!(Quantity::new(-1), Err(DomainError::Validation(_))));
    assert_eq!(Quantity::new(7).expect("cantidad").value(), 7);
    assert_eq!(Quantity::zero().value(), 0);
}

#[test]
fn sku_checks_length_and_characters() {
    assert!(Sku::new("AB").is_err());
    assert!(Sku::new("ABC").is_ok());
    assert!(Sku::new("a_b.c-1").is_ok());
    assert!(Sku::new("ERP 001").is_err());
    assert!(Sku::new(&"A".repeat(48)).is_ok());
    assert!(Sku::new(&"A".repeat(49)).is_err());
    assert_eq!(Sku::new("ERP-002").expect("sku").value(), "ERP-002");
}

#[test]
fn stock_adjustments_raise_events() {
    let mut product = Product::new(Sku::new("ERP-010").expect("sku"), "Ratón").expect("producto");
    product.adjust_stock(5).expect("entrada");
    product.adjust_stock(-2).expect("salida");
    assert_eq!(product.stock().value(), 3);
    let events = product.drain_events();
    assert_eq!(events.len(), 2);
    assert_eq!(events[0].previous.value(), 0);
    assert_eq!(events[0].current.value(), 5);
    assert_eq!(events[1].previous.value(), 5);
    assert_eq!(events[1].current.value(), 3);
    assert_eq!(events[1].product_id, product.id());
    assert_eq!(events[1].sku.value(), "ERP-010");
    assert!(product.drain_events().is_empty());
}

#[test]
fn refused_adjustment_leaves_the_stock() {
    let mut product = Product::new(Sku::new("ERP-011").expect("sku"), "Cable").expect("producto");
    product.adjust_stock(i64::MAX).expect("máximo");
    assert!(matches!(product.adjust_stock(1), Err(DomainError::Validation(_))));
    assert_eq!(product.stock().value(), i64::MAX);
    assert!(matches!(product.adjust_stock(i64::MIN), Err(DomainError::Validation(_))));
    assert_eq!(product.drain_events().len(), 1);
}

#[test]
fn inactive_product_refuses_adjustments() {
    let mut product = Product::new(Sku::new("ERP-012").expect("sku"), "Base").expect("producto");
    product.deactivate();
    assert!(!product.is_active());
    assert!(matches!(product.adjust_stock(1), Err(DomainError::InvalidOperation(_))));
    assert_eq!(product.stock().value(), 0);
}

#[test]
fn product_name_may_not_be_blank() {
    assert!(Product::new(Sku::new("ERP-013").expect("sku"), " ").is_err());
    let mut product = Product::new(Sku::new("ERP-013").expect("sku"), "Hub").expect("producto");
    assert!(product.rename("").is_err());
    product.rename("Hub USB").expect("renombrar");
    assert_eq!(product.name(), "Hub USB");
}

#[test]
fn tax_id_and_invoice_number_rules() {
    assert!(TaxId::new("RFC12").is_err());
    assert!(TaxId::new("RFC-123.45").is_ok());
    assert!(TaxId::new("RFC/12345").is_err());
    assert!(InvoiceNumber::new("F-2024/001").is_ok());
    assert!(InvoiceNumber::new("F1").is_err());
    assert!(InvoiceNumber::new("F.001").is_err());
    assert_eq!(
        InvoiceNumber::new("F1").expect_err("corto").message(),
        "Validación de dominio fallida: El número de factura debe tener 3 a 40 caracteres válidos"
    );
}

#[test]
fn customer_keeps_its_data() {
    let tax_id = TaxId::new("RFC-654321").expect("tax id");
    assert!(Customer::new("  ", tax_id.clone(), None).is_err());
    let customer =
        Customer::new("Cliente SA", tax_id, Some("pagos@cliente.mx".to_string())).expect("cliente");
    assert_eq!(customer.name(), "Cliente SA");
    assert_eq!(customer.tax_id().value(), "RFC-654321");
    assert_eq!(customer.email(), Some("pagos@cliente.mx"));
}

#[test]
fn invoice_line_rules_and_total() {
    assert!(InvoiceLine::new("", 1, usd(100)).is_err());
    assert!(InvoiceLine::new("Soporte", 0, usd(100)).is_err());
    assert!(InvoiceLine::new("Soporte", 1, usd(0)).is_err());
    let l = line("Soporte", 3, usd(1250));
    assert_eq!(l.total(), usd(3750));
    assert_eq!(l.checked_total(), Some(usd(3750)));
    assert_eq!(l.quantity(), 3);
    assert_eq!(l.description(), "Soporte");
}

#[test]
fn invoice_total_sums_the_lines() {
    let mut invoice = Invoice::draft(InvoiceNumber::new("F-100").expect("número"), CustomerId::new());
    assert_eq!(invoice.total(), Ok(Money::zero(Currency::Usd)));
    invoice.add_line(line("Servicio", 2, usd(1500))).expect("línea");
    invoice.add_line(line("Envío", 1, usd(1000))).expect("línea");
    assert_eq!(invoice.total(), Ok(usd(4000)));
    invoice.issue().expect("emitir");
    assert!(invoice.issued_at().is_some());
    let events = invoice.drain_events();
    assert_eq!(events.len(), 1);
    assert_eq!(events[0].total, usd(4000));
    assert_eq!(events[0].invoice_id, invoice.id());
    assert_eq!(events[0].number.value(), "F-100");
}

#[test]
fn invoice_refuses_a_second_currency() {
    let mut invoice = Invoice::draft(InvoiceNumber::new("F-101").expect("número"), CustomerId::new());
    invoice.add_line(line("Servicio", 1, usd(1000))).expect("línea");
    let euros = line("Servicio", 1, Money::new(Amount::new(1000, 2), Currency::Eur));
    assert!(matches!(invoice.add_line(euros), Err(DomainError::Validation(_))));
    assert_eq!(invoice.lines().len(), 1);
}

#[test]
fn invoice_status_transitions() {
    let mut invoice = Invoice::draft(InvoiceNumber::new("F-102").expect("número"), CustomerId::new());
    assert!(matches!(invoice.issue(), Err(DomainError::Validation(_))));
    assert!(matches!(invoice.mark_paid(), Err(DomainError::InvalidOperation(_))));
    invoice.add_line(line("Servicio", 1, usd(1000))).expect("línea");
    invoice.issue().expect("emitir");
    assert!(matches!(invoice.issue(), Err(DomainError::InvalidOperation(_))));
    let late = line("Extra", 1, usd(1));
    assert!(matches!(invoice.add_line(late), Err(DomainError::InvalidOperation(_))));
    invoice.cancel().expect("cancelar");
    assert_eq!(invoice.status(), InvoiceStatus::Canceled);
    assert!(invoice.cancel().is_err());
    assert!(invoice.mark_paid().is_err());
}

#[test]
fn draft_invoice_can_be_canceled() {
    let mut invoice = Invoice::draft(InvoiceNumber::new("F-103").expect("número"), CustomerId::new());
    invoice.cancel().expect("cancelar");
    assert_eq!(invoice.status(), InvoiceStatus::Canceled);
}

#[test]
fn stored_mixed_invoice_reports_the_mismatch() {
    let lines = vec![
        line("Servicio", 1, usd(1000)),
        line("Servicio", 1, Money::new(Amount::new(1000, 2), Currency::Eur)),
    ];
    let mut invoice = Invoice::rehydrate(
        InvoiceId::new(),
        InvoiceNumber::new("F-104").expect("número"),
        CustomerId::new(),
        lines,
        InvoiceStatus::Draft,
        None,
    );
    let expected = DomainError::CurrencyMismatch { left: "USD".to_string(), right: "EUR".to_string() };
    assert_eq!(invoice.total(), Err(expected.clone()));
    assert_eq!(invoice.issue(), Err(expected));
    assert_eq!(invoice.status(), InvoiceStatus::Draft);
}

#[test]
fn invoice_status_codes_round_trip() {
    for status in [
        InvoiceStatus::Draft,
        InvoiceStatus::Issued,
        InvoiceStatus::Paid,
        InvoiceStatus::Canceled,
    ] {
        assert_eq!(InvoiceStatus::from_code(status.code()), Ok(status));
    }
    assert_eq!(
        InvoiceStatus::from_code("void"),
        Err(DomainError::Validation("Estado de factura no válido: void".to_string()))
    );
}

#[test]
fn undoing_an_adjustment_restores_the_stock() {
    let mut product = Product::new(Sku::new("ERP-014").expect("sku"), "Atril").expect("producto");
    product.adjust_stock(9).expect("entrada");
    product.adjust_stock(12).expect("entrada");
    product.adjust_stock(-12).expect("deshacer");
    assert_eq!(product.stock().value(), 9);
}
