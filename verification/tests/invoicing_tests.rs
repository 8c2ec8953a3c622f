use rust_erp::invoicing::{Invoice, InvoiceLine, InvoiceNumber, InvoiceStatus};
use rust_erp::shared::{Amount, Currency, CustomerId, Money};

#[test]
fn invoicing_invoice_can_be_issued() {
    let mut invoice = Invoice::draft(
        InvoiceNumber::new("FAC-001").expect("número"),
        CustomerId::new(),
    );
    invoice
        .add_line(
            InvoiceLine::new(
                "Licencia",
                1,
                Money::new(Amount::new(9900, 2), Currency::Usd),
            )
            .expect("línea"),
        )
        .expect("agregar línea");

    invoice.issue().expect("emitir");

    assert_eq!(invoice.status(), InvoiceStatus::Issued);
}
