//! Invoicing: tax identifiers, invoice numbers, customers and invoices.

pub mod customer;
pub mod invoice;
pub mod invoice_number;
pub mod tax_id;

pub use customer::{Customer, CustomerState};
pub use invoice_number::InvoiceNumber;
pub use tax_id::TaxId;
pub use invoice::{Invoice, InvoiceIssued, InvoiceLine, InvoiceState, InvoiceStatus, LineState};
