//! Shared kernel: text rules, identifiers, currencies, decimal amounts, money.

pub mod amount;
pub mod currency;
pub mod entity_id;
pub mod errors;
pub mod money;
pub mod text;
pub mod timestamp;

pub use amount::Amount;
pub use currency::Currency;
pub use entity_id::{
    AccountId, AccountKind, CustomerId, CustomerKind, EntityId, InvoiceId, InvoiceKind,
    JournalEntryId, JournalEntryKind, ProductId, ProductKind,
};
pub use errors::{DomainError, DomainResult};
pub use money::Money;
pub use timestamp::Timestamp;
