//! Use cases: what the commands and queries decide, apart from loading and saving.

pub mod accounting;
pub mod inventory;
pub mod invoicing;
