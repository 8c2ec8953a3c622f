//! Domain core of a small ERP: accounting (double-entry journal), inventory
//! and invoicing, with the rules of each aggregate stated and proved.

pub mod shared;
pub mod accounting;
pub mod inventory;
pub mod invoicing;
pub mod infrastructure;
pub mod application;
pub mod records;
pub mod presentation;
