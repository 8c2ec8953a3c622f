//! Inventory: stock keeping units, quantities and products.

pub mod product;
pub mod quantity;
pub mod sku;

pub use product::{Product, ProductState, StockChanged};
pub use quantity::Quantity;
pub use sku::Sku;
