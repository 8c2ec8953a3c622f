use vstd::prelude::*;

use crate::inventory::product::Product;
use crate::shared::entity_id::ProductId;
use crate::shared::errors::{is_not_found, DomainError, DomainResult};

verus! {

/// Command that adjusts the stock of a product.
#[derive(Debug, Clone, Copy)]
pub struct AdjustStockCommand {
    /// The product.
    pub product_id: ProductId,
    /// Change of stock, positive or negative.
    pub delta: i64,
}

/// Applies the command to the product that was looked up for it: a missing product is
/// reported as not found; otherwise its stock is adjusted, with the rules of
/// `Product::adjust_stock`.
pub fn adjust_stock(found: Option<Product>, command: AdjustStockCommand) -> (r: DomainResult<Product>)
    ensures
        found is None ==> (r matches Err(e) && is_not_found(e, "Producto no encontrado"@)),
        found matches Some(p) ==> (match r {
            Ok(q) => p@.adjust_outcome(command.delta as int, q@, Ok(())),
            Err(e) => p@.adjust_outcome(command.delta as int, p@, Err(e)),
        }),
{
    let mut product = match found {
        Some(p) => p,
        None => {
            return Err(DomainError::not_found("Producto no encontrado"));
        },
    };
    product.adjust_stock(command.delta)?;
    Ok(product)
}

} // verus!
