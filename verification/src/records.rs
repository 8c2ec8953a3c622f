//! Rebuilding aggregates from stored rows: the checks a repository applies to what it reads.

use vstd::prelude::*;

use crate::accounting::posting::{Posting, PostingSide};
use crate::inventory::product::{Product, ProductState};
use crate::inventory::quantity::Quantity;
use crate::inventory::sku::{sku_valid, Sku};
use crate::invoicing::invoice::{line_error_text, lines_view, Invoice, InvoiceLine, InvoiceStatus};
use crate::invoicing::invoice_number::{invoice_number_valid, InvoiceNumber};
use crate::shared::amount::Amount;
use crate::shared::currency::{unsupported_message, Currency};
use crate::shared::entity_id::EntityId;
use crate::shared::errors::{is_validation, DomainResult};
use crate::shared::money::Money;
use crate::shared::text::is_blank;
use crate::shared::timestamp::Timestamp;

verus! {

/// A stored posting: its side code and currency code are read, then the posting is validated.
pub fn posting_from_record(account_id: u128, side: &str, amount: Amount, currency: &str) -> (r:
    DomainResult<Posting>)
    ensures
        PostingSide::parse_spec(side@) is None ==> (r matches Err(e) && is_validation(
            e,
            "Lado contable no válido en persistencia"@,
        )),
        PostingSide::parse_spec(side@) is Some && Currency::parse_spec(currency@) is None ==> (
        r matches Err(e) && is_validation(e, unsupported_message(currency@))),
        PostingSide::parse_spec(side@) is Some && Currency::parse_spec(currency@) is Some ==> (r
            is Ok <==> amount.value() > 0),
        r matches Ok(p) ==> Some(p.side_spec()) == PostingSide::parse_spec(side@)
            && p.account_spec().bits() == account_id && p.amount_spec().amount == amount && Some(
            p.amount_spec().currency,
        ) == Currency::parse_spec(currency@),
        PostingSide::parse_spec(side@) is Some && Currency::parse_spec(currency@) is Some ==> (r
            matches Err(e) ==> is_validation(e, "La partida contable debe tener un monto positivo"@)),
{
    let side = PostingSide::from_code(side)?;
    let currency = Currency::try_from(currency)?;
    Posting::new(EntityId::from_u128(account_id), side, Money::new(amount, currency))
}

/// A stored product: its stock keeping unit and stock are validated.
pub fn product_from_record(id: u128, sku: &str, name: String, stock: i64, active: bool) -> (r:
    DomainResult<Product>)
    ensures
        r is Ok <==> sku_valid(sku@) && stock >= 0,
        !sku_valid(sku@) ==> (r matches Err(e) && is_validation(
            e,
            "El SKU debe tener 3 a 48 caracteres alfanuméricos, guion, punto o guion bajo"@,
        )),
        sku_valid(sku@) && stock < 0 ==> (r matches Err(e) && is_validation(
            e,
            "La cantidad de inventario no puede ser negativa"@,
        )),
        r matches Ok(p) ==> p@ == (ProductState {
            id,
            sku: sku@,
            name: name@,
            stock,
            active,
            events: Seq::empty(),
        }),
{
    let sku = Sku::new(sku)?;
    let stock = Quantity::new(stock)?;
    Ok(Product::rehydrate(EntityId::from_u128(id), sku, name, stock, active))
}

/// A stored invoice line: its currency code is read, then the line is validated. The stored
/// quantity is reinterpreted as unsigned, as a cast does.
pub fn invoice_line_from_record(description: &str, quantity: i32, unit_price: Amount, currency: &str) -> (r:
    DomainResult<InvoiceLine>)
    ensures
        Currency::parse_spec(currency@) is None ==> (r matches Err(e) && is_validation(
            e,
            unsupported_message(currency@),
        )),
        Currency::parse_spec(currency@) is Some ==> (r is Ok <==> !is_blank(description@)
            && quantity as u32 > 0 && unit_price.value() > 0),
        Currency::parse_spec(currency@) matches Some(c) ==> (r matches Err(e) ==> is_validation(
            e,
            line_error_text(
                description@,
                quantity as u32,
                Money { amount: unit_price, currency: c },
            ),
        )),
        r matches Ok(l) ==> l@.description == description@ && l@.quantity == quantity as u32
            && l@.unit_price.amount == unit_price && Some(l@.unit_price.currency)
            == Currency::parse_spec(currency@),
{
    let currency = Currency::try_from(currency)?;
    InvoiceLine::new(description, quantity as u32, Money::new(unit_price, currency))
}

/// A stored invoice: its number and status code are validated; it has no pending events.
pub fn invoice_from_record(
    id: u128,
    number: &str,
    customer_id: u128,
    lines: Vec<InvoiceLine>,
    status: &str,
    issued_at: Option<Timestamp>,
) -> (r: DomainResult<Invoice>)
    ensures
        r is Ok <==> invoice_number_valid(number@) && InvoiceStatus::parse_spec(status@) is Some,
        !invoice_number_valid(number@) ==> (r matches Err(e) && is_validation(
            e,
            "El número de factura debe tener 3 a 40 caracteres válidos"@,
        )),
        invoice_number_valid(number@) && InvoiceStatus::parse_spec(status@) is None ==> (r matches Err(
            e,
        ) && is_validation(e, "Estado de factura no válido: "@ + status@)),
        r matches Ok(inv) ==> inv@.id == id && inv@.number == number@ && inv@.customer_id
            == customer_id && inv@.lines == lines_view(lines@) && Some(inv@.status)
            == InvoiceStatus::parse_spec(status@) && inv@.issued_at == issued_at
            && inv@.events.len() == 0,
{
    let number = InvoiceNumber::new(number)?;
    let status = InvoiceStatus::from_code(status)?;
    Ok(
        Invoice::rehydrate(
            EntityId::from_u128(id),
            number,
            EntityId::from_u128(customer_id),
            lines,
            status,
            issued_at,
        ),
    )
}

} // verus!
