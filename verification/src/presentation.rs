//! What the web pages show and what their forms send, apart from HTTP and templates.

use vstd::prelude::*;

use crate::application::accounting::PostJournalEntryCommand;
use crate::application::inventory::AdjustStockCommand;
use crate::application::invoicing::IssueInvoiceCommand;
use crate::accounting::posting::PostingSide;
use crate::inventory::product::Product;
use crate::invoicing::invoice::{total_verdict, Invoice};
use crate::invoicing::invoice_number::{invoice_number_valid, InvoiceNumber};
use crate::shared::amount::{decimal_parsed, decimal_text, Amount};
use crate::shared::currency::{unsupported_message, Currency};
use crate::shared::entity_id::{uuid_parsed, EntityId};
use crate::shared::errors::DomainResult;
use crate::shared::money::Money;

verus! {

/// A product as the product pages list it.
#[derive(Debug, Clone)]
pub struct ProductView {
    /// Stock keeping unit.
    pub sku: String,
    /// Name.
    pub name: String,
    /// Stock.
    pub stock: i64,
}

impl ProductView {
    /// The view of a product.
    pub fn from_product(product: &Product) -> (r: ProductView)
        ensures
            r.sku@ == product@.sku,
            r.name@ == product@.name,
            r.stock == product@.stock,
    {
        ProductView {
            sku: product.sku().value().to_owned(),
            name: product.name().to_owned(),
            stock: product.stock().value(),
        }
    }
}

/// An invoice as the invoices page lists it.
#[derive(Debug, Clone)]
pub struct InvoiceView {
    /// Number.
    pub number: String,
    /// Stored code of the status.
    pub status: String,
    /// The total as `"<amount> <code>"`, or the text of the error that computing it gave.
    pub total: String,
}

/// The text of the total of an invoice: `"<amount> <code>"`, or the text of the error.
pub open spec fn total_text(r: DomainResult<Money>) -> Seq<char> {
    match r {
        Ok(m) => decimal_text(m.amount.mantissa_spec(), m.amount.scale_spec()) + " "@
            + m.currency.code_spec(),
        Err(e) => e.message_spec(),
    }
}

impl InvoiceView {
    /// The view of an invoice; `None` where its total overflows the decimal range.
    pub fn from_invoice(invoice: &Invoice) -> (r: Option<InvoiceView>)
        ensures
            r is None <==> invoice@.totals() is Overflow,
            r matches Some(v) ==> v.number@ == invoice@.number && v.status@
                == invoice@.status.code_spec(),
            r matches Some(v) ==> exists|total: DomainResult<Money>| #[trigger] total_verdict(
                invoice@.totals(),
                total,
            ) && v.total@ == total_text(total),
    {
        let total = match invoice.checked_total() {
            None => {
                return None;
            },
            Some(Ok(m)) => m.to_text(),
            Some(Err(e)) => e.message(),
        };
        Some(
            InvoiceView {
                number: invoice.number().value().to_owned(),
                status: invoice.status().code().to_owned(),
                total,
            },
        )
    }
}

/// The text of the error for a currency code that is not supported.
pub open spec fn unsupported_currency_text(code: Seq<char>) -> Seq<char> {
    "Validación de dominio fallida: "@ + unsupported_message(code)
}

/// Form that posts a journal entry.
#[derive(Debug, Clone)]
pub struct PostJournalEntryRequest {
    /// Description of the entry.
    pub description: String,
    /// UUID of the debited account.
    pub debit_account_id: String,
    /// UUID of the credited account.
    pub credit_account_id: String,
    /// Decimal amount.
    pub amount: String,
    /// Currency code.
    pub currency: String,
}

/// Form that adjusts the stock of a product.
#[derive(Debug, Clone)]
pub struct AdjustStockRequest {
    /// UUID of the product.
    pub product_id: String,
    /// Change of stock.
    pub delta: i64,
}

/// Form that issues an invoice with one line.
#[derive(Debug, Clone)]
pub struct IssueInvoiceRequest {
    /// Invoice number.
    pub number: String,
    /// UUID of the customer.
    pub customer_id: String,
    /// Description of the line.
    pub description: String,
    /// Quantity.
    pub quantity: u32,
    /// Unit price, as a decimal.
    pub unit_price: String,
    /// Currency code.
    pub currency: String,
}

impl PostJournalEntryRequest {
    /// The command of the form: the currency, the amount and the two accounts are read in
    /// that order, and the first that fails gives the text of the error.
    pub fn to_command(&self) -> (r: Result<PostJournalEntryCommand, String>)
        ensures
            Currency::parse_spec(self.currency@) is None ==> (r matches Err(e) && e@
                == unsupported_currency_text(self.currency@)),
            Currency::parse_spec(self.currency@) is Some && decimal_parsed(self.amount@) is Err ==> (
            r matches Err(e) && e@ == decimal_parsed(self.amount@)->Err_0),
            Currency::parse_spec(self.currency@) is Some && decimal_parsed(self.amount@) is Ok
                && uuid_parsed(self.debit_account_id@) is Err ==> (r matches Err(e) && e@
                == uuid_parsed(self.debit_account_id@)->Err_0),
            Currency::parse_spec(self.currency@) is Some && decimal_parsed(self.amount@) is Ok
                && uuid_parsed(self.debit_account_id@) is Ok && uuid_parsed(
                self.credit_account_id@,
            ) is Err ==> (r matches Err(e) && e@ == uuid_parsed(self.credit_account_id@)->Err_0),
            r is Ok <==> Currency::parse_spec(self.currency@) is Some && decimal_parsed(
                self.amount@,
            ) is Ok && uuid_parsed(self.debit_account_id@) is Ok && uuid_parsed(
                self.credit_account_id@,
            ) is Ok,
            r matches Ok(c) ==> {
                &&& c.description@ == self.description@
                &&& c.lines@.len() == 2
                &&& c.lines@[0].side == PostingSide::Debit
                &&& c.lines@[1].side == PostingSide::Credit
                &&& c.lines@[0].account_id.bits() == uuid_parsed(self.debit_account_id@)->Ok_0
                &&& c.lines@[1].account_id.bits() == uuid_parsed(self.credit_account_id@)->Ok_0
                &&& c.lines@[0].amount == c.lines@[1].amount
                &&& Some(c.lines@[0].amount.currency) == Currency::parse_spec(self.currency@)
                &&& (c.lines@[0].amount.amount.mantissa_spec(), c.lines@[0].amount.amount.scale_spec())
                    == decimal_parsed(self.amount@)->Ok_0
            },
    {
        let currency = match Currency::try_from(self.currency.as_str()) {
            Ok(c) => c,
            Err(e) => {
                return Err(e.message());
            },
        };
        let amount = Amount::parse(self.amount.as_str())?;
        let debit = EntityId::parse(self.debit_account_id.as_str())?;
        let credit = EntityId::parse(self.credit_account_id.as_str())?;
        Ok(
            PostJournalEntryCommand::transfer(
                self.description.clone(),
                debit,
                credit,
                Money::new(amount, currency),
            ),
        )
    }
}

impl AdjustStockRequest {
    /// The command of the form; the text of the error where the product UUID does not parse.
    pub fn to_command(&self) -> (r: Result<AdjustStockCommand, String>)
        ensures
            r is Ok <==> uuid_parsed(self.product_id@) is Ok,
            r matches Err(e) ==> e@ == uuid_parsed(self.product_id@)->Err_0,
            r matches Ok(c) ==> c.product_id.bits() == uuid_parsed(self.product_id@)->Ok_0
                && c.delta == self.delta,
    {
        let product_id = EntityId::parse(self.product_id.as_str())?;
        Ok(AdjustStockCommand { product_id, delta: self.delta })
    }
}

/// The text of the error for an invoice number that breaks its rule.
pub open spec fn invalid_number_text() -> Seq<char> {
    "Validación de dominio fallida: "@ + "El número de factura debe tener 3 a 40 caracteres válidos"@
}

impl IssueInvoiceRequest {
    /// The command of the form: the customer, the currency, the unit price and the number
    /// are read in that order, and the first that fails gives the text of the error.
    pub fn to_command(&self) -> (r: Result<IssueInvoiceCommand, String>)
        ensures
            uuid_parsed(self.customer_id@) is Err ==> (r matches Err(e) && e@ == uuid_parsed(
                self.customer_id@,
            )->Err_0),
            uuid_parsed(self.customer_id@) is Ok && Currency::parse_spec(self.currency@) is None ==> (
            r matches Err(e) && e@ == unsupported_currency_text(self.currency@)),
            uuid_parsed(self.customer_id@) is Ok && Currency::parse_spec(self.currency@) is Some
                && decimal_parsed(self.unit_price@) is Err ==> (r matches Err(e) && e@
                == decimal_parsed(self.unit_price@)->Err_0),
            uuid_parsed(self.customer_id@) is Ok && Currency::parse_spec(self.currency@) is Some
                && decimal_parsed(self.unit_price@) is Ok && !invoice_number_valid(self.number@) ==> (
            r matches Err(e) && e@ == invalid_number_text()),
            r is Ok <==> uuid_parsed(self.customer_id@) is Ok && Currency::parse_spec(self.currency@)
                is Some && decimal_parsed(self.unit_price@) is Ok && invoice_number_valid(
                self.number@,
            ),
            r matches Ok(c) ==> {
                &&& c.number@ == self.number@
                &&& c.customer_id.bits() == uuid_parsed(self.customer_id@)->Ok_0
                &&& c.lines@.len() == 1
                &&& c.lines@[0].description@ == self.description@
                &&& c.lines@[0].quantity == self.quantity
                &&& Some(c.lines@[0].unit_price.currency) == Currency::parse_spec(self.currency@)
                &&& (c.lines@[0].unit_price.amount.mantissa_spec(), c.lines@[0].unit_price.amount.scale_spec())
                    == decimal_parsed(self.unit_price@)->Ok_0
            },
    {
        let customer_id = EntityId::parse(self.customer_id.as_str())?;
        let currency = match Currency::try_from(self.currency.as_str()) {
            Ok(c) => c,
            Err(e) => {
                return Err(e.message());
            },
        };
        let unit_price = Amount::parse(self.unit_price.as_str())?;
        let number = match InvoiceNumber::new(self.number.as_str()) {
            Ok(n) => n,
            Err(e) => {
                return Err(e.message());
            },
        };
        Ok(
            IssueInvoiceCommand::single_line(
                number,
                customer_id,
                self.description.clone(),
                self.quantity,
                Money::new(unit_price, currency),
            ),
        )
    }
}

} // verus!
