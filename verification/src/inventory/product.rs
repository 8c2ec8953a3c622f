use vstd::prelude::*;

use crate::inventory::quantity::Quantity;
use crate::inventory::sku::Sku;
use crate::shared::entity_id::{EntityId, ProductId};
use crate::shared::errors::{is_invalid_operation, is_validation, DomainError, DomainResult};
use crate::shared::text::{is_blank, is_blank_str};
use crate::shared::timestamp::Timestamp;

verus! {

/// Event raised when the stock of a product changes.
#[derive(Debug, Clone)]
pub struct StockChanged {
    /// The product.
    pub product_id: ProductId,
    /// Its stock keeping unit.
    pub sku: Sku,
    /// Stock before the change.
    pub previous: Quantity,
    /// Stock after the change.
    pub current: Quantity,
    /// When it changed.
    pub changed_at: Timestamp,
}

/// What a product holds.
pub struct ProductState {
    pub id: u128,
    pub sku: Seq<char>,
    pub name: Seq<char>,
    pub stock: i64,
    pub active: bool,
    pub events: Seq<StockChanged>,
}

/// A stocked product: the aggregate whose stock is adjusted.
#[derive(Debug, Clone)]
pub struct Product {
    id: ProductId,
    sku: Sku,
    name: String,
    stock: Quantity,
    active: bool,
    events: Vec<StockChanged>,
}

impl View for Product {
    type V = ProductState;

    closed spec fn view(&self) -> ProductState {
        ProductState {
            id: self.id.bits(),
            sku: self.sku@,
            name: self.name@,
            stock: self.stock@,
            active: self.active,
            events: self.events@,
        }
    }
}

impl ProductState {
    /// The event that a change of stock to `stock` raises, whatever its time.
    pub open spec fn records_change(self, e: StockChanged, stock: i64) -> bool {
        &&& e.product_id.bits() == self.id
        &&& e.sku@ == self.sku
        &&& e.previous@ == self.stock
        &&& e.current@ == stock
    }

    /// What adjusting the stock of `self` by `delta` answers (`r`) and leaves (`new`): an
    /// inactive product is refused; otherwise the new stock must lie in `0..=i64::MAX`; an
    /// accepted change keeps everything but the stock and records one event; a refused
    /// product is unchanged.
    pub open spec fn adjust_outcome(self, delta: int, new: ProductState, r: DomainResult<()>) -> bool {
        &&& !self.active ==> r is Err && is_invalid_operation(
            r->Err_0,
            "No se puede ajustar stock de un producto inactivo"@,
        )
        &&& self.active ==> (r is Ok <==> 0 <= self.stock + delta <= i64::MAX)
        &&& self.active && !(i64::MIN <= self.stock + delta <= i64::MAX) ==> r is Err
            && is_validation(r->Err_0, "El ajuste de inventario excede el rango permitido"@)
        &&& self.active && i64::MIN <= self.stock + delta < 0 ==> r is Err && is_validation(
            r->Err_0,
            "La cantidad de inventario no puede ser negativa"@,
        )
        &&& r is Err ==> new == self
        &&& r is Ok ==> {
            &&& new.stock == self.stock + delta
            &&& new.id == self.id
            &&& new.sku == self.sku
            &&& new.name == self.name
            &&& new.active == self.active
            &&& new.events.len() == self.events.len() + 1
            &&& new.events.drop_last() =~= self.events
            &&& self.records_change(new.events.last(), new.stock)
        }
    }
}

/// An accepted adjustment can always be undone: adjusting by `-delta` afterwards is
/// accepted and gives back the stock the product had before.
pub proof fn lemma_adjustment_undone(
    before: ProductState,
    delta: int,
    middle: ProductState,
    after: ProductState,
    r: DomainResult<()>,
)
    requires
        before.stock >= 0,
        before.adjust_outcome(delta, middle, Ok(())),
        middle.adjust_outcome(-delta, after, r),
    ensures
        r is Ok,
        after.stock == before.stock,
        after.active == before.active,
{
}

impl Product {
    /// A new active product without stock; a blank name is a validation error.
    pub fn new(sku: Sku, name: &str) -> (r: DomainResult<Product>)
        ensures
            r is Err <==> is_blank(name@),
            r is Err ==> is_validation(r->Err_0, "El nombre del producto no puede estar vacío"@),
            r matches Ok(p) ==> p@.sku == sku@ && p@.name == name@ && p@.stock == 0 && p@.active
                && p@.events.len() == 0,
    {
        if is_blank_str(name) {
            return Err(DomainError::validation("El nombre del producto no puede estar vacío"));
        }
        Ok(
            Product {
                id: EntityId::new(),
                sku,
                name: name.to_owned(),
                stock: Quantity::zero(),
                active: true,
                events: Vec::new(),
            },
        )
    }

    /// Rebuilds a product from stored values; it has no pending events.
    pub fn rehydrate(id: ProductId, sku: Sku, name: String, stock: Quantity, active: bool) -> (r:
        Product)
        ensures
            r@ == (ProductState {
                id: id.bits(),
                sku: sku@,
                name: name@,
                stock: stock@,
                active,
                events: Seq::empty(),
            }),
    {
        Product { id, sku, name, stock, active, events: Vec::new() }
    }

    /// Renames the product; a blank name is refused and leaves the product unchanged.
    pub fn rename(&mut self, name: &str) -> (r: DomainResult<()>)
        ensures
            r is Err <==> is_blank(name@),
            r is Err ==> is_validation(r->Err_0, "El nombre del producto no puede estar vacío"@)
                && final(self)@ == old(self)@,
            r is Ok ==> final(self)@ == (ProductState { name: name@, ..old(self)@ }),
    {
        if is_blank_str(name) {
            return Err(DomainError::validation("El nombre del producto no puede estar vacío"));
        }
        self.name = name.to_owned();
        Ok(())
    }

    /// Adds `delta` (positive or negative) to the stock and raises the event of the change.
    /// Refused for an inactive product, and when the new stock would be negative or out of
    /// the `i64` range; a refused product is left unchanged.
    pub fn adjust_stock(&mut self, delta: i64) -> (r: DomainResult<()>)
        ensures
            old(self)@.adjust_outcome(delta as int, final(self)@, r),
    {
        if !self.active {
            return Err(
                DomainError::invalid_operation("No se puede ajustar stock de un producto inactivo"),
            );
        }
        let previous = self.stock;
        let next = match previous.value().checked_add(delta) {
            Some(v) => v,
            None => {
                return Err(
                    DomainError::validation("El ajuste de inventario excede el rango permitido"),
                );
            },
        };
        self.stock = Quantity::new(next)?;
        self.events.push(
            StockChanged {
                product_id: self.id,
                sku: self.sku.clone(),
                previous,
                current: self.stock,
                changed_at: Timestamp::now(),
            },
        );
        Ok(())
    }

    /// Deactivates the product.
    pub fn deactivate(&mut self)
        ensures
            final(self)@ == (ProductState { active: false, ..old(self)@ }),
    {
        self.active = false;
    }

    /// Hands out the pending events and clears them.
    pub fn drain_events(&mut self) -> (r: Vec<StockChanged>)
        ensures
            r@ == old(self)@.events,
            final(self)@ == (ProductState { events: Seq::empty(), ..old(self)@ }),
    {
        let mut drained = Vec::new();
        core::mem::swap(&mut drained, &mut self.events);
        drained
    }

    /// Identifier of the product.
    pub fn id(&self) -> (r: ProductId)
        ensures
            r.bits() == self@.id,
    {
        self.id
    }

    /// Stock keeping unit.
    pub fn sku(&self) -> (r: &Sku)
        ensures
            r@ == self@.sku,
    {
        &self.sku
    }

    /// Name of the product.
    pub fn name(&self) -> (r: &str)
        ensures
            r@ == self@.name,
    {
        self.name.as_str()
    }

    /// Current stock, which is never negative.
    pub fn stock(&self) -> (r: Quantity)
        ensures
            r@ == self@.stock,
            self@.stock >= 0,
    {
        let q = self.stock;
        // The getter brings in that a quantity is never negative.
        let _value = q.value();
        q
    }

    /// Whether the product is active.
    pub fn is_active(&self) -> (r: bool)
        ensures
            r == self@.active,
    {
        self.active
    }
}

} // verus!
