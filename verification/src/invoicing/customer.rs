use vstd::prelude::*;

use crate::invoicing::tax_id::TaxId;
use crate::shared::entity_id::{CustomerId, EntityId};
use crate::shared::errors::{is_validation, DomainError, DomainResult};
use crate::shared::text::{is_blank, is_blank_str};

verus! {

/// What a customer holds.
pub struct CustomerState {
    pub id: u128,
    pub name: Seq<char>,
    pub tax_id: Seq<char>,
    pub email: Option<Seq<char>>,
}

/// A customer that can be invoiced.
#[derive(Debug, Clone)]
pub struct Customer {
    id: CustomerId,
    name: String,
    tax_id: TaxId,
    email: Option<String>,
}

/// The view of an optional text.
pub open spec fn optional_text(s: Option<String>) -> Option<Seq<char>> {
    match s {
        Some(t) => Some(t@),
        None => None,
    }
}

impl View for Customer {
    type V = CustomerState;

    closed spec fn view(&self) -> CustomerState {
        CustomerState {
            id: self.id.bits(),
            name: self.name@,
            tax_id: self.tax_id@,
            email: optional_text(self.email),
        }
    }
}

impl Customer {
    /// A new customer; a blank name is a validation error.
    pub fn new(name: &str, tax_id: TaxId, email: Option<String>) -> (r: DomainResult<Customer>)
        ensures
            r is Err <==> is_blank(name@),
            r is Err ==> is_validation(r->Err_0, "El nombre del cliente no puede estar vacío"@),
            r matches Ok(c) ==> c@.name == name@ && c@.tax_id == tax_id@ && c@.email
                == optional_text(email),
    {
        if is_blank_str(name) {
            return Err(DomainError::validation("El nombre del cliente no puede estar vacío"));
        }
        Ok(Customer { id: EntityId::new(), name: name.to_owned(), tax_id, email })
    }

    /// Rebuilds a customer from stored values.
    pub fn rehydrate(id: CustomerId, name: String, tax_id: TaxId, email: Option<String>) -> (r:
        Customer)
        ensures
            r@ == (CustomerState {
                id: id.bits(),
                name: name@,
                tax_id: tax_id@,
                email: optional_text(email),
            }),
    {
        Customer { id, name, tax_id, email }
    }

    /// Identifier of the customer.
    pub fn id(&self) -> (r: CustomerId)
        ensures
            r.bits() == self@.id,
    {
        self.id
    }

    /// Name of the customer.
    pub fn name(&self) -> (r: &str)
        ensures
            r@ == self@.name,
    {
        self.name.as_str()
    }

    /// Tax identifier.
    pub fn tax_id(&self) -> (r: &TaxId)
        ensures
            r@ == self@.tax_id,
    {
        &self.tax_id
    }

    /// Optional e-mail address.
    pub fn email(&self) -> (r: Option<&str>)
        ensures
            r is Some <==> self@.email is Some,
            r matches Some(e) ==> Some(e@) == self@.email,
    {
        match &self.email {
            Some(e) => Some(e.as_str()),
            None => None,
        }
    }
}

} // verus!
