use vstd::prelude::*;

use crate::shared::errors::{is_validation, DomainError, DomainResult};

verus! {

/// A stock quantity, never negative.
#[derive(Debug, Clone, Copy, PartialEq, Eq, PartialOrd, Ord)]
pub struct Quantity(i64);

impl View for Quantity {
    type V = i64;

    closed spec fn view(&self) -> i64 {
        self.0
    }
}

impl Quantity {
    #[verifier::type_invariant]
    spec fn non_negative(self) -> bool {
        self.0 >= 0
    }

    /// A quantity; a negative value is a validation error.
    pub fn new(value: i64) -> (r: DomainResult<Quantity>)
        ensures
            r is Ok <==> value >= 0,
            r matches Ok(q) ==> q@ == value,
            r is Err ==> is_validation(r->Err_0, "La cantidad de inventario no puede ser negativa"@),
    {
        if value < 0 {
            Err(DomainError::validation("La cantidad de inventario no puede ser negativa"))
        } else {
            Ok(Quantity(value))
        }
    }

    /// Zero.
    pub fn zero() -> (r: Quantity)
        ensures
            r@ == 0,
    {
        Quantity(0)
    }

    /// The quantity as an integer, which is never negative.
    pub fn value(self) -> (r: i64)
        ensures
            r == self@,
            r >= 0,
    {
        proof {
            use_type_invariant(&self);
        }
        self.0
    }
}

} // verus!
