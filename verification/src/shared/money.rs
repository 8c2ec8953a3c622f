use vstd::prelude::*;

use crate::shared::amount::{decimal_text, sum_fits, Amount};
use crate::shared::currency::Currency;
use crate::shared::errors::{DomainError, DomainResult};

verus! {

/// An amount of money in one currency.
#[derive(Debug, Clone, Copy, PartialEq, Eq)]
pub struct Money {
    /// The decimal amount.
    pub amount: Amount,
    /// The currency of the amount.
    pub currency: Currency,
}

impl Money {
    /// `self + other` is computed without overflow (or is refused for the currencies).
    pub open spec fn add_defined(self, other: Money) -> bool {
        self.currency != other.currency || self.amount.sum_spec(other.amount) is Some
    }

    /// `self - other` is computed without overflow (or is refused for the currencies).
    pub open spec fn subtract_defined(self, other: Money) -> bool {
        self.currency != other.currency || self.amount.difference_spec(other.amount) is Some
    }

    /// The error reported when `self` and `other` have different currencies.
    pub open spec fn is_mismatch_of(e: DomainError, left: Currency, right: Currency) -> bool {
        e matches DomainError::CurrencyMismatch { left: l, right: r } && l@ == left.code_spec()
            && r@ == right.code_spec()
    }

    /// What adding `other` to `self` answers: different currencies are a mismatch;
    /// otherwise the decimal sum, exact wherever it fits at the larger scale.
    pub open spec fn sum_outcome(self, other: Money, r: DomainResult<Money>) -> bool {
        &&& self.currency != other.currency ==> r is Err && Money::is_mismatch_of(
            r->Err_0,
            self.currency,
            other.currency,
        )
        &&& self.currency == other.currency ==> (r matches Ok(m) && m.currency == self.currency
            && self.amount.sum_spec(other.amount) == Some(m.amount))
        &&& self.currency == other.currency && sum_fits(
            self.amount.value() + other.amount.value(),
            self.amount.scale_spec() as int,
            other.amount.scale_spec() as int,
        ) ==> (r matches Ok(m) && m.amount.value() == self.amount.value() + other.amount.value())
    }

    /// What subtracting `other` from `self` answers: different currencies are a mismatch;
    /// otherwise the decimal difference, exact wherever it fits at the larger scale.
    pub open spec fn difference_outcome(self, other: Money, r: DomainResult<Money>) -> bool {
        &&& self.currency != other.currency ==> r is Err && Money::is_mismatch_of(
            r->Err_0,
            self.currency,
            other.currency,
        )
        &&& self.currency == other.currency ==> (r matches Ok(m) && m.currency == self.currency
            && self.amount.difference_spec(other.amount) == Some(m.amount))
        &&& self.currency == other.currency && sum_fits(
            self.amount.value() - other.amount.value(),
            self.amount.scale_spec() as int,
            other.amount.scale_spec() as int,
        ) ==> (r matches Ok(m) && m.amount.value() == self.amount.value() - other.amount.value())
    }

    /// Subtracting what was added gives back the amount one started from, wherever neither
    /// step had to round.
    pub proof fn lemma_subtract_undoes_add(a: Money, b: Money, sum: Money, back: Money)
        requires
            a.sum_outcome(b, Ok(sum)),
            sum.difference_outcome(b, Ok(back)),
            sum_fits(
                a.amount.value() + b.amount.value(),
                a.amount.scale_spec() as int,
                b.amount.scale_spec() as int,
            ),
            sum_fits(
                sum.amount.value() - b.amount.value(),
                sum.amount.scale_spec() as int,
                b.amount.scale_spec() as int,
            ),
        ensures
            back.currency == a.currency,
            back.amount.value() == a.amount.value(),
    {
    }

    /// Zero in a currency, as `Money::zero` builds it.
    pub open spec fn zero_spec(currency: Currency) -> Money {
        Money { amount: Amount::zero_spec(), currency }
    }

    /// An amount in a currency.
    pub fn new(amount: Amount, currency: Currency) -> (r: Money)
        ensures
            r.amount == amount,
            r.currency == currency,
    {
        Money { amount, currency }
    }

    /// Zero in a currency.
    pub fn zero(currency: Currency) -> (r: Money)
        ensures
            r == Money::zero_spec(currency),
            r.currency == currency,
            r.amount.value() == 0,
            r.amount.scale_spec() == 0,
    {
        Money { amount: Amount::zero(), currency }
    }

    fn ensure_same_currency(self, other: Money) -> (r: DomainResult<()>)
        ensures
            r is Ok <==> self.currency == other.currency,
            r is Err ==> Money::is_mismatch_of(r->Err_0, self.currency, other.currency),
    {
        if self.currency == other.currency {
            Ok(())
        } else {
            Err(
                DomainError::CurrencyMismatch {
                    left: self.currency.code().to_owned(),
                    right: other.currency.code().to_owned(),
                },
            )
        }
    }

    /// Adds two amounts of the same currency; different currencies are an error.
    pub fn add(self, other: Money) -> (r: DomainResult<Money>)
        requires
            self.add_defined(other),
        ensures
            self.sum_outcome(other, r),
    {
        self.ensure_same_currency(other)?;
        let sum = self.amount.checked_add(other.amount);
        Ok(Money::new(sum.unwrap(), self.currency))
    }

    /// Subtracts two amounts of the same currency; different currencies are an error.
    pub fn subtract(self, other: Money) -> (r: DomainResult<Money>)
        requires
            self.subtract_defined(other),
        ensures
            self.difference_outcome(other, r),
    {
        self.ensure_same_currency(other)?;
        let difference = self.amount.checked_sub(other.amount);
        Ok(Money::new(difference.unwrap(), self.currency))
    }

    /// `add` where the decimal addition does not overflow; `None` where it does.
    pub fn checked_add(self, other: Money) -> (r: Option<DomainResult<Money>>)
        ensures
            r is None <==> !self.add_defined(other),
            r matches Some(res) ==> self.sum_outcome(other, res),
    {
        if self.currency == other.currency && self.amount.checked_add(other.amount).is_none() {
            None
        } else {
            Some(self.add(other))
        }
    }

    /// `subtract` where the decimal subtraction does not overflow; `None` where it does.
    pub fn checked_subtract(self, other: Money) -> (r: Option<DomainResult<Money>>)
        ensures
            r is None <==> !self.subtract_defined(other),
            r matches Some(res) ==> self.difference_outcome(other, res),
    {
        if self.currency == other.currency && self.amount.checked_sub(other.amount).is_none() {
            None
        } else {
            Some(self.subtract(other))
        }
    }

    /// The amount followed by the currency code, as `"<amount> <code>"`.
    pub fn to_text(self) -> (r: String)
        ensures
            r@ == decimal_text(self.amount.mantissa_spec(), self.amount.scale_spec()) + " "@
                + self.currency.code_spec(),
    {
        let mut text = self.amount.to_text();
        text.append(" ");
        text.append(self.currency.code());
        text
    }

    /// Whether the amount is zero or negative.
    pub fn is_negative_or_zero(self) -> (r: bool)
        ensures
            r == (self.amount.value() <= 0),
    {
        self.amount.is_zero_or_negative()
    }

    /// The decimal amount.
    pub fn amount(self) -> (r: Amount)
        ensures
            r == self.amount,
    {
        self.amount
    }

    /// The currency.
    pub fn currency(self) -> (r: Currency)
        ensures
            r == self.currency,
    {
        self.currency
    }
}

} // verus!
