use vstd::prelude::*;

use crate::shared::entity_id::AccountId;
use crate::shared::errors::{is_validation, DomainError, DomainResult};
use crate::shared::money::Money;
use crate::shared::text::str_equals;

verus! {

/// Side of a posting.
#[derive(Debug, Clone, Copy, PartialEq, Eq, Structural)]
pub enum PostingSide {
    /// Debit.
    Debit,
    /// Credit.
    Credit,
}

impl PostingSide {
    /// Stored code of the side.
    pub open spec fn code_spec(self) -> Seq<char> {
        match self {
            PostingSide::Debit => "debit"@,
            PostingSide::Credit => "credit"@,
        }
    }

    /// The side whose stored code is `s`, if any.
    pub open spec fn parse_spec(s: Seq<char>) -> Option<PostingSide> {
        if s == "debit"@ {
            Some(PostingSide::Debit)
        } else if s == "credit"@ {
            Some(PostingSide::Credit)
        } else {
            None
        }
    }

    /// Stored code of the side.
    pub fn code(self) -> (r: &'static str)
        ensures
            r@ == self.code_spec(),
    {
        match self {
            PostingSide::Debit => "debit",
            PostingSide::Credit => "credit",
        }
    }

    /// Reads a stored side; any other text is a validation error.
    pub fn from_code(value: &str) -> (r: DomainResult<PostingSide>)
        ensures
            r is Ok <==> PostingSide::parse_spec(value@) is Some,
            r matches Ok(s) ==> PostingSide::parse_spec(value@) == Some(s),
            r is Err ==> is_validation(r->Err_0, "Lado contable no válido en persistencia"@),
    {
        if str_equals(value, "debit") {
            Ok(PostingSide::Debit)
        } else if str_equals(value, "credit") {
            Ok(PostingSide::Credit)
        } else {
            Err(DomainError::validation("Lado contable no válido en persistencia"))
        }
    }
}

/// Reading the stored code of a side gives the side back.
pub proof fn lemma_posting_side_round_trip(side: PostingSide)
    ensures
        PostingSide::parse_spec(side.code_spec()) == Some(side),
{
    reveal_strlit("debit");
    reveal_strlit("credit");
    assert("debit"@[0] != "credit"@[0]);
}

/// A posting of a journal entry: an account, a side and a strictly positive amount.
#[derive(Debug, Clone, Copy, PartialEq, Eq)]
pub struct Posting {
    account_id: AccountId,
    side: PostingSide,
    amount: Money,
}

impl Posting {
    #[verifier::type_invariant]
    spec fn positive(self) -> bool {
        self.amount.amount.value() > 0
    }

    /// The account of the posting.
    pub closed spec fn account_spec(self) -> AccountId {
        self.account_id
    }

    /// The side of the posting.
    pub closed spec fn side_spec(self) -> PostingSide {
        self.side
    }

    /// The amount of the posting.
    pub closed spec fn amount_spec(self) -> Money {
        self.amount
    }

    /// The posting `new` builds from these parts.
    pub closed spec fn spec_new(account_id: AccountId, side: PostingSide, amount: Money) -> Posting {
        Posting { account_id, side, amount }
    }

    /// What building a posting of `side` for `account_id` and `amount` answers: a posting of
    /// exactly those parts when the amount is above zero, otherwise a validation error.
    pub open spec fn new_outcome(
        account_id: AccountId,
        side: PostingSide,
        amount: Money,
        r: DomainResult<Posting>,
    ) -> bool {
        &&& r is Ok <==> amount.amount.value() > 0
        &&& r is Err ==> is_validation(
            r->Err_0,
            "La partida contable debe tener un monto positivo"@,
        )
        &&& r matches Ok(p) ==> p.account_spec() == account_id && p.side_spec() == side
            && p.amount_spec() == amount && p == Posting::spec_new(account_id, side, amount)
    }

    /// Builds a posting; an amount that is zero or negative is a validation error.
    pub fn new(account_id: AccountId, side: PostingSide, amount: Money) -> (r: DomainResult<Posting>)
        ensures
            Posting::new_outcome(account_id, side, amount, r),
    {
        if amount.is_negative_or_zero() {
            return Err(DomainError::validation("La partida contable debe tener un monto positivo"));
        }
        Ok(Posting { account_id, side, amount })
    }

    /// A debit posting: exactly what `new` gives for the debit side.
    pub fn debit(account_id: AccountId, amount: Money) -> (r: DomainResult<Posting>)
        ensures
            Posting::new_outcome(account_id, PostingSide::Debit, amount, r),
    {
        Posting::new(account_id, PostingSide::Debit, amount)
    }

    /// A credit posting: exactly what `new` gives for the credit side.
    pub fn credit(account_id: AccountId, amount: Money) -> (r: DomainResult<Posting>)
        ensures
            Posting::new_outcome(account_id, PostingSide::Credit, amount, r),
    {
        Posting::new(account_id, PostingSide::Credit, amount)
    }

    /// The account the posting affects.
    pub fn account_id(self) -> (r: AccountId)
        ensures
            r == self.account_spec(),
    {
        self.account_id
    }

    /// The side of the posting.
    pub fn side(self) -> (r: PostingSide)
        ensures
            r == self.side_spec(),
    {
        self.side
    }

    /// The amount of the posting, which is strictly positive.
    pub fn amount(self) -> (r: Money)
        ensures
            r == self.amount_spec(),
            r.amount.value() > 0,
    {
        proof {
            use_type_invariant(&self);
        }
        self.amount
    }
}

} // verus!
