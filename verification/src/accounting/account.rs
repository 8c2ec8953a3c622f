use vstd::prelude::*;

use crate::accounting::account_code::AccountCode;
use crate::shared::entity_id::{AccountId, EntityId};
use crate::shared::errors::{is_validation, DomainError, DomainResult};
use crate::shared::text::{is_blank, is_blank_str};

verus! {

/// Accounting type of an account.
#[derive(Debug, Clone, Copy, PartialEq, Eq, Structural)]
pub enum AccountType {
    /// Asset.
    Asset,
    /// Liability.
    Liability,
    /// Equity.
    Equity,
    /// Income.
    Income,
    /// Expense.
    Expense,
}

/// What an account holds.
pub struct AccountState {
    pub id: u128,
    pub code: Seq<char>,
    pub name: Seq<char>,
    pub account_type: AccountType,
    pub active: bool,
}

/// A ledger account.
#[derive(Debug, Clone)]
pub struct Account {
    id: AccountId,
    code: AccountCode,
    name: String,
    account_type: AccountType,
    active: bool,
}

impl View for Account {
    type V = AccountState;

    closed spec fn view(&self) -> AccountState {
        AccountState {
            id: self.id.bits(),
            code: self.code@,
            name: self.name@,
            account_type: self.account_type,
            active: self.active,
        }
    }
}

impl Account {
    /// Opens an active account; a blank name is a validation error.
    pub fn new(code: AccountCode, name: &str, account_type: AccountType) -> (r: DomainResult<
        Account,
    >)
        ensures
            r is Err <==> is_blank(name@),
            r is Err ==> is_validation(r->Err_0, "El nombre de la cuenta no puede estar vacío"@),
            r matches Ok(a) ==> a@.code == code@ && a@.name == name@ && a@.account_type
                == account_type && a@.active,
            r matches Ok(a) ==> (a@.id >> 76u128) & 0xfu128 == 4,
    {
        if is_blank_str(name) {
            return Err(DomainError::validation("El nombre de la cuenta no puede estar vacío"));
        }
        Ok(
            Account {
                id: EntityId::new(),
                code,
                name: name.to_owned(),
                account_type,
                active: true,
            },
        )
    }

    /// Rebuilds an account from stored values.
    pub fn rehydrate(
        id: AccountId,
        code: AccountCode,
        name: String,
        account_type: AccountType,
        active: bool,
    ) -> (r: Account)
        ensures
            r@ == (AccountState {
                id: id.bits(),
                code: code@,
                name: name@,
                account_type,
                active,
            }),
    {
        Account { id, code, name, account_type, active }
    }

    /// Renames the account; a blank name is refused and leaves the account unchanged.
    pub fn rename(&mut self, name: &str) -> (r: DomainResult<()>)
        ensures
            r is Err <==> is_blank(name@),
            r is Err ==> is_validation(r->Err_0, "El nombre de la cuenta no puede estar vacío"@)
                && final(self)@ == old(self)@,
            r is Ok ==> final(self)@ == (AccountState { name: name@, ..old(self)@ }),
    {
        if is_blank_str(name) {
            return Err(DomainError::validation("El nombre de la cuenta no puede estar vacío"));
        }
        self.name = name.to_owned();
        Ok(())
    }

    /// Deactivates the account.
    pub fn deactivate(&mut self)
        ensures
            final(self)@ == (AccountState { active: false, ..old(self)@ }),
    {
        self.active = false;
    }

    /// Identifier of the account.
    pub fn id(&self) -> (r: AccountId)
        ensures
            r.bits() == self@.id,
    {
        self.id
    }

    /// Ledger code.
    pub fn code(&self) -> (r: &AccountCode)
        ensures
            r@ == self@.code,
    {
        &self.code
    }

    /// Name of the account.
    pub fn name(&self) -> (r: &str)
        ensures
            r@ == self@.name,
    {
        self.name.as_str()
    }

    /// Accounting type.
    pub fn account_type(&self) -> (r: AccountType)
        ensures
            r == self@.account_type,
    {
        self.account_type
    }

    /// Whether the account is active.
    pub fn is_active(&self) -> (r: bool)
        ensures
            r == self@.active,
    {
        self.active
    }
}

} // verus!
