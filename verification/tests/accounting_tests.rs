use rust_erp::accounting::{DoubleEntryService, Posting};
use rust_erp::shared::{AccountId, Amount, Currency, Money};

#[test]
fn accounting_double_entry_integration_rule_is_balanced() {
    let amount = Money::new(Amount::new(5000, 2), Currency::Usd);
    let postings = vec![
        Posting::debit(AccountId::new(), amount).expect("débito válido"),
        Posting::credit(AccountId::new(), amount).expect("crédito válido"),
    ];

    assert!(DoubleEntryService::validate_balanced(&postings).is_ok());
}
