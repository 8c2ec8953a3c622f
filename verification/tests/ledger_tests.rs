use rust_erp::accounting::{
    Account, AccountCode, AccountType, DoubleEntryService, JournalEntry, Posting, PostingSide,
};
use rust_erp::shared::{AccountId, Amount, Currency, DomainError, Money};

fn usd(cents: i64) -> Money {
    Money::new(Amount::new(cents, 2), Currency::Usd)
}

#[test]
fn account_code_limits_its_length() {
    assert!(AccountCode::new(&"1".repeat(32)).is_ok());
    assert!(AccountCode::new(&"1".repeat(33)).is_err());
    assert!(AccountCode::new("").is_err());
    assert_eq!(AccountCode::new("1.1").expect("código").value(), "1.1");
}

#[test]
fn account_is_renamed_and_deactivated() {
    let code = AccountCode::new("1000").expect("código");
    let mut account = Account::new(code, "Caja", AccountType::Asset).expect("cuenta");
    assert!(account.is_active());
    assert_eq!(account.name(), "Caja");
    assert!(matches!(account.rename("  "), Err(DomainError::Validation(_))));
    assert_eq!(account.name(), "Caja");
    account.rename("Caja chica").expect("renombrar");
    assert_eq!(account.name(), "Caja chica");
    account.deactivate();
    assert!(!account.is_active());
    assert_eq!(account.account_type(), AccountType::Asset);
    assert_eq!(account.code().value(), "1000");
}

#[test]
fn account_needs_a_name() {
    let code = AccountCode::new("2000").expect("código");
    assert!(Account::new(code, "", AccountType::Liability).is_err());
}

#[test]
fn posting_needs_a_positive_amount() {
    let account = AccountId::new();
    assert!(matches!(Posting::debit(account, usd(0)), Err(DomainError::Validation(_))));
    assert!(Posting::credit(account, usd(-1)).is_err());
    let posting = Posting::new(account, PostingSide::Credit, usd(1)).expect("partida");
    assert_eq!(posting.side(), PostingSide::Credit);
    assert_eq!(posting.account_id(), account);
    assert_eq!(posting.amount(), usd(1));
}

#[test]
fn posting_side_codes_round_trip() {
    assert_eq!(PostingSide::from_code(PostingSide::Debit.code()), Ok(PostingSide::Debit));
    assert_eq!(PostingSide::from_code(PostingSide::Credit.code()), Ok(PostingSide::Credit));
    assert!(PostingSide::from_code("haber").is_err());
}

#[test]
fn double_entry_needs_postings() {
    assert!(matches!(
        DoubleEntryService::validate_balanced(&[]),
        Err(DomainError::Validation(_))
    ));
}

#[test]
fn double_entry_rejects_mixed_currencies() {
    let postings = vec![
        Posting::debit(AccountId::new(), usd(100)).expect("débito"),
        Posting::credit(AccountId::new(), Money::new(Amount::new(100, 2), Currency::Eur))
            .expect("crédito"),
    ];
    assert_eq!(
        DoubleEntryService::validate_balanced(&postings),
        Err(DomainError::CurrencyMismatch { left: "USD".to_string(), right: "EUR".to_string() })
    );
}

#[test]
fn double_entry_compares_numeric_totals() {
    let postings = vec![
        Posting::debit(AccountId::new(), Money::new(Amount::new(10, 1), Currency::Usd))
            .expect("débito"),
        Posting::debit(AccountId::new(), usd(50)).expect("débito"),
        Posting::credit(AccountId::new(), Money::new(Amount::new(15, 1), Currency::Usd))
            .expect("crédito"),
    ];
    assert!(DoubleEntryService::validate_balanced(&postings).is_ok());
    assert_eq!(DoubleEntryService::checked_validate_balanced(&postings), Some(Ok(())));
}

#[test]
fn journal_entry_posts_once_balanced() {
    let mut entry = JournalEntry::draft("Venta de contado").expect("asiento");
    let cash = AccountId::new();
    let sales = AccountId::new();
    entry.add_posting(Posting::debit(cash, usd(5000)).expect("débito")).expect("agregar");
    assert!(matches!(entry.post(), Err(DomainError::Validation(_))));
    entry.add_posting(Posting::credit(sales, usd(5000)).expect("crédito")).expect("agregar");
    entry.post().expect("publicar");
    assert!(entry.is_posted());
    assert_eq!(entry.postings().len(), 2);
    let events = entry.drain_events();
    assert_eq!(events.len(), 1);
    assert_eq!(events[0].entry_id, entry.id());
    assert_eq!(events[0].total_debit, usd(5000));
    assert!(entry.drain_events().is_empty());
}

#[test]
fn posted_entry_is_closed() {
    let mut entry = JournalEntry::draft("Cierre").expect("asiento");
    entry.add_posting(Posting::debit(AccountId::new(), usd(100)).expect("débito")).expect("agregar");
    entry.add_posting(Posting::credit(AccountId::new(), usd(100)).expect("crédito")).expect("agregar");
    entry.post().expect("publicar");
    assert!(matches!(entry.post(), Err(DomainError::InvalidOperation(_))));
    let extra = Posting::debit(AccountId::new(), usd(1)).expect("débito");
    assert!(matches!(entry.add_posting(extra), Err(DomainError::InvalidOperation(_))));
    assert_eq!(entry.postings().len(), 2);
}

#[test]
fn unbalanced_entry_stays_a_draft() {
    let mut entry = JournalEntry::draft("Descuadre").expect("asiento");
    entry.add_posting(Posting::debit(AccountId::new(), usd(100)).expect("débito")).expect("agregar");
    entry.add_posting(Posting::credit(AccountId::new(), usd(90)).expect("crédito")).expect("agregar");
    assert!(entry.post().is_err());
    assert!(!entry.is_posted());
    assert!(entry.drain_events().is_empty());
    assert_eq!(entry.checked_post(), Some(Err(DomainError::Validation(
        "El asiento no cumple partida doble: débitos y créditos difieren".to_string()
    ))));
}

#[test]
fn journal_entry_needs_a_description() {
    assert!(JournalEntry::draft(" \t").is_err());
    assert_eq!(JournalEntry::draft("Apertura").expect("asiento").description(), "Apertura");
}

#[test]
fn posted_event_carries_the_sum_of_the_debits() {
    let mut entry = JournalEntry::draft("Compra").expect("asiento");
    entry.add_posting(Posting::debit(AccountId::new(), usd(1250)).expect("débito")).expect("agregar");
    entry.add_posting(Posting::debit(AccountId::new(), usd(750)).expect("débito")).expect("agregar");
    entry.add_posting(Posting::credit(AccountId::new(), usd(2000)).expect("crédito")).expect("agregar");
    entry.post().expect("publicar");
    let events = entry.drain_events();
    assert_eq!(events.len(), 1);
    assert_eq!(events[0].total_debit, usd(2000));
}

#[test]
fn balance_verdict_ignores_the_order_of_postings() {
    let debit = Posting::debit(AccountId::new(), usd(300)).expect("débito");
    let first = Posting::credit(AccountId::new(), usd(100)).expect("crédito");
    let second = Posting::credit(AccountId::new(), usd(200)).expect("crédito");
    let forward = vec![debit, first, second];
    let backward = vec![second, first, debit];
    assert!(DoubleEntryService::validate_balanced(&forward).is_ok());
    assert!(DoubleEntryService::validate_balanced(&backward).is_ok());
    let short = Posting::credit(AccountId::new(), usd(150)).expect("crédito");
    let unbalanced = vec![debit, short];
    let reversed = vec![short, debit];
    assert_eq!(
        DoubleEntryService::validate_balanced(&unbalanced),
        DoubleEntryService::validate_balanced(&reversed)
    );
}

#[test]
fn debit_and_credit_answer_as_new() {
    let account = AccountId::new();
    for amount in [usd(500), usd(0), usd(-3)] {
        assert_eq!(
            Posting::debit(account, amount),
            Posting::new(account, PostingSide::Debit, amount)
        );
        assert_eq!(
            Posting::credit(account, amount),
            Posting::new(account, PostingSide::Credit, amount)
        );
    }
    assert_eq!(
        Posting::debit(account, usd(0)),
        Err(DomainError::Validation("La partida contable debe tener un monto positivo".to_string()))
    );
}

#[test]
fn refused_post_gives_the_error_of_the_balance_check() {
    let mut entry = JournalEntry::draft("Mezcla").expect("asiento");
    entry.add_posting(Posting::debit(AccountId::new(), usd(100)).expect("débito")).expect("agregar");
    let euros = Money::new(Amount::new(100, 2), Currency::Eur);
    entry.add_posting(Posting::credit(AccountId::new(), euros).expect("crédito")).expect("agregar");
    let expected = DoubleEntryService::validate_balanced(entry.postings());
    assert_eq!(entry.post(), expected);
    assert!(!entry.is_posted());
    let mut lone = JournalEntry::draft("Sola").expect("asiento");
    assert_eq!(
        lone.post(),
        Err(DomainError::Validation("Un asiento publicado requiere al menos dos partidas".to_string()))
    );
}

#[test]
fn mixed_currencies_are_refused_in_any_order() {
    let dollars = Posting::debit(AccountId::new(), usd(100)).expect("débito");
    let euros = Posting::credit(AccountId::new(), Money::new(Amount::new(100, 2), Currency::Eur))
        .expect("crédito");
    assert!(matches!(
        DoubleEntryService::validate_balanced(&[dollars, euros]),
        Err(DomainError::CurrencyMismatch { .. })
    ));
    assert!(matches!(
        DoubleEntryService::validate_balanced(&[euros, dollars]),
        Err(DomainError::CurrencyMismatch { .. })
    ));
}
